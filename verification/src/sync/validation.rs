//! Validation helper functions for sync operations.

use vstd::prelude::*;
use crate::config::sync;
use crate::sync::model::{Model, model_ids};
use crate::text::{append_decimal, append_signed_decimal, int_decimal, nat_decimal};

verus! {

/// An ID is acceptable when it lies in `[MIN_ID_VALUE, MAX_ID_VALUE]`.
pub open spec fn id_is_valid(id: int) -> bool {
    sync::MIN_ID_VALUE <= id && id <= sync::MAX_ID_VALUE
}

/// The message that rejects `id` for the entity type `entity`.
pub open spec fn invalid_id_message(entity: Seq<char>, id: int) -> Seq<char> {
    "Invalid "@ + entity + " ID: "@ + int_decimal(id) + " (must be between "@
        + int_decimal(sync::MIN_ID_VALUE as int) + " and "@
        + int_decimal(sync::MAX_ID_VALUE as int) + ")"@
}

/// The outcome of checking one ID.
pub open spec fn id_check(id: int, entity: Seq<char>) -> Result<(), Seq<char>> {
    if id_is_valid(id) {
        Ok(())
    } else {
        Err(invalid_id_message(entity, id))
    }
}

/// The outcome of checking IDs in order: the message for the first invalid
/// one, or success when all are valid.
pub open spec fn ids_check(ids: Seq<i64>, entity: Seq<char>) -> Result<(), Seq<char>>
    decreases ids.len(),
{
    if ids.len() == 0 {
        Ok(())
    } else if !id_is_valid(ids[0] as int) {
        Err(invalid_id_message(entity, ids[0] as int))
    } else {
        ids_check(ids.drop_first(), entity)
    }
}

/// The message that rejects `count` deleted items of type `entity`.
pub open spec fn too_many_deleted_message(entity: Seq<char>, count: nat) -> Seq<char> {
    "Too many deleted "@ + entity + ": "@ + nat_decimal(count) + " (max: "@
        + nat_decimal(sync::MAX_DELETED_ITEMS as nat) + ")"@
}

/// The outcome of checking a number of deleted items.
pub open spec fn deleted_count_check(count: nat, entity: Seq<char>) -> Result<(), Seq<char>> {
    if count > sync::MAX_DELETED_ITEMS {
        Err(too_many_deleted_message(entity, count))
    } else {
        Ok(())
    }
}

/// The outcome of checking a list of deleted IDs: first their number, then
/// each ID under the entity name "deleted <entity>".
pub open spec fn deleted_ids_check(ids: Seq<i64>, entity: Seq<char>) -> Result<(), Seq<char>> {
    if ids.len() > sync::MAX_DELETED_ITEMS {
        Err(too_many_deleted_message(entity, ids.len()))
    } else {
        ids_check(ids, "deleted "@ + entity)
    }
}

/// The outcome of two checks made in turn: the first failure, if any.
pub open spec fn then_check(first: Result<(), Seq<char>>, second: Result<(), Seq<char>>) -> Result<(), Seq<char>> {
    if first is Err {
        first
    } else {
        second
    }
}

/// The view of a validation outcome.
pub open spec fn outcome_view(r: Result<(), String>) -> Result<(), Seq<char>> {
    match r {
        Ok(()) => Ok(()),
        Err(m) => Err(m@),
    }
}

/// Checking a prefix that already fails gives the same outcome as checking
/// the whole sequence.
pub proof fn lemma_ids_check_prefix(ids: Seq<i64>, k: int, entity: Seq<char>)
    requires
        0 <= k <= ids.len(),
        ids_check(ids.take(k), entity) is Err,
    ensures
        ids_check(ids, entity) == ids_check(ids.take(k), entity),
    decreases k,
{
    if k > 0 && id_is_valid(ids[0] as int) {
        assert(ids.take(k).drop_first() =~= ids.drop_first().take(k - 1));
        lemma_ids_check_prefix(ids.drop_first(), k - 1, entity);
    }
}

/// `ids_check` succeeds exactly when every ID is valid.
pub proof fn lemma_ids_check_ok(ids: Seq<i64>, entity: Seq<char>)
    ensures
        ids_check(ids, entity) is Ok <==> forall|i: int| 0 <= i < ids.len() ==> id_is_valid(#[trigger] ids[i] as int),
    decreases ids.len(),
{
    if ids.len() > 0 {
        lemma_ids_check_ok(ids.drop_first(), entity);
        if id_is_valid(ids[0] as int) && ids_check(ids.drop_first(), entity) is Ok {
            assert forall|i: int| 0 <= i < ids.len() implies id_is_valid(#[trigger] ids[i] as int) by {
                if i > 0 {
                    assert(ids[i] == ids.drop_first()[i - 1]);
                }
            }
        }
        if ids_check(ids, entity) is Ok {
            assert forall|i: int| 0 <= i < ids.drop_first().len() implies id_is_valid(#[trigger] ids.drop_first()[i] as int) by {
                assert(ids.drop_first()[i] == ids[i + 1]);
            }
        }
    }
}

/// Validates that an ID is within the acceptable range.
///
/// # Errors
/// Returns "Invalid <entity> ID: <id> (must be between <min> and <max>)" when
/// the ID is out of range.
pub fn validate_id(id: i64, entity_type: &str) -> (r: Result<(), String>)
    ensures
        outcome_view(r) == id_check(id as int, entity_type@),
        r is Ok <==> id_is_valid(id as int),
{
    if id < sync::MIN_ID_VALUE || id > sync::MAX_ID_VALUE {
        let mut msg = String::new();
        msg.append("Invalid ");
        msg.append(entity_type);
        msg.append(" ID: ");
        append_signed_decimal(&mut msg, id);
        msg.append(" (must be between ");
        append_signed_decimal(&mut msg, sync::MIN_ID_VALUE);
        msg.append(" and ");
        append_signed_decimal(&mut msg, sync::MAX_ID_VALUE);
        msg.append(")");
        proof {
            assert(msg@ =~= invalid_id_message(entity_type@, id as int));
        }
        Err(msg)
    } else {
        Ok(())
    }
}

/// Validates a collection of items that have an ID, in order, stopping at the
/// first invalid one.
///
/// The IDs observed through `get_id` are `ids`: all of them when the result is
/// `Ok`, those up to and including the first invalid one otherwise.
pub fn validate_ids<T, F: Fn(&T) -> i64>(items: &[T], entity_type: &str, get_id: F) -> (r: Result<(), String>)
    requires
        forall|i: int| 0 <= i < items@.len() ==> call_requires(get_id, (&items@[i],)),
    ensures
        exists|ids: Seq<i64>|
            #![trigger ids_check(ids, entity_type@)]
            {
                &&& ids.len() <= items@.len()
                &&& forall|i: int| 0 <= i < ids.len() ==> call_ensures(get_id, (&items@[i],), #[trigger] ids[i])
                &&& outcome_view(r) == ids_check(ids, entity_type@)
                &&& r is Ok ==> ids.len() == items@.len()
            },
{
    let ghost mut ids: Seq<i64> = Seq::empty();
    let mut i: usize = 0;
    while i < items.len()
        invariant
            0 <= i <= items@.len(),
            ids.len() == i,
            forall|j: int| 0 <= j < items@.len() ==> call_requires(get_id, (&items@[j],)),
            forall|j: int| 0 <= j < ids.len() ==> call_ensures(get_id, (&items@[j],), #[trigger] ids[j]),
            ids_check(ids, entity_type@) is Ok,
        decreases items@.len() - i,
    {
        let id = get_id(&items[i]);
        let ghost prev = ids;
        proof {
            ids = ids.push(id);
            lemma_ids_check_ok(prev, entity_type@);
            lemma_ids_check_ok(ids, entity_type@);
        }
        match validate_id(id, entity_type) {
            Ok(()) => {
                proof {
                    assert forall|j: int| 0 <= j < ids.len() implies id_is_valid(#[trigger] ids[j] as int) by {
                        if j < prev.len() {
                            assert(ids[j] == prev[j]);
                        }
                    }
                }
            },
            Err(e) => {
                proof {
                    lemma_ids_check_first_invalid(prev, id, entity_type@);
                    assert(outcome_view(Err(e)) == ids_check(ids, entity_type@));
                }
                return Err(e);
            },
        }
        i = i + 1;
    }
    proof {
        lemma_unit_ok(ids_check(ids, entity_type@));
    }
    Ok(())
}

/// A successful unit outcome is `Ok(())`.
pub proof fn lemma_unit_ok(r: Result<(), Seq<char>>)
    requires
        r is Ok,
    ensures
        r == Ok::<(), Seq<char>>(()),
{
    match r {
        Ok(u) => {
            assert(u == ());
        },
        Err(_) => {},
    }
}

/// Appending an invalid ID to IDs that are all valid makes the check fail
/// with that ID's message.
pub proof fn lemma_ids_check_first_invalid(prev: Seq<i64>, id: i64, entity: Seq<char>)
    requires
        ids_check(prev, entity) is Ok,
        !id_is_valid(id as int),
    ensures
        ids_check(prev.push(id), entity) == Err::<(), Seq<char>>(invalid_id_message(entity, id as int)),
    decreases prev.len(),
{
    if prev.len() > 0 {
        assert(prev.push(id).drop_first() =~= prev.drop_first().push(id));
        lemma_ids_check_first_invalid(prev.drop_first(), id, entity);
    }
}

/// Validates that a deleted items count is within acceptable limits.
///
/// # Errors
/// Returns "Too many deleted <entity>: <count> (max: <max>)" when the count
/// exceeds `MAX_DELETED_ITEMS`.
pub fn validate_deleted_count(count: usize, entity_type: &str) -> (r: Result<(), String>)
    ensures
        outcome_view(r) == deleted_count_check(count as nat, entity_type@),
        r is Ok <==> count <= sync::MAX_DELETED_ITEMS,
{
    if count > sync::MAX_DELETED_ITEMS {
        let mut msg = String::new();
        msg.append("Too many deleted ");
        msg.append(entity_type);
        msg.append(": ");
        append_decimal(&mut msg, count as u128);
        msg.append(" (max: ");
        append_decimal(&mut msg, sync::MAX_DELETED_ITEMS as u128);
        msg.append(")");
        proof {
            assert(msg@ =~= too_many_deleted_message(entity_type@, count as nat));
        }
        Err(msg)
    } else {
        Ok(())
    }
}

/// Validates a collection of deleted IDs: first their number, then each ID,
/// reported under the entity name "deleted <entity>".
pub fn validate_deleted_ids(ids: &[i64], entity_type: &str) -> (r: Result<(), String>)
    ensures
        outcome_view(r) == deleted_ids_check(ids@, entity_type@),
{
    match validate_deleted_count(ids.len(), entity_type) {
        Ok(()) => {},
        Err(e) => {
            return Err(e);
        },
    }
    let mut name = String::new();
    name.append("deleted ");
    name.append(entity_type);
    let ghost mut seen: Seq<i64> = Seq::empty();
    let mut i: usize = 0;
    while i < ids.len()
        invariant
            0 <= i <= ids@.len(),
            seen =~= ids@.take(i as int),
            ids_check(seen, name@) is Ok,
            name@ == "deleted "@ + entity_type@,
            ids@.len() <= sync::MAX_DELETED_ITEMS,
        decreases ids@.len() - i,
    {
        let id = ids[i];
        let ghost prev = seen;
        proof {
            seen = seen.push(id);
            assert(seen =~= ids@.take(i + 1));
        }
        match validate_id(id, name.as_str()) {
            Ok(()) => {
                proof {
                    lemma_ids_check_ok(prev, name@);
                    lemma_ids_check_ok(seen, name@);
                    assert forall|j: int| 0 <= j < seen.len() implies id_is_valid(#[trigger] seen[j] as int) by {
                        if j < prev.len() {
                            assert(seen[j] == prev[j]);
                        }
                    }
                }
            },
            Err(e) => {
                proof {
                    lemma_ids_check_first_invalid(prev, id, name@);
                    lemma_ids_check_prefix(ids@, i + 1, name@);
                }
                return Err(e);
            },
        }
        i = i + 1;
    }
    proof {
        assert(ids@.take(ids@.len() as int) =~= ids@);
        lemma_unit_ok(ids_check(ids@, name@));
    }
    Ok(())
}

/// Validates the IDs of a collection of models, in order, stopping at the
/// first invalid one.
pub fn validate_model_ids<T: Model>(items: &[T], entity_type: &str) -> (r: Result<(), String>)
    ensures
        outcome_view(r) == ids_check(model_ids(items@), entity_type@),
{
    let get_id = |item: &T| -> (id: i64)
        ensures
            id == item.spec_id(),
        { item.get_id() };
    let r = validate_ids(items, entity_type, get_id);
    proof {
        let ids = choose|ids: Seq<i64>|
            #![trigger ids_check(ids, entity_type@)]
            {
                &&& ids.len() <= items@.len()
                &&& forall|i: int| 0 <= i < ids.len() ==> call_ensures(get_id, (&items@[i],), #[trigger] ids[i])
                &&& outcome_view(r) == ids_check(ids, entity_type@)
                &&& r is Ok ==> ids.len() == items@.len()
            };
        let all = model_ids(items@);
        assert(ids =~= all.take(ids.len() as int)) by {
            assert forall|i: int| 0 <= i < ids.len() implies ids[i] == #[trigger] all.take(ids.len() as int)[i] by {
                assert(call_ensures(get_id, (&items@[i],), ids[i]));
            }
        }
        if r is Ok {
            assert(all.take(ids.len() as int) =~= all);
        } else {
            lemma_ids_check_prefix(all, ids.len() as int, entity_type@);
        }
    }
    r
}

/// The IDs of a sequence of models pass the check exactly when every
/// model's ID lies in `[MIN_ID_VALUE, MAX_ID_VALUE]`.
pub proof fn lemma_model_ids_check_ok<T: Model>(items: Seq<T>, entity: Seq<char>)
    ensures
        ids_check(model_ids(items), entity) is Ok <==> forall|i: int| 0 <= i < items.len()
            ==> sync::MIN_ID_VALUE <= (#[trigger] items[i]).spec_id() <= sync::MAX_ID_VALUE,
{
    let ids = model_ids(items);
    lemma_ids_check_ok(ids, entity);
    assert forall|i: int| 0 <= i < items.len() implies #[trigger] ids[i] == items[i].spec_id() by {}
    if ids_check(ids, entity) is Ok {
        assert forall|i: int| 0 <= i < items.len() implies
            sync::MIN_ID_VALUE <= (#[trigger] items[i]).spec_id() <= sync::MAX_ID_VALUE by {
            assert(ids[i] == items[i].spec_id());
            assert(id_is_valid(ids[i] as int));
        }
    }
    if forall|i: int| 0 <= i < items.len() ==> sync::MIN_ID_VALUE <= (#[trigger] items[i]).spec_id() <= sync::MAX_ID_VALUE {
        assert forall|i: int| 0 <= i < ids.len() implies id_is_valid(#[trigger] ids[i] as int) by {
            assert(ids[i] == items[i].spec_id());
        }
    }
}

/// A list of deleted IDs passes its check exactly when it holds at most
/// `MAX_DELETED_ITEMS` IDs and each lies in `[MIN_ID_VALUE, MAX_ID_VALUE]`.
pub proof fn lemma_deleted_ids_check_ok(ids: Seq<i64>, entity: Seq<char>)
    ensures
        deleted_ids_check(ids, entity) is Ok <==> (ids.len() <= sync::MAX_DELETED_ITEMS
            && forall|i: int| 0 <= i < ids.len() ==> sync::MIN_ID_VALUE <= #[trigger] ids[i] <= sync::MAX_ID_VALUE),
{
    lemma_ids_check_ok(ids, "deleted "@ + entity);
}

} // verus!
