//! Sync of entity lists: the steps a sync takes and what they do to the
//! stored entities.

use vstd::prelude::*;
use crate::config::collections::Collection;
use crate::db::utils::{DbUtilError, db_util_error_text};
use crate::sync::error::SyncError;
use crate::sync::history::model::HistoryList;
use crate::sync::manga::model::{Category, Chapter, Manga, MangaList, Track};
use crate::sync::update::model::UpdateList;
use crate::sync::settings::model::{Settings, SettingsObj};
use crate::sync::model::{Model, Syncable};

verus! {

/// Sync payloads of a single entity type stored in a single collection.
pub trait SyncList: Sized {
    /// The entity type contained in the list.
    type Item: Syncable;

    /// Whether the stored entities are to be replaced.
    spec fn spec_reset_all(&self) -> bool;

    /// The entities to upsert.
    spec fn spec_items(&self) -> Seq<Self::Item>;

    /// The IDs to delete.
    spec fn spec_deleted_ids(&self) -> Seq<i64>;

    /// Returns true if reset_all flag is set
    fn should_reset_all(&self) -> (r: bool)
        ensures
            r == self.spec_reset_all(),
    ;

    /// Returns the items to upsert
    fn items(&self) -> (r: &[Self::Item])
        ensures
            r@ == self.spec_items(),
    ;

    /// Returns the IDs to delete
    fn deleted_ids(&self) -> (r: &[i64])
        ensures
            r@ == self.spec_deleted_ids(),
    ;

    /// Creates a result list from the stored items: those items, no IDs to
    /// delete, and the same reset flag.
    fn into_result(self, items: Vec<Self::Item>) -> (r: Self)
        ensures
            r.spec_items() == items@,
            r.spec_deleted_ids() == Seq::<i64>::empty(),
            r.spec_reset_all() == self.spec_reset_all(),
    ;
}

} // verus!

verus! {

/// What a sync step does to one collection.
#[derive(PartialEq, Eq, Structural, Clone, Copy, Debug)]
pub enum SyncOp {
    /// Delete every stored entity of the user.
    ResetAll,
    /// Upsert the payload's entities, each only where it is newer than the
    /// stored one.
    Upsert,
    /// Delete the stored entities whose IDs the payload lists.
    DeleteByIds,
    /// Read back every stored entity of the user.
    FetchAll,
}

/// One step of a sync: an operation on a collection.
#[derive(PartialEq, Eq, Structural, Clone, Copy, Debug)]
pub struct SyncStep {
    pub collection: Collection,
    pub op: SyncOp,
}

pub open spec fn step(c: Collection, op: SyncOp) -> SyncStep {
    SyncStep { collection: c, op }
}

/// A step when `cond` holds, nothing otherwise.
pub open spec fn step_if(cond: bool, c: Collection, op: SyncOp) -> Seq<SyncStep> {
    if cond { seq![step(c, op)] } else { Seq::empty() }
}

/// The steps that sync one list of entities into collection `c`: a reset
/// when asked for, an upsert when there are entities, a deletion when there
/// is no reset and there are IDs to delete, and the final read-back.
pub open spec fn entity_steps(c: Collection, reset_all: bool, n_items: nat, n_deleted: nat) -> Seq<SyncStep> {
    step_if(reset_all, c, SyncOp::ResetAll)
        + step_if(n_items > 0, c, SyncOp::Upsert)
        + step_if(!reset_all && n_deleted > 0, c, SyncOp::DeleteByIds)
        + seq![step(c, SyncOp::FetchAll)]
}

/// The steps of syncing a list, as `sync_entity_list` takes them.
pub fn plan_entity_sync<L: SyncList>(list: &L) -> (steps: Vec<SyncStep>)
    ensures
        steps@ == entity_steps(
            L::Item::spec_collection(),
            list.spec_reset_all(),
            list.spec_items().len(),
            list.spec_deleted_ids().len(),
        ),
{
    let c = L::Item::collection();
    let reset_all = list.should_reset_all();
    let mut steps: Vec<SyncStep> = Vec::new();
    if reset_all {
        steps.push(SyncStep { collection: c, op: SyncOp::ResetAll });
    }
    if list.items().len() > 0 {
        steps.push(SyncStep { collection: c, op: SyncOp::Upsert });
    }
    if !reset_all && list.deleted_ids().len() > 0 {
        steps.push(SyncStep { collection: c, op: SyncOp::DeleteByIds });
    }
    steps.push(SyncStep { collection: c, op: SyncOp::FetchAll });
    proof {
        assert(steps@ =~= entity_steps(c, reset_all, list.spec_items().len(), list.spec_deleted_ids().len()));
    }
    steps
}

/// The stored entities of one user in one collection, by ID.
pub type Store<T> = Map<i64, T>;

/// Upserting one entity: it is stored when no entity with its ID is stored
/// or the stored one is strictly older; otherwise the store is unchanged.
pub open spec fn upsert_one<T: Model>(m: Map<i64, T>, x: T) -> Map<i64, T> {
    if !m.contains_key(x.spec_id()) || m[x.spec_id()].spec_updated_at() < x.spec_updated_at() {
        m.insert(x.spec_id(), x)
    } else {
        m
    }
}

/// Upserting entities one after another.
pub open spec fn upsert_all<T: Model>(m: Map<i64, T>, xs: Seq<T>) -> Map<i64, T>
    decreases xs.len(),
{
    if xs.len() == 0 {
        m
    } else {
        upsert_one(upsert_all(m, xs.drop_last()), xs.last())
    }
}

/// What one operation does to the store of its collection.
pub open spec fn apply_op<T: Model>(m: Map<i64, T>, op: SyncOp, items: Seq<T>, ids: Seq<i64>) -> Map<i64, T> {
    match op {
        SyncOp::ResetAll => Map::empty(),
        SyncOp::Upsert => upsert_all(m, items),
        SyncOp::DeleteByIds => m.remove_keys(ids.to_set()),
        SyncOp::FetchAll => m,
    }
}

/// What a sequence of steps does to the store of collection `c`, given the
/// entities and deleted IDs that the payload carries for `c`.
pub open spec fn run_steps<T: Model>(m: Map<i64, T>, steps: Seq<SyncStep>, c: Collection, items: Seq<T>, ids: Seq<i64>) -> Map<i64, T>
    decreases steps.len(),
{
    if steps.len() == 0 {
        m
    } else {
        let before = run_steps(m, steps.drop_last(), c, items, ids);
        if steps.last().collection == c {
            apply_op(before, steps.last().op, items, ids)
        } else {
            before
        }
    }
}

/// What syncing a list does to its store: with a reset, the store holds just
/// the upserted entities; otherwise the entities are upserted into the store
/// and then the listed IDs are removed.
pub open spec fn sync_effect<T: Model>(m: Map<i64, T>, reset_all: bool, items: Seq<T>, ids: Seq<i64>) -> Map<i64, T> {
    if reset_all {
        upsert_all(Map::empty(), items)
    } else {
        upsert_all(m, items).remove_keys(ids.to_set())
    }
}

/// `m` holds an entity with the ID of `x` that is at least as new as `x`.
pub open spec fn covers<T: Model>(m: Map<i64, T>, x: T) -> bool {
    m.contains_key(x.spec_id()) && m[x.spec_id()].spec_updated_at() >= x.spec_updated_at()
}

/// Two stores agree at key `k`.
pub open spec fn agree_at<T>(m1: Map<i64, T>, m2: Map<i64, T>, k: i64) -> bool {
    &&& m1.contains_key(k) == m2.contains_key(k)
    &&& m1.contains_key(k) ==> m1[k] == m2[k]
}

/// Conflict resolution: an upsert overwrites the stored entity only when the
/// incoming one is strictly newer; it never makes a stored entity older,
/// never removes one, and touches no other ID.
pub proof fn lemma_upsert_keeps_newest<T: Model>(m: Map<i64, T>, x: T)
    ensures
        covers(upsert_one(m, x), x),
        m.contains_key(x.spec_id()) && m[x.spec_id()].spec_updated_at() >= x.spec_updated_at()
            ==> upsert_one(m, x) == m,
        forall|k: i64| #[trigger] m.contains_key(k) ==> upsert_one(m, x).contains_key(k)
            && upsert_one(m, x)[k].spec_updated_at() >= m[k].spec_updated_at(),
        forall|k: i64| k != x.spec_id() ==> agree_at(upsert_one(m, x), m, k),
{
}

proof fn lemma_upsert_all_covers<T: Model>(m: Map<i64, T>, xs: Seq<T>)
    ensures
        forall|i: int| 0 <= i < xs.len() ==> covers(upsert_all(m, xs), #[trigger] xs[i]),
        forall|k: i64| #[trigger] m.contains_key(k) ==> upsert_all(m, xs).contains_key(k)
            && upsert_all(m, xs)[k].spec_updated_at() >= m[k].spec_updated_at(),
    decreases xs.len(),
{
    if xs.len() > 0 {
        let p = xs.drop_last();
        lemma_upsert_all_covers(m, p);
        let before = upsert_all(m, p);
        lemma_upsert_keeps_newest(before, xs.last());
        assert forall|i: int| 0 <= i < xs.len() implies covers(upsert_all(m, xs), #[trigger] xs[i]) by {
            if i < xs.len() - 1 {
                assert(xs[i] == p[i]);
                assert(before.contains_key(xs[i].spec_id()));
            }
        }
    }
}

proof fn lemma_upsert_all_covered<T: Model>(m: Map<i64, T>, xs: Seq<T>)
    requires
        forall|i: int| 0 <= i < xs.len() ==> covers(m, #[trigger] xs[i]),
    ensures
        upsert_all(m, xs) == m,
    decreases xs.len(),
{
    if xs.len() > 0 {
        let p = xs.drop_last();
        assert forall|i: int| 0 <= i < p.len() implies covers(m, #[trigger] p[i]) by {
            assert(p[i] == xs[i]);
        }
        lemma_upsert_all_covered(m, p);
        assert(covers(m, xs[xs.len() - 1]));
    }
}

proof fn lemma_upsert_all_local<T: Model>(m1: Map<i64, T>, m2: Map<i64, T>, xs: Seq<T>, k: i64)
    requires
        agree_at(m1, m2, k),
    ensures
        agree_at(upsert_all(m1, xs), upsert_all(m2, xs), k),
    decreases xs.len(),
{
    if xs.len() > 0 {
        lemma_upsert_all_local(m1, m2, xs.drop_last(), k);
    }
}

/// Running the planned steps of a list has exactly the effect `sync_effect`.
pub proof fn lemma_entity_steps_effect<T: Model>(m: Map<i64, T>, c: Collection, reset_all: bool, items: Seq<T>, ids: Seq<i64>)
    ensures
        run_steps(m, entity_steps(c, reset_all, items.len(), ids.len()), c, items, ids)
            == sync_effect(m, reset_all, items, ids),
{
    let steps = entity_steps(c, reset_all, items.len(), ids.len());
    let r = step(c, SyncOp::ResetAll);
    let u = step(c, SyncOp::Upsert);
    let d = step(c, SyncOp::DeleteByIds);
    let f = step(c, SyncOp::FetchAll);
    if items.len() == 0 {
        assert(upsert_all(m, items) == m);
        assert(upsert_all(Map::<i64, T>::empty(), items) == Map::<i64, T>::empty());
    }
    if ids.len() == 0 {
        assert(ids.to_set() =~= Set::<i64>::empty());
        assert(upsert_all(m, items).remove_keys(ids.to_set()) =~= upsert_all(m, items));
    }
    reveal_with_fuel(run_steps, 5);
    if reset_all {
        if items.len() > 0 {
            assert(steps =~= seq![r, u, f]);
        } else {
            assert(steps =~= seq![r, f]);
        }
    } else {
        if items.len() > 0 {
            if ids.len() > 0 {
                assert(steps =~= seq![u, d, f]);
            } else {
                assert(steps =~= seq![u, f]);
            }
        } else {
            if ids.len() > 0 {
                assert(steps =~= seq![d, f]);
            } else {
                assert(steps =~= seq![f]);
            }
        }
    }
}

/// Syncing the same list twice leaves the store as syncing it once: the
/// second sync finds every entity already as new as the payload's, and every
/// listed ID already gone.
pub proof fn lemma_sync_effect_idempotent<T: Model>(m: Map<i64, T>, reset_all: bool, items: Seq<T>, ids: Seq<i64>)
    ensures
        sync_effect(sync_effect(m, reset_all, items, ids), reset_all, items, ids)
            == sync_effect(m, reset_all, items, ids),
{
    if !reset_all {
        let d = ids.to_set();
        let u = upsert_all(m, items);
        let s1 = u.remove_keys(d);
        let v = upsert_all(s1, items);
        let w = v.remove_keys(d);
        lemma_upsert_all_covers(m, items);
        lemma_upsert_all_covered(u, items);
        assert forall|k: i64| !d.contains(k) implies agree_at(v, u, k) by {
            assert(agree_at(s1, u, k));
            lemma_upsert_all_local(s1, u, items, k);
        }
        assert(w =~= s1);
    }
}

/// Idempotency of list sync: running the planned steps of a list on the
/// store that a first run left gives that store again.
pub proof fn lemma_entity_sync_idempotent<T: Model>(m: Map<i64, T>, c: Collection, reset_all: bool, items: Seq<T>, ids: Seq<i64>)
    ensures
        ({
            let steps = entity_steps(c, reset_all, items.len(), ids.len());
            let once = run_steps(m, steps, c, items, ids);
            run_steps(once, steps, c, items, ids) == once
        }),
{
    lemma_entity_steps_effect(m, c, reset_all, items, ids);
    lemma_entity_steps_effect(sync_effect(m, reset_all, items, ids), c, reset_all, items, ids);
    lemma_sync_effect_idempotent(m, reset_all, items, ids);
}

/// After a list sync without reset, no listed ID remains, and every upserted
/// entity whose ID is not listed for deletion is stored at least as new as
/// the payload's.
pub proof fn lemma_sync_effect_outcome<T: Model>(m: Map<i64, T>, reset_all: bool, items: Seq<T>, ids: Seq<i64>)
    ensures
        !reset_all ==> forall|i: int| 0 <= i < ids.len() ==> !sync_effect(m, reset_all, items, ids).contains_key(#[trigger] ids[i]),
        forall|i: int| 0 <= i < items.len() && (reset_all || !ids.contains(items[i].spec_id()))
            ==> covers(sync_effect(m, reset_all, items, ids), #[trigger] items[i]),
        reset_all ==> forall|k: i64| #[trigger] sync_effect(m, reset_all, items, ids).contains_key(k)
            ==> exists|i: int| 0 <= i < items.len() && items[i].spec_id() == k,
{
    lemma_upsert_all_covers(m, items);
    lemma_upsert_all_covers(Map::<i64, T>::empty(), items);
    if reset_all {
        lemma_upsert_all_keys_from(items);
    } else {
        assert forall|i: int| 0 <= i < ids.len() implies !sync_effect(m, reset_all, items, ids).contains_key(#[trigger] ids[i]) by {
            assert(ids.to_set().contains(ids[i]));
        }
        assert forall|i: int| 0 <= i < items.len() && !ids.contains(items[i].spec_id())
            implies covers(sync_effect(m, reset_all, items, ids), #[trigger] items[i]) by {
            assert(!ids.to_set().contains(items[i].spec_id()));
        }
    }
}

proof fn lemma_upsert_all_keys_from<T: Model>(items: Seq<T>)
    ensures
        forall|k: i64| #[trigger] upsert_all(Map::<i64, T>::empty(), items).contains_key(k)
            ==> exists|i: int| 0 <= i < items.len() && items[i].spec_id() == k,
    decreases items.len(),
{
    if items.len() > 0 {
        let p = items.drop_last();
        lemma_upsert_all_keys_from(p);
        assert forall|k: i64| #[trigger] upsert_all(Map::<i64, T>::empty(), items).contains_key(k)
            implies exists|i: int| 0 <= i < items.len() && items[i].spec_id() == k by {
            if k == items.last().spec_id() {
                assert(items[items.len() - 1].spec_id() == k);
            } else {
                assert(upsert_all(Map::<i64, T>::empty(), p).contains_key(k));
                let i = choose|i: int| 0 <= i < p.len() && p[i].spec_id() == k;
                assert(items[i] == p[i]);
            }
        }
    }
}


/// Each step is idempotent on its own: upserting the same entities again,
/// deleting the same IDs again or resetting again leaves the store as the
/// first time left it.
pub proof fn lemma_op_idempotent<T: Model>(m: Map<i64, T>, op: SyncOp, items: Seq<T>, ids: Seq<i64>)
    ensures
        apply_op(apply_op(m, op, items, ids), op, items, ids) == apply_op(m, op, items, ids),
{
    match op {
        SyncOp::Upsert => {
            lemma_upsert_all_covers(m, items);
            lemma_upsert_all_covered(upsert_all(m, items), items);
        },
        SyncOp::DeleteByIds => {
            assert(m.remove_keys(ids.to_set()).remove_keys(ids.to_set()) =~= m.remove_keys(ids.to_set()));
        },
        _ => {},
    }
}

/// Running `a` then `b` is running their concatenation.
pub proof fn lemma_run_steps_append<T: Model>(m: Map<i64, T>, a: Seq<SyncStep>, b: Seq<SyncStep>, c: Collection, items: Seq<T>, ids: Seq<i64>)
    ensures
        run_steps(m, a + b, c, items, ids) == run_steps(run_steps(m, a, c, items, ids), b, c, items, ids),
    decreases b.len(),
{
    if b.len() == 0 {
        assert(a + b =~= a);
    } else {
        assert((a + b).drop_last() =~= a + b.drop_last());
        lemma_run_steps_append(m, a, b.drop_last(), c, items, ids);
    }
}

/// One phase of the manga sync: the operation `op` on each of the four library
/// collections for which its condition holds, in the order categories,
/// manga, chapters, tracks.
pub open spec fn library_phase(op: SyncOp, on_categories: bool, on_manga: bool, on_chapters: bool, on_tracks: bool) -> Seq<SyncStep> {
    step_if(on_categories, Collection::Categories, op)
        + step_if(on_manga, Collection::Manga, op)
        + step_if(on_chapters, Collection::Chapters, op)
        + step_if(on_tracks, Collection::Tracks, op)
}

/// The library collections.
pub open spec fn is_library_collection(c: Collection) -> bool {
    c == Collection::Categories || c == Collection::Manga || c == Collection::Chapters || c == Collection::Tracks
}

/// The condition of a phase that concerns collection `c`.
pub open spec fn phase_flag(c: Collection, on_categories: bool, on_manga: bool, on_chapters: bool, on_tracks: bool) -> bool {
    if c == Collection::Categories {
        on_categories
    } else if c == Collection::Manga {
        on_manga
    } else if c == Collection::Chapters {
        on_chapters
    } else {
        on_tracks
    }
}

proof fn lemma_run_step_if<T: Model>(m: Map<i64, T>, cond: bool, c2: Collection, op: SyncOp, c: Collection, items: Seq<T>, ids: Seq<i64>)
    ensures
        run_steps(m, step_if(cond, c2, op), c, items, ids)
            == if cond && c2 == c { apply_op(m, op, items, ids) } else { m },
{
    reveal_with_fuel(run_steps, 2);
    if cond {
        assert(step_if(cond, c2, op).drop_last() =~= Seq::<SyncStep>::empty());
    }
}

proof fn lemma_run_library_phase<T: Model>(m: Map<i64, T>, op: SyncOp, b0: bool, b1: bool, b2: bool, b3: bool, c: Collection, items: Seq<T>, ids: Seq<i64>)
    requires
        is_library_collection(c),
    ensures
        run_steps(m, library_phase(op, b0, b1, b2, b3), c, items, ids)
            == if phase_flag(c, b0, b1, b2, b3) { apply_op(m, op, items, ids) } else { m },
{
    let s0 = step_if(b0, Collection::Categories, op);
    let s1 = step_if(b1, Collection::Manga, op);
    let s2 = step_if(b2, Collection::Chapters, op);
    let s3 = step_if(b3, Collection::Tracks, op);
    lemma_run_steps_append(m, s0 + s1 + s2, s3, c, items, ids);
    lemma_run_steps_append(m, s0 + s1, s2, c, items, ids);
    lemma_run_steps_append(m, s0, s1, c, items, ids);
    let r0 = run_steps(m, s0, c, items, ids);
    lemma_run_step_if(m, b0, Collection::Categories, op, c, items, ids);
    let r1 = run_steps(r0, s1, c, items, ids);
    lemma_run_step_if(r0, b1, Collection::Manga, op, c, items, ids);
    let r2 = run_steps(r1, s2, c, items, ids);
    lemma_run_step_if(r1, b2, Collection::Chapters, op, c, items, ids);
    lemma_run_step_if(r2, b3, Collection::Tracks, op, c, items, ids);
}

/// The steps of the manga sync, as `sync_manga_list` takes them: resets of
/// the four collections when asked for, then the upserts of the non-empty
/// entity lists, then (without reset) the deletions of the non-empty ID
/// lists, then the read-back of all four collections.
pub open spec fn manga_steps(reset_all: bool, counts: [(nat, nat); 4]) -> Seq<SyncStep> {
    library_phase(SyncOp::ResetAll, reset_all, reset_all, reset_all, reset_all)
        + library_phase(SyncOp::Upsert, counts[0].0 > 0, counts[1].0 > 0, counts[2].0 > 0, counts[3].0 > 0)
        + library_phase(SyncOp::DeleteByIds,
            !reset_all && counts[0].1 > 0, !reset_all && counts[1].1 > 0,
            !reset_all && counts[2].1 > 0, !reset_all && counts[3].1 > 0)
        + library_phase(SyncOp::FetchAll, true, true, true, true)
}

/// The entity count and deleted-ID count that `counts` gives collection `c`.
pub open spec fn library_counts(c: Collection, counts: [(nat, nat); 4]) -> (nat, nat) {
    if c == Collection::Categories {
        counts[0]
    } else if c == Collection::Manga {
        counts[1]
    } else if c == Collection::Chapters {
        counts[2]
    } else {
        counts[3]
    }
}

/// The manga sync does to each library collection what a list sync of that
/// collection's part of the payload does; hence it is idempotent too.
pub proof fn lemma_manga_steps_per_collection<T: Model>(m: Map<i64, T>, reset_all: bool, counts: [(nat, nat); 4], c: Collection, items: Seq<T>, ids: Seq<i64>)
    requires
        is_library_collection(c),
        library_counts(c, counts) == (items.len(), ids.len()),
    ensures
        run_steps(m, manga_steps(reset_all, counts), c, items, ids)
            == run_steps(m, entity_steps(c, reset_all, items.len(), ids.len()), c, items, ids),
        run_steps(m, manga_steps(reset_all, counts), c, items, ids)
            == sync_effect(m, reset_all, items, ids),
{
    let p0 = library_phase(SyncOp::ResetAll, reset_all, reset_all, reset_all, reset_all);
    let p1 = library_phase(SyncOp::Upsert, counts[0].0 > 0, counts[1].0 > 0, counts[2].0 > 0, counts[3].0 > 0);
    let p2 = library_phase(SyncOp::DeleteByIds,
        !reset_all && counts[0].1 > 0, !reset_all && counts[1].1 > 0,
        !reset_all && counts[2].1 > 0, !reset_all && counts[3].1 > 0);
    let p3 = library_phase(SyncOp::FetchAll, true, true, true, true);
    lemma_run_steps_append(m, p0 + p1 + p2, p3, c, items, ids);
    lemma_run_steps_append(m, p0 + p1, p2, c, items, ids);
    lemma_run_steps_append(m, p0, p1, c, items, ids);
    let r0 = run_steps(m, p0, c, items, ids);
    lemma_run_library_phase(m, SyncOp::ResetAll, reset_all, reset_all, reset_all, reset_all, c, items, ids);
    let r1 = run_steps(r0, p1, c, items, ids);
    lemma_run_library_phase(r0, SyncOp::Upsert, counts[0].0 > 0, counts[1].0 > 0, counts[2].0 > 0, counts[3].0 > 0, c, items, ids);
    let r2 = run_steps(r1, p2, c, items, ids);
    lemma_run_library_phase(r1, SyncOp::DeleteByIds,
        !reset_all && counts[0].1 > 0, !reset_all && counts[1].1 > 0,
        !reset_all && counts[2].1 > 0, !reset_all && counts[3].1 > 0, c, items, ids);
    lemma_run_library_phase(r2, SyncOp::FetchAll, true, true, true, true, c, items, ids);
    lemma_entity_steps_effect(m, c, reset_all, items, ids);
    if items.len() == 0 {
        assert(upsert_all(m, items) == m);
        assert(upsert_all(Map::<i64, T>::empty(), items) == Map::<i64, T>::empty());
    }
    if ids.len() == 0 {
        assert(ids.to_set() =~= Set::<i64>::empty());
        assert(upsert_all(m, items).remove_keys(ids.to_set()) =~= upsert_all(m, items));
    }
}

/// Idempotency of the manga sync: on each library collection, running the
/// planned steps again on the store that a first run left gives that store
/// again.
pub proof fn lemma_manga_sync_idempotent<T: Model>(m: Map<i64, T>, reset_all: bool, counts: [(nat, nat); 4], c: Collection, items: Seq<T>, ids: Seq<i64>)
    requires
        is_library_collection(c),
        library_counts(c, counts) == (items.len(), ids.len()),
    ensures
        ({
            let steps = manga_steps(reset_all, counts);
            let once = run_steps(m, steps, c, items, ids);
            run_steps(once, steps, c, items, ids) == once
        }),
{
    lemma_manga_steps_per_collection(m, reset_all, counts, c, items, ids);
    lemma_manga_steps_per_collection(sync_effect(m, reset_all, items, ids), reset_all, counts, c, items, ids);
    lemma_sync_effect_idempotent(m, reset_all, items, ids);
}

proof fn lemma_concat_contains<A>(a: Seq<A>, b: Seq<A>, x: A)
    ensures
        (a + b).contains(x) <==> a.contains(x) || b.contains(x),
{
    if a.contains(x) {
        let i = choose|i: int| 0 <= i < a.len() && a[i] == x;
        assert((a + b)[i] == x);
    }
    if b.contains(x) {
        let i = choose|i: int| 0 <= i < b.len() && b[i] == x;
        assert((a + b)[a.len() + i] == x);
    }
    if (a + b).contains(x) {
        let i = choose|i: int| 0 <= i < (a + b).len() && (a + b)[i] == x;
        if i < a.len() {
            assert(a[i] == x);
        } else {
            assert(b[i - a.len()] == x);
        }
    }
}

proof fn lemma_step_if_contains(cond: bool, c: Collection, op: SyncOp, x: SyncStep)
    ensures
        step_if(cond, c, op).contains(x) <==> cond && x == step(c, op),
{
    if cond {
        assert(step_if(cond, c, op)[0] == step(c, op));
    }
}

proof fn lemma_library_phase_contains(op: SyncOp, b0: bool, b1: bool, b2: bool, b3: bool, x: SyncStep)
    ensures
        library_phase(op, b0, b1, b2, b3).contains(x) <==> (
            (b0 && x == step(Collection::Categories, op))
            || (b1 && x == step(Collection::Manga, op))
            || (b2 && x == step(Collection::Chapters, op))
            || (b3 && x == step(Collection::Tracks, op))),
{
    let s0 = step_if(b0, Collection::Categories, op);
    let s1 = step_if(b1, Collection::Manga, op);
    let s2 = step_if(b2, Collection::Chapters, op);
    let s3 = step_if(b3, Collection::Tracks, op);
    lemma_concat_contains(s0 + s1 + s2, s3, x);
    lemma_concat_contains(s0 + s1, s2, x);
    lemma_concat_contains(s0, s1, x);
    lemma_step_if_contains(b0, Collection::Categories, op, x);
    lemma_step_if_contains(b1, Collection::Manga, op, x);
    lemma_step_if_contains(b2, Collection::Chapters, op, x);
    lemma_step_if_contains(b3, Collection::Tracks, op, x);
}

/// The steps of a manga sync: every library collection is reset when the
/// payload asks for it (`resetAll` is `true`; absent means `false`); a
/// collection's entities are upserted exactly when the payload's list for
/// that very collection is non-empty; a collection's IDs are deleted exactly
/// when there is no reset and the payload's deleted-ID list for that
/// collection is non-empty; and every library collection is read back. No
/// other step is taken.
pub proof fn lemma_manga_plan_steps(list: MangaList, x: SyncStep)
    ensures
        manga_steps(list.reset_all == Some(true), manga_counts(list)).contains(x) <==> (
            (is_library_collection(x.collection) && x.op == SyncOp::ResetAll && list.reset_all == Some(true))
            || (x == step(Collection::Categories, SyncOp::Upsert) && list.categories@.len() > 0)
            || (x == step(Collection::Manga, SyncOp::Upsert) && list.manga@.len() > 0)
            || (x == step(Collection::Chapters, SyncOp::Upsert) && list.chapters@.len() > 0)
            || (x == step(Collection::Tracks, SyncOp::Upsert) && list.tracks@.len() > 0)
            || (x == step(Collection::Categories, SyncOp::DeleteByIds) && list.reset_all != Some(true)
                && list.deleted_categories@.len() > 0)
            || (x == step(Collection::Manga, SyncOp::DeleteByIds) && list.reset_all != Some(true)
                && list.deleted_manga@.len() > 0)
            || (x == step(Collection::Chapters, SyncOp::DeleteByIds) && list.reset_all != Some(true)
                && list.deleted_chapters@.len() > 0)
            || (x == step(Collection::Tracks, SyncOp::DeleteByIds) && list.reset_all != Some(true)
                && list.deleted_tracks@.len() > 0)
            || (is_library_collection(x.collection) && x.op == SyncOp::FetchAll)),
{
    let reset_all = list.reset_all == Some(true);
    let counts = manga_counts(list);
    let p0 = library_phase(SyncOp::ResetAll, reset_all, reset_all, reset_all, reset_all);
    let p1 = library_phase(SyncOp::Upsert, counts[0].0 > 0, counts[1].0 > 0, counts[2].0 > 0, counts[3].0 > 0);
    let p2 = library_phase(SyncOp::DeleteByIds,
        !reset_all && counts[0].1 > 0, !reset_all && counts[1].1 > 0,
        !reset_all && counts[2].1 > 0, !reset_all && counts[3].1 > 0);
    let p3 = library_phase(SyncOp::FetchAll, true, true, true, true);
    lemma_concat_contains(p0 + p1 + p2, p3, x);
    lemma_concat_contains(p0 + p1, p2, x);
    lemma_concat_contains(p0, p1, x);
    lemma_library_phase_contains(SyncOp::ResetAll, reset_all, reset_all, reset_all, reset_all, x);
    lemma_library_phase_contains(SyncOp::Upsert, counts[0].0 > 0, counts[1].0 > 0, counts[2].0 > 0, counts[3].0 > 0, x);
    lemma_library_phase_contains(SyncOp::DeleteByIds,
        !reset_all && counts[0].1 > 0, !reset_all && counts[1].1 > 0,
        !reset_all && counts[2].1 > 0, !reset_all && counts[3].1 > 0, x);
    lemma_library_phase_contains(SyncOp::FetchAll, true, true, true, true, x);
}

proof fn lemma_entity_steps_contains(c: Collection, reset_all: bool, n_items: nat, n_deleted: nat, x: SyncStep)
    ensures
        entity_steps(c, reset_all, n_items, n_deleted).contains(x) <==> (
            (x == step(c, SyncOp::ResetAll) && reset_all)
            || (x == step(c, SyncOp::Upsert) && n_items > 0)
            || (x == step(c, SyncOp::DeleteByIds) && !reset_all && n_deleted > 0)
            || x == step(c, SyncOp::FetchAll)),
{
    let a = step_if(reset_all, c, SyncOp::ResetAll);
    let b = step_if(n_items > 0, c, SyncOp::Upsert);
    let d = step_if(!reset_all && n_deleted > 0, c, SyncOp::DeleteByIds);
    let f = seq![step(c, SyncOp::FetchAll)];
    lemma_concat_contains(a + b + d, f, x);
    lemma_concat_contains(a + b, d, x);
    lemma_concat_contains(a, b, x);
    lemma_step_if_contains(reset_all, c, SyncOp::ResetAll, x);
    lemma_step_if_contains(n_items > 0, c, SyncOp::Upsert, x);
    lemma_step_if_contains(!reset_all && n_deleted > 0, c, SyncOp::DeleteByIds, x);
    assert(f.contains(x) <==> x == step(c, SyncOp::FetchAll)) by {
        if x == step(c, SyncOp::FetchAll) {
            assert(f[0] == x);
        }
    }
}

/// The steps of a sync of chapter updates, as `plan_entity_sync` plans them:
/// the stored updates are reset exactly when the payload's `resetAll` is
/// `true` (absent or `false` never resets); the payload's updates are
/// upserted exactly when there are any; the listed IDs are deleted exactly
/// when there is no reset and some are listed; and the updates collection is
/// read back. No other step is taken, and every step is on that collection.
pub proof fn lemma_update_plan_steps(list: UpdateList, x: SyncStep)
    ensures
        entity_steps(
            <UpdateList as SyncList>::Item::spec_collection(),
            list.spec_reset_all(),
            list.spec_items().len(),
            list.spec_deleted_ids().len(),
        ).contains(x) <==> (
            (x == step(Collection::Updates, SyncOp::ResetAll) && list.reset_all == Some(true))
            || (x == step(Collection::Updates, SyncOp::Upsert) && list.updates@.len() > 0)
            || (x == step(Collection::Updates, SyncOp::DeleteByIds) && list.reset_all != Some(true)
                && list.deleted_updates@.len() > 0)
            || x == step(Collection::Updates, SyncOp::FetchAll)),
{
    lemma_entity_steps_contains(
        <UpdateList as SyncList>::Item::spec_collection(),
        list.spec_reset_all(),
        list.spec_items().len(),
        list.spec_deleted_ids().len(),
        x,
    );
}

/// The steps of a sync of reading history, as `plan_entity_sync` plans them:
/// the stored entries are reset exactly when the payload's `resetAll` is
/// `true` (absent or `false` never resets); the payload's entries are
/// upserted exactly when there are any; the listed IDs are deleted exactly
/// when there is no reset and some are listed; and the histories collection
/// is read back. No other step is taken, and every step is on that
/// collection.
pub proof fn lemma_history_plan_steps(list: HistoryList, x: SyncStep)
    ensures
        entity_steps(
            <HistoryList as SyncList>::Item::spec_collection(),
            list.spec_reset_all(),
            list.spec_items().len(),
            list.spec_deleted_ids().len(),
        ).contains(x) <==> (
            (x == step(Collection::Histories, SyncOp::ResetAll) && list.reset_all == Some(true))
            || (x == step(Collection::Histories, SyncOp::Upsert) && list.histories@.len() > 0)
            || (x == step(Collection::Histories, SyncOp::DeleteByIds) && list.reset_all != Some(true)
                && list.deleted_histories@.len() > 0)
            || x == step(Collection::Histories, SyncOp::FetchAll)),
{
    lemma_entity_steps_contains(
        <HistoryList as SyncList>::Item::spec_collection(),
        list.spec_reset_all(),
        list.spec_items().len(),
        list.spec_deleted_ids().len(),
        x,
    );
}

/// The entity count and deleted-ID count of each library collection in a
/// manga payload.
pub open spec fn manga_counts(l: MangaList) -> [(nat, nat); 4] {
    [
        (l.categories@.len(), l.deleted_categories@.len()),
        (l.manga@.len(), l.deleted_manga@.len()),
        (l.chapters@.len(), l.deleted_chapters@.len()),
        (l.tracks@.len(), l.deleted_tracks@.len()),
    ]
}

fn push_step_if(steps: &mut Vec<SyncStep>, cond: bool, c: Collection, op: SyncOp)
    ensures
        final(steps)@ == old(steps)@ + step_if(cond, c, op),
{
    if cond {
        steps.push(SyncStep { collection: c, op });
        assert(final(steps)@ =~= old(steps)@ + step_if(cond, c, op));
    } else {
        assert(old(steps)@ =~= old(steps)@ + step_if(cond, c, op));
    }
}

fn push_library_phase(steps: &mut Vec<SyncStep>, op: SyncOp, b0: bool, b1: bool, b2: bool, b3: bool)
    ensures
        final(steps)@ == old(steps)@ + library_phase(op, b0, b1, b2, b3),
{
    let ghost start = steps@;
    push_step_if(steps, b0, Collection::Categories, op);
    push_step_if(steps, b1, Collection::Manga, op);
    push_step_if(steps, b2, Collection::Chapters, op);
    push_step_if(steps, b3, Collection::Tracks, op);
    assert(steps@ =~= start + library_phase(op, b0, b1, b2, b3));
}

/// The steps of syncing a manga payload, as `sync_manga_list` takes them.
pub fn plan_manga_sync(list: &MangaList) -> (steps: Vec<SyncStep>)
    ensures
        steps@ == manga_steps(list.reset_all == Some(true), manga_counts(*list)),
        forall|x: SyncStep| #[trigger] steps@.contains(x) <==> (
            (is_library_collection(x.collection) && x.op == SyncOp::ResetAll && list.reset_all == Some(true))
            || (x == step(Collection::Categories, SyncOp::Upsert) && list.categories@.len() > 0)
            || (x == step(Collection::Manga, SyncOp::Upsert) && list.manga@.len() > 0)
            || (x == step(Collection::Chapters, SyncOp::Upsert) && list.chapters@.len() > 0)
            || (x == step(Collection::Tracks, SyncOp::Upsert) && list.tracks@.len() > 0)
            || (x == step(Collection::Categories, SyncOp::DeleteByIds) && list.reset_all != Some(true)
                && list.deleted_categories@.len() > 0)
            || (x == step(Collection::Manga, SyncOp::DeleteByIds) && list.reset_all != Some(true)
                && list.deleted_manga@.len() > 0)
            || (x == step(Collection::Chapters, SyncOp::DeleteByIds) && list.reset_all != Some(true)
                && list.deleted_chapters@.len() > 0)
            || (x == step(Collection::Tracks, SyncOp::DeleteByIds) && list.reset_all != Some(true)
                && list.deleted_tracks@.len() > 0)
            || (is_library_collection(x.collection) && x.op == SyncOp::FetchAll)),
{
    let reset_all = match list.reset_all {
        Some(b) => b,
        None => false,
    };
    let mut steps: Vec<SyncStep> = Vec::new();
    push_library_phase(&mut steps, SyncOp::ResetAll, reset_all, reset_all, reset_all, reset_all);
    push_library_phase(&mut steps, SyncOp::Upsert,
        list.categories.len() > 0, list.manga.len() > 0, list.chapters.len() > 0, list.tracks.len() > 0);
    push_library_phase(&mut steps, SyncOp::DeleteByIds,
        !reset_all && list.deleted_categories.len() > 0, !reset_all && list.deleted_manga.len() > 0,
        !reset_all && list.deleted_chapters.len() > 0, !reset_all && list.deleted_tracks.len() > 0);
    push_library_phase(&mut steps, SyncOp::FetchAll, true, true, true, true);
    proof {
        let counts = manga_counts(*list);
        assert(steps@ =~= manga_steps(reset_all, counts));
        assert forall|x: SyncStep| #[trigger] steps@.contains(x) <==> (
            (is_library_collection(x.collection) && x.op == SyncOp::ResetAll && list.reset_all == Some(true))
            || (x == step(Collection::Categories, SyncOp::Upsert) && list.categories@.len() > 0)
            || (x == step(Collection::Manga, SyncOp::Upsert) && list.manga@.len() > 0)
            || (x == step(Collection::Chapters, SyncOp::Upsert) && list.chapters@.len() > 0)
            || (x == step(Collection::Tracks, SyncOp::Upsert) && list.tracks@.len() > 0)
            || (x == step(Collection::Categories, SyncOp::DeleteByIds) && list.reset_all != Some(true)
                && list.deleted_categories@.len() > 0)
            || (x == step(Collection::Manga, SyncOp::DeleteByIds) && list.reset_all != Some(true)
                && list.deleted_manga@.len() > 0)
            || (x == step(Collection::Chapters, SyncOp::DeleteByIds) && list.reset_all != Some(true)
                && list.deleted_chapters@.len() > 0)
            || (x == step(Collection::Tracks, SyncOp::DeleteByIds) && list.reset_all != Some(true)
                && list.deleted_tracks@.len() > 0)
            || (is_library_collection(x.collection) && x.op == SyncOp::FetchAll)) by {
            lemma_manga_plan_steps(*list, x);
        }
    }
    steps
}

/// The steps of syncing a settings payload, as `sync_settings` takes them:
/// an upsert when settings are present, then the read-back.
pub open spec fn settings_steps(has_settings: bool) -> Seq<SyncStep> {
    step_if(has_settings, Collection::Settings, SyncOp::Upsert) + seq![step(Collection::Settings, SyncOp::FetchAll)]
}

/// The steps of syncing a settings payload.
pub fn plan_settings_sync(obj: &SettingsObj) -> (steps: Vec<SyncStep>)
    ensures
        steps@ == settings_steps(obj.settings is Some),
{
    let mut steps: Vec<SyncStep> = Vec::new();
    push_step_if(&mut steps, obj.settings.is_some(), Collection::Settings, SyncOp::Upsert);
    steps.push(SyncStep { collection: Collection::Settings, op: SyncOp::FetchAll });
    proof {
        assert(steps@ =~= settings_steps(obj.settings is Some));
    }
    steps
}

/// How a sync step failed.
pub enum StepFailure {
    /// No bulk upserter was set up when an upsert was due.
    UpserterMissing,
    /// The bulk upsert failed with this database message.
    UpsertError(String),
    /// A reset, deletion or read-back failed with this error.
    Database(DbUtilError),
}

/// The sync error that a failed step ends the sync with: a missing upserter
/// is `NotInitialized`, a failed upsert is `UpsertFailed` with the database
/// message, and any other failure is `DatabaseError` with the text of the
/// database utility error.
pub fn step_error(failure: StepFailure) -> (e: SyncError)
    ensures
        match failure {
            StepFailure::UpserterMissing => e is NotInitialized,
            StepFailure::UpsertError(m) => e matches SyncError::UpsertFailed(t) && t@ == m@,
            StepFailure::Database(d) => e matches SyncError::DatabaseError(t) && t@ == db_util_error_text(d),
        },
{
    match failure {
        StepFailure::UpserterMissing => SyncError::NotInitialized,
        StepFailure::UpsertError(m) => SyncError::UpsertFailed(m),
        StepFailure::Database(d) => SyncError::DatabaseError(d.message()),
    }
}

impl MangaList {
    /// The reply of a manga sync: the stored entities of the four
    /// collections, no IDs to delete, and the payload's reset flag.
    pub fn from_stored(
        categories: Vec<Category>,
        manga: Vec<Manga>,
        chapters: Vec<Chapter>,
        tracks: Vec<Track>,
        reset_all: Option<bool>,
    ) -> (r: MangaList)
        ensures
            r.categories@ == categories@,
            r.manga@ == manga@,
            r.chapters@ == chapters@,
            r.tracks@ == tracks@,
            r.deleted_categories@.len() == 0,
            r.deleted_manga@.len() == 0,
            r.deleted_chapters@.len() == 0,
            r.deleted_tracks@.len() == 0,
            r.reset_all == reset_all,
    {
        MangaList {
            categories,
            deleted_categories: Vec::new(),
            manga,
            deleted_manga: Vec::new(),
            chapters,
            deleted_chapters: Vec::new(),
            tracks,
            deleted_tracks: Vec::new(),
            reset_all,
        }
    }
}

impl SettingsObj {
    /// The reply of a settings sync: the first stored settings, if any.
    pub fn from_stored(stored: Vec<Settings>) -> (r: SettingsObj)
        ensures
            stored@.len() == 0 ==> r.settings is None,
            stored@.len() > 0 ==> r.settings == Some(stored@[0]),
    {
        let mut stored = stored;
        if stored.len() == 0 {
            SettingsObj { settings: None }
        } else {
            SettingsObj { settings: Some(stored.remove(0)) }
        }
    }
}

} // verus!
