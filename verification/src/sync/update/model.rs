//! The chapter update entity and its sync payload.

use vstd::prelude::*;
use crate::config::collections::Collection;
use crate::oid::Oid;
use crate::sync::extractor::ValidatePayload;
use crate::sync::handler::SyncResult;
use crate::sync::model::{Model, Syncable, model_ids};
use crate::sync::service::SyncList;
use crate::config::sync;
use crate::sync::validation::{
    lemma_deleted_ids_check_ok, lemma_model_ids_check_ok,
    deleted_count_check, deleted_ids_check, ids_check, then_check,
    validate_deleted_count, validate_deleted_ids, validate_model_ids,
};

verus! {

/// A chapter update entry.
#[derive(Clone, Debug, PartialEq, Eq, Default)]
pub struct Update {
    pub oid: Option<Oid>,
    pub id: i64,
    pub manga_id: i64,
    pub chapter_name: String,
    pub date: String,
    pub user: Option<Oid>,
    pub updated_at: i64,
}

impl Model for Update {
    open spec fn spec_id(&self) -> i64 {
        self.id
    }

    open spec fn spec_updated_at(&self) -> i64 {
        self.updated_at
    }

    fn get_id(&self) -> (r: i64) {
        self.id
    }

    fn get_updated_at(&self) -> (r: i64) {
        self.updated_at
    }
}

impl Syncable for Update {
    open spec fn spec_collection() -> Collection {
        Collection::Updates
    }

    fn collection() -> (c: Collection) {
        Collection::Updates
    }
}

/// The update sync payload: entries to upsert, IDs to delete, and whether
/// the stored entries are to be replaced.
#[derive(Default, Clone)]
pub struct UpdateList {
    pub updates: Vec<Update>,
    pub deleted_updates: Vec<i64>,
    pub reset_all: Option<bool>,
}

impl ValidatePayload for UpdateList {
    open spec fn spec_item_count(&self) -> nat {
        self.updates@.len()
    }

    /// The count of deleted entries, then the entry IDs, then the deleted IDs.
    open spec fn spec_validation(&self) -> Result<(), Seq<char>> {
        then_check(
            deleted_count_check(self.deleted_updates@.len(), "update"@),
            then_check(
                ids_check(model_ids(self.updates@), "update"@),
                deleted_ids_check(self.deleted_updates@, "update"@),
            ),
        )
    }

    fn item_count(&self) -> (n: usize) {
        self.updates.len()
    }

    fn validate(&self) -> (r: Result<(), String>) {
        match validate_deleted_count(self.deleted_updates.len(), "update") {
            Ok(()) => {},
            Err(e) => {
                return Err(e);
            },
        }
        match validate_model_ids(self.updates.as_slice(), "update") {
            Ok(()) => {},
            Err(e) => {
                return Err(e);
            },
        }
        validate_deleted_ids(self.deleted_updates.as_slice(), "update")
    }
}

impl SyncResult for UpdateList {
    open spec fn spec_modified_count(&self) -> nat {
        self.updates@.len()
    }

    fn modified_count(&self) -> (n: usize) {
        self.updates.len()
    }
}

impl SyncList for UpdateList {
    type Item = Update;

    open spec fn spec_reset_all(&self) -> bool {
        self.reset_all == Some(true)
    }

    open spec fn spec_items(&self) -> Seq<Update> {
        self.updates@
    }

    open spec fn spec_deleted_ids(&self) -> Seq<i64> {
        self.deleted_updates@
    }

    fn should_reset_all(&self) -> (r: bool) {
        match self.reset_all {
            Some(b) => b,
            None => false,
        }
    }

    fn items(&self) -> (r: &[Update]) {
        self.updates.as_slice()
    }

    fn deleted_ids(&self) -> (r: &[i64]) {
        self.deleted_updates.as_slice()
    }

    fn into_result(self, items: Vec<Update>) -> (r: UpdateList)
        ensures
            r.updates@ == items@,
            r.deleted_updates@.len() == 0,
            r.reset_all == self.reset_all,
    {
        UpdateList { updates: items, deleted_updates: Vec::new(), reset_all: self.reset_all }
    }
}

/// Validation of a payload of chapter updates: it is accepted exactly when it
/// lists at most `MAX_DELETED_ITEMS` IDs to delete, and every ID, of an entry
/// or to delete, lies in `[MIN_ID_VALUE, MAX_ID_VALUE]`.
pub proof fn lemma_update_validation_ok(l: UpdateList)
    ensures
        l.spec_validation() is Ok <==> {
            &&& l.deleted_updates@.len() <= sync::MAX_DELETED_ITEMS
            &&& forall|i: int| 0 <= i < l.deleted_updates@.len()
                ==> sync::MIN_ID_VALUE <= #[trigger] l.deleted_updates@[i] <= sync::MAX_ID_VALUE
            &&& forall|i: int| 0 <= i < l.updates@.len()
                ==> sync::MIN_ID_VALUE <= (#[trigger] l.updates@[i]).id <= sync::MAX_ID_VALUE
        },
{
    lemma_deleted_ids_check_ok(l.deleted_updates@, "update"@);
    lemma_model_ids_check_ok(l.updates@, "update"@);
}

} // verus!
