//! The history entity and its sync payload.

use vstd::prelude::*;
use crate::config::collections::Collection;
use crate::oid::Oid;
use crate::sync::extractor::ValidatePayload;
use crate::sync::handler::SyncResult;
use crate::sync::model::{Model, Syncable, model_ids};
use crate::sync::service::SyncList;
use crate::config::sync;
use crate::sync::validation::{
    lemma_deleted_ids_check_ok, lemma_model_ids_check_ok,
    deleted_count_check, deleted_ids_check, ids_check, then_check,
    validate_deleted_count, validate_deleted_ids, validate_model_ids,
};

verus! {

/// A reading history entry.
#[derive(Clone, Debug, PartialEq, Eq, Default)]
pub struct History {
    pub oid: Option<Oid>,
    pub id: i64,
    pub date: String,
    pub manga_id: i64,
    pub chapter_id: i64,
    pub item_type: i64,
    pub user: Option<Oid>,
    pub updated_at: i64,
}

impl Model for History {
    open spec fn spec_id(&self) -> i64 {
        self.id
    }

    open spec fn spec_updated_at(&self) -> i64 {
        self.updated_at
    }

    fn get_id(&self) -> (r: i64) {
        self.id
    }

    fn get_updated_at(&self) -> (r: i64) {
        self.updated_at
    }
}

impl Syncable for History {
    open spec fn spec_collection() -> Collection {
        Collection::Histories
    }

    fn collection() -> (c: Collection) {
        Collection::Histories
    }
}

/// The history sync payload: entries to upsert, IDs to delete, and whether
/// the stored entries are to be replaced.
#[derive(Default, Clone)]
pub struct HistoryList {
    pub histories: Vec<History>,
    pub deleted_histories: Vec<i64>,
    pub reset_all: Option<bool>,
}

impl ValidatePayload for HistoryList {
    open spec fn spec_item_count(&self) -> nat {
        self.histories@.len()
    }

    /// The count of deleted entries, then the entry IDs, then the deleted IDs.
    open spec fn spec_validation(&self) -> Result<(), Seq<char>> {
        then_check(
            deleted_count_check(self.deleted_histories@.len(), "history"@),
            then_check(
                ids_check(model_ids(self.histories@), "history"@),
                deleted_ids_check(self.deleted_histories@, "history"@),
            ),
        )
    }

    fn item_count(&self) -> (n: usize) {
        self.histories.len()
    }

    fn validate(&self) -> (r: Result<(), String>) {
        match validate_deleted_count(self.deleted_histories.len(), "history") {
            Ok(()) => {},
            Err(e) => {
                return Err(e);
            },
        }
        match validate_model_ids(self.histories.as_slice(), "history") {
            Ok(()) => {},
            Err(e) => {
                return Err(e);
            },
        }
        validate_deleted_ids(self.deleted_histories.as_slice(), "history")
    }
}

impl SyncResult for HistoryList {
    open spec fn spec_modified_count(&self) -> nat {
        self.histories@.len()
    }

    fn modified_count(&self) -> (n: usize) {
        self.histories.len()
    }
}

impl SyncList for HistoryList {
    type Item = History;

    open spec fn spec_reset_all(&self) -> bool {
        self.reset_all == Some(true)
    }

    open spec fn spec_items(&self) -> Seq<History> {
        self.histories@
    }

    open spec fn spec_deleted_ids(&self) -> Seq<i64> {
        self.deleted_histories@
    }

    fn should_reset_all(&self) -> (r: bool) {
        match self.reset_all {
            Some(b) => b,
            None => false,
        }
    }

    fn items(&self) -> (r: &[History]) {
        self.histories.as_slice()
    }

    fn deleted_ids(&self) -> (r: &[i64]) {
        self.deleted_histories.as_slice()
    }

    fn into_result(self, items: Vec<History>) -> (r: HistoryList)
        ensures
            r.histories@ == items@,
            r.deleted_histories@.len() == 0,
            r.reset_all == self.reset_all,
    {
        HistoryList { histories: items, deleted_histories: Vec::new(), reset_all: self.reset_all }
    }
}

/// Validation of a payload of history entries: it is accepted exactly when it
/// lists at most `MAX_DELETED_ITEMS` IDs to delete, and every ID, of an entry
/// or to delete, lies in `[MIN_ID_VALUE, MAX_ID_VALUE]`.
pub proof fn lemma_history_validation_ok(l: HistoryList)
    ensures
        l.spec_validation() is Ok <==> {
            &&& l.deleted_histories@.len() <= sync::MAX_DELETED_ITEMS
            &&& forall|i: int| 0 <= i < l.deleted_histories@.len()
                ==> sync::MIN_ID_VALUE <= #[trigger] l.deleted_histories@[i] <= sync::MAX_ID_VALUE
            &&& forall|i: int| 0 <= i < l.histories@.len()
                ==> sync::MIN_ID_VALUE <= (#[trigger] l.histories@[i]).id <= sync::MAX_ID_VALUE
        },
{
    lemma_deleted_ids_check_ok(l.deleted_histories@, "history"@);
    lemma_model_ids_check_ok(l.histories@, "history"@);
}

} // verus!
