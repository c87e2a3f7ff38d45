//! User settings with schemaless storage.

use vstd::prelude::*;
use crate::config::collections::Collection;
use crate::oid::Oid;
use crate::sync::extractor::ValidatePayload;
use crate::sync::handler::SyncResult;
use crate::sync::model::{Model, Syncable};
use crate::config::sync;
use crate::sync::validation::{id_check, then_check, validate_id};

verus! {

/// User settings, stored opaquely.
///
/// The server only reads the metadata used for sync conflict resolution;
/// `content` carries all other fields as the JSON text of an object.
#[derive(Clone, Debug, PartialEq, Default)]
pub struct Settings {
    pub oid: Option<Oid>,
    pub id: i64,
    pub user: Option<Oid>,
    pub updated_at: i64,
    pub content: String,
}

impl Model for Settings {
    open spec fn spec_id(&self) -> i64 { self.id }
    open spec fn spec_updated_at(&self) -> i64 { self.updated_at }
    fn get_id(&self) -> (r: i64) { self.id }
    fn get_updated_at(&self) -> (r: i64) { self.updated_at }
}

impl Syncable for Settings {
    open spec fn spec_collection() -> Collection { Collection::Settings }
    fn collection() -> (c: Collection) { Collection::Settings }
}

/// Settings wrapper for sync API
#[derive(Default, Clone)]
pub struct SettingsObj {
    pub settings: Option<Settings>,
}

/// The message that refuses a negative settings timestamp.
pub open spec fn invalid_timestamp_message() -> Seq<char> {
    "Invalid updated_at timestamp"@
}

impl ValidatePayload for SettingsObj {
    open spec fn spec_item_count(&self) -> nat {
        if self.settings is Some { 1 } else { 0 }
    }

    /// The settings ID, then the sign of the settings timestamp.
    open spec fn spec_validation(&self) -> Result<(), Seq<char>> {
        match self.settings {
            Some(s) => then_check(
                id_check(s.id as int, "settings"@),
                if s.updated_at < 0 { Err(invalid_timestamp_message()) } else { Ok(()) },
            ),
            None => Ok(()),
        }
    }

    fn item_count(&self) -> (n: usize) {
        match &self.settings {
            Some(_) => 1,
            None => 0,
        }
    }

    fn validate(&self) -> (r: Result<(), String>) {
        match &self.settings {
            Some(settings) => {
                match validate_id(settings.id, "settings") {
                    Ok(()) => {},
                    Err(e) => { return Err(e); },
                }
                if settings.updated_at < 0 {
                    return Err(String::from_str("Invalid updated_at timestamp"));
                }
                Ok(())
            },
            None => Ok(()),
        }
    }
}

impl SyncResult for SettingsObj {
    open spec fn spec_modified_count(&self) -> nat {
        if self.settings is Some { 1 } else { 0 }
    }

    fn modified_count(&self) -> (n: usize) {
        match &self.settings {
            Some(_) => 1,
            None => 0,
        }
    }
}

/// Validation of a settings payload: no settings are always accepted;
/// settings are accepted exactly when their ID lies in
/// `[MIN_ID_VALUE, MAX_ID_VALUE]` and their timestamp is not negative.
pub proof fn lemma_settings_validation_ok(o: SettingsObj)
    ensures
        o.spec_validation() is Ok <==> match o.settings {
            Some(s) => sync::MIN_ID_VALUE <= s.id <= sync::MAX_ID_VALUE && s.updated_at >= 0,
            None => true,
        },
{
}

} // verus!
