//! Errors that can occur during sync operations.

use vstd::prelude::*;

verus! {

/// Errors that can occur during sync operations
#[derive(Debug, Clone)]
pub enum SyncError {
    UpsertFailed(String),
    NotInitialized,
    DatabaseError(String),
    SerializationError(String),
    Timeout,
}

/// The text of a sync error, as it is shown to users and in logs.
pub open spec fn sync_error_text(e: SyncError) -> Seq<char> {
    match e {
        SyncError::UpsertFailed(m) => "Upsert failed: "@ + m@,
        SyncError::NotInitialized => "BulkUpserter not initialized"@,
        SyncError::DatabaseError(m) => "Database error: "@ + m@,
        SyncError::SerializationError(m) => "Serialization error: "@ + m@,
        SyncError::Timeout => "Operation timed out"@,
    }
}

impl SyncError {
    /// The text of this error ("Upsert failed: <msg>", "Database error: <msg>", ...).
    pub fn message(&self) -> (r: String)
        ensures
            r@ == sync_error_text(*self),
    {
        match self {
            SyncError::UpsertFailed(m) => {
                let mut r = String::from_str("Upsert failed: ");
                r.append(m.as_str());
                r
            },
            SyncError::NotInitialized => String::from_str("BulkUpserter not initialized"),
            SyncError::DatabaseError(m) => {
                let mut r = String::from_str("Database error: ");
                r.append(m.as_str());
                r
            },
            SyncError::SerializationError(m) => {
                let mut r = String::from_str("Serialization error: ");
                r.append(m.as_str());
                r
            },
            SyncError::Timeout => String::from_str("Operation timed out"),
        }
    }
}

} // verus!
