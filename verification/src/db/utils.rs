//! Checks and errors of the database utility operations.

use vstd::prelude::*;

verus! {

/// Error type for database utility operations
#[derive(Debug, Clone)]
pub enum DbUtilError {
    DatabaseError(String),
    Timeout,
    CollectionError(String),
}

/// The text of a database utility error.
pub open spec fn db_util_error_text(e: DbUtilError) -> Seq<char> {
    match e {
        DbUtilError::DatabaseError(m) => "Database error: "@ + m@,
        DbUtilError::Timeout => "Operation timed out"@,
        DbUtilError::CollectionError(m) => "Collection error: "@ + m@,
    }
}

/// The refusal of a deletion by an empty list of IDs.
pub open spec fn empty_ids_text() -> Seq<char> {
    "ids cannot be empty - use delete_all_by_user to delete all documents"@
}

impl DbUtilError {
    /// The text of this error ("Database error: <msg>", ...).
    pub fn message(&self) -> (r: String)
        ensures
            r@ == db_util_error_text(*self),
    {
        match self {
            DbUtilError::DatabaseError(m) => {
                let mut r = String::from_str("Database error: ");
                r.append(m.as_str());
                r
            },
            DbUtilError::Timeout => String::from_str("Operation timed out"),
            DbUtilError::CollectionError(m) => {
                let mut r = String::from_str("Collection error: ");
                r.append(m.as_str());
                r
            },
        }
    }
}

/// The check that `delete_many_by_ids` makes before it touches the database:
/// an empty list of IDs is refused, since deleting everything is the job of
/// `delete_all_by_user`.
pub fn check_delete_ids(ids: &[i64]) -> (r: Result<(), DbUtilError>)
    ensures
        r is Ok <==> ids@.len() > 0,
        r matches Err(e) ==> (e matches DbUtilError::CollectionError(m) && m@ == empty_ids_text()),
{
    if ids.len() == 0 {
        Err(DbUtilError::CollectionError(String::from_str("ids cannot be empty - use delete_all_by_user to delete all documents")))
    } else {
        Ok(())
    }
}

} // verus!
