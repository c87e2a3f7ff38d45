//! The decisions of the generic sync endpoint handler.

use vstd::prelude::*;
use crate::config::logging;
use crate::diagnostics::{LogLevel, LogLine};
use crate::sync::error::{SyncError, sync_error_text};
use crate::sync::extractor::{log_sync_complete, sync_complete_message};

verus! {

/// Sync results that can report how many items they hold.
pub trait SyncResult {
    /// The number of items of the result.
    spec fn spec_modified_count(&self) -> nat;

    fn modified_count(&self) -> (n: usize)
        requires
            self.spec_modified_count() <= usize::MAX,
        ensures
            n == self.spec_modified_count(),
    ;
}

/// Configuration for a sync endpoint handler
#[derive(Debug, Clone, Copy)]
pub struct SyncEndpointConfig {
    pub entity_name: &'static str,
    pub path: &'static str,
}

impl SyncEndpointConfig {
    pub fn new(entity_name: &'static str, path: &'static str) -> (r: Self)
        ensures
            r.entity_name == entity_name,
            r.path == path,
    {
        Self { entity_name, path }
    }
}

/// Standard error response for sync operations
#[derive(Debug)]
pub struct SyncErrorResponse {
    pub error: String,
    pub entity: &'static str,
}

impl SyncErrorResponse {
    pub fn new(error: String, entity: &'static str) -> (r: Self)
        ensures
            r.error == error,
            r.entity == entity,
    {
        Self { error, entity }
    }
}

/// What a sync endpoint answers once the sync service has run.
pub enum SyncReply<R> {
    /// 200 OK with the synced state as body.
    Synced { result: R, log: LogLine },
    /// 500 Internal Server Error with an error body.
    Failed { body: SyncErrorResponse, log: LogLine },
}

/// The text of the line that reports a failed sync.
pub open spec fn sync_failed_log(entity: Seq<char>, e: SyncError) -> Seq<char> {
    "[SYNC] "@ + entity + " sync failed: "@ + sync_error_text(e)
}

/// The reply of a sync endpoint to the outcome of its service: the synced
/// state with an information line counting its items, or a 500 body
/// "Sync failed: <error>" naming the entity, with an error line.
pub fn sync_reply<R: SyncResult>(config: SyncEndpointConfig, outcome: Result<R, SyncError>, duration_ms: u128) -> (reply: SyncReply<R>)
    requires
        outcome matches Ok(r) ==> r.spec_modified_count() <= usize::MAX,
    ensures
        match outcome {
            Ok(r) => reply matches SyncReply::Synced { result, log } && result == r
                && log.level == LogLevel::Info && log.target@ == logging::SYNC_API@
                && log.message@ == sync_complete_message(config.entity_name@, r.spec_modified_count(), 0, duration_ms as nat),
            Err(e) => reply matches SyncReply::Failed { body, log } && body.entity == config.entity_name
                && body.error@ == "Sync failed: "@ + sync_error_text(e)
                && log.level == LogLevel::Error && log.target@ == logging::SYNC_API@
                && log.message@ == sync_failed_log(config.entity_name@, e),
        },
{
    match outcome {
        Ok(result) => {
            let modified_count = result.modified_count();
            let log = log_sync_complete(config.entity_name, modified_count, 0, duration_ms);
            SyncReply::Synced { result, log }
        },
        Err(e) => {
            let text = e.message();
            let mut error = String::from_str("Sync failed: ");
            error.append(text.as_str());
            let mut message = String::from_str("[SYNC] ");
            message.append(config.entity_name);
            message.append(" sync failed: ");
            message.append(text.as_str());
            proof {
                assert(message@ =~= sync_failed_log(config.entity_name@, e));
            }
            SyncReply::Failed {
                body: SyncErrorResponse::new(error, config.entity_name),
                log: LogLine { level: LogLevel::Error, target: logging::SYNC_API, message },
            }
        },
    }
}

} // verus!
