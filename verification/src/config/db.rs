//! Database configuration.

use vstd::prelude::*;
use crate::config::{env_or_default, resolve_setting, lemma_resolved_setting_within_bounds};

verus! {

/// Database name
pub const DB_NAME: &'static str = "mangayomi";

/// Default timeout for database operations (seconds)
pub const DEFAULT_TIMEOUT_SECS: u64 = 30;

/// Maximum timeout allowed (5 minutes)
pub const MAX_TIMEOUT_SECS: u64 = 300;

/// Minimum timeout allowed (1 second)
pub const MIN_TIMEOUT_SECS: u64 = 1;

/// Environment variable that overrides the database operation timeout
pub const ENV_TIMEOUT: &'static str = "DB_OPERATION_TIMEOUT_SECS";

/// The database operation timeout in seconds, resolved from the raw value of
/// `DB_OPERATION_TIMEOUT_SECS`: parsed and clamped to
/// `[MIN_TIMEOUT_SECS, MAX_TIMEOUT_SECS]`, or the default when absent or invalid.
pub fn get_timeout(raw: Option<&str>) -> (secs: u64)
    ensures
        secs as int == resolve_setting(
            match raw { Some(s) => Some(s@), None => None },
            u64::MAX as nat,
            DEFAULT_TIMEOUT_SECS as int,
            MIN_TIMEOUT_SECS as int,
            MAX_TIMEOUT_SECS as int,
        ),
        MIN_TIMEOUT_SECS <= secs <= MAX_TIMEOUT_SECS,
{
    let secs = env_or_default(raw, DEFAULT_TIMEOUT_SECS, MIN_TIMEOUT_SECS, MAX_TIMEOUT_SECS);
    proof {
        lemma_resolved_setting_within_bounds(
            match raw { Some(s) => Some(s@), None => None },
            u64::MAX as nat,
            DEFAULT_TIMEOUT_SECS as int,
            MIN_TIMEOUT_SECS as int,
            MAX_TIMEOUT_SECS as int,
        );
    }
    secs
}

} // verus!
