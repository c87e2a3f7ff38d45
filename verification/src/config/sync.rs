//! Sync endpoint configuration.

use vstd::prelude::*;

verus! {

/// Minimum allowed payload size (1MB)
pub const MIN_PAYLOAD_SIZE_MB: usize = 1;

/// Maximum allowed payload size (1GB)
pub const MAX_PAYLOAD_SIZE_MB: usize = 1024;

/// Default payload size (250MB)
pub const DEFAULT_PAYLOAD_SIZE_MB: usize = 250;

/// Environment variable for payload size
pub const ENV_PAYLOAD_SIZE: &'static str = "MAX_SYNC_PAYLOAD_SIZE_MB";

/// Maximum number of items allowed in a sync batch
pub const MAX_SYNC_ITEMS: usize = 100_000;

/// Maximum number of deleted items allowed
pub const MAX_DELETED_ITEMS: usize = 10_000;

/// Maximum ID value allowed (prevents overflow)
pub const MAX_ID_VALUE: i64 = 9223372036854775807;

/// Minimum ID value allowed
pub const MIN_ID_VALUE: i64 = 1;

} // verus!
