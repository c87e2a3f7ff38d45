//! Logging configuration.

use vstd::prelude::*;

verus! {

/// Log target for sync API operations
pub const SYNC_API: &'static str = "sync_api";

/// Log target for sync payload debugging
pub const SYNC_PAYLOAD: &'static str = "sync_payload";

} // verus!
