//! Bulk upsert configuration.

use vstd::prelude::*;

verus! {

/// Environment variable for chunk size
pub const ENV_CHUNK_SIZE: &'static str = "BULK_UPSERT_CHUNK_SIZE";

/// Environment variable for concurrency
pub const ENV_CONCURRENCY: &'static str = "BULK_UPSERT_CONCURRENCY";

/// Default chunk size
pub const DEFAULT_CHUNK_SIZE: usize = 50;

/// Default concurrency
pub const DEFAULT_CONCURRENCY: usize = 20;

/// Maximum chunk size allowed
pub const MAX_CHUNK_SIZE: usize = 1000;

/// Minimum chunk size allowed
pub const MIN_CHUNK_SIZE: usize = 1;

/// Maximum concurrency allowed
pub const MAX_CONCURRENCY: usize = 100;

/// Minimum concurrency allowed
pub const MIN_CONCURRENCY: usize = 1;

} // verus!
