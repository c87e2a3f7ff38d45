//! Database-side logic: bulk upsert strategy and result bookkeeping, and the
//! checks of the database utilities.

pub mod bulk_upsert;
pub mod utils;
