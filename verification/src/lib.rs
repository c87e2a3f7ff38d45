//! Verified core of the Mangayomi sync server: configuration resolution,
//! payload validation, sync planning and the pure parts of account handling.

pub mod config;
pub mod db;
pub mod diagnostics;
pub mod http_constants;
pub mod oid;
pub mod sync;
pub mod text;
pub mod user;
