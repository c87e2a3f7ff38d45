//! User accounts: the account records, their validation, password handling
//! and the decisions of the account operations.

pub mod extractor;
pub mod model;
pub mod service;
