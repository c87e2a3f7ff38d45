//! Reading history entries.

pub mod model;
