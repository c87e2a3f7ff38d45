//! Chapter update entries.

pub mod model;
