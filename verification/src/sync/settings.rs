//! User settings.

pub mod model;
