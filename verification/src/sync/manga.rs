//! Library entries: categories, manga, chapters and trackers.

pub mod model;
