//! Synchronization of the client library with the server.

pub mod error;
pub mod extractor;
pub mod handler;
pub mod history;
pub mod manga;
pub mod model;
pub mod service;
pub mod settings;
pub mod update;
pub mod validation;
