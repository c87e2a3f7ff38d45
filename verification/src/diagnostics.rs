//! Log lines that the library composes and the application emits.

use vstd::prelude::*;

verus! {

/// Severity of a log line.
#[derive(PartialEq, Eq, Structural, Clone, Copy, Debug)]
pub enum LogLevel {
    Debug,
    Info,
    Warn,
    Error,
}

/// A composed log line: its severity, its target and its text.
pub struct LogLine {
    pub level: LogLevel,
    pub target: &'static str,
    pub message: String,
}

} // verus!
