//! Execution driver of a Lua linter: configuration resolution, target
//! expansion, per-file result handling and the run summary.

pub mod summary;
pub mod diagnostics;
pub mod resolve;
pub mod targets;
pub mod source;
