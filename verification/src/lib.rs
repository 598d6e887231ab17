//! Run several shell commands concurrently, stream their output lines with an
//! optional colored label prefix, and stop every still-running command when a
//! single cancellation signal fires.
//!
//! The verified library holds the task-control logic: command-spec parsing,
//! the cancellation state, the kill decision of the per-task race, and the
//! line splitting and formatting of the output pipeline. The surrounding
//! binary does the process spawning and the asynchronous plumbing.

pub mod color;
pub mod control;
pub mod lines;
pub mod parse;
pub mod runner;
