//! A syscall-level process tracer: the decisions of the supervisor that
//! watches a traced child stop at system calls, the dispatch table that binds
//! handlers to syscall numbers, and the built-in handlers that log the buffers
//! of `read` and `write` calls.
//!
//! Everything that has to block or touch the file system (waiting for the
//! child, appending to a log file, replacing the process image) is left to the
//! caller, which drives this library one event at a time.

pub mod conf;
pub mod launcher;
pub mod plugin;
pub mod regs;
pub mod supervisor;
