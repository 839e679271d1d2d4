//! Dependency-driven task execution core.
//!
//! A fixed set of named systems runs forever against a shared world: each
//! system waits until every upstream dependency has published a fresh
//! completion, executes once, publishes its own completion downstream, and
//! repeats. This crate holds the verified core of that machinery: the
//! capability interface for running a system, the coalescing completion
//! signal, the per-system driver state machine, and the error taxonomy.

pub mod driver;
pub mod error;
pub mod run;
pub mod signal;
