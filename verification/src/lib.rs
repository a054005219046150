//! Decision core of a fork supervisor: a command forks a worker to do its
//! work, the worker reports a four-octet exit status over a one-shot channel,
//! and the invoking process terminates as soon as that status arrives,
//! without waiting for the worker's teardown.
//!
//! The crate performs no I/O. Callers execute the [`orchestrator::Action`]s
//! it hands out and report what happened as [`orchestrator::Event`]s.

pub mod arguments;
pub mod channel;
pub mod message;
pub mod orchestrator;
pub mod process;
pub mod relay;
pub mod runs;
