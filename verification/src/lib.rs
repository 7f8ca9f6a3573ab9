//! Decision logic of a background queue worker.
//!
//! The worker reads jobs from a stream through a response store, hands them to
//! an upstream, and retries what can be retried. This library holds every rule
//! of that worker as a verified function: how the environment is read, when a
//! failure is worth another attempt, which retries are due, and in which order
//! the loops of the worker do their work.
pub mod arith;
pub mod attempts;
pub mod claim;
pub mod config;
pub mod job;
pub mod message;
pub mod parallel;
pub mod retry;
pub mod run;
pub mod store;
pub mod text;
pub mod time;
