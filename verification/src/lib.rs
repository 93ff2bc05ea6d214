//! A fixed-size worker pool, verified at the level of its coordination logic.
//!
//! The pool accepts opaque, run-once jobs from producers and hands each to
//! exactly one of a fixed set of workers, in submission order. The modules
//! here hold the verified model of that coordination: construction (including
//! the policy for a worker that fails to start), the job queue's hand-off
//! discipline, each worker's run loop as a state machine, and teardown.
//! The surrounding program drives real threads and a real channel by the
//! decisions these functions make.

pub mod error;
pub mod worker;
pub mod builder;
pub mod pool;
pub mod routes;
