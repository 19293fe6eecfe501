//! Verified core of a bulk git-repository synchronizer.
//!
//! The library models the plan/confirm/execute pipeline: probing a list of
//! repositories for their status, compiling an execution plan from the probed
//! snapshot, and classifying the outcome of each executed step.  All decision
//! logic lives here, with contracts; subprocess spawning, terminal I/O and
//! configuration discovery live in the surrounding application.

pub mod action;
pub mod config;
pub mod executor;
pub mod order;
pub mod plan;
pub mod probe;
pub mod render;
pub mod status;
pub mod text;

pub use action::{RepoAction, SyncMode};
pub use status::{Existence, RepoStatus};
