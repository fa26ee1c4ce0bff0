//! Deployment pipeline with versioned rollback.
//!
//! The library holds the verified core of a local build-deploy-rollback
//! workflow: a model of the versioned deployment root (version directories
//! ordered newest-first plus a `current` pointer), the rollback and retention
//! rules that operate on it, the deploy-method dispatch, and the pipeline
//! state machine that sequences build, verify, deploy, rollback and prune.
//! The process execution and filesystem work that mirrors the model onto
//! disk lives outside the library.

pub mod builder;
pub mod command;
pub mod config;
pub mod deploy;
pub mod errors;
pub mod pipeline;
mod probe;
pub mod store;

use vstd::prelude::*;

verus! {

} // verus!
