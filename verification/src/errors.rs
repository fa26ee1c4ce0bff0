//! Error taxonomy of the deployment pipeline.

use vstd::prelude::*;

verus! {

/// Everything that can go wrong in one pipeline run.
///
/// Command execution failures carry the captured stderr; lookup failures
/// carry the path or label that was not found.
#[derive(Debug, Clone, PartialEq, Eq)]
pub enum PipelineError {
    /// The command line had no tokens after whitespace tokenization.
    EmptyCommand,
    /// The program could not be launched (not found, permission denied).
    SpawnError(String),
    /// The process exited with a failure status; carries captured stderr.
    NonZeroExit(String),
    /// An expected build or deploy artifact was absent; carries its path.
    ArtifactMissing(String),
    /// An artifact path has no base file name to copy under.
    InvalidArtifactPath(String),
    /// Neither a deploy command nor artifacts-plus-target were configured.
    NoDeployMethodConfigured,
    /// A repoint named a version directory that does not exist.
    TargetNotFound(String),
    /// An explicit rollback named a version that does not exist.
    VersionNotFound(String),
    /// Fewer than two versions exist, so no predecessor to roll back to.
    NoPreviousVersion,
    /// A generic filesystem failure (permission, disk full, in use).
    IoError(String),
}

} // verus!
