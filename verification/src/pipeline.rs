//! The pipeline orchestrator: one run's state machine.
//!
//! A run sequences build, optional artifact verification, deploy, then on
//! deploy failure at most one rollback attempt, and on deploy success
//! optional pruning and optional remote synchronization.  The machine here
//! owns every decision; the caller performs each returned action (run the
//! build, copy the files, push to the remote) and reports back whether it
//! succeeded.

use vstd::prelude::*;

use crate::errors::PipelineError;
use crate::store::VersionStore;

verus! {

/// The stages a run passes through, in order.
#[derive(Debug, Clone, Copy, PartialEq, Eq, Structural)]
pub enum Stage {
    Building,
    Verifying,
    Deploying,
    RollingBack,
    Pruning,
    Syncing,
    Done,
}

/// What the caller is to do next.
#[derive(Debug, Clone, Copy, PartialEq, Eq, Structural)]
pub enum Action {
    RunBuild,
    RunVerify,
    RunDeploy,
    RunRollback,
    RunPrune,
    RunSync,
    Finish,
}

/// The per-run policy, resolved from the configuration: whether artifact
/// verification, rollback-plus-pruning, file-mode deployment and remote
/// sync apply.
#[derive(Debug, Clone, Copy, PartialEq, Eq, Structural)]
pub struct Policy {
    /// Artifacts are configured, so they are verified after the build.
    pub verify_artifacts: bool,
    /// Rollback on deploy failure, and pruning after deploy success.
    pub rollback_enabled: bool,
    /// A target root is configured: deployment owns version state, so a
    /// rollback can mean something.
    pub file_mode: bool,
    /// Push to the remote after a successful deploy.
    pub sync_enabled: bool,
}

/// One run of the pipeline.
#[derive(Debug, Clone, Copy, PartialEq, Eq, Structural)]
pub struct Run {
    pub policy: Policy,
    pub stage: Stage,
    /// The stage whose failure decides the run, if one failed: building,
    /// verifying or deploying.  Rollback, prune and sync failures are
    /// downgraded to warnings and never recorded here.
    pub failed_stage: Option<Stage>,
    /// Whether a rollback was attempted.
    pub rollback_attempted: bool,
    /// Whether the attempted rollback succeeded.
    pub rollback_succeeded: bool,
}

impl Run {
    /// A run's bookkeeping is consistent with its policy and history.
    pub open spec fn wf(self) -> bool {
        &&& (self.failed_stage matches Some(st) ==> st == Stage::Building || st
            == Stage::Verifying || st == Stage::Deploying)
        &&& (self.rollback_attempted ==> self.failed_stage == Some(Stage::Deploying)
            && self.policy.rollback_enabled && self.policy.file_mode)
        &&& (self.rollback_succeeded ==> self.rollback_attempted)
        &&& (self.stage == Stage::Verifying ==> self.policy.verify_artifacts
            && self.failed_stage is None)
        &&& (self.stage == Stage::Deploying ==> self.failed_stage is None)
        &&& (self.stage == Stage::Building ==> self.failed_stage is None
            && !self.rollback_attempted)
        &&& (self.stage == Stage::RollingBack ==> self.failed_stage == Some(Stage::Deploying)
            && self.policy.rollback_enabled && self.policy.file_mode && !self.rollback_attempted)
        &&& (self.stage == Stage::Pruning ==> self.failed_stage is None
            && self.policy.rollback_enabled && self.policy.file_mode)
        &&& (self.stage == Stage::Syncing ==> self.failed_stage is None
            && self.policy.sync_enabled)
    }

    /// The terminal result: the run succeeded unless building, verifying
    /// or deploying failed.  Rollback, prune and sync outcomes never
    /// change it.
    pub open spec fn spec_succeeded(self) -> bool {
        self.failed_stage is None
    }

    /// Whether the finished run succeeded.
    pub fn succeeded(&self) -> (r: bool)
        ensures
            r == self.spec_succeeded(),
    {
        self.failed_stage.is_none()
    }

    /// Start a run: it begins by building.
    pub fn start(policy: Policy) -> (r: (Run, Action))
        ensures
            r.0.wf(),
            r.0.policy == policy,
            r.0.stage == Stage::Building,
            r.0.spec_succeeded(),
            !r.0.rollback_attempted,
            r.1 == Action::RunBuild,
    {
        (
            Run {
                policy,
                stage: Stage::Building,
                failed_stage: None,
                rollback_attempted: false,
                rollback_succeeded: false,
            },
            Action::RunBuild,
        )
    }

    /// The transition taken when the pending action reports back.
    ///
    /// Build or verify failure ends the run with no rollback: nothing was
    /// deployed yet.  Deploy failure triggers a rollback attempt exactly
    /// when rollback is enabled and a target root is configured; the
    /// rollback's own outcome is recorded but the deploy failure stays the
    /// terminal result.  Deploy success leads to pruning when rollback
    /// bookkeeping is on, then to sync when enabled; their failures are
    /// warnings only.
    pub open spec fn step_spec(self, ok: bool) -> (Run, Action) {
        match self.stage {
            Stage::Building => {
                if !ok {
                    (
                        Run { stage: Stage::Done, failed_stage: Some(Stage::Building), ..self },
                        Action::Finish,
                    )
                } else if self.policy.verify_artifacts {
                    (Run { stage: Stage::Verifying, ..self }, Action::RunVerify)
                } else {
                    (Run { stage: Stage::Deploying, ..self }, Action::RunDeploy)
                }
            },
            Stage::Verifying => {
                if !ok {
                    (
                        Run { stage: Stage::Done, failed_stage: Some(Stage::Verifying), ..self },
                        Action::Finish,
                    )
                } else {
                    (Run { stage: Stage::Deploying, ..self }, Action::RunDeploy)
                }
            },
            Stage::Deploying => {
                if !ok {
                    if self.policy.rollback_enabled && self.policy.file_mode {
                        (
                            Run {
                                stage: Stage::RollingBack,
                                failed_stage: Some(Stage::Deploying),
                                ..self
                            },
                            Action::RunRollback,
                        )
                    } else {
                        (
                            Run { stage: Stage::Done, failed_stage: Some(Stage::Deploying), ..self },
                            Action::Finish,
                        )
                    }
                } else if self.policy.rollback_enabled && self.policy.file_mode {
                    (Run { stage: Stage::Pruning, ..self }, Action::RunPrune)
                } else if self.policy.sync_enabled {
                    (Run { stage: Stage::Syncing, ..self }, Action::RunSync)
                } else {
                    (Run { stage: Stage::Done, ..self }, Action::Finish)
                }
            },
            Stage::RollingBack => (
                Run {
                    stage: Stage::Done,
                    rollback_attempted: true,
                    rollback_succeeded: ok,
                    ..self
                },
                Action::Finish,
            ),
            Stage::Pruning => {
                if self.policy.sync_enabled {
                    (Run { stage: Stage::Syncing, ..self }, Action::RunSync)
                } else {
                    (Run { stage: Stage::Done, ..self }, Action::Finish)
                }
            },
            Stage::Syncing => (Run { stage: Stage::Done, ..self }, Action::Finish),
            Stage::Done => (self, Action::Finish),
        }
    }

    /// Advance the run on the reported outcome of the pending action.
    pub fn step(&mut self, ok: bool) -> (action: Action)
        requires
            old(self).wf(),
        ensures
            (*final(self), action) == old(self).step_spec(ok),
            final(self).wf(),
            final(self).policy == old(self).policy,
            old(self).stage == Stage::Done ==> *final(self) == *old(self),
    {
        let next = match self.stage {
            Stage::Building => {
                if !ok {
                    self.failed_stage = Some(Stage::Building);
                    self.stage = Stage::Done;
                    Action::Finish
                } else if self.policy.verify_artifacts {
                    self.stage = Stage::Verifying;
                    Action::RunVerify
                } else {
                    self.stage = Stage::Deploying;
                    Action::RunDeploy
                }
            },
            Stage::Verifying => {
                if !ok {
                    self.failed_stage = Some(Stage::Verifying);
                    self.stage = Stage::Done;
                    Action::Finish
                } else {
                    self.stage = Stage::Deploying;
                    Action::RunDeploy
                }
            },
            Stage::Deploying => {
                if !ok {
                    self.failed_stage = Some(Stage::Deploying);
                    if self.policy.rollback_enabled && self.policy.file_mode {
                        self.stage = Stage::RollingBack;
                        Action::RunRollback
                    } else {
                        self.stage = Stage::Done;
                        Action::Finish
                    }
                } else if self.policy.rollback_enabled && self.policy.file_mode {
                    self.stage = Stage::Pruning;
                    Action::RunPrune
                } else if self.policy.sync_enabled {
                    self.stage = Stage::Syncing;
                    Action::RunSync
                } else {
                    self.stage = Stage::Done;
                    Action::Finish
                }
            },
            Stage::RollingBack => {
                self.rollback_attempted = true;
                self.rollback_succeeded = ok;
                self.stage = Stage::Done;
                Action::Finish
            },
            Stage::Pruning => {
                if self.policy.sync_enabled {
                    self.stage = Stage::Syncing;
                    Action::RunSync
                } else {
                    self.stage = Stage::Done;
                    Action::Finish
                }
            },
            Stage::Syncing => {
                self.stage = Stage::Done;
                Action::Finish
            },
            Stage::Done => Action::Finish,
        };
        next
    }
}

/// Handle a deploy failure against the version store, as the orchestrator
/// does: attempt one rollback to the predecessor exactly when rollback is
/// enabled and the deployment is file-mode, and return the label rolled
/// back to when the attempt succeeds.
///
/// Law (failure isolation): with rollback enabled in file mode and at
/// least two versions recorded, the failed deploy standing newest, the
/// `current` pointer ends on the second-newest version, the one live
/// before the failed attempt; in every other case the store, pointer
/// included, is left exactly as the failed deploy left it.
pub fn handle_deploy_failure(store: &mut VersionStore, rollback_enabled: bool, file_mode: bool) -> (r:
    Option<String>)
    requires
        old(store).wf(),
    ensures
        final(store).wf(),
        final(store).versions == old(store).versions,
        final(store).root_exists == old(store).root_exists,
        !(rollback_enabled && file_mode) ==> *final(store) == *old(store) && r is None,
        rollback_enabled && file_mode && old(store).versions@.len() < 2 ==> *final(store) == *old(
            store,
        ) && r is None,
        rollback_enabled && file_mode && old(store).versions@.len() >= 2 ==> r == Some(
            old(store).versions@[1].label,
        ) && final(store).current == Some(old(store).versions@[1].label)
            && final(store).current_valid(),
{
    if rollback_enabled && file_mode {
        match store.rollback_to_previous() {
            Ok(label) => Some(label),
            Err(_) => None,
        }
    } else {
        None
    }
}

} // verus!
