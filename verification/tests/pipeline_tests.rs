use postloop::builder::first_absent;
use postloop::builder::verify_artifacts;
use postloop::errors::PipelineError;
use postloop::pipeline::handle_deploy_failure;
use postloop::pipeline::Action;
use postloop::pipeline::Policy;
use postloop::pipeline::Run;
use postloop::pipeline::Stage;
use postloop::store::Version;
use postloop::store::VersionStore;

fn all_on() -> Policy {
    Policy { verify_artifacts: true, rollback_enabled: true, file_mode: true, sync_enabled: true }
}

#[test]
fn successful_run_visits_every_stage() {
    let (mut run, mut action) = Run::start(all_on());
    assert_eq!(action, Action::RunBuild);
    action = run.step(true);
    assert_eq!(action, Action::RunVerify);
    action = run.step(true);
    assert_eq!(action, Action::RunDeploy);
    action = run.step(true);
    assert_eq!(action, Action::RunPrune);
    // A pruning failure is a warning: the run continues to sync.
    action = run.step(false);
    assert_eq!(action, Action::RunSync);
    // A sync failure is a warning too: the run still succeeds.
    action = run.step(false);
    assert_eq!(action, Action::Finish);
    assert_eq!(run.stage, Stage::Done);
    assert!(run.succeeded());
    assert!(!run.rollback_attempted);
}

#[test]
fn minimal_policy_goes_straight_through() {
    // Command-mode deploy: no verify, no prune, no sync.
    let policy = Policy {
        verify_artifacts: false,
        rollback_enabled: false,
        file_mode: false,
        sync_enabled: false,
    };
    let (mut run, mut action) = Run::start(policy);
    assert_eq!(action, Action::RunBuild);
    action = run.step(true);
    assert_eq!(action, Action::RunDeploy);
    action = run.step(true);
    assert_eq!(action, Action::Finish);
    assert!(run.succeeded());
}

#[test]
fn build_failure_ends_the_run_without_rollback() {
    let (mut run, _) = Run::start(all_on());
    let action = run.step(false);
    assert_eq!(action, Action::Finish);
    assert_eq!(run.stage, Stage::Done);
    assert_eq!(run.failed_stage, Some(Stage::Building));
    assert!(!run.succeeded());
    assert!(!run.rollback_attempted);
}

#[test]
fn verify_failure_ends_the_run_without_rollback() {
    let (mut run, _) = Run::start(all_on());
    run.step(true);
    let action = run.step(false);
    assert_eq!(action, Action::Finish);
    assert_eq!(run.failed_stage, Some(Stage::Verifying));
    assert!(!run.rollback_attempted);
}

#[test]
fn deploy_failure_rolls_back_when_policy_allows() {
    let (mut run, _) = Run::start(all_on());
    run.step(true);
    run.step(true);
    let action = run.step(false);
    assert_eq!(action, Action::RunRollback);
    assert_eq!(run.failed_stage, Some(Stage::Deploying));
    // The rollback outcome is recorded; the deploy failure stays terminal.
    let action = run.step(true);
    assert_eq!(action, Action::Finish);
    assert!(run.rollback_attempted);
    assert!(run.rollback_succeeded);
    assert!(!run.succeeded());
}

#[test]
fn deploy_failure_without_file_mode_skips_rollback() {
    let policy = Policy {
        verify_artifacts: false,
        rollback_enabled: true,
        file_mode: false,
        sync_enabled: false,
    };
    let (mut run, _) = Run::start(policy);
    run.step(true);
    let action = run.step(false);
    assert_eq!(action, Action::Finish);
    assert_eq!(run.failed_stage, Some(Stage::Deploying));
    assert!(!run.rollback_attempted);
}

fn entry(label: &str, created_at: u64) -> Version {
    Version { label: label.to_string(), created_at }
}

#[test]
fn deploy_failure_isolation_with_rollback() {
    // The failed attempt already created c3, the newest entry; the version
    // live before it was c2.
    let mut s = VersionStore::from_listing(
        true,
        vec![entry("c3", 3), entry("c2", 2), entry("c1", 1)],
        Some("c2".to_string()),
    );
    let rolled = handle_deploy_failure(&mut s, true, true);
    assert_eq!(rolled, Some("c2".to_string()));
    assert_eq!(s.current, Some("c2".to_string()));
}

#[test]
fn deploy_failure_isolation_without_rollback() {
    let mut s = VersionStore::from_listing(
        true,
        vec![entry("c3", 3), entry("c2", 2)],
        None,
    );
    // Rollback disabled: the store stays exactly as the failed deploy
    // left it, the pointer possibly absent.
    let rolled = handle_deploy_failure(&mut s, false, true);
    assert_eq!(rolled, None);
    assert_eq!(s.current, None);
    assert_eq!(s.list_versions(), vec!["c3", "c2"]);
}

#[test]
fn deploy_failure_with_one_version_cannot_roll_back() {
    let mut s = VersionStore::from_listing(true, vec![entry("c1", 1)], Some("c1".to_string()));
    let rolled = handle_deploy_failure(&mut s, true, true);
    assert_eq!(rolled, None);
    assert_eq!(s.current, Some("c1".to_string()));
}

#[test]
fn first_absent_finds_the_first_gap() {
    assert_eq!(first_absent(&vec![true, true, false, true, false]), Some(2));
    assert_eq!(first_absent(&vec![false]), Some(0));
    assert_eq!(first_absent(&vec![true, true]), None);
    assert_eq!(first_absent(&vec![]), None);
}

#[test]
fn verify_artifacts_reports_a_missing_one() {
    let artifacts = vec!["tmp".to_string()];
    assert_eq!(verify_artifacts(&artifacts, &"/".to_string()), Ok(()));

    let absent = vec!["tmp".to_string(), "no/such/artifact".to_string()];
    assert_eq!(
        verify_artifacts(&absent, &"/".to_string()),
        Err(PipelineError::ArtifactMissing("no/such/artifact".to_string()))
    );
}

#[test]
fn io_error_carries_its_message() {
    let e = PipelineError::IoError("disk full".to_string());
    assert_eq!(e.clone(), PipelineError::IoError("disk full".to_string()));
    assert_ne!(e, PipelineError::IoError("in use".to_string()));
}
