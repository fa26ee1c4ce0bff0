use postloop::deploy::base_name;
use postloop::deploy::deploy;
use postloop::deploy::stage_file_deploy;
use postloop::deploy::DeployMethod;
use postloop::errors::PipelineError;
use postloop::store::VersionStore;

#[test]
fn deploy_prefers_the_command() {
    let r = deploy(
        &Some("scp app host:".to_string()),
        &Some(vec!["bin/app".to_string()]),
        &Some("/opt/deploy".to_string()),
    );
    assert_eq!(r, Ok(DeployMethod::Command { command: "scp app host:".to_string() }));
}

#[test]
fn deploy_falls_back_to_files() {
    let r = deploy(&None, &Some(vec!["bin/app".to_string()]), &Some("/opt/deploy".to_string()));
    assert_eq!(
        r,
        Ok(DeployMethod::Files {
            artifacts: vec!["bin/app".to_string()],
            target_dir: "/opt/deploy".to_string(),
        })
    );
}

#[test]
fn deploy_without_a_method_fails() {
    assert_eq!(
        deploy(&None, &Some(vec!["bin/app".to_string()]), &None),
        Err(PipelineError::NoDeployMethodConfigured)
    );
    assert_eq!(
        deploy(&None, &None, &Some("/opt/deploy".to_string())),
        Err(PipelineError::NoDeployMethodConfigured)
    );
    assert_eq!(deploy(&None, &None, &None), Err(PipelineError::NoDeployMethodConfigured));
}

#[test]
fn base_name_takes_the_last_segment() {
    assert_eq!(base_name("bin/app"), "app");
    assert_eq!(base_name("target/release/my-app"), "my-app");
    assert_eq!(base_name("app"), "app");
    assert_eq!(base_name("bin/"), "");
    assert_eq!(base_name(""), "");
}

#[test]
fn deploy_then_redeploy_same_commit_keeps_one_directory() {
    // Deploying commit abc123 with artifact bin/app plans a copy to
    // <target>/abc123/app and then repoints current there.
    let mut s = VersionStore::empty(true);
    let artifacts = vec!["bin/app".to_string()];
    let plan = stage_file_deploy(&mut s, &artifacts, &vec![true], &"abc123".to_string(), 1);
    assert_eq!(plan, Ok(vec!["app".to_string()]));
    assert_eq!(s.set_current(&"abc123".to_string()), Ok(()));
    assert_eq!(s.current, Some("abc123".to_string()));
    assert_eq!(s.list_versions(), vec!["abc123"]);

    // Redeploying the same commit overwrites in place: no duplicate.
    let plan2 = stage_file_deploy(&mut s, &artifacts, &vec![true], &"abc123".to_string(), 2);
    assert_eq!(plan2, Ok(vec!["app".to_string()]));
    assert_eq!(s.set_current(&"abc123".to_string()), Ok(()));
    assert_eq!(s.list_versions(), vec!["abc123"]);
    assert_eq!(s.current, Some("abc123".to_string()));
}

#[test]
fn staging_fails_on_the_first_absent_artifact() {
    let mut s = VersionStore::empty(true);
    let artifacts = vec!["bin/app".to_string(), "bin/missing".to_string()];
    let r = stage_file_deploy(&mut s, &artifacts, &vec![true, false], &"c1".to_string(), 1);
    assert_eq!(r, Err(PipelineError::ArtifactMissing("bin/missing".to_string())));
    // The version directory was already created; current is untouched.
    assert_eq!(s.list_versions(), vec!["c1"]);
    assert_eq!(s.current, None);
}

#[test]
fn staging_rejects_a_path_with_no_base_name() {
    let mut s = VersionStore::empty(true);
    let artifacts = vec!["bin/".to_string()];
    let r = stage_file_deploy(&mut s, &artifacts, &vec![true], &"c1".to_string(), 1);
    assert_eq!(r, Err(PipelineError::InvalidArtifactPath("bin/".to_string())));
}

#[test]
fn staging_rejects_relative_path_components() {
    // A path ending in `.` or `..` names no file of its own; copying
    // under it would escape the version directory.
    let mut s = VersionStore::empty(true);
    let dotdot = vec!["bin/..".to_string()];
    let r = stage_file_deploy(&mut s, &dotdot, &vec![true], &"c1".to_string(), 1);
    assert_eq!(r, Err(PipelineError::InvalidArtifactPath("bin/..".to_string())));

    let dot = vec!["bin/.".to_string()];
    let r = stage_file_deploy(&mut s, &dot, &vec![true], &"c1".to_string(), 2);
    assert_eq!(r, Err(PipelineError::InvalidArtifactPath("bin/.".to_string())));

    let bare = vec!["..".to_string()];
    let r = stage_file_deploy(&mut s, &bare, &vec![true], &"c1".to_string(), 3);
    assert_eq!(r, Err(PipelineError::InvalidArtifactPath("..".to_string())));
}
