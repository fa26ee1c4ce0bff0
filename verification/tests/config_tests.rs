use postloop::config::Config;

#[test]
fn config_test_default_config() {
    let config = Config::default();
    assert_eq!(config.watch.branch, "main");
    assert_eq!(config.build.command, "cargo build --release");
    assert_eq!(config.sync.enabled, true);
    assert_eq!(config.rollback.keep_versions, 3);
}

#[test]
fn config_test_test_default_config() {
    let config = Config::default();
    assert_eq!(config.watch.repo_path, ".");
    assert_eq!(config.watch.branch, "main");
    assert_eq!(config.build.command, "cargo build --release");
    assert!(config.sync.enabled);
    assert_eq!(config.rollback.keep_versions, 3);
}

#[test]
fn test_config_exists() {
    assert!(!Config::exists_at("/nonexistent/path/deploy.toml"));
}

#[test]
fn default_config_deploy_section() {
    let config = Config::default();
    assert_eq!(config.deploy.command, None);
    assert_eq!(config.deploy.target_dir.as_deref(), Some("/opt/deploy"));
    assert_eq!(
        config.deploy.artifacts,
        Some(vec!["target/release/my-app".to_string()])
    );
    assert_eq!(config.sync.remote, "origin");
    assert_eq!(config.sync.branch, "main");
    assert!(config.rollback.enabled);
    assert_eq!(config.log.file, "ploop.log");
    assert_eq!(config.log.level, "info");
}
