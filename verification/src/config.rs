//! The resolved pipeline configuration, consumed read-only per run.
//!
//! Loading and saving the on-disk representation belongs to the
//! configuration collaborator outside the library; the library only
//! defines the shape and the default values.

use vstd::prelude::*;

use crate::probe::path_exists;

verus! {

/// Repository watching: where the repository lives and which branch is
/// deployed.
pub struct WatchConfig {
    pub repo_path: String,
    pub branch: String,
}

/// The build command line.
pub struct BuildConfig {
    pub command: String,
}

/// Deploy mode: an external command, or artifacts copied under a target
/// root.  Command mode takes priority when both are configured.
pub struct DeployConfig {
    pub command: Option<String>,
    pub target_dir: Option<String>,
    pub artifacts: Option<Vec<String>>,
}

/// Remote synchronization after a successful deploy.
pub struct SyncConfig {
    pub enabled: bool,
    pub remote: String,
    pub branch: String,
}

/// Rollback-on-failure policy and the retention count.
pub struct RollbackConfig {
    pub enabled: bool,
    pub keep_versions: usize,
}

/// Log sink settings, consumed by the logging collaborator.
pub struct LogConfig {
    pub file: String,
    pub level: String,
}

/// One run's resolved configuration.
pub struct Config {
    pub watch: WatchConfig,
    pub build: BuildConfig,
    pub deploy: DeployConfig,
    pub sync: SyncConfig,
    pub rollback: RollbackConfig,
    pub log: LogConfig,
}

impl Config {
    /// The default configuration: build with cargo, deploy the release
    /// binary under /opt/deploy, sync and rollback enabled, three versions
    /// kept.
    pub fn default() -> (c: Config)
        ensures
            c.watch.repo_path@ == "."@,
            c.watch.branch@ == "main"@,
            c.build.command@ == "cargo build --release"@,
            c.deploy.command is None,
            c.deploy.target_dir matches Some(t) && t@ == "/opt/deploy"@,
            c.deploy.artifacts matches Some(a) && a@.len() == 1 && a@[0]@
                == "target/release/my-app"@,
            c.sync.enabled,
            c.sync.remote@ == "origin"@,
            c.sync.branch@ == "main"@,
            c.rollback.enabled,
            c.rollback.keep_versions == 3,
            c.log.file@ == "ploop.log"@,
            c.log.level@ == "info"@,
    {
        let mut artifacts: Vec<String> = Vec::new();
        artifacts.push(String::from_str("target/release/my-app"));
        Config {
            watch: WatchConfig {
                repo_path: String::from_str("."),
                branch: String::from_str("main"),
            },
            build: BuildConfig { command: String::from_str("cargo build --release") },
            deploy: DeployConfig {
                command: None,
                target_dir: Some(String::from_str("/opt/deploy")),
                artifacts: Some(artifacts),
            },
            sync: SyncConfig {
                enabled: true,
                remote: String::from_str("origin"),
                branch: String::from_str("main"),
            },
            rollback: RollbackConfig { enabled: true, keep_versions: 3 },
            log: LogConfig { file: String::from_str("ploop.log"), level: String::from_str("info") },
        }
    }

    /// Whether a configuration file exists at the given path; probed on
    /// disk, so nothing is promised of the result.
    pub fn exists_at(path: &str) -> bool {
        path_exists(path)
    }
}

} // verus!
