//! Filesystem locations of the daemon's artifacts.
//!
//! `AppPaths` resolves platform-appropriate directories through an
//! environment probe and places each artifact by its kind: ephemeral
//! files (socket, PID file, lock file) under the runtime directory,
//! the log under the state directory, configuration under the config
//! directory, with /tmp as the fallback when no probe result exists.

use vstd::prelude::*;

verus! {

use vstd::string::StringExecFns;
use crate::text::{has_suffix, join_path};

/// Application name used for directory paths.
pub const APP_NAME: &'static str = "ffit";

/// Daemon binary name.
pub const DAEMON_BINARY: &'static str = "ffit-daemon";

/// Environment variable prefix for configuration.
pub const ENV_PREFIX: &'static str = "FFIT_";

/// Default Unix domain socket path.
pub const DEFAULT_SOCKET_PATH: &'static str = "/tmp/ffit-daemon.sock";

/// Default TCP address.
pub const DEFAULT_TCP_ADDR: &'static str = "[::1]:50051";

/// Default PID file path.
pub const DEFAULT_PID_FILE: &'static str = "/tmp/ffit-daemon.pid";

/// Default lock file path.
pub const DEFAULT_LOCK_FILE: &'static str = "/tmp/ffit-daemon.lock";

/// Default log file path.
pub const DEFAULT_LOG_FILE: &'static str = "/tmp/ffit-daemon.log";

/// Default working directory for the daemon.
pub const DEFAULT_WORKDIR: &'static str = "/";

/// The platform-directory probe result of the directories crate,
/// opaque to the proofs; the accessors below read it.
#[verifier::external_type_specification]
#[verifier::external_body]
pub struct ExProjectDirs(directories::ProjectDirs);

/// Relies on directories::ProjectDirs::from: None when the environment
/// names no home directory for the current user.
#[verifier::external_body]
fn project_dirs_from(qualifier: &str, organization: &str, application: &str) -> (r: Option<
    directories::ProjectDirs,
>)
{
    directories::ProjectDirs::from(qualifier, organization, application)
}

/// Relies on directories::ProjectDirs::runtime_dir; present only on
/// platforms with a runtime directory, and dependent on the environment.
#[verifier::external_body]
fn pd_runtime_dir(d: &directories::ProjectDirs) -> (r: Option<String>)
{
    d.runtime_dir().map(|p| p.to_string_lossy().into_owned())
}

/// Relies on directories::ProjectDirs::cache_dir.
#[verifier::external_body]
fn pd_cache_dir(d: &directories::ProjectDirs) -> String {
    d.cache_dir().to_string_lossy().into_owned()
}

/// Relies on directories::ProjectDirs::state_dir; present only on
/// platforms that distinguish a state directory.
#[verifier::external_body]
fn pd_state_dir(d: &directories::ProjectDirs) -> (r: Option<String>)
{
    d.state_dir().map(|p| p.to_string_lossy().into_owned())
}

/// Relies on directories::ProjectDirs::data_local_dir.
#[verifier::external_body]
fn pd_data_local_dir(d: &directories::ProjectDirs) -> String {
    d.data_local_dir().to_string_lossy().into_owned()
}

/// Relies on directories::ProjectDirs::config_dir.
#[verifier::external_body]
fn pd_config_dir(d: &directories::ProjectDirs) -> String {
    d.config_dir().to_string_lossy().into_owned()
}

/// Platform-appropriate directories for this application, resolved once
/// from the environment.
#[derive(Debug, Clone)]
pub struct AppPaths {
    project_dirs: Option<directories::ProjectDirs>,
}

impl AppPaths {
    /// Whether the environment probe found platform directories.
    pub closed spec fn has_probe(&self) -> bool {
        self.project_dirs is Some
    }

    pub fn new() -> (r: AppPaths) {
        AppPaths { project_dirs: project_dirs_from("", "", APP_NAME) }
    }

    /// The directory for ephemeral files: the platform runtime
    /// directory, else the cache directory, else /tmp.
    pub fn runtime_dir(&self) -> (r: String)
        ensures
            !self.has_probe() ==> r@ == "/tmp"@,
    {
        match &self.project_dirs {
            Some(d) => {
                match pd_runtime_dir(d) {
                    Some(p) => p,
                    None => pd_cache_dir(d),
                }
            },
            None => {
                let r = String::from_str("/tmp");
                r
            },
        }
    }

    /// The directory for persistent state: the platform state
    /// directory, else the local data directory, else /tmp.
    pub fn state_dir(&self) -> (r: String)
        ensures
            !self.has_probe() ==> r@ == "/tmp"@,
    {
        match &self.project_dirs {
            Some(d) => {
                match pd_state_dir(d) {
                    Some(p) => p,
                    None => pd_data_local_dir(d),
                }
            },
            None => {
                let r = String::from_str("/tmp");
                r
            },
        }
    }

    /// The configuration directory, when the probe found one.
    pub fn config_dir(&self) -> (r: Option<String>)
        ensures
            r is Some <==> self.has_probe(),
    {
        match &self.project_dirs {
            Some(d) => Some(pd_config_dir(d)),
            None => None,
        }
    }

    /// The socket special file, under the runtime directory.
    pub fn socket_path(&self) -> (r: String)
        ensures
            has_suffix(r@, "/ffit.sock"@),
    {
        let dir = self.runtime_dir();
        let r = join_path(dir.as_str(), "ffit.sock");
        proof {
            reveal_strlit("ffit.sock");
            reveal_strlit("/ffit.sock");
            reveal_strlit("/");
            assert(r@.subrange(r@.len() - 10, r@.len() as int) =~= "/ffit.sock"@);
        }
        r
    }

    /// The PID file, under the runtime directory.
    pub fn pid_file(&self) -> (r: String)
        ensures
            has_suffix(r@, "/ffit.pid"@),
    {
        let dir = self.runtime_dir();
        let r = join_path(dir.as_str(), "ffit.pid");
        proof {
            reveal_strlit("ffit.pid");
            reveal_strlit("/ffit.pid");
            reveal_strlit("/");
            assert(r@.subrange(r@.len() - 9, r@.len() as int) =~= "/ffit.pid"@);
        }
        r
    }

    /// The lock file, under the runtime directory.
    pub fn lock_file(&self) -> (r: String)
        ensures
            has_suffix(r@, "/ffit.lock"@),
    {
        let dir = self.runtime_dir();
        let r = join_path(dir.as_str(), "ffit.lock");
        proof {
            reveal_strlit("ffit.lock");
            reveal_strlit("/ffit.lock");
            reveal_strlit("/");
            assert(r@.subrange(r@.len() - 10, r@.len() as int) =~= "/ffit.lock"@);
        }
        r
    }

    /// The log file, under the state directory.
    pub fn log_file(&self) -> (r: String)
        ensures
            has_suffix(r@, "/ffit.log"@),
    {
        let dir = self.state_dir();
        let r = join_path(dir.as_str(), "ffit.log");
        proof {
            reveal_strlit("ffit.log");
            reveal_strlit("/ffit.log");
            reveal_strlit("/");
            assert(r@.subrange(r@.len() - 9, r@.len() as int) =~= "/ffit.log"@);
        }
        r
    }

    /// The per-user configuration file, when a config directory exists.
    pub fn user_config_file(&self) -> (r: Option<String>)
        ensures
            r matches Some(p) ==> has_suffix(p@, "/config.toml"@),
    {
        match self.config_dir() {
            Some(dir) => {
                let p = join_path(dir.as_str(), "config.toml");
                proof {
                    reveal_strlit("config.toml");
                    reveal_strlit("/config.toml");
                    reveal_strlit("/");
                    assert(p@.subrange(p@.len() - 12, p@.len() as int) =~= "/config.toml"@);
                }
                Some(p)
            },
            None => None,
        }
    }

    /// The system-wide configuration file.
    pub fn system_config_file(&self) -> (r: String)
        ensures
            r@ == "/etc/ffit/config.toml"@,
    {
        let etc = join_path("/etc", APP_NAME);
        let r = join_path(etc.as_str(), "config.toml");
        proof {
            reveal_strlit("/etc");
            reveal_strlit("ffit");
            reveal_strlit("config.toml");
            reveal_strlit("/");
            reveal_strlit("/etc/ffit/config.toml");
            assert(r@ =~= "/etc/ffit/config.toml"@);
        }
        r
    }
}

impl Default for AppPaths {
    fn default() -> Self {
        Self::new()
    }
}

/// Default socket path.
pub fn default_socket_path() -> (r: String)
    ensures
        r@ == DEFAULT_SOCKET_PATH@,
{
    String::from_str(DEFAULT_SOCKET_PATH)
}

/// Default PID file path.
pub fn default_pid_file() -> (r: String)
    ensures
        r@ == DEFAULT_PID_FILE@,
{
    String::from_str(DEFAULT_PID_FILE)
}

/// Default lock file path.
pub fn default_lock_file() -> (r: String)
    ensures
        r@ == DEFAULT_LOCK_FILE@,
{
    String::from_str(DEFAULT_LOCK_FILE)
}

/// Default log file path.
pub fn default_log_file() -> (r: String)
    ensures
        r@ == DEFAULT_LOG_FILE@,
{
    String::from_str(DEFAULT_LOG_FILE)
}

/// Default working directory.
pub fn default_workdir() -> (r: String)
    ensures
        r@ == DEFAULT_WORKDIR@,
{
    String::from_str(DEFAULT_WORKDIR)
}

/// Default TCP address.
pub fn default_tcp_addr() -> (r: String)
    ensures
        r@ == DEFAULT_TCP_ADDR@,
{
    String::from_str(DEFAULT_TCP_ADDR)
}

} // verus!
