//! Resolved configuration of the daemon and of the control tool.
//!
//! Values are layered, lowest priority first: built-in defaults, the
//! system configuration file, the user configuration file, environment
//! variables, and finally command-line arguments.

use vstd::prelude::*;

use figment::providers::Format;

verus! {

use vstd::string::StringExecFns;
use crate::errors::CtlError;
use crate::errors::DaemonError;
use crate::paths::{
    AppPaths, APP_NAME, DEFAULT_LOCK_FILE, DEFAULT_LOG_FILE, DEFAULT_PID_FILE,
    DEFAULT_SOCKET_PATH, DEFAULT_TCP_ADDR, DEFAULT_WORKDIR, ENV_PREFIX, default_lock_file,
    default_log_file, default_pid_file, default_socket_path, default_tcp_addr, default_workdir,
};
use crate::text::{has_prefix, has_suffix, join_path, str_has_prefix};

/// Connection timeout for control-channel clients, in seconds.
pub const CONNECT_TIMEOUT_SECS: u64 = 3;

/// Placeholder URI handed to the RPC library for local-socket
/// connections: such a connection needs a syntactically valid URI whose
/// content is otherwise ignored.
pub const UDS_DUMMY_URI: &'static str = "http://[::1]:50051";

/// Attempts made to verify daemon startup.
pub const DAEMON_START_RETRIES: u32 = 10;

/// Interval between startup polls, in milliseconds.
pub const DAEMON_START_POLL_INTERVAL_MS: u16 = 100;

/// Attempts granted to a graceful shutdown.
pub const GRACEFUL_SHUTDOWN_ATTEMPTS: u32 = 30;

/// Interval between shutdown polls, in milliseconds.
pub const SHUTDOWN_POLL_INTERVAL_MS: u16 = 100;

/// What converting an address to an HTTP URI yields: addresses already
/// carrying a scheme pass through, anything else gets the plain scheme
/// in front.
pub open spec fn spec_to_http_uri(addr: Seq<char>) -> Seq<char> {
    if has_prefix(addr, "http://"@) || has_prefix(addr, "https://"@) {
        addr
    } else {
        "http://"@ + addr
    }
}

/// Convert a host:port address to an HTTP URI.
pub fn to_http_uri(addr: &str) -> (r: String)
    ensures
        r@ == spec_to_http_uri(addr@),
{
    if str_has_prefix(addr, "http://") || str_has_prefix(addr, "https://") {
        String::from_str(addr)
    } else {
        let mut out = String::from_str("http://");
        out.append(addr);
        out
    }
}

/// The layered-configuration builder of the figment crate, opaque to
/// the proofs; values pass through it between the trusted calls below.
#[verifier::external_type_specification]
#[verifier::external_body]
pub struct ExFigment(figment::Figment);

/// Relies on figment::Figment::new: an empty layering of sources.
#[verifier::external_body]
fn figment_new() -> figment::Figment {
    figment::Figment::new()
}

/// Relies on figment::Figment::merge with a single-key serialized
/// default for a string value.
#[verifier::external_body]
fn figment_default_str(f: figment::Figment, key: &str, value: &str) -> figment::Figment {
    f.merge(figment::providers::Serialized::default(key, value))
}

/// Relies on figment::Figment::merge with a single-key serialized
/// default for a boolean value.
#[verifier::external_body]
fn figment_default_bool(f: figment::Figment, key: &str, value: bool) -> figment::Figment {
    f.merge(figment::providers::Serialized::default(key, value))
}

/// Relies on figment::Figment::merge with a single-key serialized
/// default for an unsigned value.
#[verifier::external_body]
fn figment_default_u64(f: figment::Figment, key: &str, value: u64) -> figment::Figment {
    f.merge(figment::providers::Serialized::default(key, value))
}

/// Relies on figment::Figment::merge with a TOML file provider; a
/// missing file contributes no values.
#[verifier::external_body]
fn figment_merge_toml(f: figment::Figment, path: &str) -> figment::Figment {
    f.merge(figment::providers::Toml::file(path))
}

/// Relies on figment::Figment::merge with an environment-variable
/// provider restricted to keys carrying the given prefix.
#[verifier::external_body]
fn figment_merge_env(f: figment::Figment, prefix: &str) -> figment::Figment {
    f.merge(figment::providers::Env::prefixed(prefix).split("_"))
}

/// Relies on figment::Figment::extract_inner for a string value.
#[verifier::external_body]
fn figment_string(f: &figment::Figment, key: &str) -> (r: Result<String, String>)
{
    f.extract_inner::<String>(key).map_err(|e| e.to_string())
}

/// Relies on figment::Figment::extract_inner for a boolean value.
#[verifier::external_body]
fn figment_bool(f: &figment::Figment, key: &str) -> (r: Result<bool, String>)
{
    f.extract_inner::<bool>(key).map_err(|e| e.to_string())
}

/// Relies on figment::Figment::extract_inner for an unsigned value.
#[verifier::external_body]
fn figment_u64(f: &figment::Figment, key: &str) -> (r: Result<u64, String>)
{
    f.extract_inner::<u64>(key).map_err(|e| e.to_string())
}

/// Relies on std::path::Path::exists; the answer reflects the
/// filesystem at the moment of the call.
#[verifier::external_body]
pub(crate) fn path_exists(path: &str) -> bool {
    std::path::Path::new(path).exists()
}

/// Relies on dirs::config_dir; the result depends on the environment.
#[verifier::external_body]
fn config_dir_probe() -> (r: Option<String>)
{
    dirs::config_dir().map(|p| p.to_string_lossy().into_owned())
}

/// Control-tool configuration.
#[derive(Debug, Clone)]
pub struct CtlConfig {
    /// PID file path.
    pub pid_file: String,
    /// Local-socket path.
    pub socket: String,
    /// Network address.
    pub tcp_addr: String,
    /// Force the network transport.
    pub tcp: bool,
    /// Connection timeout in seconds.
    pub connect_timeout_secs: u64,
}

impl Default for CtlConfig {
    fn default() -> (r: CtlConfig)
        ensures
            r.pid_file@ == DEFAULT_PID_FILE@,
            r.socket@ == DEFAULT_SOCKET_PATH@,
            r.tcp_addr@ == DEFAULT_TCP_ADDR@,
            r.tcp == false,
            r.connect_timeout_secs == CONNECT_TIMEOUT_SECS,
    {
        CtlConfig {
            pid_file: default_pid_file(),
            socket: default_socket_path(),
            tcp_addr: default_tcp_addr(),
            tcp: false,
            connect_timeout_secs: CONNECT_TIMEOUT_SECS,
        }
    }
}

impl CtlConfig {
    /// Load the configuration from defaults, configuration files and
    /// environment variables, in rising priority.
    pub fn load() -> (r: Result<CtlConfig, CtlError>)
        ensures
            r matches Err(e) ==> e matches CtlError::ConfigError(_),
    {
        let f = CtlConfig::figment();
        let pid_file = match figment_string(&f, "pid_file") {
            Ok(v) => v,
            Err(m) => {
                return Err(CtlError::ConfigError(m));
            },
        };
        let socket = match figment_string(&f, "socket") {
            Ok(v) => v,
            Err(m) => {
                return Err(CtlError::ConfigError(m));
            },
        };
        let tcp_addr = match figment_string(&f, "tcp_addr") {
            Ok(v) => v,
            Err(m) => {
                return Err(CtlError::ConfigError(m));
            },
        };
        let tcp = match figment_bool(&f, "tcp") {
            Ok(v) => v,
            Err(m) => {
                return Err(CtlError::ConfigError(m));
            },
        };
        let connect_timeout_secs = match figment_u64(&f, "connect_timeout_secs") {
            Ok(v) => v,
            Err(m) => {
                return Err(CtlError::ConfigError(m));
            },
        };
        Ok(CtlConfig { pid_file, socket, tcp_addr, tcp, connect_timeout_secs })
    }

    /// The layered sources behind `load`: defaults first, then the
    /// system file, the user file, and environment variables.
    pub fn figment() -> figment::Figment {
        let d = CtlConfig::default();
        let f = figment_new();
        let f = figment_default_str(f, "pid_file", d.pid_file.as_str());
        let f = figment_default_str(f, "socket", d.socket.as_str());
        let f = figment_default_str(f, "tcp_addr", d.tcp_addr.as_str());
        let f = figment_default_bool(f, "tcp", d.tcp);
        let f = figment_default_u64(f, "connect_timeout_secs", d.connect_timeout_secs);
        let system = CtlConfig::system_config_file();
        let f = if path_exists(system.as_str()) {
            figment_merge_toml(f, system.as_str())
        } else {
            f
        };
        let f = match CtlConfig::user_config_file() {
            Some(user) => {
                if path_exists(user.as_str()) {
                    figment_merge_toml(f, user.as_str())
                } else {
                    f
                }
            },
            None => f,
        };
        figment_merge_env(f, ENV_PREFIX)
    }

    /// Apply the command-line network-transport flag: the flag can force
    /// the network transport on, never off.
    pub fn with_tcp_flag(self, tcp: bool) -> (r: CtlConfig)
        ensures
            r.tcp == (tcp || self.tcp),
            r.pid_file@ == self.pid_file@,
            r.socket@ == self.socket@,
            r.tcp_addr@ == self.tcp_addr@,
            r.connect_timeout_secs == self.connect_timeout_secs,
    {
        CtlConfig { tcp: tcp || self.tcp, ..self }
    }

    /// The connection timeout, in seconds.
    pub fn connect_timeout(&self) -> (r: u64)
        ensures
            r == self.connect_timeout_secs,
    {
        self.connect_timeout_secs
    }

    /// The user configuration directory, when the environment names one.
    pub fn user_config_dir() -> (r: Option<String>)
        ensures
            r matches Some(p) ==> has_suffix(p@, "/ffit"@),
    {
        match config_dir_probe() {
            Some(dir) => {
                let p = join_path(dir.as_str(), APP_NAME);
                proof {
                    reveal_strlit("ffit");
                    reveal_strlit("/ffit");
                    reveal_strlit("/");
                    assert(p@.subrange(p@.len() - 5, p@.len() as int) =~= "/ffit"@);
                }
                Some(p)
            },
            None => None,
        }
    }

    /// The user configuration file, when the environment names one.
    pub fn user_config_file() -> (r: Option<String>)
        ensures
            r matches Some(p) ==> has_suffix(p@, "/config.toml"@),
    {
        match CtlConfig::user_config_dir() {
            Some(dir) => {
                let p = join_path(dir.as_str(), "config.toml");
                proof {
                    reveal_strlit("config.toml");
                    reveal_strlit("/config.toml");
                    reveal_strlit("/");
                    assert(p@.subrange(p@.len() - 12, p@.len() as int) =~= "/config.toml"@);
                }
                Some(p)
            },
            None => None,
        }
    }

    /// The system-wide configuration file.
    pub fn system_config_file() -> (r: String)
        ensures
            r@ == "/etc/ffit/config.toml"@,
    {
        AppPaths::new().system_config_file()
    }
}

/// Command-line arguments of the daemon binary, as plain values.
#[derive(Debug, Clone)]
pub struct DaemonArgs {
    /// Stay in the foreground instead of detaching.
    pub foreground: bool,
    /// Network listen address.
    pub tcp_addr: String,
    /// Local-socket path.
    pub socket: String,
    /// PID file path.
    pub pid_file: String,
    /// Log file path.
    pub log_file: String,
    /// Working directory.
    pub workdir: String,
}

/// Daemon configuration.
#[derive(Debug, Clone)]
pub struct DaemonConfig {
    /// Stay in the foreground instead of detaching.
    pub foreground: bool,
    /// Network listen address.
    pub tcp_addr: String,
    /// Local-socket path.
    pub socket: String,
    /// PID file path.
    pub pid_file: String,
    /// Lock file path.
    pub lock_file: String,
    /// Log file path, used when detached.
    pub log_file: String,
    /// Working directory once detached.
    pub workdir: String,
}

impl Default for DaemonConfig {
    fn default() -> (r: DaemonConfig)
        ensures
            r.foreground == false,
            r.tcp_addr@ == DEFAULT_TCP_ADDR@,
            r.socket@ == DEFAULT_SOCKET_PATH@,
            r.pid_file@ == DEFAULT_PID_FILE@,
            r.lock_file@ == DEFAULT_LOCK_FILE@,
            r.log_file@ == DEFAULT_LOG_FILE@,
            r.workdir@ == DEFAULT_WORKDIR@,
    {
        DaemonConfig {
            foreground: false,
            tcp_addr: default_tcp_addr(),
            socket: default_socket_path(),
            pid_file: default_pid_file(),
            lock_file: default_lock_file(),
            log_file: default_log_file(),
            workdir: default_workdir(),
        }
    }
}

impl DaemonConfig {
    /// Load the configuration from defaults, configuration files and
    /// environment variables, in rising priority.
    pub fn load() -> (r: Result<DaemonConfig, DaemonError>)
        ensures
            r matches Err(e) ==> e matches DaemonError::ConfigError(_),
    {
        let f = DaemonConfig::figment();
        let foreground = match figment_bool(&f, "foreground") {
            Ok(v) => v,
            Err(m) => {
                return Err(DaemonError::ConfigError(m));
            },
        };
        let tcp_addr = match figment_string(&f, "tcp_addr") {
            Ok(v) => v,
            Err(m) => {
                return Err(DaemonError::ConfigError(m));
            },
        };
        let socket = match figment_string(&f, "socket") {
            Ok(v) => v,
            Err(m) => {
                return Err(DaemonError::ConfigError(m));
            },
        };
        let pid_file = match figment_string(&f, "pid_file") {
            Ok(v) => v,
            Err(m) => {
                return Err(DaemonError::ConfigError(m));
            },
        };
        let lock_file = match figment_string(&f, "lock_file") {
            Ok(v) => v,
            Err(m) => {
                return Err(DaemonError::ConfigError(m));
            },
        };
        let log_file = match figment_string(&f, "log_file") {
            Ok(v) => v,
            Err(m) => {
                return Err(DaemonError::ConfigError(m));
            },
        };
        let workdir = match figment_string(&f, "workdir") {
            Ok(v) => v,
            Err(m) => {
                return Err(DaemonError::ConfigError(m));
            },
        };
        Ok(DaemonConfig { foreground, tcp_addr, socket, pid_file, lock_file, log_file, workdir })
    }

    /// The layered sources behind `load`: defaults first, then the
    /// system file, the user file, and environment variables.
    pub fn figment() -> figment::Figment {
        let d = DaemonConfig::default();
        let f = figment_new();
        let f = figment_default_bool(f, "foreground", d.foreground);
        let f = figment_default_str(f, "tcp_addr", d.tcp_addr.as_str());
        let f = figment_default_str(f, "socket", d.socket.as_str());
        let f = figment_default_str(f, "pid_file", d.pid_file.as_str());
        let f = figment_default_str(f, "lock_file", d.lock_file.as_str());
        let f = figment_default_str(f, "log_file", d.log_file.as_str());
        let f = figment_default_str(f, "workdir", d.workdir.as_str());
        let system = DaemonConfig::system_config_file();
        let f = if path_exists(system.as_str()) {
            figment_merge_toml(f, system.as_str())
        } else {
            f
        };
        let f = match DaemonConfig::user_config_file() {
            Some(user) => {
                if path_exists(user.as_str()) {
                    figment_merge_toml(f, user.as_str())
                } else {
                    f
                }
            },
            None => f,
        };
        figment_merge_env(f, ENV_PREFIX)
    }

    /// Merge command-line arguments into the configuration: a flag wins
    /// over the loaded value exactly when it differs from the built-in
    /// default, and the foreground switch can only force foreground
    /// execution on.
    pub fn with_cli_args(self, args: &DaemonArgs) -> (r: DaemonConfig)
        ensures
            r.foreground == (args.foreground || self.foreground),
            r.tcp_addr@ == if args.tcp_addr@ != DEFAULT_TCP_ADDR@ {
                args.tcp_addr@
            } else {
                self.tcp_addr@
            },
            r.socket@ == if args.socket@ != DEFAULT_SOCKET_PATH@ {
                args.socket@
            } else {
                self.socket@
            },
            r.pid_file@ == if args.pid_file@ != DEFAULT_PID_FILE@ {
                args.pid_file@
            } else {
                self.pid_file@
            },
            r.log_file@ == if args.log_file@ != DEFAULT_LOG_FILE@ {
                args.log_file@
            } else {
                self.log_file@
            },
            r.workdir@ == if args.workdir@ != DEFAULT_WORKDIR@ {
                args.workdir@
            } else {
                self.workdir@
            },
            r.lock_file@ == self.lock_file@,
    {
        let tcp_addr = if !args.tcp_addr.eq(&default_tcp_addr()) {
            args.tcp_addr.clone()
        } else {
            self.tcp_addr
        };
        let socket = if !args.socket.eq(&default_socket_path()) {
            args.socket.clone()
        } else {
            self.socket
        };
        let pid_file = if !args.pid_file.eq(&default_pid_file()) {
            args.pid_file.clone()
        } else {
            self.pid_file
        };
        let log_file = if !args.log_file.eq(&default_log_file()) {
            args.log_file.clone()
        } else {
            self.log_file
        };
        let workdir = if !args.workdir.eq(&default_workdir()) {
            args.workdir.clone()
        } else {
            self.workdir
        };
        DaemonConfig {
            foreground: args.foreground || self.foreground,
            tcp_addr,
            socket,
            pid_file,
            lock_file: self.lock_file,
            log_file,
            workdir,
        }
    }

    /// The user configuration directory, when the environment names one.
    pub fn user_config_dir() -> (r: Option<String>)
        ensures
            r matches Some(p) ==> has_suffix(p@, "/ffit"@),
    {
        match config_dir_probe() {
            Some(dir) => {
                let p = join_path(dir.as_str(), APP_NAME);
                proof {
                    reveal_strlit("ffit");
                    reveal_strlit("/ffit");
                    reveal_strlit("/");
                    assert(p@.subrange(p@.len() - 5, p@.len() as int) =~= "/ffit"@);
                }
                Some(p)
            },
            None => None,
        }
    }

    /// The user configuration file, when the environment names one.
    pub fn user_config_file() -> (r: Option<String>)
        ensures
            r matches Some(p) ==> has_suffix(p@, "/config.toml"@),
    {
        match DaemonConfig::user_config_dir() {
            Some(dir) => {
                let p = join_path(dir.as_str(), "config.toml");
                proof {
                    reveal_strlit("config.toml");
                    reveal_strlit("/config.toml");
                    reveal_strlit("/");
                    assert(p@.subrange(p@.len() - 12, p@.len() as int) =~= "/config.toml"@);
                }
                Some(p)
            },
            None => None,
        }
    }

    /// The system-wide configuration file.
    pub fn system_config_file() -> (r: String)
        ensures
            r@ == "/etc/ffit/config.toml"@,
    {
        AppPaths::new().system_config_file()
    }
}

} // verus!
