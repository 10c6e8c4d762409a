//! Transport bindings of the daemon.
//!
//! A listen address is one of two kinds: a network address or a
//! local-socket path.  The local-socket kind owns its filesystem
//! artifact: any stale artifact is removed before binding, and the
//! artifact is removed again after shutdown.  Binding itself happens
//! outside the library; the library decides what to bind, in which
//! order, and what to clean up.

use vstd::prelude::*;

verus! {

use vstd::string::StringExecFns;
use crate::config::path_exists;
use crate::errors::DaemonError;
use crate::process::unlink_file;

/// One transport binding: a network address or a local-socket path.
#[derive(Debug, Clone, PartialEq, Eq)]
pub enum ListenAddr {
    Tcp(String),
    Unix(String),
}

impl ListenAddr {
    /// A network binding.
    pub fn tcp(addr: String) -> (r: ListenAddr)
        ensures
            r == ListenAddr::Tcp(addr),
    {
        ListenAddr::Tcp(addr)
    }

    /// A local-socket binding.
    pub fn unix(path: String) -> (r: ListenAddr)
        ensures
            r == ListenAddr::Unix(path),
    {
        ListenAddr::Unix(path)
    }

    /// The address rendered for humans, behind its scheme.
    pub fn display_string(&self) -> (r: String)
        ensures
            self matches ListenAddr::Tcp(a) ==> r@ == "tcp://"@ + a@,
            self matches ListenAddr::Unix(p) ==> r@ == "unix://"@ + p@,
    {
        match self {
            ListenAddr::Tcp(addr) => {
                let mut out = String::from_str("tcp://");
                out.append(addr.as_str());
                out
            },
            ListenAddr::Unix(path) => {
                let mut out = String::from_str("unix://");
                out.append(path.as_str());
                out
            },
        }
    }

    /// The filesystem artifact this binding owns, if any: only a
    /// local-socket binding has one.
    pub fn artifact_path(&self) -> (r: Option<&str>)
        ensures
            self matches ListenAddr::Unix(p) ==> (r matches Some(q) && q@ == p@),
            self matches ListenAddr::Tcp(_) ==> r is None,
    {
        match self {
            ListenAddr::Tcp(_) => None,
            ListenAddr::Unix(path) => Some(path.as_str()),
        }
    }

    /// Remove a stale artifact left by an earlier run, so that binding
    /// finds the path free.  No liveness probe happens here: the bind
    /// itself is authoritative and fails if the path is truly contended.
    pub fn remove_stale_artifact(&self) {
        match self {
            ListenAddr::Tcp(_) => (),
            ListenAddr::Unix(path) => {
                if path_exists(path.as_str()) {
                    remove_file_quiet(path.as_str());
                }
            },
        }
    }

    /// Remove the artifact after shutdown; only a local-socket binding
    /// has one.
    pub fn cleanup(&self) {
        match self {
            ListenAddr::Tcp(_) => (),
            ListenAddr::Unix(path) => {
                remove_file_quiet(path.as_str());
            },
        }
    }
}

/// Remove a file, ignoring failure: the file may already be gone.
fn remove_file_quiet(path: &str) {
    let _ = unlink_file(path);
}

/// Which transports the daemon binds.
#[derive(Debug, Clone, PartialEq, Eq)]
pub struct ServerConfig {
    /// The network binding, if configured.
    pub tcp: Option<ListenAddr>,
    /// The local-socket binding, if configured.
    pub uds: Option<ListenAddr>,
}

impl Default for ServerConfig {
    fn default() -> (r: ServerConfig)
        ensures
            r.tcp is None,
            r.uds is None,
    {
        ServerConfig { tcp: None, uds: None }
    }
}

impl ServerConfig {
    /// Add a network binding.
    pub fn with_tcp(self, addr: String) -> (r: ServerConfig)
        ensures
            r.tcp == Some(ListenAddr::Tcp(addr)),
            r.uds == self.uds,
    {
        ServerConfig { tcp: Some(ListenAddr::Tcp(addr)), ..self }
    }

    /// Add a local-socket binding.
    pub fn with_uds(self, path: String) -> (r: ServerConfig)
        ensures
            r.uds == Some(ListenAddr::Unix(path)),
            r.tcp == self.tcp,
    {
        ServerConfig { uds: Some(ListenAddr::Unix(path)), ..self }
    }
}

/// The bindings an optional entry contributes to the listener list.
pub open spec fn opt_addr_seq(o: Option<ListenAddr>) -> Seq<ListenAddr> {
    match o {
        Some(a) => seq![a],
        None => Seq::empty(),
    }
}

/// Resolve the configuration into the ordered list of bindings, network
/// first.  A configuration with no binding at all is rejected before any
/// bind is attempted.
pub fn plan_listeners(config: ServerConfig) -> (r: Result<Vec<ListenAddr>, DaemonError>)
    ensures
        (config.tcp is None && config.uds is None) <==> (r matches Err(e) && e
            == DaemonError::NoListenersConfigured),
        r matches Ok(v) ==> v@ == opt_addr_seq(config.tcp) + opt_addr_seq(config.uds),
        r matches Ok(v) ==> v@.len() > 0,
{
    let mut out: Vec<ListenAddr> = Vec::new();
    let ghost tcp_spec = config.tcp;
    let ghost uds_spec = config.uds;
    match config.tcp {
        Some(a) => {
            out.push(a);
        },
        None => (),
    }
    match config.uds {
        Some(a) => {
            out.push(a);
        },
        None => (),
    }
    if out.len() == 0 {
        return Err(DaemonError::NoListenersConfigured);
    }
    proof {
        assert(out@ =~= opt_addr_seq(tcp_spec) + opt_addr_seq(uds_spec));
    }
    Ok(out)
}

} // verus!
