//! Command-line surface of the control tool, as plain values.
//!
//! Argument parsing itself happens outside the library; the parsed
//! result is handed in through these types.

use vstd::prelude::*;

verus! {

/// A control-tool invocation: one subcommand plus the global options
/// that select the PID file, the transports, and the transport forcing
/// flag.
#[derive(Debug, Clone)]
pub struct Args {
    /// The subcommand to run.
    pub command: Command,
    /// PID file path.
    pub pid_file: String,
    /// Local-socket path.
    pub socket: String,
    /// Network address, used when the local socket is unavailable.
    pub tcp_addr: String,
    /// Force the network transport.
    pub tcp: bool,
}

/// The control-tool subcommands.
#[derive(Debug, Clone)]
pub enum Command {
    /// Start the daemon.
    Start,
    /// Stop the daemon.
    Stop,
    /// Check daemon status.
    Status,
    /// Probe the daemon.
    Ping {
        /// Message to send.
        message: String,
    },
}

} // verus!
