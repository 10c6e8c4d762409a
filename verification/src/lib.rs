//! Control plane for a singleton background daemon.
//!
//! The library holds the verified logic of a daemon / control-tool pair:
//! singleton enforcement through an exclusive file lock, PID-file based
//! liveness inspection, signal delivery with graceful-to-forceful
//! escalation, listener planning with coordinated shutdown, the
//! connection strategy across two transport kinds, and the echo probe
//! served over the control channel.  Process spawning, the async
//! listeners and the RPC plumbing live outside the library and consume
//! the decisions made here.

pub mod cli;
pub mod commands;
pub mod config;
pub mod errors;
pub mod lifecycle;
pub mod listener;
pub mod lock;
pub mod paths;
pub mod ping;
pub mod process;
pub mod shutdown;
pub mod text;
pub mod transport;
