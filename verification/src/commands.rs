//! The control-tool subcommands: the decisions and checks each one
//! makes against the PID file, the recorded process, and the attempt
//! budgets.

use vstd::prelude::*;

pub mod start;
pub mod status;
pub mod stop;

verus! {

use crate::config::CtlConfig;
use crate::errors::CtlError;
use crate::process::is_running;

/// Whether a liveness observation permits an operation that needs a
/// running daemon: a live observation does, anything else is the
/// not-running error.
pub fn require_running_given(live: bool) -> (r: Result<(), CtlError>)
    ensures
        live <==> r is Ok,
        !live ==> r == Err::<(), CtlError>(CtlError::DaemonNotRunning),
{
    if live {
        Ok(())
    } else {
        Err(CtlError::DaemonNotRunning)
    }
}

/// Fail with the not-running error unless the PID file names a live
/// process right now.
pub fn require_running(config: &CtlConfig) -> (r: Result<(), CtlError>)
    ensures
        r matches Err(e) ==> e == CtlError::DaemonNotRunning,
{
    let live = is_running(config.pid_file.as_str());
    require_running_given(live)
}

} // verus!
