//! The start subcommand: the checks and verdicts around spawning the
//! daemon.
//!
//! Spawning and the health probe happen outside the library.  The
//! decisions stand here: the racy early conflict check, the verdict of
//! each verification poll, and the disambiguated failure once the retry
//! budget is exhausted.

use vstd::prelude::*;

verus! {

use vstd::string::StringExecFns;
use crate::config::CtlConfig;
use crate::errors::CtlError;
use crate::process::is_running;

/// The verdict of one startup-verification poll.
#[derive(Debug, Clone, Copy, PartialEq, Eq, Structural)]
pub enum StartPoll {
    /// PID file live and probe answered: the daemon is up.
    Verified,
    /// Not verified yet: sleep and poll again while budget remains.
    Retry,
}

/// The early conflict check: a live daemon fails the start immediately.
/// This is a hint only — the check is inherently racy, and the real
/// protection is the daemon's own lock.
pub fn precheck_given(live: bool) -> (r: Result<(), CtlError>)
    ensures
        live <==> (r matches Err(e) && e == CtlError::AlreadyRunning),
        !live <==> r is Ok,
{
    if live {
        Err(CtlError::AlreadyRunning)
    } else {
        Ok(())
    }
}

/// Run the early conflict check against the PID file.
pub fn precheck(config: &CtlConfig) -> (r: Result<(), CtlError>)
    ensures
        r matches Err(e) ==> e == CtlError::AlreadyRunning,
{
    let live = is_running(config.pid_file.as_str());
    precheck_given(live)
}

/// The verdict of one poll: verified exactly when the PID file parses,
/// the named process is alive, and the health probe answered.
pub fn poll_verdict(pid_present: bool, process_alive: bool, probe_ok: bool) -> (r: StartPoll)
    ensures
        r == StartPoll::Verified <==> (pid_present && process_alive && probe_ok),
        r == StartPoll::Retry <==> !(pid_present && process_alive && probe_ok),
{
    if pid_present && process_alive && probe_ok {
        StartPoll::Verified
    } else {
        StartPoll::Retry
    }
}

/// The failure reported once the retry budget is exhausted,
/// disambiguated by one more liveness check: a live process at that
/// point means a concurrently launched instance won the race; a dead
/// one means the daemon exited before ever writing its PID file.
pub fn exhausted_failure(live_after: bool) -> (r: CtlError)
    ensures
        live_after ==> (r matches CtlError::DaemonStartFailed(m) && m@
            == "another daemon instance may have started concurrently"@),
        !live_after ==> (r matches CtlError::DaemonStartFailed(m) && m@
            == "daemon process exited without creating PID file (check logs for errors)"@),
{
    if live_after {
        CtlError::DaemonStartFailed(
            String::from_str("another daemon instance may have started concurrently"),
        )
    } else {
        CtlError::DaemonStartFailed(
            String::from_str("daemon process exited without creating PID file (check logs for errors)"),
        )
    }
}

} // verus!
