//! The stop subcommand: graceful termination with bounded escalation.
//!
//! A graceful signal is sent first; the process is polled for death at
//! a fixed interval up to the attempt budget.  A process that survives
//! the whole budget receives the forceful signal.  On either path the
//! PID file is removed only once death has been confirmed.

use vstd::prelude::*;

verus! {

use vstd::string::StringExecFns;
use crate::commands::require_running_given;
use crate::config::{CtlConfig, GRACEFUL_SHUTDOWN_ATTEMPTS, SHUTDOWN_POLL_INTERVAL_MS};
use crate::errors::CtlError;
use crate::process::{
    is_running, process_exists, read_pid, remove_pid_file, send_signal, sleep_ms, Signal,
};

/// What one polling step decides.
#[derive(Debug, Clone, Copy, PartialEq, Eq, Structural)]
pub enum StopStep {
    /// Death observed: remove the record and finish.
    Confirmed,
    /// Still alive with budget remaining: sleep and poll again.
    PollAgain,
    /// Still alive and the budget is spent: time for the next signal.
    Exhausted,
}

/// Decide one polling step: observed death confirms the stop; while
/// attempts remain the loop polls again; a process still alive once the
/// whole budget is spent exhausts the wait.
pub fn stop_step(polls_done: u32, alive: bool) -> (r: StopStep)
    requires
        polls_done < GRACEFUL_SHUTDOWN_ATTEMPTS,
    ensures
        !alive ==> r == StopStep::Confirmed,
        (alive && polls_done + 1 < GRACEFUL_SHUTDOWN_ATTEMPTS) ==> r == StopStep::PollAgain,
        (alive && polls_done + 1 == GRACEFUL_SHUTDOWN_ATTEMPTS) ==> r == StopStep::Exhausted,
{
    if !alive {
        StopStep::Confirmed
    } else if polls_done + 1 < GRACEFUL_SHUTDOWN_ATTEMPTS {
        StopStep::PollAgain
    } else {
        StopStep::Exhausted
    }
}

/// Poll the process for death, at the fixed interval, up to the attempt
/// budget.  True exactly when death was observed within the budget.
fn wait_for_death(pid: i32) -> (dead: bool)
{
    let mut polls_done: u32 = 0;
    loop
        invariant
            polls_done < GRACEFUL_SHUTDOWN_ATTEMPTS,
        decreases GRACEFUL_SHUTDOWN_ATTEMPTS - polls_done,
    {
        sleep_ms(SHUTDOWN_POLL_INTERVAL_MS);
        let alive = process_exists(pid);
        match stop_step(polls_done, alive) {
            StopStep::Confirmed => {
                return true;
            },
            StopStep::PollAgain => {
                polls_done = polls_done + 1;
            },
            StopStep::Exhausted => {
                return false;
            },
        }
    }
}

/// Stop the daemon named by the PID file.
///
/// Fails with the not-running error when the file is absent or names a
/// dead process.  Otherwise the graceful signal is sent and the process
/// polled for death; once the budget is exhausted the forceful signal
/// follows.  The PID file is removed only after confirmed death, and a
/// process that outlives even the forceful signal is reported as a
/// signalling failure with the record left in place.
pub fn execute(config: &CtlConfig) -> (r: Result<(), CtlError>)
    ensures
        r matches Err(e) ==> (e == CtlError::DaemonNotRunning || e matches CtlError::InvalidPid(
            _,
        ) || e matches CtlError::SignalFailed(_)),
{
    let live = is_running(config.pid_file.as_str());
    if let Err(e) = require_running_given(live) {
        return Err(e);
    }
    let pid = match read_pid(config.pid_file.as_str()) {
        Ok(pid) => pid,
        Err(e) => {
            return Err(e);
        },
    };
    if let Err(e) = send_signal(pid, Signal::Term) {
        return Err(e);
    }
    if wait_for_death(pid) {
        remove_pid_file(config.pid_file.as_str());
        return Ok(());
    }
    // The graceful budget is exhausted: escalate.
    if let Err(e) = send_signal(pid, Signal::Kill) {
        return Err(e);
    }
    if wait_for_death(pid) {
        remove_pid_file(config.pid_file.as_str());
        return Ok(());
    }
    Err(CtlError::SignalFailed(String::from_str("process survived the forceful signal")))
}

} // verus!
