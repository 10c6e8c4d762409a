//! The status subcommand: PID-file liveness, reported without guessing.

use vstd::prelude::*;

verus! {

use crate::config::CtlConfig;
use crate::process::{process_exists, read_pid};

/// What the status subcommand reports.
#[derive(Debug, Clone, Copy, PartialEq, Eq, Structural)]
pub enum StatusReport {
    /// The PID file parses and the named process is alive.
    Running(i32),
    /// The file is absent, does not parse, or names a dead process.
    NotRunning,
}

/// Combine the two observations into the report: running exactly when a
/// parsed id exists and the named process is alive.  A stale file is
/// never reported as running.
pub fn status_from(pid: Option<i32>, alive: bool) -> (r: StatusReport)
    ensures
        (pid is Some && alive) ==> r == StatusReport::Running(pid->0),
        (pid is None || !alive) ==> r == StatusReport::NotRunning,
{
    match pid {
        Some(p) => {
            if alive {
                StatusReport::Running(p)
            } else {
                StatusReport::NotRunning
            }
        },
        None => StatusReport::NotRunning,
    }
}

/// Inspect the PID file and the named process and report.
pub fn execute(config: &CtlConfig) -> (r: StatusReport)
{
    match read_pid(config.pid_file.as_str()) {
        Ok(pid) => {
            let alive = process_exists(pid);
            status_from(Some(pid), alive)
        },
        Err(_) => status_from(None, false),
    }
}

} // verus!
