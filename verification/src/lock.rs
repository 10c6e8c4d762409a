//! Singleton enforcement: an exclusive advisory lock on a filesystem path.
//!
//! At most one live process holds the lock for a given path at any
//! instant; the operating system releases it when the holding
//! descriptor is closed or the process terminates, cleanly or not.

use vstd::prelude::*;

verus! {

use vstd::string::StrSliceExecFns;
use crate::errors::DaemonError;
use crate::process::close_fd;

/// Relies on nix::unistd::mkdir: Ok when the directory was created; the
/// error distinguishes an already existing entry from other failures.
#[verifier::external_body]
fn mkdir_once(path: &str) -> (r: Result<(), (bool, String)>)
{
    nix::unistd::mkdir(path, nix::sys::stat::Mode::from_bits_truncate(0o755))
        .map_err(|e| (e == nix::errno::Errno::EEXIST, e.to_string()))
}

/// Relies on nix::fcntl::open with O_CREAT | O_RDWR: on success the
/// result is a descriptor for the (possibly fresh) file at `path`.
#[verifier::external_body]
fn open_create_rw(path: &str) -> (r: Result<i32, String>)
{
    nix::fcntl::open(
        path,
        nix::fcntl::OFlag::O_CREAT | nix::fcntl::OFlag::O_RDWR,
        nix::sys::stat::Mode::from_bits_truncate(0o644),
    )
    .map_err(|e| e.to_string())
}

/// Relies on nix::fcntl::flock with LockExclusiveNonblock: Ok exactly
/// when this process now holds the exclusive lock on the descriptor's
/// open file; EWOULDBLOCK reports another live holder, and is
/// distinguished in the error from every other failure.
#[verifier::external_body]
#[allow(deprecated)]
fn flock_exclusive_nonblock(fd: i32) -> (r: Result<(), (bool, String)>)
{
    nix::fcntl::flock(fd, nix::fcntl::FlockArg::LockExclusiveNonblock)
        .map_err(|e| (e == nix::errno::Errno::EWOULDBLOCK, e.to_string()))
}

/// Judge one failed directory creation: an already existing entry is
/// accepted, any other failure carries its description as an I/O error.
pub fn mkdir_outcome(exists: bool, msg: String) -> (r: Result<(), DaemonError>)
    ensures
        exists <==> r is Ok,
        !exists ==> r == Err::<(), DaemonError>(DaemonError::IoError(msg)),
{
    if exists {
        Ok(())
    } else {
        Err(DaemonError::IoError(msg))
    }
}

/// Create every missing ancestor directory of `path`, in root-to-leaf
/// order; each failed creation is judged by `mkdir_outcome`.
fn create_parent_dirs(path: &str) -> (r: Result<(), DaemonError>)
    ensures
        r matches Err(e) ==> e matches DaemonError::IoError(_),
{
    let n = path.unicode_len();
    let mut i: usize = 1;
    while i < n
        invariant
            1 <= i,
            n == path@.len(),
        decreases n - i,
    {
        if path.get_char(i) == '/' && path.get_char(i - 1) != '/' {
            let prefix = path.substring_char(0, i);
            match mkdir_once(prefix) {
                Ok(()) => (),
                Err((exists, msg)) => {
                    if let Err(e) = mkdir_outcome(exists, msg) {
                        return Err(e);
                    }
                },
            }
        }
        i = i + 1;
    }
    Ok(())
}

/// Classify a failed exclusive-lock attempt: a lock that would block
/// reports a live holder elsewhere, `AlreadyRunning`; any other lock
/// failure carries its description as `LockError`.  The two causes are
/// never conflated.
pub fn lock_failure_given(would_block: bool, msg: String) -> (r: DaemonError)
    ensures
        would_block ==> r == DaemonError::AlreadyRunning,
        !would_block ==> r == DaemonError::LockError(msg),
{
    if would_block {
        DaemonError::AlreadyRunning
    } else {
        DaemonError::LockError(msg)
    }
}

/// Exclusive ownership of the lock file: the guard holds the open
/// descriptor whose advisory lock enforces the singleton.  Releasing the
/// guard, or any termination of the owning process, releases the lock.
#[derive(Debug)]
pub struct LockGuard {
    fd: i32,
}

impl LockGuard {
    /// Attempt the singleton lock at `path` without blocking.
    ///
    /// Missing parent directories are created first.  A live holder
    /// elsewhere yields `AlreadyRunning`; any other lock failure is
    /// reported as `LockError`, and a failure to create or open the file
    /// as `IoError`.
    pub fn try_acquire(path: &str) -> (r: Result<LockGuard, DaemonError>)
        ensures
            r matches Err(e) ==> (e is AlreadyRunning || e matches DaemonError::LockError(_)
                || e matches DaemonError::IoError(_)),
    {
        if let Err(e) = create_parent_dirs(path) {
            return Err(e);
        }
        let fd = match open_create_rw(path) {
            Ok(fd) => fd,
            Err(msg) => {
                return Err(DaemonError::IoError(msg));
            },
        };
        match flock_exclusive_nonblock(fd) {
            Ok(()) => Ok(LockGuard { fd }),
            Err((would_block, msg)) => {
                close_fd(fd);
                Err(lock_failure_given(would_block, msg))
            },
        }
    }

    /// Release the lock by closing the owning descriptor.
    pub fn release(self) {
        close_fd(self.fd);
    }
}

} // verus!
