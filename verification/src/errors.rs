//! Error taxonomy of the daemon and of the control tool.

use vstd::prelude::*;

verus! {

/// Errors raised while validating probe messages.
#[derive(Debug, Clone, PartialEq, Eq)]
pub enum DomainError {
    /// The message is malformed.
    InvalidMessage(String),
    /// The message is empty.
    EmptyMessage,
}

/// Errors raised by the daemon process itself.
#[derive(Debug, Clone, PartialEq, Eq)]
pub enum DaemonError {
    /// Configuration could not be loaded.
    ConfigError(String),
    /// The lock file could not be locked for a reason other than contention.
    LockError(String),
    /// Another live daemon already holds the singleton lock.
    AlreadyRunning,
    /// Detaching from the terminal failed.
    DaemonizeError(String),
    /// The configuration resolves to zero transport bindings.
    NoListenersConfigured,
    /// The RPC reflection service could not be built.
    ReflectionError(String),
    /// An operating-system call failed.
    IoError(String),
    /// A listen address could not be parsed.
    InvalidAddress(String),
    /// A probe message was empty.
    EmptyMessage,
}

/// Errors raised by the control tool.
#[derive(Debug, Clone, PartialEq, Eq)]
pub enum CtlError {
    /// Configuration could not be loaded.
    ConfigError(String),
    /// The PID file is absent or names a dead process.
    DaemonNotRunning,
    /// A live daemon was found while trying to start one.
    AlreadyRunning,
    /// The configuration resolves to zero transport bindings.
    NoListenersConfigured,
    /// Spawning or verifying the daemon failed.
    DaemonStartFailed(String),
    /// The PID file does not exist at the given path.
    PidFileNotFound(String),
    /// The PID file exists but does not hold a decimal process id.
    InvalidPid(String),
    /// A signal could not be delivered to the recorded process.
    SignalFailed(String),
    /// Neither transport produced a connection.
    ConnectionFailed(String),
    /// The remote call itself failed.
    GrpcError(String),
    /// The transport layer failed after connecting.
    TransportError(String),
    /// An operating-system call failed.
    IoError(String),
    /// Signal-based control is unavailable on this platform.
    UnsupportedPlatform,
}

/// Client-visible categories that daemon errors are reduced to at the
/// service boundary, so that internal detail never reaches a remote caller.
#[derive(Debug, Clone, Copy, PartialEq, Eq, Structural)]
pub enum StatusCategory {
    InvalidArgument,
    FailedPrecondition,
    AlreadyExists,
    Unavailable,
    Internal,
}

/// Spec-level mapping of a daemon error to its client-visible category.
pub open spec fn spec_categorize(e: DaemonError) -> StatusCategory {
    match e {
        DaemonError::EmptyMessage => StatusCategory::InvalidArgument,
        DaemonError::InvalidAddress(_) => StatusCategory::InvalidArgument,
        DaemonError::ConfigError(_) => StatusCategory::FailedPrecondition,
        DaemonError::NoListenersConfigured => StatusCategory::FailedPrecondition,
        DaemonError::AlreadyRunning => StatusCategory::AlreadyExists,
        DaemonError::LockError(_) => StatusCategory::Unavailable,
        DaemonError::DaemonizeError(_) => StatusCategory::Internal,
        DaemonError::ReflectionError(_) => StatusCategory::Internal,
        DaemonError::IoError(_) => StatusCategory::Internal,
    }
}

/// Reduce a daemon error to the category shown to a remote caller.
///
/// Validation failures surface as invalid input, configuration problems as
/// precondition failures, lock contention as a resource conflict, and
/// everything else as an internal error.
pub fn categorize(e: &DaemonError) -> (r: StatusCategory)
    ensures
        r == spec_categorize(*e),
{
    match e {
        DaemonError::EmptyMessage => StatusCategory::InvalidArgument,
        DaemonError::InvalidAddress(_) => StatusCategory::InvalidArgument,
        DaemonError::ConfigError(_) => StatusCategory::FailedPrecondition,
        DaemonError::NoListenersConfigured => StatusCategory::FailedPrecondition,
        DaemonError::AlreadyRunning => StatusCategory::AlreadyExists,
        DaemonError::LockError(_) => StatusCategory::Unavailable,
        DaemonError::DaemonizeError(_) => StatusCategory::Internal,
        DaemonError::ReflectionError(_) => StatusCategory::Internal,
        DaemonError::IoError(_) => StatusCategory::Internal,
    }
}

} // verus!
