//! The daemon's lifecycle, as an explicit state machine.
//!
//! A run moves through: not started, an optional detachment into the
//! background (or foreground execution), the singleton lock, serving,
//! draining after the external stop signal, and stopped once every
//! listener task has been joined and the artifacts are cleaned.  The
//! lock is acquired in the final long-lived process identity — after
//! any detachment step, never before, because lock state does not
//! survive that transition.  A failed acquisition is terminal.

use vstd::prelude::*;

verus! {

/// The phases of one daemon run.
#[derive(Debug, Clone, Copy, PartialEq, Eq, Structural)]
pub enum DaemonPhase {
    /// Nothing has happened yet.
    NotStarted,
    /// Detached from the terminal into the background.
    Daemonized,
    /// Running attached to the terminal, by request or as the fallback.
    Foreground,
    /// The singleton lock is held.
    Locked,
    /// Every configured listener is bound and accepting.
    Serving,
    /// Shutdown has been triggered; loops stop accepting and drain.
    Draining,
    /// Every listener task joined, artifacts cleaned.
    Stopped,
}

/// The events that drive a run.
#[derive(Debug, Clone, Copy, PartialEq, Eq, Structural)]
pub enum DaemonEvent {
    /// Detachment completed.
    Detached,
    /// The run stays in the foreground, by request or for want of
    /// platform support.
    StayedForeground,
    /// The singleton lock was acquired.
    LockAcquired,
    /// Every configured listener is bound.
    ListenersBound,
    /// The external termination notification arrived.
    StopRequested,
    /// Every listener task was joined and cleanup ran.
    Drained,
}

/// The lifecycle transition relation: which event moves which phase
/// where.  Everything else is invalid.
pub open spec fn spec_phase_step(p: DaemonPhase, e: DaemonEvent) -> Option<DaemonPhase> {
    match (p, e) {
        (DaemonPhase::NotStarted, DaemonEvent::Detached) => Some(DaemonPhase::Daemonized),
        (DaemonPhase::NotStarted, DaemonEvent::StayedForeground) => Some(DaemonPhase::Foreground),
        (DaemonPhase::Daemonized, DaemonEvent::LockAcquired) => Some(DaemonPhase::Locked),
        (DaemonPhase::Foreground, DaemonEvent::LockAcquired) => Some(DaemonPhase::Locked),
        (DaemonPhase::Locked, DaemonEvent::ListenersBound) => Some(DaemonPhase::Serving),
        (DaemonPhase::Serving, DaemonEvent::StopRequested) => Some(DaemonPhase::Draining),
        (DaemonPhase::Draining, DaemonEvent::Drained) => Some(DaemonPhase::Stopped),
        _ => None,
    }
}

/// Apply one lifecycle event; an event that is invalid in the current
/// phase is rejected and changes nothing.
pub fn phase_step(p: DaemonPhase, e: DaemonEvent) -> (r: Option<DaemonPhase>)
    ensures
        r == spec_phase_step(p, e),
{
    match (p, e) {
        (DaemonPhase::NotStarted, DaemonEvent::Detached) => Some(DaemonPhase::Daemonized),
        (DaemonPhase::NotStarted, DaemonEvent::StayedForeground) => Some(DaemonPhase::Foreground),
        (DaemonPhase::Daemonized, DaemonEvent::LockAcquired) => Some(DaemonPhase::Locked),
        (DaemonPhase::Foreground, DaemonEvent::LockAcquired) => Some(DaemonPhase::Locked),
        (DaemonPhase::Locked, DaemonEvent::ListenersBound) => Some(DaemonPhase::Serving),
        (DaemonPhase::Serving, DaemonEvent::StopRequested) => Some(DaemonPhase::Draining),
        (DaemonPhase::Draining, DaemonEvent::Drained) => Some(DaemonPhase::Stopped),
        _ => None,
    }
}

/// The lock is never held before the detachment question is settled: no
/// event moves `NotStarted` to `Locked` directly, so any run that
/// reaches `Locked` passed through `Daemonized` or `Foreground`.
pub proof fn lemma_lock_after_detach(p: DaemonPhase, e: DaemonEvent)
    requires
        spec_phase_step(p, e) == Some(DaemonPhase::Locked),
    ensures
        p == DaemonPhase::Daemonized || p == DaemonPhase::Foreground,
{
}

/// What to do about detachment.
#[derive(Debug, Clone, Copy, PartialEq, Eq, Structural)]
pub enum DetachDecision {
    /// Detach into the background.
    Detach,
    /// Detachment was wanted but the platform lacks it: run in the
    /// foreground and surface a notice, not an error.
    FallbackForeground,
    /// Foreground execution was requested.
    StayForeground,
}

/// Decide detachment from the configuration and the platform: requested
/// foreground execution wins; otherwise detach where supported, and
/// degrade to foreground execution with a notice where not.
pub fn detach_decision(foreground: bool, supported: bool) -> (r: DetachDecision)
    ensures
        foreground ==> r == DetachDecision::StayForeground,
        (!foreground && supported) ==> r == DetachDecision::Detach,
        (!foreground && !supported) ==> r == DetachDecision::FallbackForeground,
{
    if foreground {
        DetachDecision::StayForeground
    } else if supported {
        DetachDecision::Detach
    } else {
        DetachDecision::FallbackForeground
    }
}

/// Whether this build can detach into the background: the library
/// builds against Unix process primitives, where detachment is
/// available.
pub fn is_daemon_supported() -> (r: bool)
    ensures
        r == true,
{
    true
}

} // verus!
