//! The shutdown coordinator: a process-wide, single-fire broadcast.
//!
//! The signal moves from pending to triggered at most once.  Every
//! subscriber registered at or before the transition is notified exactly
//! once; later triggers change nothing.  The waiting itself happens
//! outside the library on an async broadcast channel; this type is the
//! coordinator's state, driven in step with that channel, and carries
//! the proof that triggering is idempotent.

use vstd::prelude::*;

verus! {

/// State of the one-shot shutdown broadcast.
#[derive(Debug, Clone, PartialEq, Eq)]
pub struct ShutdownSignal {
    /// Whether the one-shot transition has happened.
    pub triggered: bool,
    /// How many waiters have subscribed.
    pub subscribers: u64,
    /// How many waiters have been notified; zero until the transition,
    /// then exactly the subscribers present at the transition.
    pub notified: u64,
}

/// What `trigger` does to the state: the first call notifies every
/// current subscriber and marks the signal triggered; any further call
/// is a no-op.
pub open spec fn spec_trigger(s: ShutdownSignal) -> ShutdownSignal {
    if s.triggered {
        s
    } else {
        ShutdownSignal { triggered: true, subscribers: s.subscribers, notified: s.subscribers }
    }
}

impl ShutdownSignal {
    /// A fresh signal: pending, with no subscribers.
    pub fn new() -> (r: ShutdownSignal)
        ensures
            r.triggered == false,
            r.subscribers == 0,
            r.notified == 0,
    {
        ShutdownSignal { triggered: false, subscribers: 0, notified: 0 }
    }

    /// Register one waiter.  Registration only counts before the
    /// transition: a waiter subscribing later is woken by the already
    /// fired channel, not by a new notification.
    pub fn subscribe(&mut self)
        requires
            old(self).subscribers < u64::MAX,
        ensures
            final(self).subscribers == old(self).subscribers + 1,
            final(self).triggered == old(self).triggered,
            final(self).notified == old(self).notified,
    {
        self.subscribers = self.subscribers + 1;
    }

    /// Fire the one-shot broadcast; idempotent.
    pub fn trigger(&mut self)
        ensures
            *final(self) == spec_trigger(*old(self)),
            final(self).triggered,
    {
        if !self.triggered {
            self.triggered = true;
            self.notified = self.subscribers;
        }
    }
}

impl Default for ShutdownSignal {
    fn default() -> (r: ShutdownSignal)
        ensures
            r.triggered == false,
            r.subscribers == 0,
            r.notified == 0,
    {
        ShutdownSignal::new()
    }
}

/// Triggering the shutdown broadcast once and triggering it any number
/// of further times leave the coordinator in the same state, and the
/// subscribers present at the first trigger are the ones notified.
pub proof fn lemma_trigger_idempotent(s: ShutdownSignal)
    ensures
        spec_trigger(spec_trigger(s)) == spec_trigger(s),
        !s.triggered ==> spec_trigger(s).notified == s.subscribers,
{
}

/// The state after `n` consecutive triggers.
pub open spec fn spec_trigger_n(s: ShutdownSignal, n: nat) -> ShutdownSignal
    decreases n,
{
    if n == 0 {
        s
    } else {
        spec_trigger(spec_trigger_n(s, (n - 1) as nat))
    }
}

/// Triggering shutdown once, twice, or any number of times produces the
/// same externally observable state as triggering it once.
pub proof fn lemma_trigger_n_idempotent(s: ShutdownSignal, n: nat)
    requires
        n >= 1,
    ensures
        spec_trigger_n(s, n) == spec_trigger(s),
    decreases n,
{
    if n == 1 {
        assert(spec_trigger_n(s, 0) == s);
    } else {
        lemma_trigger_n_idempotent(s, (n - 1) as nat);
        lemma_trigger_idempotent(s);
    }
}

} // verus!
