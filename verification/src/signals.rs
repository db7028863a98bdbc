//! Mapping from asynchronous OS termination and child-reap signals to the
//! process's cooperative shutdown protocol. A handler only records an intent;
//! the main sequence drains the recorded intents and acts on them.

use vstd::prelude::*;

verus! {

/// The OS signal kinds the window manager cares about.
#[derive(Clone, Copy, Debug, PartialEq, Eq, Structural)]
pub enum SignalKind {
    Interrupt,
    Hangup,
    Terminate,
    ChildExited,
}

/// What the process should do in response to a signal.
#[derive(Clone, Copy, Debug, PartialEq, Eq, Structural)]
pub enum SignalIntent {
    GracefulShutdown,
    ReapChild,
}

/// The fixed signal-to-intent mapping, installed once at startup and never
/// mutated afterward: every termination signal folds into one graceful
/// shutdown intent, and a child exit asks for a reap.
pub open spec fn spec_disposition(kind: SignalKind) -> SignalIntent {
    match kind {
        SignalKind::Interrupt => SignalIntent::GracefulShutdown,
        SignalKind::Hangup => SignalIntent::GracefulShutdown,
        SignalKind::Terminate => SignalIntent::GracefulShutdown,
        SignalKind::ChildExited => SignalIntent::ReapChild,
    }
}

/// Resolve a signal kind to its intent.
pub fn disposition(kind: SignalKind) -> (intent: SignalIntent)
    ensures
        intent == spec_disposition(kind),
{
    match kind {
        SignalKind::Interrupt => SignalIntent::GracefulShutdown,
        SignalKind::Hangup => SignalIntent::GracefulShutdown,
        SignalKind::Terminate => SignalIntent::GracefulShutdown,
        SignalKind::ChildExited => SignalIntent::ReapChild,
    }
}

/// The pending-intent flags a signal handler is allowed to set: two booleans,
/// no allocation, no protocol calls. The main sequence drains them.
#[derive(Clone, Copy, Debug, PartialEq, Eq, Structural)]
pub struct PendingIntents {
    pub shutdown: bool,
    pub reap: bool,
}

impl PendingIntents {
    /// No intent is pending at startup.
    pub fn new() -> (r: PendingIntents)
        ensures
            !r.shutdown,
            !r.reap,
    {
        PendingIntents { shutdown: false, reap: false }
    }

    /// Record the arrival of a signal: set the flag its disposition asks for
    /// and leave the other flag alone. Recording never clears a flag.
    pub fn record(&mut self, kind: SignalKind)
        ensures
            final(self).shutdown == (old(self).shutdown
                || spec_disposition(kind) == SignalIntent::GracefulShutdown),
            final(self).reap == (old(self).reap
                || spec_disposition(kind) == SignalIntent::ReapChild),
    {
        match disposition(kind) {
            SignalIntent::GracefulShutdown => {
                self.shutdown = true;
            }
            SignalIntent::ReapChild => {
                self.reap = true;
            }
        }
    }

    /// Drain the shutdown intent: report whether one was pending and clear it.
    pub fn take_shutdown(&mut self) -> (r: bool)
        ensures
            r == old(self).shutdown,
            !final(self).shutdown,
            final(self).reap == old(self).reap,
    {
        let r = self.shutdown;
        self.shutdown = false;
        r
    }

    /// Drain the child-reap intent: report whether one was pending and clear it.
    pub fn take_reap(&mut self) -> (r: bool)
        ensures
            r == old(self).reap,
            !final(self).reap,
            final(self).shutdown == old(self).shutdown,
    {
        let r = self.reap;
        self.reap = false;
        r
    }
}

} // verus!
