//! Bootstrap and takeover core of an X11 window manager: the logic that
//! acquires the per-screen manager selection from any prior owner, announces
//! the new manager, claims root-window event redirection, and records signal
//! dispositions and optional-extension availability before the main event
//! loop starts.

use vstd::prelude::*;

pub mod atoms;
pub mod connection;
pub mod extensions;
pub mod redirect;
pub mod signals;
pub mod takeover;

verus! {

/// A server-side window identifier (a 32-bit X resource id).
#[derive(Clone, Copy, Debug, PartialEq, Eq, Structural)]
pub struct WindowId(pub u32);

/// A server-side atom: a numeric identifier for a named protocol concept,
/// unique per name within one connection. The value 0 means "no atom".
#[derive(Clone, Copy, Debug, PartialEq, Eq, Structural)]
pub struct AtomId(pub u32);

/// A logical server timestamp, obtained from the server rather than from the
/// wall clock, used to avoid stale-timestamp races when claiming a selection.
#[derive(Clone, Copy, Debug, PartialEq, Eq, Structural)]
pub struct ServerTime(pub u32);

/// The reasons a takeover can fail, kept distinct so an operator can tell a
/// stuck prior manager from a protocol or server error.
#[derive(Clone, Copy, Debug, PartialEq, Eq, Structural)]
pub enum TakeoverError {
    /// The display could not be opened or its screen metadata queried.
    ConnectionUnavailable,
    /// The server rejected interning one of the protocol atoms.
    AtomResolutionFailed,
    /// The prior selection owner never released within the configured budget;
    /// carries the offending window for diagnostics.
    SelectionTimeout { prior_owner: WindowId },
    /// Another manager claimed the selection first.
    SelectionRaceLost,
    /// The server rejected the set-owner request outright.
    ServerRejected,
    /// The root event mask, and with it substructure redirection, is already
    /// held by another client.
    RedirectConflict,
}

} // verus!
