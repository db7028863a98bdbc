//! The startup sequence: assemble the screen description, resolve the
//! protocol atoms, negotiate the selection takeover, claim the root redirect,
//! and probe the optional extensions — all over plain values answered by the
//! display server, so the whole sequence is checkable without a live server.

use vstd::prelude::*;

use crate::atoms::AtomName;
use crate::signals::PendingIntents;
use crate::atoms::AtomTable;
use crate::extensions::probe_all;
use crate::extensions::spec_probe;
use crate::extensions::ExtensionFlags;
use crate::redirect::RootRedirectInstaller;
use crate::takeover::is_terminal;
use crate::takeover::spec_run;
use crate::takeover::FailReason;
use crate::takeover::SelectionTakeoverProtocol;
use crate::takeover::TakeoverEvent;
use crate::takeover::TakeoverState;
use crate::AtomId;
use crate::TakeoverError;
use crate::WindowId;

verus! {

/// The per-screen metadata the takeover runs against, as plain values. The
/// live connection, visual and graphics-context handles stay with the
/// surrounding connection layer, which owns them for the process lifetime.
#[derive(Clone, Copy, Debug, PartialEq, Eq, Structural)]
pub struct ScreenInfo {
    pub screen: u32,
    pub root_window: WindowId,
    pub width: i32,
    pub height: i32,
    pub depth: i32,
    pub colormap: u32,
    pub colormap_count: i32,
}

/// What the connection layer reports when opening the display: whether each
/// handle it queried came back valid, and the plain per-screen values.
#[derive(Clone, Copy, Debug, PartialEq, Eq, Structural)]
pub struct DisplayProbe {
    pub display_ok: bool,
    pub visual_ok: bool,
    pub gc_ok: bool,
    pub screen_handle_ok: bool,
    pub screen: u32,
    pub root_window: WindowId,
    pub width: i32,
    pub height: i32,
    pub depth: i32,
    pub colormap: u32,
    pub colormap_count: i32,
}

/// Whether every handle the connection layer queried was valid.
pub open spec fn spec_probe_ok(p: DisplayProbe) -> bool {
    p.display_ok && p.visual_ok && p.gc_ok && p.screen_handle_ok
}

/// The screen description a successful probe assembles.
pub open spec fn spec_screen_info(p: DisplayProbe) -> ScreenInfo {
    ScreenInfo {
        screen: p.screen,
        root_window: p.root_window,
        width: p.width,
        height: p.height,
        depth: p.depth,
        colormap: p.colormap,
        colormap_count: p.colormap_count,
    }
}

/// Assemble the screen description from what the connection layer probed.
/// Any invalid handle — display, visual, graphics context or screen — is the
/// fatal ConnectionUnavailable.
pub fn open_connection(probe: &DisplayProbe) -> (r: Result<ScreenInfo, TakeoverError>)
    ensures
        r is Ok <==> spec_probe_ok(*probe),
        r matches Ok(info) ==> info == spec_screen_info(*probe),
        r matches Err(e) ==> e == TakeoverError::ConnectionUnavailable,
{
    if probe.display_ok && probe.visual_ok && probe.gc_ok && probe.screen_handle_ok {
        Ok(
            ScreenInfo {
                screen: probe.screen,
                root_window: probe.root_window,
                width: probe.width,
                height: probe.height,
                depth: probe.depth,
                colormap: probe.colormap,
                colormap_count: probe.colormap_count,
            },
        )
    } else {
        Err(TakeoverError::ConnectionUnavailable)
    }
}

/// What startup hands to the main event loop: either readiness, with the
/// supporting window that owns the selection, the active root event mask and
/// the recorded extension availability, or a distinguishable failure.
/// Downstream must not manage client windows unless `Ready` is observed.
#[derive(Clone, Copy, Debug, PartialEq, Eq, Structural)]
pub enum TakeoverResult {
    Ready {
        supporting_window: WindowId,
        root_event_mask_active: bool,
        extensions: ExtensionFlags,
    },
    Failed { reason: TakeoverError },
}

/// Everything the display server and the connection layer answer during one
/// startup, as plain values: the takeover can be driven — and tested —
/// against a recorded script instead of a live server.
pub struct StartupScript {
    /// The connection layer's report of the opened display.
    pub probe: DisplayProbe,
    /// The 1-by-1 invisible window created to own the selection.
    pub supporting_window: WindowId,
    /// The server's answer to interning the manager selection name (0 when
    /// the intern was rejected).
    pub manager_selection: AtomId,
    /// The server's answer to interning the announce property name.
    pub manager_property: AtomId,
    /// How long a prior owner is given to release, in milliseconds.
    pub timeout_budget_ms: u64,
    /// The server events observed during the selection negotiation.
    pub takeover_events: Vec<TakeoverEvent>,
    /// Whether the root mask request reported the mask as already claimed.
    pub redirect_conflict: bool,
    /// The shape extension's capability reply, if the extension is present.
    pub shape_reply: Option<(i32, i32)>,
    /// The render extension's capability reply, if the extension is present.
    pub render_reply: Option<(i32, i32)>,
}

/// Each negotiation failure surfaced under its own reason: a timeout keeps
/// the offending window, a lost race and a rejected claim stay distinct.
pub open spec fn spec_map_reason(reason: FailReason) -> TakeoverError {
    match reason {
        FailReason::Timeout { prior_owner } => TakeoverError::SelectionTimeout { prior_owner },
        FailReason::ServerRejected => TakeoverError::ServerRejected,
        FailReason::AlreadyOwnedAndUnresponsive => TakeoverError::SelectionRaceLost,
    }
}

/// Surface a negotiation failure as the startup's error.
pub fn map_failure(reason: FailReason) -> (e: TakeoverError)
    ensures
        e == spec_map_reason(reason),
{
    match reason {
        FailReason::Timeout { prior_owner } => TakeoverError::SelectionTimeout { prior_owner },
        FailReason::ServerRejected => TakeoverError::ServerRejected,
        FailReason::AlreadyOwnedAndUnresponsive => TakeoverError::SelectionRaceLost,
    }
}

/// The outcome one startup script determines: the first failing stage wins —
/// connection, atom resolution, the selection negotiation, the root redirect
/// — and otherwise the process is ready, with the extensions as probed.
pub open spec fn spec_setup_outcome(script: StartupScript) -> TakeoverResult {
    if !spec_probe_ok(script.probe) {
        TakeoverResult::Failed { reason: TakeoverError::ConnectionUnavailable }
    } else if script.manager_selection.0 == 0 || script.manager_property.0 == 0 {
        TakeoverResult::Failed { reason: TakeoverError::AtomResolutionFailed }
    } else {
        match spec_run(
            TakeoverState::Init,
            script.takeover_events@,
            script.timeout_budget_ms,
        ) {
            TakeoverState::Done => {
                if script.redirect_conflict {
                    TakeoverResult::Failed { reason: TakeoverError::RedirectConflict }
                } else {
                    TakeoverResult::Ready {
                        supporting_window: script.supporting_window,
                        root_event_mask_active: true,
                        extensions: ExtensionFlags {
                            shape: spec_probe(script.shape_reply),
                            render: spec_probe(script.render_reply),
                        },
                    }
                }
            },
            TakeoverState::Failed { reason } => TakeoverResult::Failed {
                reason: spec_map_reason(reason),
            },
            _ => vstd::pervasive::arbitrary(),
        }
    }
}

/// An external shutdown arriving mid-takeover: drain the pending intent and,
/// when one was recorded, abort the sequence cleanly — the server grab is
/// released and no partial state transition is completed. Without a pending
/// intent nothing changes.
pub fn cancel_if_shutdown(takeover: &mut SelectionTakeoverProtocol, intents: &mut PendingIntents)
    -> (cancelled: bool)
    ensures
        cancelled == old(intents).shutdown,
        !final(intents).shutdown,
        final(intents).reap == old(intents).reap,
        cancelled ==> !final(takeover).grab_held && final(takeover).state == old(takeover).state,
        !cancelled ==> *final(takeover) == *old(takeover),
{
    if intents.take_shutdown() {
        takeover.release_grab();
        true
    } else {
        false
    }
}

/// Run one whole startup over the recorded server answers: open the
/// connection, resolve the protocol atoms with create-if-absent semantics,
/// negotiate the selection takeover, and — only once the negotiation reached
/// Done — claim the root redirect and probe the optional extensions. The
/// negotiation's contract guarantees the server grab is no longer held when
/// this returns, on success and on every failure alike.
pub fn setup_connection(script: &StartupScript) -> (r: TakeoverResult)
    requires
        script.timeout_budget_ms > 0,
        spec_probe_ok(script.probe) && script.manager_selection.0 != 0
            && script.manager_property.0 != 0 ==> is_terminal(
            spec_run(TakeoverState::Init, script.takeover_events@, script.timeout_budget_ms),
        ),
    ensures
        r == spec_setup_outcome(*script),
{
    let info = match open_connection(&script.probe) {
        Ok(info) => info,
        Err(reason) => {
            return TakeoverResult::Failed { reason };
        },
    };

    let mut atoms = AtomTable::new();
    let selection = match atoms.resolve_or_intern(
        AtomName::ManagerSelection,
        true,
        script.manager_selection,
    ) {
        Some(a) => a,
        None => {
            return TakeoverResult::Failed { reason: TakeoverError::AtomResolutionFailed };
        },
    };
    let manager_property = match atoms.resolve_or_intern(
        AtomName::ManagerProperty,
        true,
        script.manager_property,
    ) {
        Some(a) => a,
        None => {
            return TakeoverResult::Failed { reason: TakeoverError::AtomResolutionFailed };
        },
    };

    let mut takeover = SelectionTakeoverProtocol::new(
        selection,
        manager_property,
        script.supporting_window,
        script.timeout_budget_ms,
    );
    takeover.run(&script.takeover_events);

    match takeover.state {
        TakeoverState::Done => {
            let installer = RootRedirectInstaller::new(&takeover, info.root_window);
            match installer.interpret_install_reply(script.redirect_conflict) {
                Ok(()) => TakeoverResult::Ready {
                    supporting_window: script.supporting_window,
                    root_event_mask_active: true,
                    extensions: probe_all(script.shape_reply, script.render_reply),
                },
                Err(reason) => TakeoverResult::Failed { reason },
            }
        },
        TakeoverState::Failed { reason } => TakeoverResult::Failed {
            reason: map_failure(reason),
        },
        _ => {
            proof {
                assert(false);
            }
            TakeoverResult::Failed { reason: TakeoverError::ServerRejected }
        },
    }
}

} // verus!
