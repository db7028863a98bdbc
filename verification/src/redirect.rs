//! Installation of the root window's event mask — the request that makes the
//! process the effective window manager — together with the interpretation of
//! its outcome and the input-focus fallback.

use vstd::prelude::*;

use crate::takeover::SelectionTakeoverProtocol;
use crate::TakeoverError;
use crate::WindowId;

verus! {

pub const SUBSTRUCTURE_REDIRECT_MASK: u64 = 1u64 << 20;

pub const SUBSTRUCTURE_NOTIFY_MASK: u64 = 1u64 << 19;

pub const STRUCTURE_NOTIFY_MASK: u64 = 1u64 << 17;

pub const PROPERTY_CHANGE_MASK: u64 = 1u64 << 22;

pub const COLORMAP_CHANGE_MASK: u64 = 1u64 << 23;

pub const BUTTON_PRESS_MASK: u64 = 1u64 << 2;

pub const BUTTON_RELEASE_MASK: u64 = 1u64 << 3;

pub const POINTER_MOTION_MASK: u64 = 1u64 << 6;

pub const POINTER_MOTION_HINT_MASK: u64 = 1u64 << 7;

/// The event categories a window manager requests on the root window:
/// substructure redirect and notify, structure notify, property and colormap
/// changes, button presses and releases, and hint-compressed pointer motion.
pub open spec fn spec_root_event_mask() -> u64 {
    SUBSTRUCTURE_REDIRECT_MASK | SUBSTRUCTURE_NOTIFY_MASK | STRUCTURE_NOTIFY_MASK
        | PROPERTY_CHANGE_MASK | COLORMAP_CHANGE_MASK | BUTTON_PRESS_MASK | BUTTON_RELEASE_MASK
        | POINTER_MOTION_MASK | POINTER_MOTION_HINT_MASK
}

/// Law: the root request always carries the substructure redirect — the one
/// bit whose ownership makes this process the window manager, and the one a
/// competing manager's claim conflicts on.
pub proof fn lemma_mask_requests_redirect()
    ensures
        spec_root_event_mask() & SUBSTRUCTURE_REDIRECT_MASK == SUBSTRUCTURE_REDIRECT_MASK,
{
    assert(((1u64 << 20) | (1u64 << 19) | (1u64 << 17) | (1u64 << 22) | (1u64 << 23) | (1u64 << 2)
        | (1u64 << 3) | (1u64 << 6) | (1u64 << 7)) & (1u64 << 20) == (1u64 << 20)) by (bit_vector);
}

/// The bitwise-OR'd set of event categories requested on the root window.
#[derive(Clone, Copy, Debug, PartialEq, Eq, Structural)]
pub struct EventMaskRequest {
    pub mask: u64,
}

/// The step that claims window-management authority on the root window. It
/// can only be built from a takeover that reached Done: requesting the
/// redirect earlier races with a prior manager that has not yet relinquished.
#[derive(Clone, Copy, Debug, PartialEq, Eq, Structural)]
pub struct RootRedirectInstaller {
    pub root_window: WindowId,
    pub request: EventMaskRequest,
}

impl RootRedirectInstaller {
    /// Prepare the root event-mask request. The completed `takeover` is the
    /// warrant that no prior manager still owns the selection.
    pub fn new(takeover: &SelectionTakeoverProtocol, root_window: WindowId) -> (r:
        RootRedirectInstaller)
        requires
            takeover.state is Done,
        ensures
            r.root_window == root_window,
            r.request.mask == spec_root_event_mask(),
    {
        RootRedirectInstaller {
            root_window,
            request: EventMaskRequest {
                mask: SUBSTRUCTURE_REDIRECT_MASK | SUBSTRUCTURE_NOTIFY_MASK
                    | STRUCTURE_NOTIFY_MASK | PROPERTY_CHANGE_MASK | COLORMAP_CHANGE_MASK
                    | BUTTON_PRESS_MASK | BUTTON_RELEASE_MASK | POINTER_MOTION_MASK
                    | POINTER_MOTION_HINT_MASK,
            },
        }
    }

    /// Interpret the server's answer to the mask request: a mask already
    /// claimed by another client is the distinguishable, fatal
    /// RedirectConflict — never a generic failure — and anything else is
    /// success.
    pub fn interpret_install_reply(&self, mask_already_claimed: bool) -> (r: Result<
        (),
        TakeoverError,
    >)
        ensures
            r is Err <==> mask_already_claimed,
            r matches Err(e) ==> e == TakeoverError::RedirectConflict,
    {
        if mask_already_claimed {
            Err(TakeoverError::RedirectConflict)
        } else {
            Ok(())
        }
    }

    /// The input-focus fallback, run single-threaded during startup: if no
    /// window holds the focus, it must be set to the root window; otherwise
    /// the current focus is left alone.
    pub fn focus_fallback(&self, current_focus: Option<WindowId>) -> (r: Option<WindowId>)
        ensures
            r == (if current_focus is None {
                Some(self.root_window)
            } else {
                None::<WindowId>
            }),
    {
        match current_focus {
            None => Some(self.root_window),
            Some(_) => None,
        }
    }
}

} // verus!
