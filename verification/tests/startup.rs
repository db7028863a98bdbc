use rwm::connection::setup_connection;
use rwm::connection::DisplayProbe;
use rwm::connection::StartupScript;
use rwm::connection::TakeoverResult;
use rwm::extensions::ExtensionInfo;
use rwm::takeover::SelectionOwnership;
use rwm::takeover::SelectionTakeoverProtocol;
use rwm::takeover::TakeoverAction;
use rwm::takeover::TakeoverEvent;
use rwm::takeover::TakeoverState;
use rwm::AtomId;
use rwm::ServerTime;
use rwm::TakeoverError;
use rwm::WindowId;

fn good_probe() -> DisplayProbe {
    DisplayProbe {
        display_ok: true,
        visual_ok: true,
        gc_ok: true,
        screen_handle_ok: true,
        screen: 0,
        root_window: WindowId(101),
        width: 1920,
        height: 1080,
        depth: 24,
        colormap: 32,
        colormap_count: 1,
    }
}

fn script_with_events(events: Vec<TakeoverEvent>, redirect_conflict: bool) -> StartupScript {
    StartupScript {
        probe: good_probe(),
        supporting_window: WindowId(777),
        manager_selection: AtomId(300),
        manager_property: AtomId(301),
        timeout_budget_ms: 2000,
        takeover_events: events,
        redirect_conflict,
        shape_reply: Some((64, 128)),
        render_reply: None,
    }
}

/// Drive a fresh protocol through `events`, returning the protocol together
/// with how many times it entered the release wait, issued the claim, and
/// issued the announce.
fn drive(events: &[TakeoverEvent]) -> (SelectionTakeoverProtocol, usize, usize, usize) {
    let mut proto = SelectionTakeoverProtocol::new(AtomId(300), AtomId(301), WindowId(777), 2000);
    let mut wait_episodes = 0usize;
    let mut claims = 0usize;
    let mut announces = 0usize;
    for e in events {
        match proto.pending_action() {
            TakeoverAction::SetOwner { .. } => claims += 1,
            TakeoverAction::SendAnnounce { .. } => announces += 1,
            _ => {}
        }
        let was_waiting = matches!(proto.state, TakeoverState::WaitForRelease { .. });
        proto.step(*e);
        if !was_waiting && matches!(proto.state, TakeoverState::WaitForRelease { .. }) {
            wait_episodes += 1;
        }
    }
    (proto, wait_episodes, claims, announces)
}

#[test]
fn scenario_unowned_selection_becomes_ready() {
    // Selection unowned, no prior manager window: Ready, exactly one claim
    // and one announce, zero release-wait suspensions.
    let events = vec![
        TakeoverEvent::OwnerQueried { owner: SelectionOwnership::Unowned, time: ServerTime(10) },
        TakeoverEvent::ClaimOutcome { owner: SelectionOwnership::OwnedBySelf },
        TakeoverEvent::AnnounceSent,
        TakeoverEvent::SyncCompleted,
    ];
    let (proto, waits, claims, announces) = drive(&events);
    assert_eq!(proto.state, TakeoverState::Done);
    assert_eq!(waits, 0);
    assert_eq!(claims, 1);
    assert_eq!(announces, 1);
    assert!(!proto.grab_held);

    let result = setup_connection(&script_with_events(events, false));
    assert_eq!(
        result,
        TakeoverResult::Ready {
            supporting_window: WindowId(777),
            root_event_mask_active: true,
            extensions: rwm::extensions::ExtensionFlags {
                shape: ExtensionInfo { present: true, event_base: 64, error_base: 128 },
                render: ExtensionInfo { present: false, event_base: 0, error_base: 0 },
            },
        }
    );
}

#[test]
fn scenario_prior_owner_destroyed_during_wait() {
    // Selection owned by W, destroyed 50ms after subscription: Ready, with
    // exactly one release-wait suspension that lasted at least 50ms.
    let w = WindowId(42);
    let events = vec![
        TakeoverEvent::OwnerQueried { owner: SelectionOwnership::OwnedByOther(w), time: ServerTime(10) },
        TakeoverEvent::Waited { ms: 50 },
        TakeoverEvent::ReleaseObserved { time: ServerTime(60) },
        TakeoverEvent::ClaimOutcome { owner: SelectionOwnership::OwnedBySelf },
        TakeoverEvent::AnnounceSent,
        TakeoverEvent::SyncCompleted,
    ];
    let (proto, waits, claims, announces) = drive(&events);
    assert_eq!(proto.state, TakeoverState::Done);
    assert_eq!(waits, 1);
    assert_eq!(claims, 1);
    assert_eq!(announces, 1);

    // The single suspension had accumulated at least 50ms by the time the
    // release was observed.
    let mut watch = SelectionTakeoverProtocol::new(AtomId(300), AtomId(301), WindowId(777), 2000);
    watch.step(events[0]);
    watch.step(events[1]);
    assert_eq!(watch.state, TakeoverState::WaitForRelease { prior: w, waited_ms: 50 });

    let result = setup_connection(&script_with_events(events, false));
    assert!(matches!(result, TakeoverResult::Ready { .. }));
}

#[test]
fn scenario_prior_owner_never_releases_times_out() {
    // Selection owned by W, never destroyed, budget 2000ms: Failed(Timeout)
    // once at least 2000ms have been reported, and the grab is not held.
    let w = WindowId(42);
    let events = vec![
        TakeoverEvent::OwnerQueried { owner: SelectionOwnership::OwnedByOther(w), time: ServerTime(10) },
        TakeoverEvent::Waited { ms: 1000 },
        TakeoverEvent::Waited { ms: 1000 },
    ];
    let (proto, _, claims, announces) = drive(&events);
    assert_eq!(
        proto.state,
        TakeoverState::Failed { reason: rwm::takeover::FailReason::Timeout { prior_owner: w } }
    );
    assert!(!proto.grab_held);
    assert_eq!(claims, 0);
    assert_eq!(announces, 0);

    let result = setup_connection(&script_with_events(events, false));
    assert_eq!(
        result,
        TakeoverResult::Failed { reason: TakeoverError::SelectionTimeout { prior_owner: w } }
    );
}

#[test]
fn scenario_racing_manager_claims_redirect_mask() {
    // The root redirect mask is already claimed by a concurrently-racing
    // second manager: Failed(RedirectConflict).
    let events = vec![
        TakeoverEvent::OwnerQueried { owner: SelectionOwnership::Unowned, time: ServerTime(10) },
        TakeoverEvent::ClaimOutcome { owner: SelectionOwnership::OwnedBySelf },
        TakeoverEvent::AnnounceSent,
        TakeoverEvent::SyncCompleted,
    ];
    let result = setup_connection(&script_with_events(events, true));
    assert_eq!(result, TakeoverResult::Failed { reason: TakeoverError::RedirectConflict });
}

#[test]
fn claim_race_is_lost_distinctly() {
    // Another manager owns the selection right after our claim.
    let events = vec![
        TakeoverEvent::OwnerQueried { owner: SelectionOwnership::Unowned, time: ServerTime(10) },
        TakeoverEvent::ClaimOutcome { owner: SelectionOwnership::OwnedByOther(WindowId(9)) },
    ];
    let result = setup_connection(&script_with_events(events, false));
    assert_eq!(result, TakeoverResult::Failed { reason: TakeoverError::SelectionRaceLost });
}

#[test]
fn rejected_claim_is_server_rejected() {
    // The selection comes back unowned after our claim: the server rejected
    // the set-owner request.
    let events = vec![
        TakeoverEvent::OwnerQueried { owner: SelectionOwnership::Unowned, time: ServerTime(10) },
        TakeoverEvent::ClaimOutcome { owner: SelectionOwnership::Unowned },
    ];
    let result = setup_connection(&script_with_events(events, false));
    assert_eq!(result, TakeoverResult::Failed { reason: TakeoverError::ServerRejected });
}

#[test]
fn unopenable_display_is_connection_unavailable() {
    let mut script = script_with_events(vec![], false);
    script.probe.display_ok = false;
    // An empty event sequence leaves the protocol in Init, but the probe
    // failure is surfaced first.
    let result = setup_connection(&script);
    assert_eq!(result, TakeoverResult::Failed { reason: TakeoverError::ConnectionUnavailable });
}

#[test]
fn rejected_intern_is_atom_resolution_failed() {
    let events = vec![
        TakeoverEvent::OwnerQueried { owner: SelectionOwnership::Unowned, time: ServerTime(10) },
        TakeoverEvent::ClaimOutcome { owner: SelectionOwnership::OwnedBySelf },
        TakeoverEvent::AnnounceSent,
        TakeoverEvent::SyncCompleted,
    ];
    let mut script = script_with_events(events, false);
    script.manager_selection = AtomId(0);
    let result = setup_connection(&script);
    assert_eq!(result, TakeoverResult::Failed { reason: TakeoverError::AtomResolutionFailed });
}
