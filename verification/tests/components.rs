use rwm::atoms::selection_atom_name;
use rwm::atoms::AtomName;
use rwm::atoms::AtomTable;
use rwm::connection::open_connection;
use rwm::connection::DisplayProbe;
use rwm::connection::ScreenInfo;
use rwm::extensions::probe_extension;
use rwm::extensions::ExtensionInfo;
use rwm::redirect::RootRedirectInstaller;
use rwm::signals::disposition;
use rwm::signals::PendingIntents;
use rwm::signals::SignalIntent;
use rwm::signals::SignalKind;
use rwm::takeover::AnnounceMessage;
use rwm::takeover::SelectionOwnership;
use rwm::takeover::SelectionTakeoverProtocol;
use rwm::takeover::TakeoverAction;
use rwm::takeover::TakeoverEvent;
use rwm::takeover::TakeoverState;
use rwm::takeover::PROTOCOL_VERSION;
use rwm::AtomId;
use rwm::ServerTime;
use rwm::TakeoverError;
use rwm::WindowId;

#[test]
fn selection_name_spells_screen_number() {
    assert_eq!(selection_atom_name(0), b"WM_S0".to_vec());
    assert_eq!(selection_atom_name(7), b"WM_S7".to_vec());
    assert_eq!(selection_atom_name(10), b"WM_S10".to_vec());
    assert_eq!(selection_atom_name(123), b"WM_S123".to_vec());
    assert_eq!(selection_atom_name(4294967295), b"WM_S4294967295".to_vec());
}

#[test]
fn atom_table_is_create_if_absent_and_deterministic() {
    let mut t = AtomTable::new();
    assert_eq!(t.resolve(AtomName::ManagerSelection), None);
    // First resolution adopts the server's answer.
    assert_eq!(
        t.resolve_or_intern(AtomName::ManagerSelection, true, AtomId(55)),
        Some(AtomId(55))
    );
    // A second resolution answers the same atom, whatever the server would
    // now say.
    assert_eq!(
        t.resolve_or_intern(AtomName::ManagerSelection, true, AtomId(99)),
        Some(AtomId(55))
    );
    assert_eq!(t.resolve(AtomName::ManagerSelection), Some(AtomId(55)));
    // The other name is untouched.
    assert_eq!(t.resolve(AtomName::ManagerProperty), None);
    // Without create-if-missing an absent name stays unresolved.
    assert_eq!(t.resolve_or_intern(AtomName::ManagerProperty, false, AtomId(77)), None);
    // A rejected intern (atom 0) resolves nothing.
    assert_eq!(t.resolve_or_intern(AtomName::ManagerProperty, true, AtomId(0)), None);
    assert_eq!(t.resolve(AtomName::ManagerProperty), None);
}

#[test]
fn signal_dispositions_fold_termination_into_shutdown() {
    assert_eq!(disposition(SignalKind::Interrupt), SignalIntent::GracefulShutdown);
    assert_eq!(disposition(SignalKind::Hangup), SignalIntent::GracefulShutdown);
    assert_eq!(disposition(SignalKind::Terminate), SignalIntent::GracefulShutdown);
    assert_eq!(disposition(SignalKind::ChildExited), SignalIntent::ReapChild);
}

#[test]
fn pending_intents_record_and_drain() {
    let mut p = PendingIntents::new();
    assert!(!p.shutdown && !p.reap);
    p.record(SignalKind::ChildExited);
    assert!(!p.shutdown && p.reap);
    p.record(SignalKind::Hangup);
    p.record(SignalKind::Terminate);
    assert!(p.shutdown && p.reap);
    assert!(p.take_shutdown());
    assert!(!p.take_shutdown());
    assert!(p.take_reap());
    assert!(!p.take_reap());
}

#[test]
fn announce_message_has_five_fields_in_order() {
    let m = AnnounceMessage {
        timestamp: ServerTime(1234),
        selection: AtomId(300),
        owner: WindowId(777),
        version: PROTOCOL_VERSION,
        reserved: 0,
    };
    assert_eq!(m.data_fields(), vec![1234, 300, 777, 2, 0]);
}

fn done_protocol() -> SelectionTakeoverProtocol {
    let mut proto = SelectionTakeoverProtocol::new(AtomId(300), AtomId(301), WindowId(777), 2000);
    proto.step(TakeoverEvent::OwnerQueried {
        owner: SelectionOwnership::Unowned,
        time: ServerTime(40),
    });
    proto.step(TakeoverEvent::ClaimOutcome { owner: SelectionOwnership::OwnedBySelf });
    proto.step(TakeoverEvent::AnnounceSent);
    proto.step(TakeoverEvent::SyncCompleted);
    proto
}

#[test]
fn announce_is_captured_with_the_claim_timestamp() {
    let proto = done_protocol();
    assert_eq!(proto.state, TakeoverState::Done);
    let m = proto.announce.expect("a finished takeover captured its announce");
    assert_eq!(m.data_fields(), vec![40, 300, 777, 2, 0]);
}

#[test]
fn pending_actions_follow_the_negotiation() {
    let w = WindowId(42);
    let mut proto = SelectionTakeoverProtocol::new(AtomId(300), AtomId(301), WindowId(777), 2000);
    assert_eq!(proto.pending_action(), TakeoverAction::QueryOwner);
    proto.step(TakeoverEvent::OwnerQueried {
        owner: SelectionOwnership::OwnedByOther(w),
        time: ServerTime(5),
    });
    assert_eq!(proto.pending_action(), TakeoverAction::SubscribeAndAwaitRelease { prior: w });
    proto.step(TakeoverEvent::ReleaseObserved { time: ServerTime(90) });
    assert_eq!(
        proto.pending_action(),
        TakeoverAction::SetOwner { window: WindowId(777), time: ServerTime(90) }
    );
    proto.step(TakeoverEvent::ClaimOutcome { owner: SelectionOwnership::OwnedBySelf });
    match proto.pending_action() {
        TakeoverAction::SendAnnounce { message } => {
            assert_eq!(message.data_fields(), vec![90, 300, 777, 2, 0]);
        }
        other => panic!("expected the announce to be pending, got {:?}", other),
    }
    proto.step(TakeoverEvent::AnnounceSent);
    assert_eq!(proto.pending_action(), TakeoverAction::Sync);
    assert!(!proto.grab_held);
    proto.step(TakeoverEvent::SyncCompleted);
    assert_eq!(proto.pending_action(), TakeoverAction::NoAction);
}

#[test]
fn release_grab_is_idempotent_cleanup() {
    let mut proto = SelectionTakeoverProtocol::new(AtomId(300), AtomId(301), WindowId(777), 2000);
    assert!(proto.grab_held);
    proto.release_grab();
    assert!(!proto.grab_held);
    assert_eq!(proto.state, TakeoverState::Init);
    proto.release_grab();
    assert!(!proto.grab_held);
}

#[test]
fn shutdown_mid_takeover_aborts_cleanly() {
    let mut proto = SelectionTakeoverProtocol::new(AtomId(300), AtomId(301), WindowId(777), 2000);
    proto.step(TakeoverEvent::OwnerQueried {
        owner: SelectionOwnership::OwnedByOther(WindowId(42)),
        time: ServerTime(5),
    });
    let mut intents = PendingIntents::new();
    // No intent pending: nothing happens.
    assert!(!rwm::connection::cancel_if_shutdown(&mut proto, &mut intents));
    assert!(proto.grab_held);
    // A termination signal arrives while the negotiation is waiting.
    intents.record(SignalKind::Terminate);
    assert!(rwm::connection::cancel_if_shutdown(&mut proto, &mut intents));
    assert!(!proto.grab_held);
    assert!(!intents.shutdown);
}

#[test]
fn unexpected_events_do_not_move_the_negotiation() {
    let mut proto = SelectionTakeoverProtocol::new(AtomId(300), AtomId(301), WindowId(777), 2000);
    proto.step(TakeoverEvent::AnnounceSent);
    proto.step(TakeoverEvent::SyncCompleted);
    assert_eq!(proto.state, TakeoverState::Init);
    assert!(proto.grab_held);
}

#[test]
fn redirect_mask_and_conflict_interpretation() {
    let proto = done_protocol();
    let installer = RootRedirectInstaller::new(&proto, WindowId(101));
    // substructure redirect/notify, structure notify, property change,
    // colormap change, button press/release, pointer motion and hint.
    let expected: u64 = (1 << 20)
        | (1 << 19)
        | (1 << 17)
        | (1 << 22)
        | (1 << 23)
        | (1 << 2)
        | (1 << 3)
        | (1 << 6)
        | (1 << 7);
    assert_eq!(installer.request.mask, expected);
    assert_eq!(installer.interpret_install_reply(false), Ok(()));
    assert_eq!(
        installer.interpret_install_reply(true),
        Err(TakeoverError::RedirectConflict)
    );
}

#[test]
fn focus_falls_back_to_root_only_when_unfocused() {
    let proto = done_protocol();
    let installer = RootRedirectInstaller::new(&proto, WindowId(101));
    assert_eq!(installer.focus_fallback(None), Some(WindowId(101)));
    assert_eq!(installer.focus_fallback(Some(WindowId(5))), None);
}

#[test]
fn extension_absence_is_not_an_error() {
    assert_eq!(
        probe_extension(Some((64, 128))),
        ExtensionInfo { present: true, event_base: 64, error_base: 128 }
    );
    assert_eq!(
        probe_extension(None),
        ExtensionInfo { present: false, event_base: 0, error_base: 0 }
    );
}

#[test]
fn open_connection_assembles_the_screen() {
    let probe = DisplayProbe {
        display_ok: true,
        visual_ok: true,
        gc_ok: true,
        screen_handle_ok: true,
        screen: 2,
        root_window: WindowId(11),
        width: 800,
        height: 600,
        depth: 24,
        colormap: 9,
        colormap_count: 3,
    };
    assert_eq!(
        open_connection(&probe),
        Ok(ScreenInfo {
            screen: 2,
            root_window: WindowId(11),
            width: 800,
            height: 600,
            depth: 24,
            colormap: 9,
            colormap_count: 3,
        })
    );
    let mut bad = probe;
    bad.gc_ok = false;
    assert_eq!(open_connection(&bad), Err(TakeoverError::ConnectionUnavailable));
}
