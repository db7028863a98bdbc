//! The manager-selection takeover state machine: the ICCCM handoff sequence
//! that negotiates ownership of a screen's manager selection from any prior
//! owner, bounded by a timeout budget, while a server grab prevents a
//! competing manager from interleaving a claim.
//!
//! The machine is pure: it consumes events reported by the display server
//! (owner queries, structure notifications, elapsed time, claim outcomes) and
//! yields the next server request to issue. The caller performs the requests
//! and feeds the replies back in, so the whole negotiation is checkable
//! without a live server.

use vstd::prelude::*;

use crate::AtomId;
use crate::ServerTime;
use crate::WindowId;

verus! {

/// The version tag carried in the announce broadcast, fixed by convention.
pub const PROTOCOL_VERSION: u32 = 2;

/// Who owns the manager selection, as reported by the server.
#[derive(Clone, Copy, Debug, PartialEq, Eq, Structural)]
pub enum SelectionOwnership {
    Unowned,
    OwnedByOther(WindowId),
    OwnedBySelf,
}

/// Why a takeover ended in failure.
#[derive(Clone, Copy, Debug, PartialEq, Eq, Structural)]
pub enum FailReason {
    /// The prior owner never released within the budget; carries its window.
    Timeout { prior_owner: WindowId },
    /// The server rejected the set-owner request (the selection came back
    /// unowned after the claim).
    ServerRejected,
    /// Another manager owned the selection right after our claim.
    AlreadyOwnedAndUnresponsive,
}

/// The states of the takeover negotiation.
#[derive(Clone, Copy, Debug, PartialEq, Eq, Structural)]
pub enum TakeoverState {
    /// About to query the current owner of the selection.
    Init,
    /// A prior owner exists; block on its structure notifications until it
    /// relinquishes, bounded by the timeout budget.
    WaitForRelease { prior: WindowId, waited_ms: u64 },
    /// Set the selection owner to the supporting window, stamped with a
    /// logical server time.
    Claim { time: ServerTime },
    /// Broadcast the new-manager client message to the root window.
    Announce { time: ServerTime },
    /// Force a round trip so the announce is delivered.
    Synced,
    /// Terminal success.
    Done,
    /// Terminal failure.
    Failed { reason: FailReason },
}

/// What the display server reported back to the negotiation.
#[derive(Clone, Copy, Debug, PartialEq, Eq, Structural)]
pub enum TakeoverEvent {
    /// Reply to the initial owner query, with the server's logical time.
    OwnerQueried { owner: SelectionOwnership, time: ServerTime },
    /// The prior owner's window was destroyed or signaled relinquishment
    /// (also reported when the window was already gone before subscribing).
    ReleaseObserved { time: ServerTime },
    /// Time passed while waiting without any release being observed.
    Waited { ms: u64 },
    /// Owner of the selection as re-queried right after the claim.
    ClaimOutcome { owner: SelectionOwnership },
    /// The announce client message was handed to the server (no reply).
    AnnounceSent,
    /// The round-trip flush completed.
    SyncCompleted,
}

/// The next server request the caller must issue for the negotiation to move.
#[derive(Clone, Copy, Debug, PartialEq, Eq, Structural)]
pub enum TakeoverAction {
    /// Query the current owner of the manager selection.
    QueryOwner,
    /// Subscribe to structure notifications on the prior owner and block
    /// until it releases or the budget runs out.
    SubscribeAndAwaitRelease { prior: WindowId },
    /// Atomically set the selection owner to `window` at server time `time`.
    SetOwner { window: WindowId, time: ServerTime },
    /// Broadcast the announce message to the root window.
    SendAnnounce { message: AnnounceMessage },
    /// Force a round-trip flush.
    Sync,
    /// Terminal state: nothing left to issue.
    NoAction,
}

/// The new-manager broadcast, with the exact field layout other clients
/// (panels, session managers) listen for.
#[derive(Clone, Copy, Debug, PartialEq, Eq, Structural)]
pub struct AnnounceMessage {
    pub timestamp: ServerTime,
    pub selection: AtomId,
    pub owner: WindowId,
    pub version: u32,
    pub reserved: u32,
}

impl AnnounceMessage {
    /// The five 32-bit data fields of the client message, in the documented
    /// order: timestamp, selection atom, new owner window, version tag,
    /// reserved.
    pub fn data_fields(&self) -> (v: Vec<u32>)
        ensures
            v@.len() == 5,
            v@[0] == self.timestamp.0,
            v@[1] == self.selection.0,
            v@[2] == self.owner.0,
            v@[3] == self.version,
            v@[4] == self.reserved,
    {
        let mut v: Vec<u32> = Vec::new();
        v.push(self.timestamp.0);
        v.push(self.selection.0);
        v.push(self.owner.0);
        v.push(self.version);
        v.push(self.reserved);
        v
    }
}

/// The announce message a takeover of `selection` by `owner` broadcasts when
/// its claim was confirmed at server time `time`.
pub open spec fn spec_announce_message(time: ServerTime, selection: AtomId, owner: WindowId) -> AnnounceMessage {
    AnnounceMessage {
        timestamp: time,
        selection: selection,
        owner: owner,
        version: PROTOCOL_VERSION,
        reserved: 0,
    }
}

/// The states during which the server grab taken around the takeover window
/// is still held: from the owner query up to completing the announce.
pub open spec fn is_active(s: TakeoverState) -> bool {
    match s {
        TakeoverState::Init => true,
        TakeoverState::WaitForRelease { .. } => true,
        TakeoverState::Claim { .. } => true,
        TakeoverState::Announce { .. } => true,
        _ => false,
    }
}

/// The states no event leads out of.
pub open spec fn is_terminal(s: TakeoverState) -> bool {
    s is Done || s is Failed
}

/// The transition relation of the negotiation. An event that the current
/// state is not waiting for leaves the state unchanged.
pub open spec fn spec_next(s: TakeoverState, e: TakeoverEvent, budget: u64) -> TakeoverState {
    match (s, e) {
        (TakeoverState::Init, TakeoverEvent::OwnerQueried { owner, time }) => match owner {
            SelectionOwnership::OwnedByOther(w) => TakeoverState::WaitForRelease { prior: w, waited_ms: 0 },
            _ => TakeoverState::Claim { time },
        },
        (TakeoverState::WaitForRelease { .. }, TakeoverEvent::ReleaseObserved { time }) => {
            TakeoverState::Claim { time }
        },
        (TakeoverState::WaitForRelease { prior, waited_ms }, TakeoverEvent::Waited { ms }) => {
            if waited_ms + ms >= budget {
                TakeoverState::Failed { reason: FailReason::Timeout { prior_owner: prior } }
            } else {
                TakeoverState::WaitForRelease { prior, waited_ms: (waited_ms + ms) as u64 }
            }
        },
        (TakeoverState::Claim { time }, TakeoverEvent::ClaimOutcome { owner }) => match owner {
            SelectionOwnership::OwnedBySelf => TakeoverState::Announce { time },
            SelectionOwnership::OwnedByOther(_) => TakeoverState::Failed {
                reason: FailReason::AlreadyOwnedAndUnresponsive,
            },
            SelectionOwnership::Unowned => TakeoverState::Failed { reason: FailReason::ServerRejected },
        },
        (TakeoverState::Announce { .. }, TakeoverEvent::AnnounceSent) => TakeoverState::Synced,
        (TakeoverState::Synced, TakeoverEvent::SyncCompleted) => TakeoverState::Done,
        _ => s,
    }
}

/// The state after consuming a whole sequence of events.
pub open spec fn spec_run(s: TakeoverState, events: Seq<TakeoverEvent>, budget: u64) -> TakeoverState
    decreases events.len(),
{
    if events.len() == 0 {
        s
    } else {
        spec_run(spec_next(s, events[0], budget), events.skip(1), budget)
    }
}

/// The selection takeover negotiation, with the configuration it was started
/// with and a record of whether the server grab is still held.
pub struct SelectionTakeoverProtocol {
    pub state: TakeoverState,
    /// Whether the server grab taken around the takeover window is held.
    pub grab_held: bool,
    /// The per-screen manager selection atom being taken over.
    pub selection: AtomId,
    /// The atom naming the manager property the announce is typed with.
    pub manager_property: AtomId,
    /// The window created to hold the selection.
    pub supporting_window: WindowId,
    /// How long a prior owner is given to release, in milliseconds.
    pub timeout_budget_ms: u64,
    /// The announce message, once the claim has been confirmed.
    pub announce: Option<AnnounceMessage>,
}

/// The announce record after one transition: captured exactly when the claim
/// is confirmed, kept unchanged otherwise.
pub open spec fn spec_step_announce(p: SelectionTakeoverProtocol, e: TakeoverEvent) -> Option<AnnounceMessage> {
    match (p.state, e) {
        (TakeoverState::Claim { time }, TakeoverEvent::ClaimOutcome { owner: SelectionOwnership::OwnedBySelf }) => {
            Some(spec_announce_message(time, p.selection, p.supporting_window))
        },
        _ => p.announce,
    }
}

impl SelectionTakeoverProtocol {
    /// Well-formedness: the wait counter stays below the budget, the grab is
    /// only held while the negotiation is active, and once the claim has been
    /// announced the captured message names this negotiation's selection and
    /// supporting window with the constant version tag.
    pub open spec fn wf(self) -> bool {
        &&& self.timeout_budget_ms > 0
        &&& (match self.state {
            TakeoverState::WaitForRelease { waited_ms, .. } => waited_ms < self.timeout_budget_ms,
            _ => true,
        })
        &&& (self.grab_held ==> is_active(self.state))
        &&& (match self.state {
            TakeoverState::Announce { time } => self.announce == Some(
                spec_announce_message(time, self.selection, self.supporting_window),
            ),
            TakeoverState::Synced => self.spec_announce_captured(),
            TakeoverState::Done => self.spec_announce_captured(),
            _ => true,
        })
    }

    /// The captured announce names this negotiation's selection and window,
    /// carries the constant version tag, and zeroes the reserved field.
    pub open spec fn spec_announce_captured(self) -> bool {
        match self.announce {
            Some(m) => {
                &&& m.selection == self.selection
                &&& m.owner == self.supporting_window
                &&& m.version == PROTOCOL_VERSION
                &&& m.reserved == 0
            },
            None => false,
        }
    }

    /// Start a negotiation for `selection`, naming `supporting_window` as the
    /// owner-to-be. The caller has just grabbed the server; the grab is
    /// recorded as held and stays held until the announce completes or the
    /// negotiation fails.
    pub fn new(
        selection: AtomId,
        manager_property: AtomId,
        supporting_window: WindowId,
        timeout_budget_ms: u64,
    ) -> (p: SelectionTakeoverProtocol)
        requires
            timeout_budget_ms > 0,
        ensures
            p.wf(),
            p.state == TakeoverState::Init,
            p.grab_held,
            p.selection == selection,
            p.manager_property == manager_property,
            p.supporting_window == supporting_window,
            p.timeout_budget_ms == timeout_budget_ms,
            p.announce is None,
    {
        SelectionTakeoverProtocol {
            state: TakeoverState::Init,
            grab_held: true,
            selection,
            manager_property,
            supporting_window,
            timeout_budget_ms,
            announce: None,
        }
    }

    /// The server request the caller must issue next, determined by the
    /// current state alone.
    pub open spec fn spec_action(self) -> TakeoverAction {
        match self.state {
            TakeoverState::Init => TakeoverAction::QueryOwner,
            TakeoverState::WaitForRelease { prior, .. } => TakeoverAction::SubscribeAndAwaitRelease { prior },
            TakeoverState::Claim { time } => TakeoverAction::SetOwner {
                window: self.supporting_window,
                time,
            },
            TakeoverState::Announce { time } => TakeoverAction::SendAnnounce {
                message: spec_announce_message(time, self.selection, self.supporting_window),
            },
            TakeoverState::Synced => TakeoverAction::Sync,
            TakeoverState::Done => TakeoverAction::NoAction,
            TakeoverState::Failed { .. } => TakeoverAction::NoAction,
        }
    }

    /// Report the next server request to issue.
    pub fn pending_action(&self) -> (a: TakeoverAction)
        ensures
            a == self.spec_action(),
    {
        match self.state {
            TakeoverState::Init => TakeoverAction::QueryOwner,
            TakeoverState::WaitForRelease { prior, .. } => TakeoverAction::SubscribeAndAwaitRelease { prior },
            TakeoverState::Claim { time } => TakeoverAction::SetOwner {
                window: self.supporting_window,
                time,
            },
            TakeoverState::Announce { time } => TakeoverAction::SendAnnounce {
                message: AnnounceMessage {
                    timestamp: time,
                    selection: self.selection,
                    owner: self.supporting_window,
                    version: PROTOCOL_VERSION,
                    reserved: 0,
                },
            },
            TakeoverState::Synced => TakeoverAction::Sync,
            TakeoverState::Done => TakeoverAction::NoAction,
            TakeoverState::Failed { .. } => TakeoverAction::NoAction,
        }
    }

    /// Consume one server event: move to the next state of the transition
    /// relation, capture the announce message when the claim is confirmed,
    /// and release the grab as soon as the negotiation leaves its active
    /// states — in particular on every failure.
    pub fn step(&mut self, event: TakeoverEvent)
        requires
            old(self).wf(),
        ensures
            final(self).wf(),
            final(self).state == spec_next(old(self).state, event, old(self).timeout_budget_ms),
            final(self).grab_held == (old(self).grab_held && is_active(final(self).state)),
            final(self).announce == spec_step_announce(*old(self), event),
            final(self).selection == old(self).selection,
            final(self).manager_property == old(self).manager_property,
            final(self).supporting_window == old(self).supporting_window,
            final(self).timeout_budget_ms == old(self).timeout_budget_ms,
    {
        match (self.state, event) {
            (TakeoverState::Init, TakeoverEvent::OwnerQueried { owner, time }) => match owner {
                SelectionOwnership::OwnedByOther(w) => {
                    self.state = TakeoverState::WaitForRelease { prior: w, waited_ms: 0 };
                },
                _ => {
                    self.state = TakeoverState::Claim { time };
                },
            },
            (TakeoverState::WaitForRelease { .. }, TakeoverEvent::ReleaseObserved { time }) => {
                self.state = TakeoverState::Claim { time };
            },
            (TakeoverState::WaitForRelease { prior, waited_ms }, TakeoverEvent::Waited { ms }) => {
                if ms >= self.timeout_budget_ms - waited_ms {
                    self.state = TakeoverState::Failed {
                        reason: FailReason::Timeout { prior_owner: prior },
                    };
                } else {
                    self.state = TakeoverState::WaitForRelease { prior, waited_ms: waited_ms + ms };
                }
            },
            (TakeoverState::Claim { time }, TakeoverEvent::ClaimOutcome { owner }) => match owner {
                SelectionOwnership::OwnedBySelf => {
                    self.announce = Some(AnnounceMessage {
                        timestamp: time,
                        selection: self.selection,
                        owner: self.supporting_window,
                        version: PROTOCOL_VERSION,
                        reserved: 0,
                    });
                    self.state = TakeoverState::Announce { time };
                },
                SelectionOwnership::OwnedByOther(_) => {
                    self.state = TakeoverState::Failed {
                        reason: FailReason::AlreadyOwnedAndUnresponsive,
                    };
                },
                SelectionOwnership::Unowned => {
                    self.state = TakeoverState::Failed { reason: FailReason::ServerRejected };
                },
            },
            (TakeoverState::Announce { .. }, TakeoverEvent::AnnounceSent) => {
                self.state = TakeoverState::Synced;
            },
            (TakeoverState::Synced, TakeoverEvent::SyncCompleted) => {
                self.state = TakeoverState::Done;
            },
            _ => {},
        }
        let active = match self.state {
            TakeoverState::Init => true,
            TakeoverState::WaitForRelease { .. } => true,
            TakeoverState::Claim { .. } => true,
            TakeoverState::Announce { .. } => true,
            _ => false,
        };
        self.grab_held = self.grab_held && active;
    }

    /// Drop the server grab without touching the negotiation: the cleanup an
    /// external shutdown runs when it aborts a takeover mid-flight, and a
    /// no-op when the grab is already gone.
    pub fn release_grab(&mut self)
        ensures
            *final(self) == (SelectionTakeoverProtocol { grab_held: false, ..*old(self) }),
    {
        self.grab_held = false;
    }

    /// Consume a whole sequence of server events in order.
    pub fn run(&mut self, events: &Vec<TakeoverEvent>)
        requires
            old(self).wf(),
        ensures
            final(self).wf(),
            final(self).state == spec_run(old(self).state, events@, old(self).timeout_budget_ms),
            final(self).grab_held == (old(self).grab_held && is_active(final(self).state)),
            final(self).selection == old(self).selection,
            final(self).manager_property == old(self).manager_property,
            final(self).supporting_window == old(self).supporting_window,
            final(self).timeout_budget_ms == old(self).timeout_budget_ms,
    {
        let ghost p0 = *self;
        let mut i: usize = 0;
        while i < events.len()
            invariant
                0 <= i <= events.len(),
                self.wf(),
                self.state == spec_run(p0.state, events@.take(i as int), p0.timeout_budget_ms),
                self.grab_held == (p0.grab_held && is_active(self.state)),
                self.selection == p0.selection,
                self.manager_property == p0.manager_property,
                self.supporting_window == p0.supporting_window,
                self.timeout_budget_ms == p0.timeout_budget_ms,
            decreases events.len() - i,
        {
            let ghost s_before = self.state;
            let e = events[i];
            proof {
                assert(events@.take(i + 1) =~= events@.take(i as int).push(events@[i as int]));
                lemma_spec_run_push(p0.state, events@.take(i as int), e, p0.timeout_budget_ms);
            }
            self.step(e);
            proof {
                lemma_activity_monotone(s_before, e, p0.timeout_budget_ms);
            }
            i = i + 1;
        }
        proof {
            assert(events@.take(events.len() as int) =~= events@);
        }
    }
}

/// Appending one event to a run is one more transition at its end.
pub proof fn lemma_spec_run_push(s: TakeoverState, events: Seq<TakeoverEvent>, e: TakeoverEvent, budget: u64)
    ensures
        spec_run(s, events.push(e), budget) == spec_next(spec_run(s, events, budget), e, budget),
    decreases events.len(),
{
    let pushed = events.push(e);
    assert(pushed.len() == events.len() + 1);
    if events.len() == 0 {
        assert(pushed[0] == e);
        assert(pushed.skip(1) =~= Seq::<TakeoverEvent>::empty());
        assert(spec_run(s, pushed, budget) == spec_run(spec_next(s, e, budget), pushed.skip(1), budget));
        assert(spec_run(spec_next(s, e, budget), pushed.skip(1), budget) == spec_next(s, e, budget));
        assert(spec_run(s, events, budget) == s);
    } else {
        assert(pushed[0] == events[0]);
        assert(pushed.skip(1) =~= events.skip(1).push(e));
        assert(spec_run(s, pushed, budget) == spec_run(spec_next(s, events[0], budget), pushed.skip(1), budget));
        lemma_spec_run_push(spec_next(s, events[0], budget), events.skip(1), e, budget);
        assert(spec_run(s, events, budget) == spec_run(spec_next(s, events[0], budget), events.skip(1), budget));
    }
}

/// A run over a concatenation is the run over the first part followed by the
/// run over the second.
pub proof fn lemma_spec_run_concat(s: TakeoverState, a: Seq<TakeoverEvent>, b: Seq<TakeoverEvent>, budget: u64)
    ensures
        spec_run(s, a + b, budget) == spec_run(spec_run(s, a, budget), b, budget),
    decreases a.len(),
{
    if a.len() == 0 {
        assert(a + b =~= b);
    } else {
        assert((a + b)[0] == a[0]);
        assert((a + b).skip(1) =~= a.skip(1) + b);
        lemma_spec_run_concat(spec_next(s, a[0], budget), a.skip(1), b, budget);
    }
}

/// No transition leads from an inactive state back into an active one: once
/// the grab is allowed to go, it is never owed again.
pub proof fn lemma_activity_monotone(s: TakeoverState, e: TakeoverEvent, budget: u64)
    ensures
        is_active(spec_next(s, e, budget)) ==> is_active(s),
{
}

/// Whether `e` is the event the negotiation is waiting for in state `s`: the
/// server's confirmation of the step just issued, or the release the wait is
/// blocked on. Nothing advances a terminal state.
pub open spec fn advances(s: TakeoverState, e: TakeoverEvent) -> bool {
    match s {
        TakeoverState::Init => e matches TakeoverEvent::OwnerQueried { .. },
        TakeoverState::WaitForRelease { .. } => e matches TakeoverEvent::ReleaseObserved { .. },
        TakeoverState::Claim { .. } => e matches TakeoverEvent::ClaimOutcome {
            owner: SelectionOwnership::OwnedBySelf,
        },
        TakeoverState::Announce { .. } => e == TakeoverEvent::AnnounceSent,
        TakeoverState::Synced => e == TakeoverEvent::SyncCompleted,
        TakeoverState::Done => false,
        TakeoverState::Failed { .. } => false,
    }
}

/// How many confirmations still separate a state from Done, along the longest
/// path; zero for the terminal states.
pub open spec fn steps_to_done(s: TakeoverState) -> int {
    match s {
        TakeoverState::Init => 5,
        TakeoverState::WaitForRelease { .. } => 4,
        TakeoverState::Claim { .. } => 3,
        TakeoverState::Announce { .. } => 2,
        TakeoverState::Synced => 1,
        TakeoverState::Done => 0,
        TakeoverState::Failed { .. } => 0,
    }
}

/// A run whose every event advances, seen from after its first transition.
proof fn lemma_advancing_shift(s: TakeoverState, events: Seq<TakeoverEvent>, budget: u64)
    requires
        events.len() > 0,
        forall|j: int| 0 <= j < events.len() ==> advances(
            spec_run(s, events.take(j), budget),
            #[trigger] events[j],
        ),
    ensures
        forall|j: int| 0 <= j < events.len() - 1 ==> advances(
            spec_run(spec_next(s, events[0], budget), events.skip(1).take(j), budget),
            #[trigger] events.skip(1)[j],
        ),
{
    let s1 = spec_next(s, events[0], budget);
    assert forall|j: int| 0 <= j < events.len() - 1 implies advances(
        spec_run(s1, events.skip(1).take(j), budget),
        events.skip(1)[j],
    ) by {
        assert(events.skip(1)[j] == events[j + 1]);
        assert(events.take(j + 1)[0] == events[0]);
        assert(events.take(j + 1).skip(1) =~= events.skip(1).take(j));
        assert(spec_run(s, events.take(j + 1), budget) == spec_run(
            s1,
            events.take(j + 1).skip(1),
            budget,
        ));
        assert(advances(spec_run(s, events.take(j + 1), budget), events[j + 1]));
    }
}

/// A run in which the server confirms every step loses at least one remaining
/// step per event and never fails; with enough events it reaches Done.
pub proof fn lemma_advancing_run_reaches_done(s: TakeoverState, events: Seq<TakeoverEvent>, budget: u64)
    requires
        !(s is Done),
        !(s is Failed),
        forall|j: int| 0 <= j < events.len() ==> advances(
            spec_run(s, events.take(j), budget),
            #[trigger] events[j],
        ),
    ensures
        spec_run(s, events, budget) is Done || (!(spec_run(s, events, budget) is Failed)
            && steps_to_done(spec_run(s, events, budget)) + events.len() <= steps_to_done(s)),
    decreases events.len(),
{
    if events.len() > 0 {
        assert(events.take(0) =~= Seq::<TakeoverEvent>::empty());
        assert(advances(s, events[0]));
        let s1 = spec_next(s, events[0], budget);
        assert(!(s1 is Failed));
        assert(steps_to_done(s1) <= steps_to_done(s) - 1);
        assert(spec_run(s, events, budget) == spec_run(s1, events.skip(1), budget));
        if s1 is Done {
            lemma_terminal_absorbing(s1, events.skip(1), budget);
            if events.len() > 1 {
                assert(events.take(1).len() == 1);
                assert(events.take(1)[0] == events[0]);
                assert(events.take(1).skip(1) =~= Seq::<TakeoverEvent>::empty());
                assert(spec_run(s, events.take(1), budget) == spec_run(
                    s1,
                    events.take(1).skip(1),
                    budget,
                ));
                assert(spec_run(s, events.take(1), budget) == s1);
                assert(advances(s1, events[1]));
                assert(false);
            }
        } else {
            lemma_advancing_shift(s, events, budget);
            lemma_advancing_run_reaches_done(s1, events.skip(1), budget);
        }
    }
}

/// From any state other than Init and WaitForRelease, no run ever visits
/// WaitForRelease again (or returns to Init): the wait is entered from Init
/// alone.
pub proof fn lemma_no_wait_outside_init(s: TakeoverState, events: Seq<TakeoverEvent>, budget: u64)
    requires
        !(s is Init),
        !(s is WaitForRelease),
    ensures
        !(spec_run(s, events, budget) is WaitForRelease),
        !(spec_run(s, events, budget) is Init),
    decreases events.len(),
{
    if events.len() > 0 {
        let s1 = spec_next(s, events[0], budget);
        assert(!(s1 is Init) && !(s1 is WaitForRelease));
        lemma_no_wait_outside_init(s1, events.skip(1), budget);
    }
}

/// Law: a startup that finds the selection unowned reaches Done without ever
/// entering WaitForRelease, for every run in which the server confirms each
/// step.
pub proof fn lemma_unowned_takeover(events: Seq<TakeoverEvent>, budget: u64)
    requires
        events.len() >= 4,
        events[0] matches TakeoverEvent::OwnerQueried { owner: SelectionOwnership::Unowned, .. },
        forall|j: int| 0 <= j < events.len() ==> advances(
            spec_run(TakeoverState::Init, events.take(j), budget),
            #[trigger] events[j],
        ),
    ensures
        spec_run(TakeoverState::Init, events, budget) is Done,
        forall|i: int| 0 <= i <= events.len() ==> !(spec_run(
            TakeoverState::Init,
            events.take(i),
            budget,
        ) is WaitForRelease),
{
    let s1 = spec_next(TakeoverState::Init, events[0], budget);
    assert(s1 is Claim);
    lemma_advancing_shift(TakeoverState::Init, events, budget);
    lemma_advancing_run_reaches_done(s1, events.skip(1), budget);
    assert(spec_run(TakeoverState::Init, events, budget) == spec_run(s1, events.skip(1), budget));
    assert forall|i: int| 0 <= i <= events.len() implies !(spec_run(
        TakeoverState::Init,
        events.take(i),
        budget,
    ) is WaitForRelease) by {
        if i > 0 {
            assert(events.take(i)[0] == events[0]);
            assert(events.take(i).skip(1) =~= events.skip(1).take(i - 1));
            assert(spec_run(TakeoverState::Init, events.take(i), budget) == spec_run(
                s1,
                events.take(i).skip(1),
                budget,
            ));
            lemma_no_wait_outside_init(s1, events.skip(1).take(i - 1), budget);
        }
    }
}

/// Whether a sequence consists of waiting reports alone.
pub open spec fn all_waits(events: Seq<TakeoverEvent>) -> bool {
    forall|j: int| 0 <= j < events.len() ==> #[trigger] events[j] is Waited
}

/// The total time a sequence of events reports as having passed.
pub open spec fn total_waited(events: Seq<TakeoverEvent>) -> int
    decreases events.len(),
{
    if events.len() == 0 {
        0
    } else {
        (match events[0] {
            TakeoverEvent::Waited { ms } => ms as int,
            _ => 0,
        }) + total_waited(events.skip(1))
    }
}

proof fn lemma_total_waited_nonneg(events: Seq<TakeoverEvent>)
    ensures
        total_waited(events) >= 0,
    decreases events.len(),
{
    if events.len() > 0 {
        lemma_total_waited_nonneg(events.skip(1));
    }
}

proof fn lemma_all_waits_skip(events: Seq<TakeoverEvent>)
    requires
        events.len() > 0,
        all_waits(events),
    ensures
        all_waits(events.skip(1)),
{
    assert forall|j: int| 0 <= j < events.skip(1).len() implies #[trigger] events.skip(
        1,
    )[j] is Waited by {
        assert(events.skip(1)[j] == events[j + 1]);
        assert(events[j + 1] is Waited);
    }
}

/// The closed form of a run made of waiting alone: either the budget is
/// crossed and the negotiation fails with Timeout, or it is still waiting
/// with the time accumulated.
pub proof fn lemma_waiting_run(prior: WindowId, waited: u64, events: Seq<TakeoverEvent>, budget: u64)
    requires
        waited < budget,
        all_waits(events),
    ensures
        spec_run(
            TakeoverState::WaitForRelease { prior, waited_ms: waited },
            events,
            budget,
        ) == (if waited + total_waited(events) >= budget {
            TakeoverState::Failed { reason: FailReason::Timeout { prior_owner: prior } }
        } else {
            TakeoverState::WaitForRelease {
                prior,
                waited_ms: (waited + total_waited(events)) as u64,
            }
        }),
    decreases events.len(),
{
    if events.len() > 0 {
        assert(events[0] is Waited);
        let ms: u64 = match events[0] {
            TakeoverEvent::Waited { ms } => ms,
            _ => 0u64,
        };
        lemma_all_waits_skip(events);
        lemma_total_waited_nonneg(events.skip(1));
        if waited + ms >= budget {
            lemma_terminal_absorbing(
                TakeoverState::Failed { reason: FailReason::Timeout { prior_owner: prior } },
                events.skip(1),
                budget,
            );
        } else {
            lemma_waiting_run(prior, (waited + ms) as u64, events.skip(1), budget);
        }
    }
}

/// Law: if the prior owner never relinquishes and the reported waiting
/// reaches the budget, the run terminates in Failed(Timeout) — an inactive
/// state, so by `step`'s and `run`'s contracts the server grab is not held
/// afterward.
pub proof fn lemma_timeout_run(prior: WindowId, waited: u64, events: Seq<TakeoverEvent>, budget: u64)
    requires
        waited < budget,
        all_waits(events),
        waited + total_waited(events) >= budget,
    ensures
        spec_run(TakeoverState::WaitForRelease { prior, waited_ms: waited }, events, budget)
            == (TakeoverState::Failed { reason: FailReason::Timeout { prior_owner: prior } }),
        !is_active(
            spec_run(TakeoverState::WaitForRelease { prior, waited_ms: waited }, events, budget),
        ),
{
    lemma_waiting_run(prior, waited, events, budget);
}

/// A confirmed claim followed by the announce and the flush reaches Done.
proof fn lemma_confirmation_tail(time: ServerTime, budget: u64)
    ensures
        spec_run(
            TakeoverState::Claim { time },
            seq![
                TakeoverEvent::ClaimOutcome { owner: SelectionOwnership::OwnedBySelf },
                TakeoverEvent::AnnounceSent,
                TakeoverEvent::SyncCompleted,
            ],
            budget,
        ) is Done,
{
    let tail = seq![
        TakeoverEvent::ClaimOutcome { owner: SelectionOwnership::OwnedBySelf },
        TakeoverEvent::AnnounceSent,
        TakeoverEvent::SyncCompleted,
    ];
    let s0 = TakeoverState::Claim { time };
    assert(tail.len() == 3);
    assert(tail[0] == (TakeoverEvent::ClaimOutcome { owner: SelectionOwnership::OwnedBySelf }));
    let t2 = tail.skip(1);
    assert(t2.len() == 2 && t2[0] == TakeoverEvent::AnnounceSent && t2[1]
        == TakeoverEvent::SyncCompleted);
    assert(spec_run(s0, tail, budget) == spec_run(TakeoverState::Announce { time }, t2, budget));
    let t3 = t2.skip(1);
    assert(t3.len() == 1 && t3[0] == TakeoverEvent::SyncCompleted);
    assert(spec_run(TakeoverState::Announce { time }, t2, budget) == spec_run(
        TakeoverState::Synced,
        t3,
        budget,
    ));
    assert(t3.skip(1).len() == 0);
    assert(spec_run(TakeoverState::Synced, t3, budget) == spec_run(
        TakeoverState::Done,
        t3.skip(1),
        budget,
    ));
}

/// Law: a prior owner that is destroyed before or during the release wait
/// does not hang the takeover. After any waiting that stays within the
/// budget, observing the release and the server's confirmations drive the
/// run from Init to Done.
pub proof fn lemma_prior_release_takeover(
    prior: WindowId,
    t0: ServerTime,
    t1: ServerTime,
    waits: Seq<TakeoverEvent>,
    budget: u64,
)
    requires
        budget > 0,
        all_waits(waits),
        total_waited(waits) < budget,
    ensures
        spec_run(
            TakeoverState::Init,
            seq![
                TakeoverEvent::OwnerQueried {
                    owner: SelectionOwnership::OwnedByOther(prior),
                    time: t0,
                },
            ] + waits + seq![TakeoverEvent::ReleaseObserved { time: t1 }] + seq![
                TakeoverEvent::ClaimOutcome { owner: SelectionOwnership::OwnedBySelf },
                TakeoverEvent::AnnounceSent,
                TakeoverEvent::SyncCompleted,
            ],
            budget,
        ) is Done,
{
    let head = seq![
        TakeoverEvent::OwnerQueried { owner: SelectionOwnership::OwnedByOther(prior), time: t0 },
    ];
    let release = seq![TakeoverEvent::ReleaseObserved { time: t1 }];
    let tail = seq![
        TakeoverEvent::ClaimOutcome { owner: SelectionOwnership::OwnedBySelf },
        TakeoverEvent::AnnounceSent,
        TakeoverEvent::SyncCompleted,
    ];
    let events = head + waits + release + tail;
    let waiting = TakeoverState::WaitForRelease { prior, waited_ms: 0 };

    assert(head.len() == 1);
    assert(head[0] == (TakeoverEvent::OwnerQueried {
        owner: SelectionOwnership::OwnedByOther(prior),
        time: t0,
    }));
    assert(head.skip(1).len() == 0);
    assert(spec_run(TakeoverState::Init, head, budget) == spec_run(
        waiting,
        head.skip(1),
        budget,
    ));

    assert(events =~= head + (waits + (release + tail)));
    lemma_spec_run_concat(TakeoverState::Init, head, waits + (release + tail), budget);
    lemma_spec_run_concat(waiting, waits, release + tail, budget);
    lemma_total_waited_nonneg(waits);
    lemma_waiting_run(prior, 0, waits, budget);
    let waited = TakeoverState::WaitForRelease {
        prior,
        waited_ms: total_waited(waits) as u64,
    };
    assert(spec_run(waiting, waits, budget) == waited);
    lemma_spec_run_concat(waited, release, tail, budget);
    assert(release.len() == 1);
    assert(release[0] == (TakeoverEvent::ReleaseObserved { time: t1 }));
    assert(release.skip(1).len() == 0);
    assert(spec_run(waited, release, budget) == spec_run(
        TakeoverState::Claim { time: t1 },
        release.skip(1),
        budget,
    ));
    lemma_confirmation_tail(t1, budget);
}

/// Law: every takeover that announced — and in particular every successful
/// one — captured an announce message naming its own selection atom and
/// supporting window, with the constant version tag and a zero reserved
/// field.
pub proof fn lemma_done_announce(p: SelectionTakeoverProtocol)
    requires
        p.wf(),
        p.state is Synced || p.state is Done,
    ensures
        p.announce is Some,
        p.spec_announce_captured(),
{
}

/// The terminal states absorb every further event.
pub proof fn lemma_terminal_absorbing(s: TakeoverState, events: Seq<TakeoverEvent>, budget: u64)
    requires
        s is Done || s is Failed,
    ensures
        spec_run(s, events, budget) == s,
    decreases events.len(),
{
    if events.len() > 0 {
        lemma_terminal_absorbing(s, events.skip(1), budget);
    }
}

} // verus!
