//! The polling cycle as a state machine: the caller performs each action
//! and hands back the event that it led to.

use vstd::prelude::*;
use vstd::string::*;
use crate::config::ids_of;
use crate::snapshot::Snapshot;
use crate::threshold::{evaluate, verdict, Thresholds};
use crate::volume::VolumeStats;

verus! {

/// Seconds between the end of one cycle and the start of the next.
pub const POLL_INTERVAL_SECS: u64 = 120;

/// Why a probe of the volumes failed: the platform's message and its
/// diagnostic rendering.
#[derive(Clone, Debug, PartialEq, Eq)]
pub struct ProbeError {
    pub message: String,
    pub detail: String,
}

/// Where the poller stands in its cycle. `Halted` is final.
#[derive(Clone, Copy, Debug, PartialEq, Eq, Structural)]
pub enum PollerState {
    Idle,
    Probing,
    Publishing,
    Sleeping,
    Halted,
}

/// What the caller reports back to the poller.
#[derive(Debug, PartialEq, Eq)]
pub enum PollerEvent {
    /// A cycle is due.
    Begin,
    /// Every volume was probed; these are the readings.
    Probed(Snapshot),
    /// The probe failed as a whole.
    ProbeFailed(ProbeError),
    /// The snapshot was stored and the redraw signalled.
    Published,
    /// The interval has passed.
    Slept,
}

/// What the poller asks the caller to do next.
#[derive(Debug, PartialEq, Eq)]
pub enum PollerAction {
    /// Probe every one of these volumes.
    Probe(Vec<String>),
    /// Store this snapshot and signal a redraw.
    Publish(Snapshot),
    /// Sleep this many seconds.
    Sleep(u64),
    /// Show this text as a fatal notification; the poller has halted.
    Fatal(String),
    /// Nothing to do.
    Wait,
}

/// The mathematical content of an event.
pub ghost enum EventView {
    Begin,
    Probed(Seq<(Seq<char>, VolumeStats)>),
    ProbeFailed(Seq<char>, Seq<char>),
    Published,
    Slept,
}

/// The mathematical content of an action.
pub ghost enum ActionView {
    Probe(Seq<Seq<char>>),
    Publish(Seq<(Seq<char>, VolumeStats)>),
    Sleep(u64),
    Fatal(Seq<char>),
    Wait,
}

impl View for PollerEvent {
    type V = EventView;

    open spec fn view(&self) -> EventView {
        match self {
            PollerEvent::Begin => EventView::Begin,
            PollerEvent::Probed(s) => EventView::Probed(s@),
            PollerEvent::ProbeFailed(e) => EventView::ProbeFailed(e.message@, e.detail@),
            PollerEvent::Published => EventView::Published,
            PollerEvent::Slept => EventView::Slept,
        }
    }
}

impl View for PollerAction {
    type V = ActionView;

    open spec fn view(&self) -> ActionView {
        match self {
            PollerAction::Probe(volumes) => ActionView::Probe(ids_of(volumes@)),
            PollerAction::Publish(s) => ActionView::Publish(s@),
            PollerAction::Sleep(secs) => ActionView::Sleep(*secs),
            PollerAction::Fatal(text) => ActionView::Fatal(text@),
            PollerAction::Wait => ActionView::Wait,
        }
    }
}

/// The text of a fatal notification: the message, then the operation that
/// failed and the diagnostic rendering.
pub open spec fn fatal_text(context: Seq<char>, message: Seq<char>, detail: Seq<char>) -> Seq<
    char,
> {
    message + "\nDebug info: ctx = "@ + context + ", "@ + detail
}

/// Builds the text of a fatal notification.
pub fn format_fatal(context: &str, message: &str, detail: &str) -> (s: String)
    ensures
        s@ == fatal_text(context@, message@, detail@),
{
    let mut s = String::from_str(message);
    s.append("\nDebug info: ctx = ");
    s.append(context);
    s.append(", ");
    s.append(detail);
    s
}

/// The state that follows `state` on `event`. An event that the state does
/// not wait for leaves it unchanged; nothing leaves `Halted`.
pub open spec fn next_state(state: PollerState, event: EventView) -> PollerState {
    match (state, event) {
        (PollerState::Idle, EventView::Begin) => PollerState::Probing,
        (PollerState::Probing, EventView::Probed(_)) => PollerState::Publishing,
        (PollerState::Probing, EventView::ProbeFailed(_, _)) => PollerState::Halted,
        (PollerState::Publishing, EventView::Published) => PollerState::Sleeping,
        (PollerState::Sleeping, EventView::Slept) => PollerState::Idle,
        _ => state,
    }
}

/// The action that `event` leads to in `state`, for a poller with the
/// floors `t` that watches `volumes`.
pub open spec fn action_for(
    state: PollerState,
    event: EventView,
    t: Thresholds,
    volumes: Seq<Seq<char>>,
) -> ActionView {
    match (state, event) {
        (PollerState::Idle, EventView::Begin) => ActionView::Probe(volumes),
        (PollerState::Probing, EventView::Probed(readings)) => ActionView::Publish(
            verdict(readings, t),
        ),
        (PollerState::Probing, EventView::ProbeFailed(message, detail)) => ActionView::Fatal(
            fatal_text("maintain"@, message, detail),
        ),
        (PollerState::Publishing, EventView::Published) => ActionView::Sleep(POLL_INTERVAL_SECS),
        _ => ActionView::Wait,
    }
}

/// The actions that a run of events leads to, one per event, from `state` on.
pub open spec fn actions_of(
    state: PollerState,
    events: Seq<EventView>,
    t: Thresholds,
    volumes: Seq<Seq<char>>,
) -> Seq<ActionView>
    decreases events.len(),
{
    if events.len() == 0 {
        Seq::empty()
    } else {
        seq![action_for(state, events[0], t, volumes)] + actions_of(
            next_state(state, events[0]),
            events.drop_first(),
            t,
            volumes,
        )
    }
}

/// The state after a run of events from `state` on.
pub open spec fn state_after(state: PollerState, events: Seq<EventView>) -> PollerState
    decreases events.len(),
{
    if events.len() == 0 {
        state
    } else {
        state_after(next_state(state, events[0]), events.drop_first())
    }
}

/// One undisturbed cycle: from rest the poller asks for a probe of its
/// volumes, publishes the verdict on the readings, sleeps for the interval
/// and is at rest again.
pub proof fn lemma_full_cycle(
    readings: Seq<(Seq<char>, VolumeStats)>,
    t: Thresholds,
    volumes: Seq<Seq<char>>,
)
    ensures
        ({
            let events = seq![
                EventView::Begin,
                EventView::Probed(readings),
                EventView::Published,
                EventView::Slept,
            ];
            &&& state_after(PollerState::Idle, events) == PollerState::Idle
            &&& actions_of(PollerState::Idle, events, t, volumes) == seq![
                ActionView::Probe(volumes),
                ActionView::Publish(verdict(readings, t)),
                ActionView::Sleep(POLL_INTERVAL_SECS),
                ActionView::Wait,
            ]
        }),
{
    let e0 = seq![
        EventView::Begin,
        EventView::Probed(readings),
        EventView::Published,
        EventView::Slept,
    ];
    let e1 = e0.drop_first();
    let e2 = e1.drop_first();
    let e3 = e2.drop_first();
    let e4 = e3.drop_first();
    assert(e4.len() == 0);
    assert(state_after(PollerState::Idle, e4) == PollerState::Idle);
    assert(state_after(PollerState::Sleeping, e3) == PollerState::Idle);
    assert(state_after(PollerState::Publishing, e2) == PollerState::Idle);
    assert(state_after(PollerState::Probing, e1) == PollerState::Idle);
    let a4 = actions_of(PollerState::Idle, e4, t, volumes);
    let a3 = actions_of(PollerState::Sleeping, e3, t, volumes);
    let a2 = actions_of(PollerState::Publishing, e2, t, volumes);
    let a1 = actions_of(PollerState::Probing, e1, t, volumes);
    let a0 = actions_of(PollerState::Idle, e0, t, volumes);
    assert(a4 =~= Seq::empty());
    assert(a3 =~= seq![ActionView::Wait]);
    assert(a2 =~= seq![ActionView::Sleep(POLL_INTERVAL_SECS), ActionView::Wait]);
    assert(a1 =~= seq![
        ActionView::Publish(verdict(readings, t)),
        ActionView::Sleep(POLL_INTERVAL_SECS),
        ActionView::Wait,
    ]);
    assert(a0 =~= seq![
        ActionView::Probe(volumes),
        ActionView::Publish(verdict(readings, t)),
        ActionView::Sleep(POLL_INTERVAL_SECS),
        ActionView::Wait,
    ]);
}

/// Once halted, the poller stays halted and asks for nothing, whatever
/// events arrive.
pub proof fn lemma_halted_is_final(
    events: Seq<EventView>,
    t: Thresholds,
    volumes: Seq<Seq<char>>,
)
    ensures
        state_after(PollerState::Halted, events) == PollerState::Halted,
        actions_of(PollerState::Halted, events, t, volumes).len() == events.len(),
        forall|i: int|
            0 <= i < events.len() ==> #[trigger] actions_of(
                PollerState::Halted,
                events,
                t,
                volumes,
            )[i] == ActionView::Wait,
    decreases events.len(),
{
    if events.len() > 0 {
        lemma_halted_is_final(events.drop_first(), t, volumes);
        assert(next_state(PollerState::Halted, events[0]) == PollerState::Halted);
        assert(action_for(PollerState::Halted, events[0], t, volumes) == ActionView::Wait);
    }
}

/// A failed probe halts the poller for good and is escalated exactly once:
/// the failure itself leads to the fatal notification, and every later
/// event leads to nothing, neither a probe nor a second notification.
pub proof fn lemma_probe_failure_halts(
    message: Seq<char>,
    detail: Seq<char>,
    later: Seq<EventView>,
    t: Thresholds,
    volumes: Seq<Seq<char>>,
)
    ensures
        ({
            let events = seq![EventView::ProbeFailed(message, detail)] + later;
            let actions = actions_of(PollerState::Probing, events, t, volumes);
            &&& state_after(PollerState::Probing, events) == PollerState::Halted
            &&& actions.len() == events.len()
            &&& actions[0] == ActionView::Fatal(fatal_text("maintain"@, message, detail))
            &&& forall|i: int| 1 <= i < actions.len() ==> #[trigger] actions[i] == ActionView::Wait
        }),
{
    let events = seq![EventView::ProbeFailed(message, detail)] + later;
    assert(events.drop_first() =~= later);
    lemma_halted_is_final(later, t, volumes);
    let actions = actions_of(PollerState::Probing, events, t, volumes);
    assert forall|i: int| 1 <= i < actions.len() implies #[trigger] actions[i]
        == ActionView::Wait by {
        assert(actions[i] == actions_of(PollerState::Halted, later, t, volumes)[i - 1]);
    }
}

/// The poller: its place in the cycle, the floors it evaluates against and
/// the volumes it watches.
#[derive(Clone, Debug, PartialEq, Eq)]
pub struct Poller {
    pub state: PollerState,
    pub thresholds: Thresholds,
    pub volumes: Vec<String>,
}

impl Poller {
    /// A poller at rest, before its first cycle.
    pub fn new(thresholds: Thresholds, volumes: Vec<String>) -> (p: Poller)
        ensures
            p.state == PollerState::Idle,
            p.thresholds == thresholds,
            p.volumes == volumes,
    {
        Poller { state: PollerState::Idle, thresholds, volumes }
    }

    /// Whether the poller has stopped for good.
    pub fn is_halted(&self) -> (b: bool)
        ensures
            b == (self.state == PollerState::Halted),
    {
        match self.state {
            PollerState::Halted => true,
            _ => false,
        }
    }

    /// Takes one event, moves to the next state and says what to do next.
    pub fn step(&mut self, event: PollerEvent) -> (action: PollerAction)
        ensures
            final(self).state == next_state(old(self).state, event@),
            final(self).thresholds == old(self).thresholds,
            final(self).volumes == old(self).volumes,
            action@ == action_for(
                old(self).state,
                event@,
                old(self).thresholds,
                ids_of(old(self).volumes@),
            ),
    {
        match (self.state, event) {
            (PollerState::Idle, PollerEvent::Begin) => {
                self.state = PollerState::Probing;
                let watched = self.volumes.clone();
                assert(ids_of(watched@) =~= ids_of(self.volumes@));
                PollerAction::Probe(watched)
            },
            (PollerState::Probing, PollerEvent::Probed(readings)) => {
                self.state = PollerState::Publishing;
                PollerAction::Publish(evaluate(readings, &self.thresholds))
            },
            (PollerState::Probing, PollerEvent::ProbeFailed(e)) => {
                self.state = PollerState::Halted;
                PollerAction::Fatal(
                    format_fatal("maintain", e.message.as_str(), e.detail.as_str()),
                )
            },
            (PollerState::Publishing, PollerEvent::Published) => {
                self.state = PollerState::Sleeping;
                PollerAction::Sleep(POLL_INTERVAL_SECS)
            },
            (PollerState::Sleeping, PollerEvent::Slept) => {
                self.state = PollerState::Idle;
                PollerAction::Wait
            },
            _ => PollerAction::Wait,
        }
    }
}

} // verus!
