//! The fetch orchestrator: what is done, item by item, for a list of targets.
//!
//! For each target in order the orchestrator loads the cursor and lets the
//! resume tracker decide. An item that is processed has its ordinal saved as
//! the cursor first; then its page is fetched and, if that succeeded, its data
//! resource, whose location is the target followed by `/data.json`. Each body
//! that was fetched is stored under the item's cursor value, and a pause
//! follows it. A fetch that failed is reported and ends the work on its item;
//! the run goes on with the next one. Every fetch that has ended, whether it
//! succeeded or failed, is recorded by the pacing controller with its retry
//! flag.
//!
//! The orchestrator performs none of this itself. It is a state machine: each
//! step takes the event that the caller reports and returns the actions that
//! the caller is to perform, in order. The last action of a step is the one
//! whose result is the next event.

use crate::pacing::{
    bumped, is_delay, is_increment, PacingController, FLOOR_MS, INCREMENT_END_MS,
    INCREMENT_MIN_MS,
};
use crate::resume::{decide, decision_of, Decision};
use crate::retry::{FailureReason, FetchOutcome, FetchOutcomeView};
use vstd::prelude::*;
use vstd::string::StringExecFns;

verus! {

/// The largest number of targets that one run takes. With no more targets
/// than this, the ratchet stays within its limit however often the two
/// fetches of each target retry.
pub const MAX_TARGETS: u64 = 0x0100_0000_0000_0000;

/// Which of the two resources of an item a body belongs to.
#[derive(Clone, Copy, Debug, PartialEq, Eq)]
pub enum ArtifactKind {
    /// The page at the target itself.
    Page,
    /// The data resource derived from the target.
    Data,
}

/// What the caller is to do.
#[derive(Clone, Debug, PartialEq, Eq)]
pub enum Action {
    /// Load the cursor and report it.
    LoadCursor,
    /// Save this cursor.
    SaveCursor { cursor: usize },
    /// Fetch this location and report how the fetch ended.
    Fetch { url: String },
    /// Store `body` as the artifact of kind `kind` of the item whose cursor
    /// value is `cursor`.
    Store { cursor: usize, kind: ArtifactKind, body: String },
    /// Pause for this many milliseconds.
    Sleep { millis: u64 },
    /// Report that a fetch failed for this reason.
    Report { reason: FailureReason },
}

/// The mathematical value of an [`Action`].
pub enum ActionView {
    LoadCursor,
    SaveCursor { cursor: usize },
    Fetch { url: Seq<char> },
    Store { cursor: usize, kind: ArtifactKind, body: Seq<char> },
    Sleep { millis: u64 },
    Report { reason: FailureReason },
}

impl View for Action {
    type V = ActionView;

    open spec fn view(&self) -> ActionView {
        match *self {
            Action::LoadCursor => ActionView::LoadCursor,
            Action::SaveCursor { cursor } => ActionView::SaveCursor { cursor },
            Action::Fetch { url } => ActionView::Fetch { url: url@ },
            Action::Store { cursor, kind, body } => ActionView::Store { cursor, kind, body: body@ },
            Action::Sleep { millis } => ActionView::Sleep { millis },
            Action::Report { reason } => ActionView::Report { reason },
        }
    }
}

/// The values of a list of actions, in the same order.
pub open spec fn views(actions: Seq<Action>) -> Seq<ActionView> {
    actions.map_values(|action: Action| action@)
}

/// What the caller reports.
#[derive(Clone, Debug, PartialEq, Eq)]
pub enum Event {
    /// The run begins.
    Started,
    /// The cursor was loaded and reads `cursor`.
    CursorLoaded { cursor: usize },
    /// The fetch that was asked for ended like this.
    Fetched { outcome: FetchOutcome },
}

/// The mathematical value of an [`Event`].
pub enum EventView {
    Started,
    CursorLoaded { cursor: usize },
    Fetched { outcome: FetchOutcomeView },
}

impl View for Event {
    type V = EventView;

    open spec fn view(&self) -> EventView {
        match *self {
            Event::Started => EventView::Started,
            Event::CursorLoaded { cursor } => EventView::CursorLoaded { cursor },
            Event::Fetched { outcome } => EventView::Fetched { outcome: outcome@ },
        }
    }
}

/// Where the run stands within the current item.
#[derive(Clone, Copy, Debug, PartialEq, Eq)]
pub enum Phase {
    /// The run has not begun.
    Idle,
    /// The cursor is being loaded for the current item.
    Loading,
    /// The page of the current item is being fetched.
    FetchingPage,
    /// The data resource of the current item is being fetched.
    FetchingData,
    /// Every item has been dealt with.
    Finished,
}

/// The random numbers that one step may use.
#[derive(Clone, Copy, Debug, PartialEq, Eq)]
pub struct Draws {
    /// The pause for the item that the step may begin, in milliseconds.
    pub delay: u64,
    /// The increment of the ratchet for the fetch that the step may record,
    /// in milliseconds.
    pub increment: u64,
}

/// The mathematical value of an [`Orchestrator`].
pub struct OrchestratorView {
    /// The targets, in processing order.
    pub targets: Seq<Seq<char>>,
    /// The ordinal of the current item.
    pub index: nat,
    /// Where the run stands within the current item.
    pub phase: Phase,
    /// The pause that follows each stored body of the current item.
    pub delay_ms: u64,
    /// The delay ratchet of the pacing controller.
    pub ratchet_ms: u64,
}

/// The result of one step: the state after it and the actions it asks for.
pub struct Step {
    pub next: OrchestratorView,
    pub actions: Seq<ActionView>,
}

/// The location of the data resource that belongs to `target`.
pub open spec fn data_url(target: Seq<char>) -> Seq<char> {
    target + "/data.json"@
}

impl OrchestratorView {
    /// The state of a run over `targets` that has not begun.
    pub open spec fn initial(targets: Seq<Seq<char>>) -> OrchestratorView {
        OrchestratorView {
            targets,
            index: 0,
            phase: Phase::Idle,
            delay_ms: FLOOR_MS,
            ratchet_ms: FLOOR_MS,
        }
    }

    /// The number of fetches that have ended before the one that is awaited,
    /// at most: two for each item that lies behind, and one more while the
    /// data resource is being fetched.
    pub open spec fn fetches_behind(self) -> nat {
        2 * self.index + if self.phase is FetchingData {
            1nat
        } else {
            0nat
        }
    }

    /// The states that a run can be in: the current item exists while it is
    /// being worked on, the run is finished exactly when no item is left, and
    /// the ratchet has risen by less than `INCREMENT_END_MS` for each fetch
    /// that lies behind.
    pub open spec fn wf(self) -> bool {
        &&& self.targets.len() <= MAX_TARGETS
        &&& self.targets.len() <= usize::MAX
        &&& self.index <= self.targets.len()
        &&& (self.phase is Idle ==> self.index == 0)
        &&& (self.phase is Finished <==> self.index == self.targets.len() && !(self.phase is Idle))
        &&& FLOOR_MS <= self.ratchet_ms <= FLOOR_MS + (INCREMENT_END_MS - 1) * self.fetches_behind()
    }

    /// The step that turns to the item with ordinal `index`, after `actions`:
    /// if there is such an item, its cursor is loaded next; if there is none,
    /// the run is finished.
    pub open spec fn turn_to(self, index: nat, actions: Seq<ActionView>) -> Step {
        if index < self.targets.len() {
            Step {
                next: OrchestratorView { index, phase: Phase::Loading, ..self },
                actions: actions.push(ActionView::LoadCursor),
            }
        } else {
            Step { next: OrchestratorView { index, phase: Phase::Finished, ..self }, actions }
        }
    }

    /// The state in which the ratchet has recorded a fetch.
    pub open spec fn recorded(self, retried: bool, increment: u64) -> OrchestratorView {
        OrchestratorView {
            ratchet_ms: bumped(self.ratchet_ms as int, retried, increment as int) as u64,
            ..self
        }
    }

    /// One step of the run: the state and the actions that follow `self` on
    /// `event`, when any random number that the step needs is taken from
    /// `draws`.
    ///
    /// The start turns to the first item. A loaded cursor either skips the
    /// current item or opens it: the item's ordinal is saved, the pause for
    /// the item is fixed and the page is asked for. A fetched page is stored,
    /// paused after, and followed by the fetch of the data resource; a
    /// fetched data resource is stored, paused after, and followed by the
    /// next item. A failed fetch is reported and followed by the next item.
    /// Every fetch that ended, a success or a failure, is recorded by the
    /// ratchet with its retry flag. An event that the run does not wait for
    /// changes nothing.
    pub open spec fn step(self, event: EventView, draws: Draws) -> Step {
        match (self.phase, event) {
            (Phase::Idle, EventView::Started) => self.turn_to(0, Seq::empty()),
            (Phase::Loading, EventView::CursorLoaded { cursor }) => match decision_of(
                self.index,
                cursor as nat,
            ) {
                Decision::Skip => self.turn_to(self.index + 1, Seq::empty()),
                Decision::Process => Step {
                    next: OrchestratorView {
                        phase: Phase::FetchingPage,
                        delay_ms: draws.delay,
                        ..self
                    },
                    actions: seq![
                        ActionView::SaveCursor { cursor: self.index as usize },
                        ActionView::Fetch { url: self.targets[self.index as int] },
                    ],
                },
            },
            (Phase::FetchingPage, EventView::Fetched { outcome }) => match outcome {
                FetchOutcomeView::Success { body, retried } => Step {
                    next: OrchestratorView {
                        phase: Phase::FetchingData,
                        ..self.recorded(retried, draws.increment)
                    },
                    actions: seq![
                        ActionView::Store {
                            cursor: self.index as usize,
                            kind: ArtifactKind::Page,
                            body,
                        },
                        ActionView::Sleep { millis: self.delay_ms },
                        ActionView::Fetch { url: data_url(self.targets[self.index as int]) },
                    ],
                },
                FetchOutcomeView::Failure { reason, retried } => self.recorded(
                    retried,
                    draws.increment,
                ).turn_to(self.index + 1, seq![ActionView::Report { reason }]),
            },
            (Phase::FetchingData, EventView::Fetched { outcome }) => match outcome {
                FetchOutcomeView::Success { body, retried } => self.recorded(
                    retried,
                    draws.increment,
                ).turn_to(
                    self.index + 1,
                    seq![
                        ActionView::Store {
                            cursor: self.index as usize,
                            kind: ArtifactKind::Data,
                            body,
                        },
                        ActionView::Sleep { millis: self.delay_ms },
                    ],
                ),
                FetchOutcomeView::Failure { reason, retried } => self.recorded(
                    retried,
                    draws.increment,
                ).turn_to(self.index + 1, seq![ActionView::Report { reason }]),
            },
            _ => Step { next: self, actions: Seq::empty() },
        }
    }

    /// Whether `draws` holds numbers that the pacing controller may draw in
    /// this state.
    pub open spec fn admits(self, draws: Draws) -> bool {
        is_delay(self.ratchet_ms, draws.delay) && is_increment(draws.increment)
    }
}

/// Whether `event` reports the end of a fetch that the run in state `state`
/// waits for, and that fetch counted a retry, whether it succeeded or failed.
pub open spec fn ends_retried_fetch(state: OrchestratorView, event: EventView) -> bool {
    (state.phase is FetchingPage || state.phase is FetchingData) && match event {
        EventView::Fetched { outcome } => outcome.retried(),
        _ => false,
    }
}

/// In every state that a run can be in, a step leads to another such state,
/// never back to an earlier item, and never lowers the ratchet; it raises the
/// ratchet exactly when it records a fetch that counted a retry, whether that
/// fetch succeeded or failed, and then by the increment that was drawn.
pub proof fn lemma_step_keeps_order(state: OrchestratorView, event: EventView, draws: Draws)
    requires
        state.wf(),
        is_increment(draws.increment),
    ensures
        state.step(event, draws).next.wf(),
        state.step(event, draws).next.targets == state.targets,
        state.step(event, draws).next.index >= state.index,
        state.step(event, draws).next.ratchet_ms >= state.ratchet_ms,
        state.step(event, draws).next.ratchet_ms == bumped(
            state.ratchet_ms as int,
            ends_retried_fetch(state, event),
            draws.increment as int,
        ),
        state.step(event, draws).next.ratchet_ms > state.ratchet_ms <==> ends_retried_fetch(
            state,
            event,
        ),
{
    assert(INCREMENT_END_MS - 1 == 59);
    assert((INCREMENT_END_MS - 1) * state.fetches_behind() == 59 * state.fetches_behind());
    let next = state.step(event, draws).next;
    assert((INCREMENT_END_MS - 1) * next.fetches_behind() == 59 * next.fetches_behind());
}

/// Whether `action` asks for something that the caller reports back.
pub open spec fn asks(action: ActionView) -> bool {
    action is LoadCursor || action is Fetch
}

/// Whether a run in state `state` waits for `event`.
pub open spec fn awaits(state: OrchestratorView, event: EventView) -> bool {
    match (state.phase, event) {
        (Phase::Idle, EventView::Started) => true,
        (Phase::Loading, EventView::CursorLoaded { .. }) => true,
        (Phase::FetchingPage, EventView::Fetched { .. }) => true,
        (Phase::FetchingData, EventView::Fetched { .. }) => true,
        _ => false,
    }
}

/// The number of steps that a run in state `state` can still take, at most:
/// three for each item that is left, and one for the start.
pub open spec fn steps_left(state: OrchestratorView) -> int {
    let items = state.targets.len() - state.index;
    match state.phase {
        Phase::Idle => 3 * items + 1,
        Phase::Loading => 3 * items,
        Phase::FetchingPage => 3 * items - 1,
        Phase::FetchingData => 3 * items - 2,
        Phase::Finished => 0,
    }
}

/// Of the actions of a step, only the last can be one that asks for a report,
/// and it is one unless the step has finished the run. So each step hands the
/// caller exactly one thing to report, until the run is finished.
pub proof fn lemma_step_asks_last(state: OrchestratorView, event: EventView, draws: Draws)
    requires
        state.wf(),
    ensures
        forall|i: int|
            0 <= i < state.step(event, draws).actions.len() ==> (asks(
                #[trigger] state.step(event, draws).actions[i],
            ) <==> i == state.step(event, draws).actions.len() - 1 && !(state.step(
                event,
                draws,
            ).next.phase is Finished)),
        awaits(state, event) && !(state.step(event, draws).next.phase is Finished)
            ==> state.step(event, draws).actions.len() > 0,
{
}

/// A step on an event that the run waits for brings the run closer to its
/// end, which it reaches after no more than three steps for each target and
/// one for the start; a step on any other event changes nothing and asks for
/// nothing.
pub proof fn lemma_step_makes_progress(state: OrchestratorView, event: EventView, draws: Draws)
    requires
        state.wf(),
    ensures
        awaits(state, event) ==> 0 <= steps_left(state.step(event, draws).next) < steps_left(
            state,
        ),
        !awaits(state, event) ==> state.step(event, draws) == (Step {
            next: state,
            actions: Seq::empty(),
        }),
        steps_left(state) == 0 <==> state.phase is Finished,
{
}

/// The ordinal of the current item and the phase within it, which change
/// together.
#[derive(Clone, Copy)]
struct Position {
    index: usize,
    phase: Phase,
}

/// The fetch orchestrator.
pub struct Orchestrator {
    targets: Vec<String>,
    position: Position,
    delay_ms: u64,
    pacing: PacingController,
}

impl View for Orchestrator {
    type V = OrchestratorView;

    closed spec fn view(&self) -> OrchestratorView {
        OrchestratorView {
            targets: self.targets@.map_values(|target: String| target@),
            index: self.position.index as nat,
            phase: self.position.phase,
            delay_ms: self.delay_ms,
            ratchet_ms: self.pacing.ratchet_ms(),
        }
    }
}

impl Orchestrator {
    #[verifier::type_invariant]
    spec fn well_formed(&self) -> bool {
        self@.wf()
    }

    /// An orchestrator for `targets`, before the run begins.
    pub fn new(targets: Vec<String>) -> (orchestrator: Orchestrator)
        requires
            targets@.len() <= MAX_TARGETS,
        ensures
            orchestrator@ == OrchestratorView::initial(
                targets@.map_values(|target: String| target@),
            ),
            orchestrator@.wf(),
    {
        assert(targets@.len() == targets.len());
        Orchestrator {
            targets,
            position: Position { index: 0, phase: Phase::Idle },
            delay_ms: FLOOR_MS,
            pacing: PacingController::new(),
        }
    }

    /// The ordinal of the current item.
    pub fn index(&self) -> (index: usize)
        ensures
            index == self@.index,
    {
        self.position.index
    }

    /// Where the run stands within the current item.
    pub fn phase(&self) -> (phase: Phase)
        ensures
            phase == self@.phase,
    {
        self.position.phase
    }

    /// Whether every item has been dealt with.
    pub fn is_finished(&self) -> (done: bool)
        ensures
            done == (self@.phase is Finished),
    {
        match self.position.phase {
            Phase::Finished => true,
            _ => false,
        }
    }

    /// The pause that follows each stored body of the current item, in
    /// milliseconds.
    pub fn delay_ms(&self) -> (delay: u64)
        ensures
            delay == self@.delay_ms,
    {
        self.delay_ms
    }

    /// The delay ratchet, in milliseconds.
    pub fn ratchet_ms(&self) -> (ratchet: u64)
        ensures
            ratchet == self@.ratchet_ms,
    {
        self.pacing.ratchet()
    }

    /// Turns to the item with ordinal `index`.
    fn turn_to(&mut self, index: usize, actions: &mut Vec<Action>)
        requires
            index <= old(self).targets@.len(),
            old(self)@.ratchet_ms <= FLOOR_MS + (INCREMENT_END_MS - 1) * (2 * index),
        ensures
            (Step { next: final(self)@, actions: views(final(actions)@) }) == old(self)@.turn_to(
                index as nat,
                views(old(actions)@),
            ),
    {
        proof {
            use_type_invariant(&*self);
        }
        assert(INCREMENT_END_MS - 1 == 59);
        if index < self.targets.len() {
            self.position = Position { index, phase: Phase::Loading };
            actions.push(Action::LoadCursor);
            assert(views(actions@) =~= views(old(actions)@).push(ActionView::LoadCursor));
        } else {
            self.position = Position { index, phase: Phase::Finished };
        }
    }

    /// Lets the pacing controller record a fetch that has ended.
    fn record(&mut self, retried: bool, increment: u64)
        requires
            is_increment(increment),
            old(self)@.ratchet_ms + INCREMENT_END_MS - 1 <= FLOOR_MS + (INCREMENT_END_MS - 1)
                * old(self)@.fetches_behind(),
        ensures
            final(self)@ == old(self)@.recorded(retried, increment),
    {
        proof {
            use_type_invariant(&*self);
        }
        assert(INCREMENT_END_MS - 1 == 59);
        assert(self@.fetches_behind() <= 2 * MAX_TARGETS + 1);
        let mut pacing = self.pacing;
        assert((INCREMENT_END_MS - 1) * self@.fetches_behind() == 59 * self@.fetches_behind());
        pacing.record_with(retried, increment);
        self.pacing = pacing;
    }

    /// Takes one step of the run with the random numbers in `draws`.
    pub fn step_with(&mut self, event: Event, draws: Draws) -> (actions: Vec<Action>)
        requires
            is_increment(draws.increment),
        ensures
            (Step { next: final(self)@, actions: views(actions@) }) == old(self)@.step(
                event@,
                draws,
            ),
            final(self)@.wf(),
    {
        proof {
            use_type_invariant(&*self);
        }
        let mut actions: Vec<Action> = Vec::new();
        assert(views(actions@) =~= Seq::<ActionView>::empty());
        let index = self.position.index;
        let ghost target = self@.targets[index as int];
        assert(self.targets@.len() == self.targets.len());
        match event {
            Event::Started => {
                if let Phase::Idle = self.position.phase {
                    self.turn_to(0, &mut actions);
                }
            },
            Event::CursorLoaded { cursor } => {
                if let Phase::Loading = self.position.phase {
                    match decide(index, cursor) {
                        Decision::Skip => {
                            self.turn_to(index + 1, &mut actions);
                        },
                        Decision::Process => {
                            let url = self.targets[index].clone();
                            self.delay_ms = draws.delay;
                            self.position = Position { index, phase: Phase::FetchingPage };
                            actions.push(Action::SaveCursor { cursor: index });
                            actions.push(Action::Fetch { url });
                            assert(views(actions@) =~= seq![
                                ActionView::SaveCursor { cursor: index },
                                ActionView::Fetch { url: target },
                            ]);
                        },
                    }
                }
            },
            Event::Fetched { outcome } => {
                match self.position.phase {
                    Phase::FetchingPage => match outcome {
                        FetchOutcome::Success { body, retried } => {
                            let url = self.targets[index].clone().concat("/data.json");
                            let ghost text = body@;
                            self.position = Position { index, phase: Phase::FetchingData };
                            self.record(retried, draws.increment);
                            actions.push(
                                Action::Store { cursor: index, kind: ArtifactKind::Page, body },
                            );
                            actions.push(Action::Sleep { millis: self.delay_ms });
                            actions.push(Action::Fetch { url });
                            assert(views(actions@) =~= seq![
                                ActionView::Store {
                                    cursor: index,
                                    kind: ArtifactKind::Page,
                                    body: text,
                                },
                                ActionView::Sleep { millis: self.delay_ms },
                                ActionView::Fetch { url: data_url(target) },
                            ]);
                        },
                        FetchOutcome::Failure { reason, retried } => {
                            actions.push(Action::Report { reason });
                            assert(views(actions@) =~= seq![ActionView::Report { reason }]);
                            self.turn_to(index + 1, &mut actions);
                            self.record(retried, draws.increment);
                        },
                    },
                    Phase::FetchingData => match outcome {
                        FetchOutcome::Success { body, retried } => {
                            let ghost text = body@;
                            actions.push(
                                Action::Store { cursor: index, kind: ArtifactKind::Data, body },
                            );
                            actions.push(Action::Sleep { millis: self.delay_ms });
                            assert(views(actions@) =~= seq![
                                ActionView::Store {
                                    cursor: index,
                                    kind: ArtifactKind::Data,
                                    body: text,
                                },
                                ActionView::Sleep { millis: self.delay_ms },
                            ]);
                            self.turn_to(index + 1, &mut actions);
                            self.record(retried, draws.increment);
                        },
                        FetchOutcome::Failure { reason, retried } => {
                            actions.push(Action::Report { reason });
                            assert(views(actions@) =~= seq![ActionView::Report { reason }]);
                            self.turn_to(index + 1, &mut actions);
                            self.record(retried, draws.increment);
                        },
                    },
                    _ => {},
                }
            },
        }
        actions
    }

    /// Takes one step of the run. The pause for an item that the step opens
    /// and the increment for a retried fetch that it records, a success or a
    /// failure, are drawn at random by the pacing controller, so two runs may
    /// differ in them; in everything else the step is the one that
    /// `step_with` takes.
    pub fn step(&mut self, event: Event) -> (actions: Vec<Action>)
        ensures
            exists|draws: Draws|
                old(self)@.admits(draws) && #[trigger] old(self)@.step(event@, draws) == (Step {
                    next: final(self)@,
                    actions: views(actions@),
                }),
            final(self)@.wf(),
    {
        // Only a loaded cursor can open an item, and only a fetch that
        // retried moves the ratchet: no other step reads its draw.
        let delay = match &event {
            Event::CursorLoaded { .. } => self.pacing.next_delay(),
            _ => self.pacing.ratchet(),
        };
        let increment = match &event {
            Event::Fetched { outcome } => {
                if outcome.retried() {
                    self.pacing.next_increment()
                } else {
                    INCREMENT_MIN_MS
                }
            },
            _ => INCREMENT_MIN_MS,
        };
        let draws = Draws { delay, increment };
        let actions = self.step_with(event, draws);
        assert(old(self)@.admits(draws) && old(self)@.step(event@, draws) == (Step {
            next: self@,
            actions: views(actions@),
        }));
        actions
    }
}

} // verus!
