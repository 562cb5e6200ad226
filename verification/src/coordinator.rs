//! The build coordinator: the one place that decides whether a change signal
//! launches a build.
//!
//! The coordinator is a two-state machine. It is driven by a single loop that
//! hands it one event at a time, so the `building` flag needs no lock.

use vstd::prelude::*;
use crate::outcome::BuildOutcome;
use crate::outcome::Notice;
use crate::trace::responses;
use crate::trace::run;

verus! {

/// The two states of the coordinator.
#[derive(Clone, Copy, Debug, PartialEq, Eq, Structural)]
pub enum Phase {
    /// No build is in flight.
    Idle,
    /// Exactly one build is in flight.
    Building,
}

/// What the coordination loop can receive.
#[derive(Clone, Copy, Debug, PartialEq, Eq, Structural)]
pub enum Event {
    /// Something relevant changed. The signal carries no payload: which path
    /// changed, and how often, does not matter.
    Change,
    /// The build in flight has ended.
    Completed(BuildOutcome),
}

/// What the coordination loop must do in answer to an event.
#[derive(Clone, Copy, Debug, PartialEq, Eq, Structural)]
pub enum Action {
    /// Dispatch one build with a snapshot of the configuration.
    Launch,
    /// Tell the operator how the build ended.
    Report(BuildOutcome),
    /// Nothing: the event is dropped.
    Ignore,
}

/// The transition relation of the coordinator, as a function from the
/// current phase and an event to the next phase and the action owed.
///
/// A change signal launches a build only from `Idle`; while a build is in
/// flight it is dropped, not remembered. An outcome is reported and always
/// leads back to `Idle`.
pub open spec fn transition(phase: Phase, event: Event) -> (Phase, Action) {
    match event {
        Event::Change => match phase {
            Phase::Idle => (Phase::Building, Action::Launch),
            Phase::Building => (Phase::Building, Action::Ignore),
        },
        Event::Completed(outcome) => (Phase::Idle, Action::Report(outcome)),
    }
}

impl Action {
    /// The notice that goes with each action, if any.
    pub open spec fn spec_notice(self) -> Option<Notice> {
        match self {
            Action::Launch => Some(Notice::BuildStarting),
            Action::Report(outcome) => Some(Notice::reporting(outcome)),
            Action::Ignore => None,
        }
    }

    /// The notice to show the operator when the action is carried out: the
    /// start of a build before it is dispatched, the result of a build after
    /// its outcome arrived, nothing for a dropped event.
    pub fn notice(&self) -> (notice: Option<Notice>)
        ensures
            notice == self.spec_notice(),
    {
        match self {
            Action::Launch => Some(Notice::BuildStarting),
            Action::Report(outcome) => Some(Notice::for_outcome(*outcome)),
            Action::Ignore => None,
        }
    }
}

/// The mutable state of the coordinator: whether a build is in flight.
#[derive(Clone, Copy, Debug, PartialEq, Eq)]
pub struct CoordinatorState {
    building: bool,
}

impl View for CoordinatorState {
    type V = Phase;

    closed spec fn view(&self) -> Phase {
        if self.building {
            Phase::Building
        } else {
            Phase::Idle
        }
    }
}

impl CoordinatorState {
    /// A coordinator with no build in flight.
    pub fn new() -> (state: CoordinatorState)
        ensures
            state@ == Phase::Idle,
    {
        CoordinatorState { building: false }
    }

    /// Whether a build is in flight.
    pub fn is_building(&self) -> (building: bool)
        ensures
            building <==> self@ == Phase::Building,
    {
        self.building
    }

    /// The current phase.
    pub fn phase(&self) -> (phase: Phase)
        ensures
            phase == self@,
    {
        if self.building {
            Phase::Building
        } else {
            Phase::Idle
        }
    }

    /// Handles a change signal.
    pub fn on_change(&mut self) -> (action: Action)
        ensures
            (final(self)@, action) == transition(old(self)@, Event::Change),
    {
        if self.building {
            Action::Ignore
        } else {
            self.building = true;
            Action::Launch
        }
    }

    /// Handles a change signal for builds that run on `config`. Where the
    /// signal launches a build, the build gets its own copy of the
    /// configuration, taken now: later changes to the caller's configuration
    /// cannot reach a build in flight.
    pub fn launch_on_change<C: Clone>(&mut self, config: &C) -> (launch: Option<C>)
        ensures
            final(self)@ == transition(old(self)@, Event::Change).0,
            launch is Some <==> transition(old(self)@, Event::Change).1 == Action::Launch,
            launch matches Some(snapshot) ==> cloned(*config, snapshot),
    {
        match self.on_change() {
            Action::Launch => Some(config.clone()),
            _ => None,
        }
    }

    /// Handles the outcome of the build in flight.
    pub fn on_outcome(&mut self, outcome: BuildOutcome) -> (action: Action)
        ensures
            (final(self)@, action) == transition(old(self)@, Event::Completed(outcome)),
    {
        self.building = false;
        Action::Report(outcome)
    }

    /// Handles one event: moves to the next phase and returns the action
    /// that the loop owes.
    pub fn step(&mut self, event: Event) -> (action: Action)
        ensures
            (final(self)@, action) == transition(old(self)@, event),
    {
        match event {
            Event::Change => self.on_change(),
            Event::Completed(outcome) => self.on_outcome(outcome),
        }
    }

    /// Handles `events` in order, one at a time, and returns the action owed
    /// for each.
    pub fn process(&mut self, events: &Vec<Event>) -> (actions: Vec<Action>)
        ensures
            final(self)@ == run(old(self)@, events@),
            actions@ == responses(old(self)@, events@),
    {
        let mut actions: Vec<Action> = Vec::new();
        let mut done: usize = 0;
        while done < events.len()
            invariant
                done <= events.len(),
                self@ == run(old(self)@, events@.take(done as int)),
                actions@ == responses(old(self)@, events@.take(done as int)),
            decreases events.len() - done,
        {
            let action = self.step(events[done]);
            actions.push(action);
            proof {
                let handled = events@.take(done + 1);
                assert(handled.drop_last() == events@.take(done as int));
            }
            done += 1;
        }
        proof {
            assert(events@.take(events.len() as int) == events@);
        }
        actions
    }
}

impl Default for CoordinatorState {
    fn default() -> (state: CoordinatorState)
        ensures
            state@ == Phase::Idle,
    {
        CoordinatorState::new()
    }
}

} // verus!
