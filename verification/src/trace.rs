//! Runs of the coordinator over sequences of events, and what holds of all
//! of them.
//!
//! A run starts in some phase and feeds the events to `transition` one by
//! one. Everything here is ghost code: the executable counterpart is
//! `CoordinatorState::process`.

use vstd::prelude::*;
use crate::coordinator::Action;
use crate::coordinator::Event;
use crate::coordinator::Phase;
use crate::coordinator::transition;
use crate::outcome::BuildOutcome;
use crate::outcome::CompileStatus;

verus! {

/// The phase reached from `start` after all of `events`, in order.
pub open spec fn run(start: Phase, events: Seq<Event>) -> Phase
    decreases events.len(),
{
    if events.len() == 0 {
        start
    } else {
        transition(run(start, events.drop_last()), events.last()).0
    }
}

/// The actions owed for `events`, one per event, in order.
pub open spec fn responses(start: Phase, events: Seq<Event>) -> Seq<Action>
    decreases events.len(),
{
    if events.len() == 0 {
        Seq::empty()
    } else {
        responses(start, events.drop_last()).push(
            transition(run(start, events.drop_last()), events.last()).1,
        )
    }
}

/// How many builds a run launches.
pub open spec fn launches(start: Phase, events: Seq<Event>) -> nat
    decreases events.len(),
{
    if events.len() == 0 {
        0
    } else {
        let before = launches(start, events.drop_last());
        if transition(run(start, events.drop_last()), events.last()).1 == Action::Launch {
            before + 1
        } else {
            before
        }
    }
}

/// How many outcomes `events` delivers.
pub open spec fn completions(events: Seq<Event>) -> nat
    decreases events.len(),
{
    if events.len() == 0 {
        0
    } else {
        let before = completions(events.drop_last());
        if events.last() is Completed {
            before + 1
        } else {
            before
        }
    }
}

/// The number of builds launched and not yet answered by an outcome, for a
/// run that starts in `start`. A run that starts in `Building` starts with
/// one build in flight.
pub open spec fn in_flight(start: Phase, events: Seq<Event>) -> int {
    (if start == Phase::Building { 1int } else { 0int })
        + launches(start, events) - completions(events)
}

/// Whether every outcome in `events` answers a build that is in flight when
/// it arrives: the executor delivers one outcome per launched build and no
/// more.
pub open spec fn outcomes_answer_builds(start: Phase, events: Seq<Event>) -> bool
    decreases events.len(),
{
    events.len() == 0 || {
        &&& outcomes_answer_builds(start, events.drop_last())
        &&& events.last() is Completed ==> in_flight(start, events.drop_last()) >= 1
    }
}

/// A burst of `count` change signals.
pub open spec fn burst(count: nat) -> Seq<Event> {
    Seq::new(count, |i: int| Event::Change)
}

/// A run over `first` followed by `second` is the run over `second` started
/// where the run over `first` ended.
pub proof fn lemma_run_concat(start: Phase, first: Seq<Event>, second: Seq<Event>)
    ensures
        run(start, first + second) == run(run(start, first), second),
        responses(start, first + second) == responses(start, first) + responses(
            run(start, first),
            second,
        ),
        launches(start, first + second) == launches(start, first) + launches(
            run(start, first),
            second,
        ),
        completions(first + second) == completions(first) + completions(second),
    decreases second.len(),
{
    if second.len() > 0 {
        assert((first + second).drop_last() == first + second.drop_last());
        lemma_run_concat(start, first, second.drop_last());
    }
}

/// However outcomes arrive, no run has more builds in flight than its phase
/// allows: at most one in `Building`, none in `Idle`.
pub proof fn lemma_in_flight_bounded_by_phase(start: Phase, events: Seq<Event>)
    ensures
        in_flight(start, events) <= (if run(start, events) == Phase::Building {
            1int
        } else {
            0int
        }),
    decreases events.len(),
{
    if events.len() > 0 {
        lemma_in_flight_bounded_by_phase(start, events.drop_last());
    }
}

/// Where every outcome answers a build in flight, the number of builds in
/// flight is exactly 1 in `Building` and 0 in `Idle`.
pub proof fn lemma_in_flight_matches_phase(start: Phase, events: Seq<Event>)
    requires
        outcomes_answer_builds(start, events),
    ensures
        in_flight(start, events) == (if run(start, events) == Phase::Building {
            1int
        } else {
            0int
        }),
    decreases events.len(),
{
    if events.len() > 0 {
        lemma_in_flight_matches_phase(start, events.drop_last());
    }
}

/// `outcomes_answer_builds` holds of every prefix of a sequence of which it
/// holds.
pub proof fn lemma_prefix_answers_builds(start: Phase, events: Seq<Event>, len: int)
    requires
        outcomes_answer_builds(start, events),
        0 <= len <= events.len(),
    ensures
        outcomes_answer_builds(start, events.take(len)),
    decreases events.len(),
{
    if len == events.len() {
        assert(events.take(len) == events);
    } else {
        assert(events.drop_last().take(len) == events.take(len));
        lemma_prefix_answers_builds(start, events.drop_last(), len);
    }
}

/// Single flight: at every instant of every run at most one build is in
/// flight, and where one is, the coordinator is in `Building`. This holds
/// for any sequence of events whatever, in any order.
pub proof fn law_single_flight(start: Phase, events: Seq<Event>)
    ensures
        forall|len: int|
            0 <= len <= events.len() ==> {
                &&& #[trigger] in_flight(start, events.take(len)) <= 1
                &&& in_flight(start, events.take(len)) == 1 ==> run(start, events.take(len))
                    == Phase::Building
            },
{
    assert forall|len: int| 0 <= len <= events.len() implies {
        &&& #[trigger] in_flight(start, events.take(len)) <= 1
        &&& in_flight(start, events.take(len)) == 1 ==> run(start, events.take(len))
            == Phase::Building
    } by {
        lemma_in_flight_bounded_by_phase(start, events.take(len));
    }
}

/// The `building` flag counts the builds: as long as every outcome answers a
/// build in flight, at every instant of a run exactly one build is in flight
/// while the coordinator is in `Building`, and none while it is in `Idle`.
pub proof fn law_phase_counts_builds_in_flight(start: Phase, events: Seq<Event>)
    requires
        outcomes_answer_builds(start, events),
    ensures
        forall|len: int|
            0 <= len <= events.len() ==> #[trigger] in_flight(start, events.take(len)) == (if run(
                start,
                events.take(len),
            ) == Phase::Building {
                1int
            } else {
                0int
            }),
{
    assert forall|len: int| 0 <= len <= events.len() implies #[trigger] in_flight(
        start,
        events.take(len),
    ) == (if run(start, events.take(len)) == Phase::Building {
        1int
    } else {
        0int
    }) by {
        lemma_prefix_answers_builds(start, events, len);
        lemma_in_flight_matches_phase(start, events.take(len));
    }
}

/// Change signals that arrive while a build is in progress are dropped: a
/// burst of any length leaves the coordinator in `Building`, is answered by
/// `Ignore` throughout, launches nothing and delivers no outcome.
pub proof fn lemma_burst_while_building(count: nat)
    ensures
        run(Phase::Building, burst(count)) == Phase::Building,
        launches(Phase::Building, burst(count)) == 0,
        completions(burst(count)) == 0,
        responses(Phase::Building, burst(count)) == Seq::new(count, |i: int| Action::Ignore),
    decreases count,
{
    if count > 0 {
        let shorter: nat = (count - 1) as nat;
        lemma_burst_while_building(shorter);
        assert(burst(count).drop_last() == burst(shorter));
    }
}

/// Single flight, for signals during a build: after any run that leaves the
/// coordinator building, `count` further change signals launch no build,
/// whatever `count` is: each is answered by `Ignore`, the coordinator is
/// still building, and as many builds are in flight as before.
pub proof fn law_changes_during_build_launch_nothing(
    start: Phase,
    before: Seq<Event>,
    count: nat,
)
    requires
        run(start, before) == Phase::Building,
    ensures
        run(start, before + burst(count)) == Phase::Building,
        launches(start, before + burst(count)) == launches(start, before),
        in_flight(start, before + burst(count)) == in_flight(start, before),
        responses(start, before + burst(count)) == responses(start, before) + Seq::new(
            count,
            |i: int| Action::Ignore,
        ),
{
    lemma_run_concat(start, before, burst(count));
    lemma_burst_while_building(count);
}

/// Debounce: after any run that leaves the coordinator idle, a burst of
/// `count` change signals, `count` at least 1, launches exactly one build,
/// not `count`: the first signal is answered by `Launch` and every later one
/// by `Ignore`.
pub proof fn law_burst_launches_once(start: Phase, before: Seq<Event>, count: nat)
    requires
        run(start, before) == Phase::Idle,
        count >= 1,
    ensures
        run(start, before + burst(count)) == Phase::Building,
        launches(start, before + burst(count)) == launches(start, before) + 1,
        in_flight(start, before + burst(count)) == in_flight(start, before) + 1,
        responses(start, before + burst(count)) == responses(start, before).push(Action::Launch)
            + Seq::new((count - 1) as nat, |i: int| Action::Ignore),
{
    let rest: nat = (count - 1) as nat;
    let first = before.push(Event::Change);
    assert(first.drop_last() == before);
    assert(before + burst(count) == first + burst(rest));
    law_changes_during_build_launch_nothing(start, first, rest);
}

/// Eventual responsiveness: once an outcome has arrived, success or failure,
/// the coordinator is idle again, and the change signals that follow, however
/// many, launch exactly one new build, with the first of them.
pub proof fn law_change_after_outcome_launches(
    start: Phase,
    before: Seq<Event>,
    outcome: BuildOutcome,
    count: nat,
)
    requires
        count >= 1,
    ensures
        run(start, before.push(Event::Completed(outcome))) == Phase::Idle,
        responses(start, before.push(Event::Completed(outcome))) == responses(start, before).push(
            Action::Report(outcome),
        ),
        run(start, before.push(Event::Completed(outcome)) + burst(count)) == Phase::Building,
        launches(start, before.push(Event::Completed(outcome)) + burst(count)) == launches(
            start,
            before,
        ) + 1,
        responses(start, before.push(Event::Completed(outcome)) + burst(count)) == responses(
            start,
            before,
        ).push(Action::Report(outcome)).push(Action::Launch) + Seq::new(
            (count - 1) as nat,
            |i: int| Action::Ignore,
        ),
{
    let done = before.push(Event::Completed(outcome));
    assert(done.drop_last() == before);
    law_burst_launches_once(start, done, count);
}

/// No ending wedges the coordinator: whether the compile operation
/// succeeded, failed or broke down, the outcome that stands for it is
/// reported and sets a building coordinator free, with no build in flight.
pub proof fn law_every_ending_frees_the_coordinator(
    start: Phase,
    before: Seq<Event>,
    status: CompileStatus,
)
    requires
        outcomes_answer_builds(start, before),
        run(start, before) == Phase::Building,
    ensures
        outcomes_answer_builds(start, before.push(Event::Completed(BuildOutcome::of(status)))),
        run(start, before.push(Event::Completed(BuildOutcome::of(status)))) == Phase::Idle,
        in_flight(start, before.push(Event::Completed(BuildOutcome::of(status)))) == 0,
        responses(start, before.push(Event::Completed(BuildOutcome::of(status)))) == responses(
            start,
            before,
        ).push(Action::Report(BuildOutcome::of(status))),
{
    let done = before.push(Event::Completed(BuildOutcome::of(status)));
    assert(done.drop_last() == before);
    lemma_in_flight_matches_phase(start, before);
}

} // verus!
