use shader_builder::coordinator::{Action, CoordinatorState, Event, Phase};
use shader_builder::outcome::{BuildOutcome, CompileStatus, Notice};

const FAILURE: BuildOutcome = BuildOutcome { succeeded: false };
const SUCCESS: BuildOutcome = BuildOutcome { succeeded: true };

#[test]
fn new_coordinator_is_idle() {
    let state = CoordinatorState::new();
    assert!(!state.is_building());
    assert_eq!(state.phase(), Phase::Idle);
}

#[test]
fn default_coordinator_is_idle() {
    let state = CoordinatorState::default();
    assert_eq!(state.phase(), Phase::Idle);
    assert_eq!(state, CoordinatorState::new());
}

#[test]
fn first_change_launches_a_build() {
    let mut state = CoordinatorState::new();
    assert_eq!(state.on_change(), Action::Launch);
    assert!(state.is_building());
    assert_eq!(state.phase(), Phase::Building);
}

#[test]
fn changes_during_a_build_launch_nothing() {
    let mut state = CoordinatorState::new();
    assert_eq!(state.step(Event::Change), Action::Launch);
    for _ in 0..100 {
        assert_eq!(state.step(Event::Change), Action::Ignore);
        assert!(state.is_building());
    }
}

#[test]
fn burst_of_changes_launches_exactly_one_build() {
    for burst in 1..20usize {
        let mut state = CoordinatorState::new();
        let events = vec![Event::Change; burst];
        let actions = state.process(&events);
        assert_eq!(actions.len(), burst);
        let launched = actions.iter().filter(|action| **action == Action::Launch).count();
        assert_eq!(launched, 1);
        assert_eq!(actions[0], Action::Launch);
        assert!(actions[1..].iter().all(|action| *action == Action::Ignore));
        assert_eq!(state.phase(), Phase::Building);
    }
}

#[test]
fn change_after_success_launches_again() {
    let mut state = CoordinatorState::new();
    assert_eq!(state.step(Event::Change), Action::Launch);
    assert_eq!(state.step(Event::Completed(SUCCESS)), Action::Report(SUCCESS));
    assert_eq!(state.phase(), Phase::Idle);
    assert_eq!(state.step(Event::Change), Action::Launch);
    assert_eq!(state.step(Event::Change), Action::Ignore);
}

#[test]
fn change_after_failure_launches_again() {
    let mut state = CoordinatorState::new();
    assert_eq!(state.step(Event::Change), Action::Launch);
    assert_eq!(state.step(Event::Completed(FAILURE)), Action::Report(FAILURE));
    assert_eq!(state.phase(), Phase::Idle);
    assert_eq!(state.step(Event::Change), Action::Launch);
    assert_eq!(state.step(Event::Change), Action::Ignore);
}

#[test]
fn every_ending_frees_the_coordinator() {
    for status in [CompileStatus::Succeeded, CompileStatus::Failed, CompileStatus::Crashed] {
        let mut state = CoordinatorState::new();
        assert_eq!(state.step(Event::Change), Action::Launch);
        let outcome = BuildOutcome::from_status(status);
        assert_eq!(state.step(Event::Completed(outcome)), Action::Report(outcome));
        assert_eq!(state.phase(), Phase::Idle);
        assert_eq!(state.step(Event::Change), Action::Launch);
    }
}

#[test]
fn failure_is_not_retried_without_a_change() {
    let mut state = CoordinatorState::new();
    state.on_change();
    let action = state.on_outcome(FAILURE);
    assert_eq!(action, Action::Report(FAILURE));
    assert_ne!(action, Action::Launch);
    assert!(!state.is_building());
}

#[test]
fn outcome_without_a_build_is_reported_and_leaves_idle() {
    let mut state = CoordinatorState::new();
    assert_eq!(state.on_outcome(SUCCESS), Action::Report(SUCCESS));
    assert_eq!(state.phase(), Phase::Idle);
}

#[test]
fn at_most_one_build_is_in_flight_over_a_long_run() {
    let mut state = CoordinatorState::new();
    let mut in_flight: i64 = 0;
    for round in 0..200u32 {
        let event = if round % 7 == 6 && in_flight == 1 {
            Event::Completed(BuildOutcome { succeeded: round % 2 == 0 })
        } else {
            Event::Change
        };
        match state.step(event) {
            Action::Launch => in_flight += 1,
            Action::Report(_) => in_flight -= 1,
            Action::Ignore => {}
        }
        assert!(in_flight == 0 || in_flight == 1);
        assert_eq!(in_flight == 1, state.is_building());
    }
}

#[test]
fn three_signals_then_failure_then_a_fourth_signal() {
    let mut state = CoordinatorState::new();
    assert_eq!(state.phase(), Phase::Idle);
    let mut notices: Vec<&'static str> = Vec::new();

    for _ in 0..3 {
        if let Some(notice) = state.step(Event::Change).notice() {
            notices.push(notice.text());
        }
    }
    assert_eq!(notices, vec!["Building shader..."]);
    assert_eq!(state.phase(), Phase::Building);

    let report = state.step(Event::Completed(FAILURE));
    assert_eq!(report.notice(), Some(Notice::BuildFailed));
    notices.push(report.notice().unwrap().text());
    assert_eq!(notices, vec!["Building shader...", "Build failed!"]);
    assert_eq!(state.phase(), Phase::Idle);

    let fourth = state.step(Event::Change);
    assert_eq!(fourth, Action::Launch);
    notices.push(fourth.notice().unwrap().text());
    assert_eq!(notices, vec!["Building shader...", "Build failed!", "Building shader..."]);
    assert_eq!(state.phase(), Phase::Building);
}

#[test]
fn process_answers_every_event_in_order() {
    let mut state = CoordinatorState::new();
    let events = vec![
        Event::Change,
        Event::Change,
        Event::Completed(SUCCESS),
        Event::Completed(FAILURE),
        Event::Change,
        Event::Completed(FAILURE),
    ];
    let actions = state.process(&events);
    assert_eq!(
        actions,
        vec![
            Action::Launch,
            Action::Ignore,
            Action::Report(SUCCESS),
            Action::Report(FAILURE),
            Action::Launch,
            Action::Report(FAILURE),
        ]
    );
    assert_eq!(state.phase(), Phase::Idle);
}

#[test]
fn process_of_nothing_changes_nothing() {
    let mut state = CoordinatorState::new();
    state.on_change();
    let actions = state.process(&Vec::new());
    assert!(actions.is_empty());
    assert_eq!(state.phase(), Phase::Building);
}

#[test]
fn process_agrees_with_single_steps() {
    let events = vec![
        Event::Change,
        Event::Completed(SUCCESS),
        Event::Change,
        Event::Change,
        Event::Completed(FAILURE),
        Event::Change,
    ];
    let mut batch = CoordinatorState::new();
    let actions = batch.process(&events);
    let mut single = CoordinatorState::new();
    for (event, action) in events.iter().zip(actions.iter()) {
        assert_eq!(single.step(*event), *action);
    }
    assert_eq!(single, batch);
}

#[test]
fn launch_takes_a_snapshot_of_the_configuration() {
    let mut state = CoordinatorState::new();
    let mut config = vec![String::from("spirv-unknown-vulkan1.2")];
    let snapshot = state.launch_on_change(&config);
    assert_eq!(snapshot, Some(vec![String::from("spirv-unknown-vulkan1.2")]));
    config.push(String::from("later"));
    assert_eq!(snapshot.unwrap().len(), 1);
    assert!(state.is_building());
}

#[test]
fn no_snapshot_is_taken_while_building() {
    let mut state = CoordinatorState::new();
    let config = 7u32;
    assert_eq!(state.launch_on_change(&config), Some(7));
    assert_eq!(state.launch_on_change(&config), None);
    assert_eq!(state.launch_on_change(&config), None);
    state.on_outcome(SUCCESS);
    assert_eq!(state.launch_on_change(&config), Some(7));
}

#[test]
fn notices_of_actions() {
    assert_eq!(Action::Launch.notice(), Some(Notice::BuildStarting));
    assert_eq!(Action::Report(SUCCESS).notice(), Some(Notice::BuildSucceeded));
    assert_eq!(Action::Report(FAILURE).notice(), Some(Notice::BuildFailed));
    assert_eq!(Action::Ignore.notice(), None);
}
