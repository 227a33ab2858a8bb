use devnet::poller::{
    await_completion, exit_outcome, phase_at, supervised, Completion, PollConfig, PollEvent,
    PollOutcome, PollPhase, PollReport, PollRequest, PollState,
};
use devnet::process::{ProcessOutcome, RunResult};

fn running(n: usize) -> Vec<Completion> {
    vec![Completion::Running; n]
}

#[test]
fn process_that_completes_after_two_intervals_is_reported_after_two() {
    let config = PollConfig { interval: 5, max_duration: 50 };
    let mut observations = running(2);
    observations.push(Completion::Exited(true));
    observations.extend(running(20));
    let report = await_completion(config, &observations);
    assert_eq!(report, PollReport { outcome: Some(PollOutcome::Success), checks: 3, elapsed: 10 });
}

#[test]
fn process_that_never_completes_times_out_after_three_intervals() {
    let config = PollConfig { interval: 5, max_duration: 15 };
    let report = await_completion(config, &running(100));
    assert_eq!(report, PollReport { outcome: Some(PollOutcome::TimedOut), checks: 3, elapsed: 15 });
}

#[test]
fn process_that_exits_without_success_is_a_failure() {
    let config = PollConfig { interval: 5, max_duration: 30000 };
    let report = await_completion(config, &vec![Completion::Running, Completion::Exited(false)]);
    assert_eq!(report, PollReport { outcome: Some(PollOutcome::Failure), checks: 2, elapsed: 5 });
}

#[test]
fn process_that_has_exited_at_the_first_check_costs_no_sleep() {
    let config = PollConfig { interval: 5, max_duration: 30000 };
    let report = await_completion(config, &vec![Completion::Exited(true)]);
    assert_eq!(report, PollReport { outcome: Some(PollOutcome::Success), checks: 1, elapsed: 0 });
}

#[test]
fn no_time_allowed_means_no_check() {
    let config = PollConfig { interval: 5, max_duration: 0 };
    let report = await_completion(config, &vec![Completion::Exited(true)]);
    assert_eq!(report, PollReport { outcome: Some(PollOutcome::TimedOut), checks: 0, elapsed: 0 });
    assert_eq!(PollState::begin(config).phase, PollPhase::Finished(PollOutcome::TimedOut));
}

#[test]
fn time_allowed_that_is_no_multiple_of_the_interval_is_overshot_by_less_than_one() {
    let config = PollConfig { interval: 5, max_duration: 12 };
    let report = await_completion(config, &running(10));
    assert_eq!(report, PollReport { outcome: Some(PollOutcome::TimedOut), checks: 3, elapsed: 15 });
}

#[test]
fn exit_at_the_very_check_before_the_deadline_still_counts() {
    let config = PollConfig { interval: 5, max_duration: 15 };
    let mut observations = running(2);
    observations.push(Completion::Exited(true));
    let report = await_completion(config, &observations);
    assert_eq!(report, PollReport { outcome: Some(PollOutcome::Success), checks: 3, elapsed: 10 });
    let mut late = running(3);
    late.push(Completion::Exited(true));
    let report = await_completion(config, &late);
    assert_eq!(report, PollReport { outcome: Some(PollOutcome::TimedOut), checks: 3, elapsed: 15 });
}

#[test]
fn observations_that_run_out_leave_the_outcome_open() {
    let config = PollConfig { interval: 5, max_duration: 30000 };
    let report = await_completion(config, &running(4));
    assert_eq!(report, PollReport { outcome: None, checks: 4, elapsed: 20 });
    let report = await_completion(config, &Vec::new());
    assert_eq!(report, PollReport { outcome: None, checks: 0, elapsed: 0 });
}

#[test]
fn elapsed_time_is_capped_at_the_largest_reading() {
    let config = PollConfig { interval: u64::MAX - 1, max_duration: u64::MAX };
    let report = await_completion(config, &running(5));
    assert_eq!(
        report,
        PollReport { outcome: Some(PollOutcome::TimedOut), checks: 2, elapsed: u64::MAX }
    );
}

#[test]
fn interval_of_zero_polls_without_time_passing() {
    let config = PollConfig { interval: 0, max_duration: 1 };
    let mut observations = running(7);
    observations.push(Completion::Exited(false));
    let report = await_completion(config, &observations);
    assert_eq!(report, PollReport { outcome: Some(PollOutcome::Failure), checks: 8, elapsed: 0 });
}

#[test]
fn poller_asks_for_a_check_then_a_sleep_then_a_check() {
    let config = PollConfig { interval: 5, max_duration: 30000 };
    let state = PollState::begin(config);
    assert_eq!(state, PollState { elapsed: 0, last: Completion::Running, phase: PollPhase::Checking });
    assert_eq!(state.request(config), Some(PollRequest::Check));
    assert_eq!(state.outcome(), None);

    let state = state.advance(config, PollEvent::Checked(Completion::Running)).unwrap();
    assert_eq!(state.phase, PollPhase::Sleeping);
    assert_eq!(state.request(config), Some(PollRequest::Sleep(5)));

    let state = state.advance(config, PollEvent::Slept(6)).unwrap();
    assert_eq!(state, PollState { elapsed: 6, last: Completion::Running, phase: PollPhase::Checking });

    let state = state.advance(config, PollEvent::Checked(Completion::Exited(false))).unwrap();
    assert_eq!(
        state,
        PollState {
            elapsed: 6,
            last: Completion::Exited(false),
            phase: PollPhase::Finished(PollOutcome::Failure)
        }
    );
    assert_eq!(state.request(config), None);
    assert_eq!(state.outcome(), Some(PollOutcome::Failure));
}

#[test]
fn poller_gives_up_when_the_clock_has_passed_the_time_allowed() {
    let config = PollConfig { interval: 5, max_duration: 10 };
    let state = PollState::begin(config)
        .advance(config, PollEvent::Checked(Completion::Running))
        .unwrap()
        .advance(config, PollEvent::Slept(10))
        .unwrap();
    assert_eq!(state.phase, PollPhase::Finished(PollOutcome::TimedOut));
    assert_eq!(state.elapsed, 10);
    assert_eq!(state.outcome(), Some(PollOutcome::TimedOut));
    let early = PollState::begin(config)
        .advance(config, PollEvent::Checked(Completion::Running))
        .unwrap()
        .advance(config, PollEvent::Slept(9))
        .unwrap();
    assert_eq!(early.phase, PollPhase::Checking);
}

#[test]
fn poller_refuses_what_it_did_not_ask_for() {
    let config = PollConfig { interval: 5, max_duration: 10 };
    let checking = PollState::begin(config);
    assert_eq!(checking.advance(config, PollEvent::Slept(3)), None);
    let sleeping = checking.advance(config, PollEvent::Checked(Completion::Running)).unwrap();
    assert_eq!(sleeping.advance(config, PollEvent::Checked(Completion::Exited(true))), None);
    let finished = checking.advance(config, PollEvent::Checked(Completion::Exited(true))).unwrap();
    assert_eq!(finished.advance(config, PollEvent::Checked(Completion::Running)), None);
    assert_eq!(finished.advance(config, PollEvent::Slept(1)), None);
}

#[test]
fn exit_status_and_clock_reading_are_judged() {
    assert_eq!(exit_outcome(true), PollOutcome::Success);
    assert_eq!(exit_outcome(false), PollOutcome::Failure);
    let config = PollConfig { interval: 5, max_duration: 10 };
    assert_eq!(phase_at(config, 0), PollPhase::Checking);
    assert_eq!(phase_at(config, 9), PollPhase::Checking);
    assert_eq!(phase_at(config, 10), PollPhase::Finished(PollOutcome::TimedOut));
    assert_eq!(phase_at(config, 11), PollPhase::Finished(PollOutcome::TimedOut));
}

#[test]
fn supervision_is_handed_on_as_the_result_of_a_run() {
    assert_eq!(
        supervised(PollOutcome::Success, b"note".to_vec()),
        RunResult::Exited(ProcessOutcome { success: true, stdout: Vec::new(), stderr: b"note".to_vec() })
    );
    assert_eq!(
        supervised(PollOutcome::Failure, b"fatal".to_vec()),
        RunResult::Exited(ProcessOutcome {
            success: false,
            stdout: Vec::new(),
            stderr: b"fatal".to_vec()
        })
    );
    assert_eq!(supervised(PollOutcome::TimedOut, b"late".to_vec()), RunResult::TimedOut);
}
