//! Bounded supervision of a running process: check, sleep, check again, and
//! give up when the time allowed has passed.

use vstd::prelude::*;
use crate::process::{ProcessOutcome, RunResult};

verus! {

/// How often a supervised process is looked at, and for how long.
#[derive(Clone, Copy, Debug, PartialEq, Eq, Structural)]
pub struct PollConfig {
    /// Time between two completion checks.
    pub interval: u64,
    /// Elapsed time from which on no further check is made.
    pub max_duration: u64,
}

/// What a completion check found.
#[derive(Clone, Copy, Debug, PartialEq, Eq, Structural)]
pub enum Completion {
    /// The process has not exited yet.
    Running,
    /// The process has exited; the flag tells whether its status was success.
    Exited(bool),
}

/// How a supervision ended.
#[derive(Clone, Copy, Debug, PartialEq, Eq, Structural)]
pub enum PollOutcome {
    Success,
    Failure,
    /// The time allowed passed; the process was left running.
    TimedOut,
}

/// What the poller waits for.
#[derive(Clone, Copy, Debug, PartialEq, Eq, Structural)]
pub enum PollPhase {
    /// A completion check is due.
    Checking,
    /// The process was running at the last check; a sleep is due.
    Sleeping,
    /// The supervision is over.
    Finished(PollOutcome),
}

/// The poller's record of one supervised call.
#[derive(Clone, Copy, Debug, PartialEq, Eq, Structural)]
pub struct PollState {
    /// The last reading of the time that has passed since the start.
    pub elapsed: u64,
    /// What the last completion check found.
    pub last: Completion,
    pub phase: PollPhase,
}

/// What the poller asks of whoever drives it.
#[derive(Clone, Copy, Debug, PartialEq, Eq, Structural)]
pub enum PollRequest {
    /// Look, without blocking, whether the process has exited.
    Check,
    /// Sleep for the given time, then read the clock.
    Sleep(u64),
}

/// What the driver reports back.
#[derive(Clone, Copy, Debug, PartialEq, Eq, Structural)]
pub enum PollEvent {
    /// The answer to `PollRequest::Check`.
    Checked(Completion),
    /// The answer to `PollRequest::Sleep`: the time that has passed since the
    /// start of the supervision.
    Slept(u64),
}

/// The result of replaying a supervision.
#[derive(Clone, Copy, Debug, PartialEq, Eq, Structural)]
pub struct PollReport {
    /// How the supervision ended; `None` while the process is still awaited.
    pub outcome: Option<PollOutcome>,
    /// The number of completion checks made.
    pub checks: usize,
    /// The time that had passed at the last reading of the clock.
    pub elapsed: u64,
}

/// The outcome that an exit status stands for.
pub open spec fn spec_exit_outcome(success: bool) -> PollOutcome {
    if success {
        PollOutcome::Success
    } else {
        PollOutcome::Failure
    }
}

/// The phase that follows a reading of the clock: another check while the
/// time allowed has not passed, otherwise the end.
pub open spec fn spec_phase_at(config: PollConfig, elapsed: u64) -> PollPhase {
    if elapsed < config.max_duration {
        PollPhase::Checking
    } else {
        PollPhase::Finished(PollOutcome::TimedOut)
    }
}

/// The state in which a supervision starts: no time has passed.
pub open spec fn spec_poll_begin(config: PollConfig) -> PollState {
    PollState { elapsed: 0, last: Completion::Running, phase: spec_phase_at(config, 0) }
}

/// What a state asks of the driver; nothing once the supervision is over.
pub open spec fn spec_poll_request(config: PollConfig, state: PollState) -> Option<PollRequest> {
    match state.phase {
        PollPhase::Checking => Some(PollRequest::Check),
        PollPhase::Sleeping => Some(PollRequest::Sleep(config.interval)),
        PollPhase::Finished(_) => None,
    }
}

/// The state that follows `state` on `event`; `None` where the event does not
/// answer what the state asks.
pub open spec fn spec_poll_advance(config: PollConfig, state: PollState, event: PollEvent) -> Option<
    PollState,
> {
    match (state.phase, event) {
        (PollPhase::Checking, PollEvent::Checked(Completion::Exited(success))) => Some(
            PollState {
                elapsed: state.elapsed,
                last: Completion::Exited(success),
                phase: PollPhase::Finished(spec_exit_outcome(success)),
            },
        ),
        (PollPhase::Checking, PollEvent::Checked(Completion::Running)) => Some(
            PollState {
                elapsed: state.elapsed,
                last: Completion::Running,
                phase: PollPhase::Sleeping,
            },
        ),
        (PollPhase::Sleeping, PollEvent::Slept(now)) => Some(
            PollState { elapsed: now, last: state.last, phase: spec_phase_at(config, now) },
        ),
        _ => None,
    }
}

impl PollState {
    /// Starts a supervision. With no time allowed at all it is over at once.
    pub fn begin(config: PollConfig) -> (state: PollState)
        ensures
            state == spec_poll_begin(config),
    {
        PollState { elapsed: 0, last: Completion::Running, phase: phase_at(config, 0) }
    }

    /// What the driver is to do next; `None` once the supervision is over.
    pub fn request(&self, config: PollConfig) -> (request: Option<PollRequest>)
        ensures
            request == spec_poll_request(config, *self),
    {
        match self.phase {
            PollPhase::Checking => Some(PollRequest::Check),
            PollPhase::Sleeping => Some(PollRequest::Sleep(config.interval)),
            PollPhase::Finished(_) => None,
        }
    }

    /// Takes the driver's answer. A process that has exited ends the
    /// supervision with its own status; one that still runs is looked at
    /// again after a sleep, unless the time allowed has passed by then.
    pub fn advance(self, config: PollConfig, event: PollEvent) -> (next: Option<PollState>)
        ensures
            next == spec_poll_advance(config, self, event),
    {
        match (self.phase, event) {
            (PollPhase::Checking, PollEvent::Checked(Completion::Exited(success))) => Some(
                PollState {
                    elapsed: self.elapsed,
                    last: Completion::Exited(success),
                    phase: PollPhase::Finished(exit_outcome(success)),
                },
            ),
            (PollPhase::Checking, PollEvent::Checked(Completion::Running)) => Some(
                PollState {
                    elapsed: self.elapsed,
                    last: Completion::Running,
                    phase: PollPhase::Sleeping,
                },
            ),
            (PollPhase::Sleeping, PollEvent::Slept(now)) => Some(
                PollState { elapsed: now, last: self.last, phase: phase_at(config, now) },
            ),
            _ => None,
        }
    }

    /// How the supervision ended, once it has.
    pub fn outcome(&self) -> (outcome: Option<PollOutcome>)
        ensures
            outcome == (match self.phase {
                PollPhase::Finished(o) => Some(o),
                _ => None,
            }),
    {
        match self.phase {
            PollPhase::Finished(o) => Some(o),
            _ => None,
        }
    }
}

/// The outcome that an exit status stands for.
pub fn exit_outcome(success: bool) -> (outcome: PollOutcome)
    ensures
        outcome == spec_exit_outcome(success),
{
    if success {
        PollOutcome::Success
    } else {
        PollOutcome::Failure
    }
}

/// The phase that follows a reading of the clock.
pub fn phase_at(config: PollConfig, elapsed: u64) -> (phase: PollPhase)
    ensures
        phase == spec_phase_at(config, elapsed),
{
    if elapsed < config.max_duration {
        PollPhase::Checking
    } else {
        PollPhase::Finished(PollOutcome::TimedOut)
    }
}

/// Whether `result` is the exit of a process that wrote nothing to standard
/// output, as that of a streamed process is.
pub open spec fn is_streamed_exit(result: RunResult, success: bool, stderr: Vec<u8>) -> bool {
    &&& result matches RunResult::Exited(outcome)
    &&& outcome.success == success
    &&& outcome.stdout@ == Seq::<u8>::empty()
    &&& outcome.stderr == stderr
}

/// What a supervision hands to the step that asked for it: the exit of the
/// process with what it wrote to standard error, or the timeout.
pub fn supervised(outcome: PollOutcome, stderr: Vec<u8>) -> (result: RunResult)
    ensures
        outcome == PollOutcome::Success ==> is_streamed_exit(result, true, stderr),
        outcome == PollOutcome::Failure ==> is_streamed_exit(result, false, stderr),
        outcome == PollOutcome::TimedOut ==> result == RunResult::TimedOut,
{
    match outcome {
        PollOutcome::Success => RunResult::Exited(
            ProcessOutcome { success: true, stdout: Vec::new(), stderr },
        ),
        PollOutcome::Failure => RunResult::Exited(
            ProcessOutcome { success: false, stdout: Vec::new(), stderr },
        ),
        PollOutcome::TimedOut => RunResult::TimedOut,
    }
}

/// The time that an ideal clock shows after `sleeps` sleeps, capped at the
/// largest reading.
pub open spec fn spec_ideal_elapsed(config: PollConfig, sleeps: nat) -> u64 {
    if sleeps * config.interval <= u64::MAX {
        (sleeps * config.interval) as u64
    } else {
        u64::MAX
    }
}

/// A supervision against an ideal clock, from the moment at which `done`
/// checks have found the process running: every sleep takes exactly the
/// interval, and the `k`-th check finds what `observations[k]` says. Where the
/// observations run out before a decision falls the outcome is `None`.
pub open spec fn spec_await_from(
    config: PollConfig,
    observations: Seq<Completion>,
    done: nat,
) -> PollReport
    decreases observations.len() - done,
{
    if done * config.interval >= config.max_duration {
        PollReport {
            outcome: Some(PollOutcome::TimedOut),
            checks: done as usize,
            elapsed: spec_ideal_elapsed(config, done),
        }
    } else if done >= observations.len() {
        PollReport { outcome: None, checks: done as usize, elapsed: spec_ideal_elapsed(config, done) }
    } else {
        match observations[done as int] {
            Completion::Exited(success) => PollReport {
                outcome: Some(spec_exit_outcome(success)),
                checks: (done + 1) as usize,
                elapsed: spec_ideal_elapsed(config, done),
            },
            Completion::Running => spec_await_from(config, observations, done + 1),
        }
    }
}

/// A whole supervision against an ideal clock.
pub open spec fn spec_await_completion(config: PollConfig, observations: Seq<Completion>) -> PollReport {
    spec_await_from(config, observations, 0)
}

proof fn lemma_next_sleep(config: PollConfig, done: nat)
    ensures
        (done + 1) * config.interval == done * config.interval + config.interval,
{
    assert((done + 1) * config.interval == done * config.interval + config.interval)
        by (nonlinear_arith);
}

/// Supervises a process whose completion checks are known in advance,
/// against an ideal clock, by driving the poller as a real driver does.
pub fn await_completion(config: PollConfig, observations: &Vec<Completion>) -> (report: PollReport)
    ensures
        report == spec_await_completion(config, observations@),
{
    let mut state = PollState::begin(config);
    let mut checks: usize = 0;
    loop
        invariant
            checks <= observations@.len(),
            spec_await_completion(config, observations@) == (match state.phase {
                PollPhase::Finished(outcome) => PollReport {
                    outcome: Some(outcome),
                    checks,
                    elapsed: state.elapsed,
                },
                _ => spec_await_from(config, observations@, checks as nat),
            }),
            state.phase == PollPhase::Checking ==> (state.elapsed == checks * config.interval
                && state.elapsed < config.max_duration),
            state.phase == PollPhase::Sleeping ==> (checks >= 1 && state.elapsed == (checks - 1)
                * config.interval),
        decreases
            2 * (observations@.len() - checks) + (if state.phase == PollPhase::Sleeping {
                1int
            } else {
                0int
            }),
            (if state.phase is Finished { 0int } else { 1int }),
    {
        match state.request(config) {
            None => {
                return PollReport {
                    outcome: state.outcome(),
                    checks,
                    elapsed: state.elapsed,
                };
            },
            Some(PollRequest::Check) => {
                if checks >= observations.len() {
                    return PollReport { outcome: None, checks, elapsed: state.elapsed };
                }
                let found = observations[checks];
                match state.advance(config, PollEvent::Checked(found)) {
                    Some(next) => {
                        state = next;
                    },
                    None => {
                        assert(false);
                    },
                }
                checks = checks + 1;
            },
            Some(PollRequest::Sleep(pause)) => {
                proof {
                    lemma_next_sleep(config, (checks - 1) as nat);
                }
                let now = state.elapsed.saturating_add(pause);
                match state.advance(config, PollEvent::Slept(now)) {
                    Some(next) => {
                        state = next;
                    },
                    None => {
                        assert(false);
                    },
                }
            },
        }
    }
}

/// A process that exits at the check with index `k`, reached before the time
/// allowed has passed, ends the supervision at once with its own status:
/// after `k` intervals, whatever the time allowed beyond them.
pub proof fn lemma_exit_is_reported_at_once(
    config: PollConfig,
    observations: Seq<Completion>,
    k: nat,
    success: bool,
)
    requires
        k < observations.len() <= usize::MAX,
        forall|j: int| 0 <= j < k ==> observations[j] == Completion::Running,
        observations[k as int] == Completion::Exited(success),
        k * config.interval < config.max_duration,
    ensures
        spec_await_completion(config, observations) == (PollReport {
            outcome: Some(spec_exit_outcome(success)),
            checks: (k + 1) as usize,
            elapsed: (k * config.interval) as u64,
        }),
{
    if k > 0 {
        assert((k - 1) * config.interval <= k * config.interval) by (nonlinear_arith)
            requires
                config.interval >= 0,
        ;
    }
    lemma_running_prefix(config, observations, k, 0);
}

/// A process that is still running at each of the first `n` checks, where
/// the time allowed passes during the `n`-th sleep, is given up after `n`
/// intervals and no later.
pub proof fn lemma_timeout_after_allowed_time(
    config: PollConfig,
    observations: Seq<Completion>,
    n: nat,
)
    requires
        n <= observations.len() <= usize::MAX,
        forall|j: int| 0 <= j < n ==> observations[j] == Completion::Running,
        n * config.interval >= config.max_duration,
        n > 0 ==> (n - 1) * config.interval < config.max_duration,
    ensures
        spec_await_completion(config, observations).outcome == Some(PollOutcome::TimedOut),
        spec_await_completion(config, observations).checks == n,
        spec_await_completion(config, observations).elapsed == spec_ideal_elapsed(config, n),
{
    lemma_running_prefix(config, observations, n, 0);
}

/// While the checks find the process running and the time allowed has not
/// passed, the supervision goes on.
proof fn lemma_running_prefix(
    config: PollConfig,
    observations: Seq<Completion>,
    k: nat,
    from: nat,
)
    requires
        from <= k <= observations.len(),
        forall|j: int| 0 <= j < k ==> observations[j] == Completion::Running,
        k > 0 ==> (k - 1) * config.interval < config.max_duration,
    ensures
        spec_await_from(config, observations, from) == spec_await_from(config, observations, k),
    decreases k - from,
{
    if from < k {
        assert(from * config.interval <= (k - 1) * config.interval) by (nonlinear_arith)
            requires
                from <= k - 1,
                config.interval >= 0,
        ;
        lemma_running_prefix(config, observations, k, from + 1);
    }
}

} // verus!
