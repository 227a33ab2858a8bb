//! The environment lifecycle controller: sequences synchronisation and the
//! container commands of one action, and reports one result.

use vstd::prelude::*;
use crate::process::{Failure, RunResult, ToolCommand, judge, spec_judge};
use crate::sync::{Event, FileOpResult, Request, SyncState, spec_sync_advance, spec_sync_request};

verus! {

/// What a caller can ask of the controller.
#[derive(Clone, Copy, Debug, PartialEq, Eq, Structural)]
pub enum LifecycleAction {
    /// Synchronise, build, refresh the images, bring the containers up.
    Start,
    /// Synchronise, tear the containers down.
    Stop,
    /// Delete the checkout and synchronise from nothing.
    Reset,
    /// Synchronise, and nothing else.
    Update,
}

/// The two halves of deleting the checkout.
#[derive(Clone, Copy, Debug, PartialEq, Eq, Structural)]
pub enum ResetStage {
    /// Asking whether there is a checkout to delete.
    Probing,
    /// Deleting it.
    Removing,
}

/// Where an action stands.
#[derive(Clone, Debug, PartialEq, Eq)]
pub enum LifecycleState {
    /// Nothing has been asked for yet.
    Idle,
    /// Deleting the checkout.
    ResettingFiles(ResetStage),
    /// Making the checkout ready.
    Syncing(SyncState),
    /// Building the container images.
    Building,
    /// Refreshing the container images.
    PullingImages,
    /// Bringing the containers up.
    Starting,
    /// Tearing the containers down.
    Stopping,
    /// The action succeeded.
    Done,
    /// A step failed. Nothing is retried and nothing is undone.
    Failed(Failure),
}

/// The state in which an action leaves `Idle`.
pub open spec fn spec_first_state(action: LifecycleAction) -> LifecycleState {
    if action == LifecycleAction::Reset {
        LifecycleState::ResettingFiles(ResetStage::Probing)
    } else {
        LifecycleState::Syncing(SyncState::ProbingRoot)
    }
}

/// The state that follows a synchronisation that ended ready.
pub open spec fn spec_after_sync(action: LifecycleAction) -> LifecycleState {
    match action {
        LifecycleAction::Start => LifecycleState::Building,
        LifecycleAction::Stop => LifecycleState::Stopping,
        LifecycleAction::Reset => LifecycleState::Done,
        LifecycleAction::Update => LifecycleState::Done,
    }
}

/// A synchroniser's state as a state of the controller.
pub open spec fn spec_lift(action: LifecycleAction, inner: SyncState) -> LifecycleState {
    match inner {
        SyncState::Ready => spec_after_sync(action),
        SyncState::Failed(failure) => LifecycleState::Failed(failure),
        _ => LifecycleState::Syncing(inner),
    }
}

/// The state that follows a container command: `onward` where it succeeded,
/// the failure otherwise.
pub open spec fn spec_after_step(command: ToolCommand, result: RunResult, onward: LifecycleState) -> LifecycleState {
    match spec_judge(command, result) {
        Ok(_) => onward,
        Err(failure) => LifecycleState::Failed(failure),
    }
}

/// What a state asks of the driver; nothing before the action has begun and
/// nothing once it is over.
pub open spec fn spec_lifecycle_request(state: LifecycleState) -> Option<Request> {
    match state {
        LifecycleState::Idle => None,
        LifecycleState::ResettingFiles(ResetStage::Probing) => Some(Request::ProbeRoot),
        LifecycleState::ResettingFiles(ResetStage::Removing) => Some(Request::RemoveRoot),
        LifecycleState::Syncing(inner) => spec_sync_request(inner),
        LifecycleState::Building => Some(Request::Run(ToolCommand::ComposeBuild)),
        LifecycleState::PullingImages => Some(Request::Run(ToolCommand::ComposePull)),
        LifecycleState::Starting => Some(Request::Run(ToolCommand::ComposeUp)),
        LifecycleState::Stopping => Some(Request::Run(ToolCommand::ComposeDown)),
        LifecycleState::Done => None,
        LifecycleState::Failed(_) => None,
    }
}

/// The state that follows `state` on `event` in the course of `action`;
/// `None` where the event does not answer what the state asks.
pub open spec fn spec_lifecycle_advance(
    action: LifecycleAction,
    state: LifecycleState,
    event: Event,
) -> Option<LifecycleState> {
    match (state, event) {
        (LifecycleState::Idle, Event::Begin) => Some(spec_first_state(action)),
        (LifecycleState::ResettingFiles(ResetStage::Probing), Event::Probed(exists)) => Some(
            if exists {
                LifecycleState::ResettingFiles(ResetStage::Removing)
            } else {
                LifecycleState::Syncing(SyncState::CreatingRoot)
            },
        ),
        (
            LifecycleState::ResettingFiles(ResetStage::Removing),
            Event::FileOp(FileOpResult::Done),
        ) => Some(LifecycleState::Syncing(SyncState::CreatingRoot)),
        (
            LifecycleState::ResettingFiles(ResetStage::Removing),
            Event::FileOp(FileOpResult::Failed(detail)),
        ) => Some(LifecycleState::Failed(Failure::Filesystem { detail })),
        (LifecycleState::Syncing(inner), event) => match spec_sync_advance(inner, event) {
            Some(next) => Some(spec_lift(action, next)),
            None => None,
        },
        (LifecycleState::Building, Event::Ran(result)) => Some(
            spec_after_step(ToolCommand::ComposeBuild, result, LifecycleState::PullingImages),
        ),
        (LifecycleState::PullingImages, Event::Ran(result)) => Some(
            spec_after_step(ToolCommand::ComposePull, result, LifecycleState::Starting),
        ),
        (LifecycleState::Starting, Event::Ran(result)) => Some(
            spec_after_step(ToolCommand::ComposeUp, result, LifecycleState::Done),
        ),
        (LifecycleState::Stopping, Event::Ran(result)) => Some(
            spec_after_step(ToolCommand::ComposeDown, result, LifecycleState::Done),
        ),
        _ => None,
    }
}

/// What an action hands to its caller once it is over.
pub open spec fn spec_lifecycle_outcome(state: LifecycleState) -> Option<Result<(), Failure>> {
    match state {
        LifecycleState::Done => Some(Ok(())),
        LifecycleState::Failed(failure) => Some(Err(failure)),
        _ => None,
    }
}

/// The state in which an action leaves `Idle`.
fn first_state(action: LifecycleAction) -> (state: LifecycleState)
    ensures
        state == spec_first_state(action),
{
    match action {
        LifecycleAction::Reset => LifecycleState::ResettingFiles(ResetStage::Probing),
        _ => LifecycleState::Syncing(SyncState::ProbingRoot),
    }
}

/// A synchroniser's state as a state of the controller.
fn lift(action: LifecycleAction, inner: SyncState) -> (state: LifecycleState)
    ensures
        state == spec_lift(action, inner),
{
    match inner {
        SyncState::Ready => match action {
            LifecycleAction::Start => LifecycleState::Building,
            LifecycleAction::Stop => LifecycleState::Stopping,
            LifecycleAction::Reset => LifecycleState::Done,
            LifecycleAction::Update => LifecycleState::Done,
        },
        SyncState::Failed(failure) => LifecycleState::Failed(failure),
        other => LifecycleState::Syncing(other),
    }
}

/// The state that follows a container command.
fn after_step(command: ToolCommand, result: RunResult, onward: LifecycleState) -> (next:
    LifecycleState)
    ensures
        next == spec_after_step(command, result, onward),
{
    match judge(command, result) {
        Ok(_) => onward,
        Err(failure) => LifecycleState::Failed(failure),
    }
}

impl LifecycleState {
    /// Whether the state is one that the controller itself can reach: while
    /// it synchronises, the synchronisation is not over yet.
    pub open spec fn well_formed(self) -> bool {
        self matches LifecycleState::Syncing(inner) ==> !inner.spec_is_over()
    }

    /// Whether the action is over.
    pub open spec fn spec_is_over(&self) -> bool {
        *self is Done || *self is Failed
    }

    /// Whether the action is over.
    #[verifier::when_used_as_spec(spec_is_over)]
    pub fn is_over(&self) -> (over: bool)
        ensures
            over == self.spec_is_over(),
    {
        match self {
            LifecycleState::Done => true,
            LifecycleState::Failed(_) => true,
            _ => false,
        }
    }

    /// What the driver is to do next; `None` before the action has begun and
    /// once it is over.
    pub fn request(&self) -> (request: Option<Request>)
        ensures
            request == spec_lifecycle_request(*self),
            self.well_formed() ==> (request is None <==> (*self is Idle || self.spec_is_over())),
    {
        match self {
            LifecycleState::Idle => None,
            LifecycleState::ResettingFiles(ResetStage::Probing) => Some(Request::ProbeRoot),
            LifecycleState::ResettingFiles(ResetStage::Removing) => Some(Request::RemoveRoot),
            LifecycleState::Syncing(inner) => inner.request(),
            LifecycleState::Building => Some(Request::Run(ToolCommand::ComposeBuild)),
            LifecycleState::PullingImages => Some(Request::Run(ToolCommand::ComposePull)),
            LifecycleState::Starting => Some(Request::Run(ToolCommand::ComposeUp)),
            LifecycleState::Stopping => Some(Request::Run(ToolCommand::ComposeDown)),
            LifecycleState::Done => None,
            LifecycleState::Failed(_) => None,
        }
    }

    /// Whether `event` answers what the state asks.
    pub fn accepts(&self, event: &Event) -> (accepted: bool)
        ensures
            forall|action: LifecycleAction|
                accepted == #[trigger] spec_lifecycle_advance(action, *self, *event).is_some(),
    {
        match (self, event) {
            (LifecycleState::Idle, Event::Begin) => true,
            (LifecycleState::ResettingFiles(ResetStage::Probing), Event::Probed(_)) => true,
            (LifecycleState::ResettingFiles(ResetStage::Removing), Event::FileOp(_)) => true,
            (LifecycleState::Syncing(inner), _) => inner.accepts(event),
            (LifecycleState::Building, Event::Ran(_)) => true,
            (LifecycleState::PullingImages, Event::Ran(_)) => true,
            (LifecycleState::Starting, Event::Ran(_)) => true,
            (LifecycleState::Stopping, Event::Ran(_)) => true,
            _ => false,
        }
    }

    /// Takes the driver's answer to the pending request, in the course of
    /// `action`. The steps follow one another strictly: the checkout is made
    /// ready before any container command is asked for, and the failure of a
    /// step ends the action with that step's diagnostic.
    pub fn advance(self, action: LifecycleAction, event: Event) -> (next: Option<LifecycleState>)
        ensures
            next == spec_lifecycle_advance(action, self, event),
            next matches Some(state) ==> state.well_formed(),
    {
        match (self, event) {
            (LifecycleState::Idle, Event::Begin) => Some(first_state(action)),
            (LifecycleState::ResettingFiles(ResetStage::Probing), Event::Probed(exists)) => Some(
                if exists {
                    LifecycleState::ResettingFiles(ResetStage::Removing)
                } else {
                    LifecycleState::Syncing(SyncState::CreatingRoot)
                },
            ),
            (
                LifecycleState::ResettingFiles(ResetStage::Removing),
                Event::FileOp(FileOpResult::Done),
            ) => Some(LifecycleState::Syncing(SyncState::CreatingRoot)),
            (
                LifecycleState::ResettingFiles(ResetStage::Removing),
                Event::FileOp(FileOpResult::Failed(detail)),
            ) => Some(LifecycleState::Failed(Failure::Filesystem { detail })),
            (LifecycleState::Syncing(inner), event) => match inner.advance(event) {
                Some(next) => Some(lift(action, next)),
                None => None,
            },
            (LifecycleState::Building, Event::Ran(result)) => Some(
                after_step(ToolCommand::ComposeBuild, result, LifecycleState::PullingImages),
            ),
            (LifecycleState::PullingImages, Event::Ran(result)) => Some(
                after_step(ToolCommand::ComposePull, result, LifecycleState::Starting),
            ),
            (LifecycleState::Starting, Event::Ran(result)) => Some(
                after_step(ToolCommand::ComposeUp, result, LifecycleState::Done),
            ),
            (LifecycleState::Stopping, Event::Ran(result)) => Some(
                after_step(ToolCommand::ComposeDown, result, LifecycleState::Done),
            ),
            _ => None,
        }
    }

    /// What the action hands to its caller once it is over: success, or the
    /// failure of the step that ended it.
    pub fn outcome(self) -> (outcome: Option<Result<(), Failure>>)
        ensures
            outcome == spec_lifecycle_outcome(self),
            outcome is Some <==> self.spec_is_over(),
    {
        match self {
            LifecycleState::Done => Some(Ok(())),
            LifecycleState::Failed(failure) => Some(Err(failure)),
            _ => None,
        }
    }
}

/// An action replayed against recorded events.
#[derive(Clone, Debug, PartialEq, Eq)]
pub struct LifecycleReport {
    /// Where the action stood when the events ran out.
    pub state: LifecycleState,
    /// The requests made, in order; the last is unanswered unless the action
    /// is over.
    pub requests: Vec<Request>,
    /// Whether an event did not answer the request that was pending. Such an
    /// event, and all that follow it, are left aside.
    pub refused: bool,
}

/// A `LifecycleReport` as a mathematical value.
pub struct LifecycleRun {
    pub state: LifecycleState,
    pub requests: Seq<Request>,
    pub refused: bool,
}

impl View for LifecycleReport {
    type V = LifecycleRun;

    open spec fn view(&self) -> LifecycleRun {
        LifecycleRun { state: self.state, requests: self.requests@, refused: self.refused }
    }
}

/// The requests made so far, with that of `state` where it makes one.
pub open spec fn spec_with_request(requests: Seq<Request>, state: LifecycleState) -> Seq<Request> {
    match spec_lifecycle_request(state) {
        Some(request) => requests.push(request),
        None => requests,
    }
}

/// An action that has just begun.
pub open spec fn spec_lifecycle_start(action: LifecycleAction) -> LifecycleRun {
    LifecycleRun {
        state: spec_first_state(action),
        requests: spec_with_request(Seq::empty(), spec_first_state(action)),
        refused: false,
    }
}

/// The run that `run` becomes when `event` is reported: the state advances
/// and its request is made, unless the event answers nothing.
pub open spec fn spec_lifecycle_extend(action: LifecycleAction, run: LifecycleRun, event: Event) -> LifecycleRun {
    if run.refused {
        run
    } else {
        match spec_lifecycle_advance(action, run.state, event) {
            Some(next) => LifecycleRun {
                state: next,
                requests: spec_with_request(run.requests, next),
                refused: false,
            },
            None => LifecycleRun { state: run.state, requests: run.requests, refused: true },
        }
    }
}

/// The run to which a sequence of events leads once `action` has begun, each
/// event answering the request that the events before it have led to.
pub open spec fn spec_run_lifecycle_action(action: LifecycleAction, events: Seq<Event>) -> LifecycleRun
    decreases events.len(),
{
    if events.len() == 0 {
        spec_lifecycle_start(action)
    } else {
        spec_lifecycle_extend(
            action,
            spec_run_lifecycle_action(action, events.drop_last()),
            events.last(),
        )
    }
}

/// Replays `action`: the controller leaves `Idle`, and `events[k]` is what
/// the driver reports in answer to the `k`-th request.
pub fn run_lifecycle_action(action: LifecycleAction, events: Vec<Event>) -> (report:
    LifecycleReport)
    ensures
        report@ == spec_run_lifecycle_action(action, events@),
{
    let ghost all = events@;
    let mut state = first_state(action);
    let mut requests: Vec<Request> = Vec::new();
    match state.request() {
        Some(request) => {
            requests.push(request);
        },
        None => {},
    }
    let mut refused = false;
    assert(all.take(0) =~= Seq::<Event>::empty());
    for event in it: events
        invariant
            it.seq() == all,
            (LifecycleRun { state, requests: requests@, refused }) == spec_run_lifecycle_action(
                action,
                all.take(it.index() as int),
            ),
    {
        proof {
            let k = it.index() as int;
            assert(all.take(k + 1).drop_last() =~= all.take(k));
            assert(all.take(k + 1).last() == event);
        }
        if !refused {
            if state.accepts(&event) {
                state = state.advance(action, event).unwrap();
                match state.request() {
                    Some(request) => {
                        requests.push(request);
                    },
                    None => {},
                }
            } else {
                assert(spec_lifecycle_advance(action, state, event).is_none());
                refused = true;
            }
        }
    }
    assert(all.take(all.len() as int) =~= all);
    LifecycleReport { state, requests, refused }
}

/// Replays a start of the network.
pub fn start_devnet(events: Vec<Event>) -> (report: LifecycleReport)
    ensures
        report@ == spec_run_lifecycle_action(LifecycleAction::Start, events@),
{
    run_lifecycle_action(LifecycleAction::Start, events)
}

/// Replays a stop of the network.
pub fn stop_devnet(events: Vec<Event>) -> (report: LifecycleReport)
    ensures
        report@ == spec_run_lifecycle_action(LifecycleAction::Stop, events@),
{
    run_lifecycle_action(LifecycleAction::Stop, events)
}

/// Replays an update of the checkout.
pub fn update_devnet(events: Vec<Event>) -> (report: LifecycleReport)
    ensures
        report@ == spec_run_lifecycle_action(LifecycleAction::Update, events@),
{
    run_lifecycle_action(LifecycleAction::Update, events)
}

/// Replays a reset of the checkout.
pub fn reset_devnet(events: Vec<Event>) -> (report: LifecycleReport)
    ensures
        report@ == spec_run_lifecycle_action(LifecycleAction::Reset, events@),
{
    run_lifecycle_action(LifecycleAction::Reset, events)
}

} // verus!
