//! The repository synchroniser: decides, from what the file system and the
//! version-control tool report, whether to clone, to pull, or to leave the
//! checkout as it is.

use vstd::prelude::*;
use crate::process::{Failure, RunResult, ToolCommand, judge, spec_judge};
use crate::text::{is_behind_upstream, reports_behind};

verus! {

/// What a machine asks of whoever drives it.
#[derive(Clone, Copy, Debug, PartialEq, Eq, Structural)]
pub enum Request {
    /// Tell whether the checkout root exists.
    ProbeRoot,
    /// Create the checkout root and the directories above it.
    CreateRoot,
    /// Tell whether the checkout root holds version-control metadata.
    ProbeMetadata,
    /// Delete the checkout root and all that is in it.
    RemoveRoot,
    /// Run a command of one of the external tools.
    Run(ToolCommand),
}

/// How the creation or deletion of a directory ended.
#[derive(Clone, Debug, PartialEq, Eq)]
pub enum FileOpResult {
    Done,
    /// The system refused; the text is its message.
    Failed(Vec<u8>),
}

/// What the driver reports back.
#[derive(Clone, Debug, PartialEq, Eq)]
pub enum Event {
    /// The caller asks for the action to start.
    Begin,
    /// The answer to a probe.
    Probed(bool),
    /// The result of creating or deleting a directory.
    FileOp(FileOpResult),
    /// The result of running a command.
    Ran(RunResult),
}

/// A directory that is expected to hold a working copy of the remote
/// repository.
#[derive(Clone, Debug, PartialEq, Eq)]
pub struct LocalCheckout {
    pub root: String,
    /// Whether the directory exists.
    pub present: bool,
    /// Whether it holds version-control metadata. A checkout with metadata
    /// is taken to be valid and is never cloned again.
    pub metadata_present: bool,
}

impl LocalCheckout {
    /// Metadata lives inside the directory.
    pub open spec fn well_formed(self) -> bool {
        self.metadata_present ==> self.present
    }
}

/// Where a synchronisation stands.
#[derive(Clone, Debug, PartialEq, Eq)]
pub enum SyncState {
    /// Asking whether the checkout root exists.
    ProbingRoot,
    /// Creating the checkout root.
    CreatingRoot,
    /// Asking whether the checkout root holds metadata.
    ProbingMetadata,
    /// Asking the tool how the local branch stands against its upstream.
    QueryingStatus,
    /// Pulling the tracked branch.
    Pulling,
    /// Cloning the remote repository.
    Cloning,
    /// Updating the submodules of a fresh clone.
    UpdatingSubmodules,
    /// The checkout is there and current.
    Ready,
    /// A step failed; nothing was rolled back.
    Failed(Failure),
}

/// What a state asks of the driver; nothing once the synchronisation is over.
pub open spec fn spec_sync_request(state: SyncState) -> Option<Request> {
    match state {
        SyncState::ProbingRoot => Some(Request::ProbeRoot),
        SyncState::CreatingRoot => Some(Request::CreateRoot),
        SyncState::ProbingMetadata => Some(Request::ProbeMetadata),
        SyncState::QueryingStatus => Some(Request::Run(ToolCommand::Status)),
        SyncState::Pulling => Some(Request::Run(ToolCommand::Pull)),
        SyncState::Cloning => Some(Request::Run(ToolCommand::Clone)),
        SyncState::UpdatingSubmodules => Some(Request::Run(ToolCommand::UpdateSubmodules)),
        SyncState::Ready => None,
        SyncState::Failed(_) => None,
    }
}

/// The state that follows a status query: a pull where the query succeeded
/// and its report says that the local branch is behind, readiness where it
/// succeeded and says no such thing, the failure otherwise.
pub open spec fn spec_after_status(result: RunResult) -> SyncState {
    match spec_judge(ToolCommand::Status, result) {
        Ok(outcome) => if reports_behind(outcome.stdout@) {
            SyncState::Pulling
        } else {
            SyncState::Ready
        },
        Err(failure) => SyncState::Failed(failure),
    }
}

/// The state that follows a command other than the status query: `onward`
/// where it succeeded, the failure otherwise.
pub open spec fn spec_after_command(command: ToolCommand, result: RunResult, onward: SyncState) -> SyncState {
    match spec_judge(command, result) {
        Ok(_) => onward,
        Err(failure) => SyncState::Failed(failure),
    }
}

/// The state that follows `state` on `event`; `None` where the event does not
/// answer what the state asks.
pub open spec fn spec_sync_advance(state: SyncState, event: Event) -> Option<SyncState> {
    match (state, event) {
        (SyncState::ProbingRoot, Event::Probed(exists)) => Some(
            if exists {
                SyncState::ProbingMetadata
            } else {
                SyncState::CreatingRoot
            },
        ),
        (SyncState::CreatingRoot, Event::FileOp(FileOpResult::Done)) => Some(SyncState::ProbingMetadata),
        (SyncState::CreatingRoot, Event::FileOp(FileOpResult::Failed(detail))) => Some(
            SyncState::Failed(Failure::Filesystem { detail }),
        ),
        (SyncState::ProbingMetadata, Event::Probed(exists)) => Some(
            if exists {
                SyncState::QueryingStatus
            } else {
                SyncState::Cloning
            },
        ),
        (SyncState::QueryingStatus, Event::Ran(result)) => Some(spec_after_status(result)),
        (SyncState::Pulling, Event::Ran(result)) => Some(
            spec_after_command(ToolCommand::Pull, result, SyncState::Ready),
        ),
        (SyncState::Cloning, Event::Ran(result)) => Some(
            spec_after_command(ToolCommand::Clone, result, SyncState::UpdatingSubmodules),
        ),
        (SyncState::UpdatingSubmodules, Event::Ran(result)) => Some(
            spec_after_command(ToolCommand::UpdateSubmodules, result, SyncState::Ready),
        ),
        _ => None,
    }
}

/// What a synchronisation hands to its caller once it is over: the checkout,
/// present and with metadata, or the failure.
pub open spec fn spec_sync_result(state: SyncState, root: String) -> Option<
    Result<LocalCheckout, Failure>,
> {
    match state {
        SyncState::Ready => Some(Ok(LocalCheckout { root, present: true, metadata_present: true })),
        SyncState::Failed(failure) => Some(Err(failure)),
        _ => None,
    }
}

/// The state that follows a status query.
fn after_status(result: RunResult) -> (next: SyncState)
    ensures
        next == spec_after_status(result),
{
    match judge(ToolCommand::Status, result) {
        Ok(outcome) => {
            if is_behind_upstream(outcome.stdout.as_slice()) {
                SyncState::Pulling
            } else {
                SyncState::Ready
            }
        },
        Err(failure) => SyncState::Failed(failure),
    }
}

/// The state that follows a command other than the status query.
fn after_command(command: ToolCommand, result: RunResult, onward: SyncState) -> (next: SyncState)
    ensures
        next == spec_after_command(command, result, onward),
{
    match judge(command, result) {
        Ok(_) => onward,
        Err(failure) => SyncState::Failed(failure),
    }
}

impl SyncState {
    /// The state in which every synchronisation starts.
    pub fn begin() -> (state: SyncState)
        ensures
            state == SyncState::ProbingRoot,
    {
        SyncState::ProbingRoot
    }

    /// What the driver is to do next; `None` once the synchronisation is
    /// over.
    pub fn request(&self) -> (request: Option<Request>)
        ensures
            request == spec_sync_request(*self),
    {
        match self {
            SyncState::ProbingRoot => Some(Request::ProbeRoot),
            SyncState::CreatingRoot => Some(Request::CreateRoot),
            SyncState::ProbingMetadata => Some(Request::ProbeMetadata),
            SyncState::QueryingStatus => Some(Request::Run(ToolCommand::Status)),
            SyncState::Pulling => Some(Request::Run(ToolCommand::Pull)),
            SyncState::Cloning => Some(Request::Run(ToolCommand::Clone)),
            SyncState::UpdatingSubmodules => Some(Request::Run(ToolCommand::UpdateSubmodules)),
            SyncState::Ready => None,
            SyncState::Failed(_) => None,
        }
    }

    /// Takes the driver's answer to the pending request. A missing root is
    /// created; a root with metadata is never cloned again, and is pulled if
    /// and only if the status report says that the local branch is behind;
    /// a root without metadata is cloned and its submodules are updated.
    /// The failure of any step ends the synchronisation.
    pub fn advance(self, event: Event) -> (next: Option<SyncState>)
        ensures
            next == spec_sync_advance(self, event),
    {
        match (self, event) {
            (SyncState::ProbingRoot, Event::Probed(exists)) => Some(
                if exists {
                    SyncState::ProbingMetadata
                } else {
                    SyncState::CreatingRoot
                },
            ),
            (SyncState::CreatingRoot, Event::FileOp(FileOpResult::Done)) => Some(SyncState::ProbingMetadata),
            (SyncState::CreatingRoot, Event::FileOp(FileOpResult::Failed(detail))) => Some(
                SyncState::Failed(Failure::Filesystem { detail }),
            ),
            (SyncState::ProbingMetadata, Event::Probed(exists)) => Some(
                if exists {
                    SyncState::QueryingStatus
                } else {
                    SyncState::Cloning
                },
            ),
            (SyncState::QueryingStatus, Event::Ran(result)) => Some(after_status(result)),
            (SyncState::Pulling, Event::Ran(result)) => Some(
                after_command(ToolCommand::Pull, result, SyncState::Ready),
            ),
            (SyncState::Cloning, Event::Ran(result)) => Some(
                after_command(ToolCommand::Clone, result, SyncState::UpdatingSubmodules),
            ),
            (SyncState::UpdatingSubmodules, Event::Ran(result)) => Some(
                after_command(ToolCommand::UpdateSubmodules, result, SyncState::Ready),
            ),
            _ => None,
        }
    }

    /// Whether `event` answers what the state asks.
    pub fn accepts(&self, event: &Event) -> (accepted: bool)
        ensures
            accepted == spec_sync_advance(*self, *event).is_some(),
    {
        match (self, event) {
            (SyncState::ProbingRoot, Event::Probed(_)) => true,
            (SyncState::CreatingRoot, Event::FileOp(_)) => true,
            (SyncState::ProbingMetadata, Event::Probed(_)) => true,
            (SyncState::QueryingStatus, Event::Ran(_)) => true,
            (SyncState::Pulling, Event::Ran(_)) => true,
            (SyncState::Cloning, Event::Ran(_)) => true,
            (SyncState::UpdatingSubmodules, Event::Ran(_)) => true,
            _ => false,
        }
    }

    /// Whether the synchronisation is over.
    pub open spec fn spec_is_over(&self) -> bool {
        *self is Ready || *self is Failed
    }

    /// Whether the synchronisation is over.
    #[verifier::when_used_as_spec(spec_is_over)]
    pub fn is_over(&self) -> (over: bool)
        ensures
            over == self.spec_is_over(),
    {
        match self {
            SyncState::Ready => true,
            SyncState::Failed(_) => true,
            _ => false,
        }
    }

    /// What the synchronisation hands to its caller once it is over.
    pub fn into_result(self, root: String) -> (result: Option<Result<LocalCheckout, Failure>>)
        ensures
            result == spec_sync_result(self, root),
            result is Some <==> self.spec_is_over(),
            result matches Some(Ok(checkout)) ==> checkout.well_formed(),
    {
        match self {
            SyncState::Ready => Some(Ok(LocalCheckout { root, present: true, metadata_present: true })),
            SyncState::Failed(failure) => Some(Err(failure)),
            _ => None,
        }
    }
}

/// A synchronisation replayed against recorded events.
#[derive(Clone, Debug, PartialEq, Eq)]
pub struct SyncReport {
    /// Where the synchronisation stood when the events ran out.
    pub state: SyncState,
    /// The requests made, in order; the last is unanswered unless the
    /// synchronisation is over.
    pub requests: Vec<Request>,
    /// Whether an event did not answer the request that was pending. Such an
    /// event, and all that follow it, are left aside.
    pub refused: bool,
}

/// A `SyncReport` as a mathematical value.
pub struct SyncRun {
    pub state: SyncState,
    pub requests: Seq<Request>,
    pub refused: bool,
}

impl View for SyncReport {
    type V = SyncRun;

    open spec fn view(&self) -> SyncRun {
        SyncRun { state: self.state, requests: self.requests@, refused: self.refused }
    }
}

/// A synchronisation to which nothing has been reported yet.
pub open spec fn spec_sync_start() -> SyncRun {
    SyncRun { state: SyncState::ProbingRoot, requests: seq![Request::ProbeRoot], refused: false }
}

/// The run that `run` becomes when `event` is reported: the state advances
/// and its request is made, unless the event answers nothing.
pub open spec fn spec_sync_extend(run: SyncRun, event: Event) -> SyncRun {
    if run.refused {
        run
    } else {
        match spec_sync_advance(run.state, event) {
            Some(next) => SyncRun {
                state: next,
                requests: match spec_sync_request(next) {
                    Some(request) => run.requests.push(request),
                    None => run.requests,
                },
                refused: false,
            },
            None => SyncRun { state: run.state, requests: run.requests, refused: true },
        }
    }
}

/// The run to which a sequence of events leads, each event answering the
/// request that the events before it have led to.
pub open spec fn spec_ensure_ready(events: Seq<Event>) -> SyncRun
    decreases events.len(),
{
    if events.len() == 0 {
        spec_sync_start()
    } else {
        spec_sync_extend(spec_ensure_ready(events.drop_last()), events.last())
    }
}

/// Replays a synchronisation: `events[k]` is what the driver reports in
/// answer to the `k`-th request.
pub fn ensure_ready(events: Vec<Event>) -> (report: SyncReport)
    ensures
        report@ == spec_ensure_ready(events@),
{
    let ghost all = events@;
    let mut state = SyncState::begin();
    let mut requests: Vec<Request> = Vec::new();
    requests.push(Request::ProbeRoot);
    let mut refused = false;
    assert(all.take(0) =~= Seq::<Event>::empty());
    for event in it: events
        invariant
            it.seq() == all,
            (SyncRun { state, requests: requests@, refused }) == spec_ensure_ready(
                all.take(it.index() as int),
            ),
    {
        proof {
            let k = it.index() as int;
            assert(all.take(k + 1).drop_last() =~= all.take(k));
            assert(all.take(k + 1).last() == event);
        }
        if !refused {
            if state.accepts(&event) {
                state = state.advance(event).unwrap();
                match state.request() {
                    Some(request) => {
                        requests.push(request);
                    },
                    None => {},
                }
            } else {
                refused = true;
            }
        }
    }
    assert(all.take(all.len() as int) =~= all);
    SyncReport { state, requests, refused }
}

} // verus!
