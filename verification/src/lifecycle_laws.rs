//! What holds of every action, whatever the driver reports.

use vstd::prelude::*;
use crate::lifecycle::{
    LifecycleAction, LifecycleRun, LifecycleState, spec_lifecycle_advance, spec_lifecycle_extend,
    spec_lifecycle_request, spec_lift, spec_run_lifecycle_action,
};
use crate::process::{RunResult, ToolCommand, spec_judge};
use crate::sync::{Event, FileOpResult, Request, spec_ensure_ready};
use crate::sync_laws::{fresh_clone_requests, ran_well};

verus! {

/// Whether a run takes no further event: it is over, or an event was refused.
pub open spec fn lifecycle_settled(run: LifecycleRun) -> bool {
    run.refused || run.state.spec_is_over()
}

/// The stage of an action at which a request is made: deleting comes before
/// synchronising, synchronising before building or stopping, building before
/// the refresh of the images, and that before the start.
pub open spec fn request_stage(request: Request) -> nat {
    match request {
        Request::ProbeRoot => 1,
        Request::RemoveRoot => 1,
        Request::CreateRoot => 2,
        Request::ProbeMetadata => 2,
        Request::Run(command) => match command {
            ToolCommand::Clone => 2,
            ToolCommand::Status => 2,
            ToolCommand::Pull => 2,
            ToolCommand::UpdateSubmodules => 2,
            ToolCommand::ComposeBuild => 3,
            ToolCommand::ComposeDown => 3,
            ToolCommand::ComposePull => 4,
            ToolCommand::ComposeUp => 5,
        },
    }
}

/// The stage at which a state stands: that of its request, and the last
/// stage once the action is over.
pub open spec fn state_stage(state: LifecycleState) -> nat {
    match spec_lifecycle_request(state) {
        Some(request) => request_stage(request),
        None => if state is Idle {
            0
        } else {
            6
        },
    }
}

/// Whether the requests are in the order of their stages.
pub open spec fn staged(requests: Seq<Request>) -> bool {
    forall|i: int, j: int|
        0 <= i <= j < requests.len() ==> request_stage(#[trigger] requests[i]) <= request_stage(
            #[trigger] requests[j],
        )
}

/// The run after `k + 1` events is the run after `k` events, extended by
/// the event with index `k`.
pub proof fn lemma_lifecycle_step(action: LifecycleAction, events: Seq<Event>, k: int)
    requires
        0 <= k < events.len(),
    ensures
        spec_run_lifecycle_action(action, events.take(k + 1)) == spec_lifecycle_extend(
            action,
            spec_run_lifecycle_action(action, events.take(k)),
            events[k],
        ),
{
    assert(events.take(k + 1).drop_last() =~= events.take(k));
    assert(events.take(k + 1).last() == events[k]);
}

/// A run that is over, or that has refused an event, makes no further
/// request and stays in its state: nothing is retried.
pub proof fn lemma_settled_action_stays(action: LifecycleAction, events: Seq<Event>, k: int)
    requires
        0 <= k <= events.len(),
        lifecycle_settled(spec_run_lifecycle_action(action, events.take(k))),
    ensures
        spec_run_lifecycle_action(action, events).state == spec_run_lifecycle_action(
            action,
            events.take(k),
        ).state,
        spec_run_lifecycle_action(action, events).requests == spec_run_lifecycle_action(
            action,
            events.take(k),
        ).requests,
        lifecycle_settled(spec_run_lifecycle_action(action, events)),
    decreases events.len() - k,
{
    if k == events.len() {
        assert(events.take(k) =~= events);
    } else {
        let shorter = events.drop_last();
        assert(shorter.take(k) =~= events.take(k));
        lemma_settled_action_stays(action, shorter, k);
    }
}

/// Every state that a run reaches is one of the controller's own: while it
/// synchronises, the synchronisation is not over.
pub proof fn lemma_run_is_well_formed(action: LifecycleAction, events: Seq<Event>)
    ensures
        spec_run_lifecycle_action(action, events).state.well_formed(),
    decreases events.len(),
{
    if events.len() > 0 {
        lemma_run_is_well_formed(action, events.drop_last());
    }
}

/// No transition leads back to an earlier stage.
proof fn lemma_stage_never_falls(action: LifecycleAction, state: LifecycleState, event: Event)
    requires
        spec_lifecycle_advance(action, state, event) is Some,
    ensures
        state_stage(state) <= state_stage(spec_lifecycle_advance(action, state, event).unwrap()),
{
}

/// The requests made so far are in the order of their stages, and none is
/// of a later stage than the one at which the run stands.
proof fn lemma_requests_within_stage(action: LifecycleAction, events: Seq<Event>)
    ensures
        staged(spec_run_lifecycle_action(action, events).requests),
        forall|i: int|
            0 <= i < spec_run_lifecycle_action(action, events).requests.len() ==> request_stage(
                #[trigger] spec_run_lifecycle_action(action, events).requests[i],
            ) <= state_stage(spec_run_lifecycle_action(action, events).state),
    decreases events.len(),
{
    if events.len() > 0 {
        let before = spec_run_lifecycle_action(action, events.drop_last());
        let after = spec_run_lifecycle_action(action, events);
        lemma_requests_within_stage(action, events.drop_last());
        if !before.refused {
            if spec_lifecycle_advance(action, before.state, events.last()) is Some {
                lemma_stage_never_falls(action, before.state, events.last());
            }
        }
        assert forall|i: int, j: int| 0 <= i <= j < after.requests.len() implies request_stage(
            #[trigger] after.requests[i],
        ) <= request_stage(#[trigger] after.requests[j]) by {
            if j < before.requests.len() {
                assert(after.requests[i] == before.requests[i]);
                assert(after.requests[j] == before.requests[j]);
            } else if i < before.requests.len() {
                assert(after.requests[i] == before.requests[i]);
            }
        }
        assert forall|i: int| 0 <= i < after.requests.len() implies request_stage(
            #[trigger] after.requests[i],
        ) <= state_stage(after.state) by {
            if i < before.requests.len() {
                assert(after.requests[i] == before.requests[i]);
            }
        }
    }
}

/// The steps of an action follow one another strictly: the requests are made
/// in the order of their stages, so that the checkout is deleted before it
/// is synchronised and is ready before any container command is asked for.
pub proof fn lemma_requests_follow_the_stages(action: LifecycleAction, events: Seq<Event>)
    ensures
        staged(spec_run_lifecycle_action(action, events).requests),
{
    lemma_requests_within_stage(action, events);
}

/// A command that fails ends the action with its own failure, whichever
/// step it belongs to: no further request is made, and the diagnostic that
/// came with the failure is handed on unchanged.
pub proof fn lemma_failed_command_ends_action(
    action: LifecycleAction,
    events: Seq<Event>,
    k: int,
    command: ToolCommand,
    result: RunResult,
)
    requires
        0 <= k < events.len(),
        !spec_run_lifecycle_action(action, events.take(k)).refused,
        spec_lifecycle_request(spec_run_lifecycle_action(action, events.take(k)).state) == Some(
            Request::Run(command),
        ),
        events[k] == Event::Ran(result),
        spec_judge(command, result) is Err,
    ensures
        spec_run_lifecycle_action(action, events).state == LifecycleState::Failed(
            spec_judge(command, result)->Err_0,
        ),
        spec_run_lifecycle_action(action, events).requests == spec_run_lifecycle_action(
            action,
            events.take(k),
        ).requests,
{
    lemma_lifecycle_step(action, events, k);
    lemma_settled_action_stays(action, events, k + 1);
}

/// A start whose build fails asks neither for the refresh of the images nor
/// for the containers to be brought up.
pub proof fn lemma_failed_build_ends_start(events: Seq<Event>, k: int, result: RunResult)
    requires
        0 <= k < events.len(),
        !spec_run_lifecycle_action(LifecycleAction::Start, events.take(k)).refused,
        spec_run_lifecycle_action(LifecycleAction::Start, events.take(k)).state
            == LifecycleState::Building,
        events[k] == Event::Ran(result),
        spec_judge(ToolCommand::ComposeBuild, result) is Err,
    ensures
        spec_run_lifecycle_action(LifecycleAction::Start, events).state == LifecycleState::Failed(
            spec_judge(ToolCommand::ComposeBuild, result)->Err_0,
        ),
        !spec_run_lifecycle_action(LifecycleAction::Start, events).requests.contains(
            Request::Run(ToolCommand::ComposePull),
        ),
        !spec_run_lifecycle_action(LifecycleAction::Start, events).requests.contains(
            Request::Run(ToolCommand::ComposeUp),
        ),
{
    let action = LifecycleAction::Start;
    lemma_failed_command_ends_action(action, events, k, ToolCommand::ComposeBuild, result);
    lemma_requests_within_stage(action, events.take(k));
}

/// A reset of a checkout that exists asks for its deletion at once, before
/// any clone: a clone is asked for only after the deletion has succeeded.
pub proof fn lemma_reset_deletes_before_clone(events: Seq<Event>)
    requires
        events.len() >= 1,
        events[0] == Event::Probed(true),
    ensures
        spec_run_lifecycle_action(LifecycleAction::Reset, events).requests.len() >= 2,
        spec_run_lifecycle_action(LifecycleAction::Reset, events).requests[0] == Request::ProbeRoot,
        spec_run_lifecycle_action(LifecycleAction::Reset, events).requests[1]
            == Request::RemoveRoot,
        forall|i: int|
            0 <= i < spec_run_lifecycle_action(LifecycleAction::Reset, events).requests.len()
                && #[trigger] spec_run_lifecycle_action(LifecycleAction::Reset, events).requests[i]
                == Request::Run(ToolCommand::Clone) ==> i > 1 && events.len() >= 2 && events[1]
                == Event::FileOp(FileOpResult::Done),
{
    let action = LifecycleAction::Reset;
    assert(events.take(0) =~= Seq::<Event>::empty());
    lemma_lifecycle_step(action, events, 0);
    let r1 = spec_run_lifecycle_action(action, events.take(1));
    assert(r1.requests =~= seq![Request::ProbeRoot, Request::RemoveRoot]);
    if events.len() == 1 {
        assert(events.take(1) =~= events);
    } else {
        lemma_lifecycle_step(action, events, 1);
        let r2 = spec_run_lifecycle_action(action, events.take(2));
        lemma_prefix_is_kept(action, events, 1);
        if events[1] != Event::FileOp(FileOpResult::Done) {
            assert(lifecycle_settled(r2));
            lemma_settled_action_stays(action, events, 2);
        }
    }
}

/// The requests made after `k` events are the first of those made after
/// all of them.
pub proof fn lemma_prefix_is_kept(action: LifecycleAction, events: Seq<Event>, k: int)
    requires
        0 <= k <= events.len(),
    ensures
        spec_run_lifecycle_action(action, events.take(k)).requests.is_prefix_of(
            spec_run_lifecycle_action(action, events).requests,
        ),
    decreases events.len() - k,
{
    if k == events.len() {
        assert(events.take(k) =~= events);
    } else {
        let shorter = events.drop_last();
        assert(shorter.take(k) =~= events.take(k));
        lemma_prefix_is_kept(action, shorter, k);
    }
}

/// A reset where there is no checkout succeeds all the same: nothing is
/// deleted, and the root is created and cloned into as by a first
/// synchronisation.
pub proof fn lemma_reset_without_checkout_clones(events: Seq<Event>)
    requires
        events.len() >= 5,
        events[0] == Event::Probed(false),
        events[1] == Event::FileOp(FileOpResult::Done),
        events[2] == Event::Probed(false),
        ran_well(events[3]),
        ran_well(events[4]),
    ensures
        spec_run_lifecycle_action(LifecycleAction::Reset, events).state == LifecycleState::Done,
        spec_run_lifecycle_action(LifecycleAction::Reset, events).requests
            == fresh_clone_requests(),
        !spec_run_lifecycle_action(LifecycleAction::Reset, events).requests.contains(
            Request::RemoveRoot,
        ),
{
    let action = LifecycleAction::Reset;
    assert(events.take(0) =~= Seq::<Event>::empty());
    lemma_lifecycle_step(action, events, 0);
    lemma_lifecycle_step(action, events, 1);
    lemma_lifecycle_step(action, events, 2);
    lemma_lifecycle_step(action, events, 3);
    lemma_lifecycle_step(action, events, 4);
    lemma_settled_action_stays(action, events, 5);
    assert(spec_run_lifecycle_action(action, events.take(5)).requests =~= fresh_clone_requests());
}

/// An update is the synchronisation and nothing else: it makes the same
/// requests, refuses the same events, and is done exactly when the
/// synchronisation is ready.
pub proof fn lemma_update_is_synchronisation(events: Seq<Event>)
    ensures
        spec_run_lifecycle_action(LifecycleAction::Update, events).requests == spec_ensure_ready(
            events,
        ).requests,
        spec_run_lifecycle_action(LifecycleAction::Update, events).refused == spec_ensure_ready(
            events,
        ).refused,
        spec_run_lifecycle_action(LifecycleAction::Update, events).state == spec_lift(
            LifecycleAction::Update,
            spec_ensure_ready(events).state,
        ),
    decreases events.len(),
{
    if events.len() > 0 {
        lemma_update_is_synchronisation(events.drop_last());
    } else {
        assert(spec_run_lifecycle_action(LifecycleAction::Update, events).requests =~= seq![
            Request::ProbeRoot,
        ]);
    }
}

} // verus!
