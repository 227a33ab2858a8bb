//! What holds of every synchronisation, whatever the driver reports.

use vstd::prelude::*;
use crate::process::{Failure, RunResult, ToolCommand};
use crate::sync::{
    Event, FileOpResult, LocalCheckout, Request, SyncRun, SyncState, spec_ensure_ready,
    spec_sync_advance, spec_sync_extend, spec_sync_request, spec_sync_result,
};
use crate::text::reports_behind;

verus! {

/// Whether a run takes no further event: it is over, or an event was refused.
pub open spec fn settled(run: SyncRun) -> bool {
    run.refused || run.state.spec_is_over()
}

/// The requests of a fresh clone, in order.
pub open spec fn fresh_clone_requests() -> Seq<Request> {
    seq![
        Request::ProbeRoot,
        Request::CreateRoot,
        Request::ProbeMetadata,
        Request::Run(ToolCommand::Clone),
        Request::Run(ToolCommand::UpdateSubmodules),
    ]
}

/// Whether `event` reports that a command ran and exited with success.
pub open spec fn ran_well(event: Event) -> bool {
    event matches Event::Ran(RunResult::Exited(outcome)) && outcome.success
}

/// Whether `event` is a status report of success that says that the local
/// branch is behind its upstream.
pub open spec fn reported_behind(event: Event) -> bool {
    event matches Event::Ran(RunResult::Exited(outcome)) && outcome.success && reports_behind(
        outcome.stdout@,
    )
}

/// The run after `k + 1` events is the run after `k` events, extended by
/// the event with index `k`.
pub proof fn lemma_sync_step(events: Seq<Event>, k: int)
    requires
        0 <= k < events.len(),
    ensures
        spec_ensure_ready(events.take(k + 1)) == spec_sync_extend(
            spec_ensure_ready(events.take(k)),
            events[k],
        ),
{
    assert(events.take(k + 1).drop_last() =~= events.take(k));
    assert(events.take(k + 1).last() == events[k]);
}

/// A run that is over, or that has refused an event, makes no further
/// request and stays in its state, whatever is reported to it.
pub proof fn lemma_settled_run_stays(events: Seq<Event>, k: int)
    requires
        0 <= k <= events.len(),
        settled(spec_ensure_ready(events.take(k))),
    ensures
        spec_ensure_ready(events).state == spec_ensure_ready(events.take(k)).state,
        spec_ensure_ready(events).requests == spec_ensure_ready(events.take(k)).requests,
        settled(spec_ensure_ready(events)),
    decreases events.len() - k,
{
    if k == events.len() {
        assert(events.take(k) =~= events);
    } else {
        let shorter = events.drop_last();
        assert(shorter.take(k) =~= events.take(k));
        lemma_settled_run_stays(shorter, k);
    }
}

/// A root that does not exist is created, the repository is cloned into it
/// and its submodules are updated, in this order and with no other request;
/// the checkout that is handed back holds metadata. This holds of every
/// root, whenever each of the steps succeeds.
pub proof fn lemma_missing_root_is_cloned(events: Seq<Event>, root: String)
    requires
        events.len() >= 5,
        events[0] == Event::Probed(false),
        events[1] == Event::FileOp(FileOpResult::Done),
        events[2] == Event::Probed(false),
        ran_well(events[3]),
        ran_well(events[4]),
    ensures
        spec_ensure_ready(events).requests == fresh_clone_requests(),
        spec_ensure_ready(events).state == SyncState::Ready,
        spec_sync_result(spec_ensure_ready(events).state, root) == Some(
            Ok::<LocalCheckout, Failure>(
                LocalCheckout { root, present: true, metadata_present: true },
            ),
        ),
{
    assert(events.take(0) =~= Seq::<Event>::empty());
    lemma_sync_step(events, 0);
    lemma_sync_step(events, 1);
    lemma_sync_step(events, 2);
    lemma_sync_step(events, 3);
    lemma_sync_step(events, 4);
    lemma_settled_run_stays(events, 5);
    assert(spec_ensure_ready(events.take(5)).requests =~= fresh_clone_requests());
}

/// Where a synchronisation of a missing root stands after `k` events: as
/// long as it goes on, it has asked for the first `k + 1` steps of a fresh
/// clone; once it has ended, it has asked for no more than those steps, and
/// for all of them if it ended ready.
pub open spec fn on_fresh_clone_path(events: Seq<Event>, k: int) -> bool {
    let run = spec_ensure_ready(events.take(k));
    let steps = fresh_clone_requests();
    if settled(run) {
        run.requests.is_prefix_of(steps) && (run.state == SyncState::Ready ==> run.requests
            == steps)
    } else {
        k < 5 && run.requests == steps.take(k + 1) && spec_sync_request(run.state) == Some(
            steps[k],
        )
    }
}

proof fn lemma_missing_root_stage(events: Seq<Event>, k: int)
    requires
        1 <= k <= events.len(),
        k <= 5,
        events[0] == Event::Probed(false),
        events.len() >= 3 ==> events[2] == Event::Probed(false),
    ensures
        on_fresh_clone_path(events, k),
    decreases k,
{
    let steps = fresh_clone_requests();
    if k == 1 {
        assert(events.take(0) =~= Seq::<Event>::empty());
        lemma_sync_step(events, 0);
        assert(spec_ensure_ready(events.take(1)).requests =~= steps.take(2));
    } else {
        lemma_missing_root_stage(events, k - 1);
        lemma_sync_step(events, k - 1);
        let before = spec_ensure_ready(events.take(k - 1));
        let after = spec_ensure_ready(events.take(k));
        if !settled(before) {
            assert(before.requests =~= steps.take(k));
            match spec_sync_advance(before.state, events[k - 1]) {
                Some(next) => {
                    if spec_sync_request(next) is Some {
                        assert(after.requests =~= steps.take(k + 1));
                    } else {
                        assert(steps.take(k).is_prefix_of(steps));
                        if next == SyncState::Ready {
                            assert(after.requests =~= steps);
                        }
                    }
                },
                None => {
                    assert(steps.take(k).is_prefix_of(steps));
                },
            }
        }
    }
}

/// However a synchronisation of a missing root goes, it asks for nothing but
/// the steps of a fresh clone, in their order: neither a status query nor a
/// pull is made, and it ends ready only after all of them.
pub proof fn lemma_missing_root_is_never_pulled(events: Seq<Event>)
    requires
        events.len() >= 1,
        events[0] == Event::Probed(false),
        events.len() >= 3 ==> events[2] == Event::Probed(false),
    ensures
        spec_ensure_ready(events).requests.is_prefix_of(fresh_clone_requests()),
        spec_ensure_ready(events).state == SyncState::Ready ==> spec_ensure_ready(events).requests
            == fresh_clone_requests(),
{
    let steps = fresh_clone_requests();
    if events.len() <= 5 {
        lemma_missing_root_stage(events, events.len() as int);
        assert(events.take(events.len() as int) =~= events);
        let run = spec_ensure_ready(events);
        if !settled(run) {
            assert(steps.take(events.len() as int + 1).is_prefix_of(steps));
        }
    } else {
        lemma_missing_root_stage(events, 5);
        lemma_settled_run_stays(events, 5);
    }
}

/// A root that holds metadata is never cloned again: its status is asked
/// for exactly once, and it is pulled if and only if the status query
/// succeeded and its report says that the local branch is behind.
pub proof fn lemma_existing_checkout_is_never_cloned(events: Seq<Event>)
    requires
        events.len() >= 2,
        events[0] == Event::Probed(true),
        events[1] == Event::Probed(true),
    ensures
        !spec_ensure_ready(events).requests.contains(Request::Run(ToolCommand::Clone)),
        spec_ensure_ready(events).requests.len() >= 3,
        forall|i: int|
            0 <= i < spec_ensure_ready(events).requests.len() ==> (spec_ensure_ready(
                events,
            ).requests[i] == Request::Run(ToolCommand::Status) <==> i == 2),
        spec_ensure_ready(events).requests.contains(Request::Run(ToolCommand::Pull)) <==> (
        events.len() >= 3 && reported_behind(events[2])),
{
    assert(events.take(0) =~= Seq::<Event>::empty());
    lemma_sync_step(events, 0);
    lemma_sync_step(events, 1);
    let r2 = spec_ensure_ready(events.take(2));
    assert(r2.requests =~= seq![
        Request::ProbeRoot,
        Request::ProbeMetadata,
        Request::Run(ToolCommand::Status),
    ]);
    if events.len() == 2 {
        assert(events.take(2) =~= events);
    } else {
        lemma_sync_step(events, 2);
        let r3 = spec_ensure_ready(events.take(3));
        if reported_behind(events[2]) {
            assert(r3.state == SyncState::Pulling);
            assert(r3.requests =~= r2.requests.push(Request::Run(ToolCommand::Pull)));
            assert(r3.requests[3] == Request::Run(ToolCommand::Pull));
            if events.len() == 3 {
                assert(events.take(3) =~= events);
            } else {
                lemma_sync_step(events, 3);
                let r4 = spec_ensure_ready(events.take(4));
                assert(r4.requests == r3.requests);
                assert(settled(r4));
                lemma_settled_run_stays(events, 4);
            }
            assert(spec_ensure_ready(events).requests == r3.requests);
        } else {
            assert(r3.requests == r2.requests);
            assert(settled(r3));
            lemma_settled_run_stays(events, 3);
        }
    }
}

/// A second synchronisation, after one that ended ready, changes nothing
/// while the upstream has not moved: it finds the root and its metadata,
/// asks for the status, and with a report that lacks the marker makes
/// neither a clone nor a pull.
pub proof fn lemma_second_sync_changes_nothing(first: Seq<Event>, second: Seq<Event>)
    requires
        spec_ensure_ready(first).state == SyncState::Ready,
        second.len() >= 3,
        second[0] == Event::Probed(true),
        second[1] == Event::Probed(true),
        ran_well(second[2]),
        !reported_behind(second[2]),
    ensures
        spec_ensure_ready(second).state == SyncState::Ready,
        spec_ensure_ready(second).requests == seq![
            Request::ProbeRoot,
            Request::ProbeMetadata,
            Request::Run(ToolCommand::Status),
        ],
{
    assert(second.take(0) =~= Seq::<Event>::empty());
    lemma_sync_step(second, 0);
    lemma_sync_step(second, 1);
    lemma_sync_step(second, 2);
    lemma_settled_run_stays(second, 3);
    assert(spec_ensure_ready(second.take(3)).requests =~= seq![
        Request::ProbeRoot,
        Request::ProbeMetadata,
        Request::Run(ToolCommand::Status),
    ]);
}

/// The absence of metadata is the sole signal to clone: a synchronisation
/// turns to cloning exactly when it has asked for the metadata and was told
/// that there is none.
pub proof fn lemma_only_missing_metadata_leads_to_clone(state: SyncState, event: Event)
    ensures
        spec_sync_advance(state, event) == Some(SyncState::Cloning) <==> (state
            == SyncState::ProbingMetadata && event == Event::Probed(false)),
{
}

/// A synchronisation turns to pulling exactly when it has asked for the
/// status and the query succeeded with a report that says that the local
/// branch is behind its upstream.
pub proof fn lemma_only_behind_report_leads_to_pull(state: SyncState, event: Event)
    ensures
        spec_sync_advance(state, event) == Some(SyncState::Pulling) <==> (state
            == SyncState::QueryingStatus && reported_behind(event)),
{
}

} // verus!
