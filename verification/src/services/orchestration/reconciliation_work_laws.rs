//! What a pass of the reconciliation does for the pods and the workloads of the node.
use vstd::prelude::*;

use crate::models::{EventType, Pod, PodPhase};
use crate::services::orchestration::reconciliation_laws::{
    is_pass, law_steps_keep_the_service_well_formed, lemma_going_on, lemma_next_pod,
    lemma_next_unwanted, lemma_stops_next,
};
use crate::services::orchestration::reconciliation_service::{
    finished_uids, is_desired, is_pod, lemma_unfinished, next_unwanted, ReconcileAction,
    ReconcileEvent, ReconciliationServiceImpl, Stage,
};
use crate::services::orchestration::workload_lifecycle_service::RunningWorkload;
use crate::text::views;

verus! {

/// The first container of the pod is to run the image `name`.
pub open spec fn names_image(pod: Pod, name: Seq<char>) -> bool {
    &&& pod.spec matches Some(spec)
    &&& spec.containers@.len() > 0
    &&& spec.containers@[0].image matches Some(image)
    &&& image@ == name
}

/// One of the pods has the identifier `uid`.
pub open spec fn is_assigned(pods: Seq<Pod>, uid: Seq<char>) -> bool {
    exists|p: int|
        0 <= p < pods.len() && ((#[trigger] pods[p]).metadata.uid matches Some(u) && u@ == uid)
}

/// A pod whose image is being prepared has an identifier and names that image, does not run
/// and has not run.
proof fn lemma_preparing(
    pre: ReconciliationServiceImpl,
    event: ReconcileEvent,
    post: ReconciliationServiceImpl,
    action: ReconcileAction,
)
    requires
        pre.wf(),
        pre.steps_to(event, post, action),
        post.stage is Preparing,
    ensures
        post.wf(),
        action is PrepareImage,
        ({
            let pod = post.desired@[post.stage->Preparing_pod as int];
            &&& post.stage->Preparing_pod < post.desired@.len()
            &&& pod.metadata.uid is Some
            &&& exists|name: Seq<char>|
                {
                    &&& name.len() > 0
                    &&& #[trigger] names_image(pod, name)
                    &&& action->PrepareImage_image.refers_to(name)
                }
            &&& forall|i: int|
                0 <= i < post.running@.len() ==> (#[trigger] post.running@[i]).0@
                    != pod.metadata.uid->0@
            &&& forall|i: int|
                0 <= i < post.ended@.len() ==> (#[trigger] post.ended@[i])@ != pod.metadata.uid->0@
        }),
{
    law_steps_keep_the_service_well_formed(pre, event, post, action);
    let (start, from) = lemma_going_on(pre, event, post, action);
    lemma_next_pod(start.desired@, start.running@, start.ended@, from);
    let pod = post.desired@[post.stage->Preparing_pod as int];
    let name = pod.spec->0.containers@[0].image->0@;
    assert(names_image(pod, name));
}

/// A pod is started in the root file system that was prepared for its image: whenever a pod is
/// started, the step before had the image of that same pod prepared, and where the pod is
/// started is what came of it.
pub proof fn law_pods_are_started_in_their_images(
    states: Seq<ReconciliationServiceImpl>,
    events: Seq<ReconcileEvent>,
    actions: Seq<ReconcileAction>,
    i: int,
)
    requires
        is_pass(states, events, actions),
        0 <= i < actions.len(),
        actions[i] is StartWorkload,
    ensures
        i > 0,
        events[i] == ReconcileEvent::ImagePrepared(Ok(actions[i]->StartWorkload_rootfs)),
        actions[i - 1] is PrepareImage,
        states[i + 1].desired == states[i].desired,
        actions[i]->StartWorkload_pod < states[i].desired@.len(),
        exists|name: Seq<char>|
            {
                &&& name.len() > 0
                &&& #[trigger] names_image(
                    states[i].desired@[actions[i]->StartWorkload_pod as int],
                    name,
                )
                &&& actions[i - 1]->PrepareImage_image.refers_to(name)
            },
{
    lemma_well_formed(states, events, actions, i);
    assert(states[i].steps_to(events[i], states[i + 1], actions[i]));
    let (start, from) = lemma_going_on(states[i], events[i], states[i + 1], actions[i]);
    lemma_next_pod(start.desired@, start.running@, start.ended@, from);
    assert(states[i].stage is Preparing);
    assert(states[i - 1].steps_to(events[i - 1], states[i], actions[i - 1]));
    lemma_well_formed(states, events, actions, i - 1);
    lemma_preparing(states[i - 1], events[i - 1], states[i], actions[i - 1]);
    law_what_comes_of_a_pod(
        states[i],
        events[i],
        states[i + 1],
        actions[i],
        states[i].stage->Preparing_pod,
    );
}

proof fn lemma_well_formed(
    states: Seq<ReconciliationServiceImpl>,
    events: Seq<ReconcileEvent>,
    actions: Seq<ReconcileAction>,
    n: int,
)
    requires
        is_pass(states, events, actions),
        0 <= n < states.len(),
    ensures
        states[n].wf(),
    decreases n,
{
    if n > 0 {
        lemma_well_formed(states, events, actions, n - 1);
        assert(states[n - 1].steps_to(events[n - 1], states[n], actions[n - 1]));
        law_steps_keep_the_service_well_formed(
            states[n - 1],
            events[n - 1],
            states[n],
            actions[n - 1],
        );
    }
}

/// An image is prepared only for an assigned pod that has an identifier and names that image,
/// that does not run and has not run.
pub proof fn law_only_new_pods_have_their_images_prepared(
    pre: ReconciliationServiceImpl,
    event: ReconcileEvent,
    post: ReconciliationServiceImpl,
    action: ReconcileAction,
)
    requires
        pre.wf(),
        pre.steps_to(event, post, action),
        action is PrepareImage || post.stage is Preparing,
    ensures
        action is PrepareImage,
        post.stage is Preparing,
        post.stage->Preparing_pod < post.desired@.len(),
        ({
            let pod = post.desired@[post.stage->Preparing_pod as int];
            &&& pod.metadata.uid is Some
            &&& exists|name: Seq<char>|
                {
                    &&& name.len() > 0
                    &&& #[trigger] names_image(pod, name)
                    &&& action->PrepareImage_image.refers_to(name)
                }
            &&& forall|i: int|
                0 <= i < post.running@.len() ==> (#[trigger] post.running@[i]).0@
                    != pod.metadata.uid->0@
            &&& forall|i: int|
                0 <= i < post.ended@.len() ==> (#[trigger] post.ended@[i])@ != pod.metadata.uid->0@
        }),
{
    let (start, from) = lemma_going_on(pre, event, post, action);
    lemma_next_pod(start.desired@, start.running@, start.ended@, from);
    if start.stops_next(post, action) {
        lemma_stops_next(start, post, action);
    }
    lemma_preparing(pre, event, post, action);
}

/// The status of an assigned pod is asked of the workload of that pod, and when the workloads
/// are gone through, of each in its turn.
pub proof fn law_statuses_are_asked_of_their_workloads(
    pre: ReconciliationServiceImpl,
    event: ReconcileEvent,
    post: ReconciliationServiceImpl,
    action: ReconcileAction,
)
    requires
        pre.wf(),
        pre.steps_to(event, post, action),
    ensures
        post.stage matches Stage::PodStatus { pod, at } ==> {
            &&& action == (ReconcileAction::CheckStatus { at })
            &&& pod < post.desired@.len()
            &&& at < post.running@.len()
            &&& post.desired@[pod as int].metadata.uid matches Some(uid)
            &&& post.running@[at as int].0@ == uid@
        },
        post.stage matches Stage::CheckingStatus { at } ==> {
            &&& action == (ReconcileAction::CheckStatus { at })
            &&& at < post.running@.len()
            &&& post.running@ == pre.running@
            &&& at == match pre.stage {
                Stage::CheckingReport { at: last } => last + 1,
                _ => 0,
            }
        },
        action is CheckStatus ==> post.stage is PodStatus || post.stage is CheckingStatus,
{
    law_steps_keep_the_service_well_formed(pre, event, post, action);
    assert(pre.running.len() <= usize::MAX);
    let (start, from) = lemma_going_on(pre, event, post, action);
    lemma_next_pod(start.desired@, start.running@, start.ended@, from);
    if start.stops_next(post, action) {
        lemma_stops_next(start, post, action);
    }
}

/// A status that became known is reported under the name and in the namespace of its workload.
pub proof fn law_known_statuses_are_reported(
    pre: ReconciliationServiceImpl,
    event: ReconcileEvent,
    post: ReconciliationServiceImpl,
    action: ReconcileAction,
)
    requires
        pre.wf(),
        pre.steps_to(event, post, action),
    ensures
        event matches ReconcileEvent::StatusKnown(Ok(known)) ==> {
            let at = match pre.stage {
                Stage::PodStatus { at, .. } => at,
                Stage::CheckingStatus { at } => at,
                _ => 0,
            };
            &&& action == (ReconcileAction::ReportStatus {
                pod_name: pre.running@[at as int].1.pod_name,
                namespace: pre.running@[at as int].1.namespace,
                status: known,
            })
            &&& post.running@ == pre.running@
        },
        action is ReportStatus ==> event is StatusKnown,
{
    let (start, from) = lemma_going_on(pre, event, post, action);
    lemma_next_pod(start.desired@, start.running@, start.ended@, from);
    if start.stops_next(post, action) {
        lemma_stops_next(start, post, action);
    }
}

/// A pod whose image is ready is started, and one whose image is not or that could not be
/// started is given up for this pass: that is recorded, and only a workload that was started
/// comes into the table, under the identifier of its pod.
pub proof fn law_what_comes_of_a_pod(
    pre: ReconciliationServiceImpl,
    event: ReconcileEvent,
    post: ReconciliationServiceImpl,
    action: ReconcileAction,
    pod: usize,
)
    requires
        pre.wf(),
        pre.steps_to(event, post, action),
        pre.stage == (Stage::Preparing { pod }) || pre.stage == (Stage::Starting { pod }),
    ensures
        post.desired == pre.desired,
        post.ended == pre.ended,
        post.node_name == pre.node_name,
        match event {
            ReconcileEvent::ImagePrepared(Ok(rootfs)) => {
                &&& action == (ReconcileAction::StartWorkload { pod, rootfs })
                &&& post.stage == (Stage::Starting { pod })
                &&& post.running@ == pre.running@
            },
            ReconcileEvent::ImagePrepared(Err(e)) => {
                &&& is_record(
                    action,
                    EventType::Warning,
                    "ImagePullFailed"@,
                    e.text(),
                    pre.desired@[pod as int].metadata.uid,
                )
                &&& post.running@ == pre.running@
            },
            ReconcileEvent::WorkloadStarted(Ok(workload)) => {
                &&& is_record(
                    action,
                    EventType::Normal,
                    "Started"@,
                    "workload started successfully"@,
                    pre.desired@[pod as int].metadata.uid,
                )
                &&& post.running@.len() == pre.running@.len() + 1
                &&& post.running@.last().1 == workload
                &&& Some(post.running@.last().0) == pre.desired@[pod as int].metadata.uid
                &&& forall|i: int|
                    0 <= i < pre.running@.len() ==> #[trigger] post.running@[i] == pre.running@[i]
            },
            ReconcileEvent::WorkloadStarted(Err(e)) => {
                &&& is_record(
                    action,
                    EventType::Warning,
                    "WorkloadFailed"@,
                    e.text(),
                    pre.desired@[pod as int].metadata.uid,
                )
                &&& post.running@ == pre.running@
            },
            _ => false,
        },
{
}

/// The action records an event with these contents.
pub open spec fn is_record(
    action: ReconcileAction,
    event_type: EventType,
    reason: Seq<char>,
    message: Seq<char>,
    pod_id: Option<String>,
) -> bool {
    &&& action matches ReconcileAction::RecordEvent {
        event_type: t,
        reason: r,
        message: m,
        pod_id: p,
    }
    &&& t == event_type
    &&& r@ == reason
    &&& m@ == message
    &&& p == pod_id
}

/// What ends a pass early is that the assigned pods, or the status of a workload, could not be
/// had, or that a status could not be reported. The pass then fails for that reason. No other
/// trouble ends it.
pub proof fn law_what_ends_a_pass_early(
    pre: ReconciliationServiceImpl,
    event: ReconcileEvent,
    post: ReconciliationServiceImpl,
    action: ReconcileAction,
)
    requires
        pre.wf(),
        pre.steps_to(event, post, action),
    ensures
        match event {
            ReconcileEvent::PodsFetched(Err(e)) => action == ReconcileAction::Failed(e),
            ReconcileEvent::StatusKnown(Err(e)) => action == ReconcileAction::Failed(e),
            ReconcileEvent::StatusReported(Err(e)) => action == ReconcileAction::Failed(e),
            _ => action !is Failed,
        },
        action is Failed ==> post.running@ == pre.running@ && post.ended == pre.ended,
{
    let (start, from) = lemma_going_on(pre, event, post, action);
    lemma_next_pod(start.desired@, start.running@, start.ended@, from);
    if start.stops_next(post, action) {
        lemma_stops_next(start, post, action);
    }
}

/// A pass is about the pods that were fetched for it: they are the assigned ones to its end.
pub proof fn law_a_pass_is_about_the_fetched_pods(
    states: Seq<ReconciliationServiceImpl>,
    events: Seq<ReconcileEvent>,
    actions: Seq<ReconcileAction>,
    n: int,
)
    requires
        is_pass(states, events, actions),
        0 < n < states.len(),
        actions[0] !is Failed,
    ensures
        events[0] matches ReconcileEvent::PodsFetched(Ok(pods)) && states[n].desired == pods,
        states[n].node_name == states[0].node_name,
        states[n].stage !is Fetching,
    decreases n,
{
    let pre = states[n - 1];
    lemma_well_formed(states, events, actions, n - 1);
    if n > 1 {
        law_a_pass_is_about_the_fetched_pods(states, events, actions, n - 1);
    }
    assert(pre.steps_to(events[n - 1], states[n], actions[n - 1]));
    let (start, from) = lemma_going_on(pre, events[n - 1], states[n], actions[n - 1]);
    lemma_next_pod(start.desired@, start.running@, start.ended@, from);
    if start.stops_next(states[n], actions[n - 1]) {
        lemma_stops_next(start, states[n], actions[n - 1]);
    }
}

/// Only one workload is stopped at a time. It is one of the table, for a pod that is not
/// assigned, and leaves the table alone.
pub proof fn law_a_stopped_workload_leaves_alone(
    pre: ReconciliationServiceImpl,
    event: ReconcileEvent,
    post: ReconciliationServiceImpl,
    action: ReconcileAction,
)
    requires
        pre.wf(),
        pre.steps_to(event, post, action),
        action is StopWorkload,
    ensures
        !is_assigned(post.desired@, action->StopWorkload_uid@),
        exists|k: int|
            {
                &&& 0 <= k < pre.running@.len()
                &&& #[trigger] pre.running@[k] == (
                    action->StopWorkload_uid,
                    action->StopWorkload_workload,
                )
                &&& post.running@ == pre.running@.take(k) + pre.running@.skip(k + 1)
            },
        post.ended == pre.ended,
{
    let (start, from) = lemma_going_on(pre, event, post, action);
    lemma_stops_next(start, post, action);
    lemma_next_unwanted(start.running@, start.desired@, 0);
    let k = next_unwanted(start.running@, start.desired@, 0);
    assert(pre.running@.remove(k) =~= pre.running@.take(k) + pre.running@.skip(k + 1));
    assert(pre.running@[k] == (action->StopWorkload_uid, action->StopWorkload_workload));
    if is_assigned(post.desired@, action->StopWorkload_uid@) {
        let p = choose|p: int|
            0 <= p < post.desired@.len() && ((
            #[trigger] post.desired@[p]).metadata.uid matches Some(u) && u@
                == action->StopWorkload_uid@);
        assert(is_pod(post.desired@[p], action->StopWorkload_uid@));
    }
}

/// The workload is in the table, or was stopped before the state `states[n]`.
spec fn is_kept_or_stopped(
    states: Seq<ReconciliationServiceImpl>,
    actions: Seq<ReconcileAction>,
    n: int,
    entry: (String, RunningWorkload),
) -> bool {
    ||| exists|k: int|
        0 <= k < states[n].running@.len() && #[trigger] states[n].running@[k] == entry
    ||| exists|i: int|
        0 <= i < n && #[trigger] actions[i] == (ReconcileAction::StopWorkload {
            uid: entry.0,
            workload: entry.1,
        })
}

proof fn lemma_kept_or_stopped(
    states: Seq<ReconciliationServiceImpl>,
    events: Seq<ReconcileEvent>,
    actions: Seq<ReconcileAction>,
    n: int,
    entry: (String, RunningWorkload),
)
    requires
        is_pass(states, events, actions),
        0 <= n < states.len(),
        forall|i: int| 0 <= i < n ==> (#[trigger] actions[i]) !is Finished && actions[i] !is Failed,
        is_kept_or_stopped(states, actions, 0, entry),
    ensures
        is_kept_or_stopped(states, actions, n, entry),
    decreases n,
{
    if n > 0 {
        let pre = states[n - 1];
        let post = states[n];
        let event = events[n - 1];
        let action = actions[n - 1];
        lemma_well_formed(states, events, actions, n - 1);
        lemma_kept_or_stopped(states, events, actions, n - 1, entry);
        assert(pre.steps_to(event, post, action));
        if exists|k: int| 0 <= k < pre.running@.len() && #[trigger] pre.running@[k] == entry {
            let k = choose|k: int|
                0 <= k < pre.running@.len() && #[trigger] pre.running@[k] == entry;
            let (start, from) = lemma_going_on(pre, event, post, action);
            lemma_next_pod(start.desired@, start.running@, start.ended@, from);
            if action is StopWorkload {
                law_a_stopped_workload_leaves_alone(pre, event, post, action);
                let gone = choose|g: int|
                    {
                        &&& 0 <= g < pre.running@.len()
                        &&& #[trigger] pre.running@[g] == (
                            action->StopWorkload_uid,
                            action->StopWorkload_workload,
                        )
                        &&& post.running@ == pre.running@.take(g) + pre.running@.skip(g + 1)
                    };
                if gone != k {
                    let at = if k < gone { k } else { k - 1 };
                    assert(post.running@[at] == entry);
                } else {
                    assert(actions[n - 1] == (ReconcileAction::StopWorkload {
                        uid: entry.0,
                        workload: entry.1,
                    }));
                }
            } else {
                if start.stops_next(post, action) {
                    lemma_stops_next(start, post, action);
                }
                assert(post.running@[k] == entry);
            }
        }
    }
}

/// In a pass that finishes, every workload whose pod is no longer assigned is stopped.
pub proof fn law_unassigned_workloads_are_stopped(
    states: Seq<ReconciliationServiceImpl>,
    events: Seq<ReconcileEvent>,
    actions: Seq<ReconcileAction>,
    k: int,
)
    requires
        is_pass(states, events, actions),
        actions.len() > 0,
        actions.last() is Finished,
        forall|i: int|
            0 <= i < actions.len() - 1 ==> (#[trigger] actions[i]) !is Finished && actions[i]
                !is Failed,
        0 <= k < states[0].running@.len(),
        !is_assigned(events[0]->PodsFetched_0->Ok_0@, states[0].running@[k].0@),
    ensures
        exists|i: int|
            0 <= i < actions.len() && #[trigger] actions[i] == (ReconcileAction::StopWorkload {
                uid: states[0].running@[k].0,
                workload: states[0].running@[k].1,
            }),
{
    let entry = states[0].running@[k];
    let n = states.len() - 2;
    assert(is_kept_or_stopped(states, actions, 0, entry));
    lemma_kept_or_stopped(states, events, actions, n, entry);
    lemma_well_formed(states, events, actions, n);
    law_a_pass_is_about_the_fetched_pods(states, events, actions, n + 1);
    let pre = states[n];
    let post = states[n + 1];
    assert(pre.steps_to(events[n], post, actions[n]));
    let (start, from) = lemma_going_on(pre, events[n], post, actions[n]);
    lemma_next_pod(start.desired@, start.running@, start.ended@, from);
    if start.stops_next(post, actions[n]) {
        lemma_stops_next(start, post, actions[n]);
    }
    if exists|j: int| 0 <= j < pre.running@.len() && #[trigger] pre.running@[j] == entry {
        let j = choose|j: int| 0 <= j < pre.running@.len() && #[trigger] pre.running@[j] == entry;
        assert(is_desired(pre.desired@, pre.running@[j].0@));
        let p = choose|p: int|
            0 <= p < pre.desired@.len() && is_pod(#[trigger] pre.desired@[p], entry.0@);
        assert(pre.desired@[p].metadata.uid->0@ == entry.0@);
    }
}

/// Which pods have ended changes only when a pass is over. Then those have ended besides whose
/// workloads were marked as finished, and no others.
pub proof fn law_only_finished_pods_end(
    pre: ReconciliationServiceImpl,
    event: ReconcileEvent,
    post: ReconciliationServiceImpl,
    action: ReconcileAction,
    uid: Seq<char>,
)
    requires
        pre.wf(),
        pre.steps_to(event, post, action),
    ensures
        action !is Finished ==> post.ended == pre.ended,
        (exists|i: int| 0 <= i < post.ended@.len() && (#[trigger] post.ended@[i])@ == uid) ==> {
            ||| exists|i: int| 0 <= i < pre.ended@.len() && (#[trigger] pre.ended@[i])@ == uid
            ||| exists|k: int|
                0 <= k < pre.running@.len() && k < pre.finished@.len() && pre.finished@[k] && (
                #[trigger] pre.running@[k]).0@ == uid
        },
{
    let (start, from) = lemma_going_on(pre, event, post, action);
    lemma_next_pod(start.desired@, start.running@, start.ended@, from);
    if start.stops_next(post, action) {
        lemma_stops_next(start, post, action);
    }
    if exists|i: int| 0 <= i < post.ended@.len() && (#[trigger] post.ended@[i])@ == uid {
        let i = choose|i: int| 0 <= i < post.ended@.len() && (#[trigger] post.ended@[i])@ == uid;
        if action is Finished {
            let old_uids = views(pre.ended@);
            let finished = if pre.stage is CheckingReport { pre.finished@ } else { Seq::empty() };
            let new_uids = finished_uids(pre.running@, finished);
            assert(views(post.ended@) == old_uids + new_uids);
            assert(views(post.ended@)[i] == uid);
            if i < old_uids.len() {
                assert(pre.ended@[i]@ == uid);
            } else {
                lemma_finished_come_from_the_table(pre.running@, finished, i - old_uids.len());
            }
        }
    }
}

proof fn lemma_finished_come_from_the_table(
    running: Seq<(String, RunningWorkload)>,
    finished: Seq<bool>,
    i: int,
)
    requires
        running.len() == finished.len(),
        0 <= i < finished_uids(running, finished).len(),
    ensures
        exists|k: int|
            0 <= k < running.len() && finished[k] && (#[trigger] running[k]).0@ == finished_uids(
                running,
                finished,
            )[i],
    decreases running.len(),
{
    let n = running.len() - 1;
    let r = running.drop_last();
    let f = finished.take(n);
    let rest = finished_uids(r, f);
    if i < rest.len() {
        lemma_finished_come_from_the_table(r, f, i);
        let k = choose|k: int| 0 <= k < r.len() && f[k] && (#[trigger] r[k]).0@ == rest[i];
        assert(running[k].0@ == finished_uids(running, finished)[i]);
    } else {
        assert(running[n].0@ == finished_uids(running, finished)[i]);
    }
}

/// When a pass is over, the table holds the workloads that were not marked as finished, as they
/// were, and nothing else.
pub proof fn law_unfinished_workloads_stay_as_they_are(
    pre: ReconciliationServiceImpl,
    event: ReconcileEvent,
    post: ReconciliationServiceImpl,
    action: ReconcileAction,
)
    requires
        pre.wf(),
        pre.steps_to(event, post, action),
        action is Finished,
    ensures
        forall|i: int|
            0 <= i < post.running@.len() ==> exists|k: int|
                0 <= k < pre.running@.len() && !pre.finished@[k] && #[trigger] pre.running@[k]
                    == #[trigger] post.running@[i],
        forall|k: int|
            0 <= k < pre.running@.len() && !pre.finished@[k] ==> exists|i: int|
                0 <= i < post.running@.len() && #[trigger] post.running@[i]
                    == #[trigger] pre.running@[k],
{
    let (start, from) = lemma_going_on(pre, event, post, action);
    lemma_next_pod(start.desired@, start.running@, start.ended@, from);
    if start.stops_next(post, action) {
        lemma_stops_next(start, post, action);
    } else {
        lemma_unfinished(pre.running@, pre.finished@);
        assert forall|k: int| 0 <= k < pre.running@.len() && !pre.finished@[k] implies exists|i: int|
            0 <= i < post.running@.len() && #[trigger] post.running@[i]
                == #[trigger] pre.running@[k] by {
            assert(post.running@.contains(pre.running@[k]));
            let i = choose|i: int| 0 <= i < post.running@.len() && post.running@[i]
                == pre.running@[k];
            assert(post.running@[i] == pre.running@[k]);
        }
    }
}

/// A workload is marked as finished just when its status says that it has failed or succeeded.
pub proof fn law_finished_means_failed_or_succeeded(
    pre: ReconciliationServiceImpl,
    event: ReconcileEvent,
    post: ReconciliationServiceImpl,
    action: ReconcileAction,
    at: usize,
)
    requires
        pre.wf(),
        pre.stage == (Stage::CheckingStatus { at }),
        pre.steps_to(event, post, action),
        action !is Failed,
    ensures
        event matches ReconcileEvent::StatusKnown(Ok(status)) && {
            &&& post.finished@.len() == at + 1
            &&& post.finished@[at as int] == (status.phase == PodPhase::Failed || status.phase
                == PodPhase::Succeeded)
            &&& action == (ReconcileAction::ReportStatus {
                pod_name: pre.running@[at as int].1.pod_name,
                namespace: pre.running@[at as int].1.namespace,
                status,
            })
        },
        forall|i: int| 0 <= i < at ==> #[trigger] post.finished@[i] == pre.finished@[i],
{
}

/// A service starts with no workloads, and no pod has ended. A pass begins with the assigned pods,
/// and with all that is known of workloads and pods as it was. Each step of it is one that the
/// laws speak of.
pub proof fn law_a_pass_begins_with_the_assigned_pods(
    node_name: String,
    new: ReconciliationServiceImpl,
    idle: &mut ReconciliationServiceImpl,
    first: ReconcileAction,
    pre: &mut ReconciliationServiceImpl,
    event: ReconcileEvent,
    action: ReconcileAction,
)
    requires
        call_ensures(ReconciliationServiceImpl::new, (node_name,), new),
        call_ensures(ReconciliationServiceImpl::begin, (idle,), first),
        call_ensures(ReconciliationServiceImpl::step, (pre, event), action),
    ensures
        new.node_name == node_name,
        new.running@.len() == 0,
        new.ended@.len() == 0,
        new.stage == Stage::Idle,
        first is FetchAssignedPods,
        final(idle).stage == Stage::Fetching,
        final(idle).running == old(idle).running,
        final(idle).ended == old(idle).ended,
        final(idle).node_name == old(idle).node_name,
        old(pre).steps_to(event, *final(pre), action),
{
}

/// A workload is found by the identifier of its pod.
pub proof fn law_workloads_are_found_by_their_pods(
    service: &ReconciliationServiceImpl,
    uid: &str,
    r: Option<usize>,
)
    requires
        call_ensures(ReconciliationServiceImpl::find, (service, uid), r),
    ensures
        r matches Some(at) ==> at < service.running@.len() && service.running@[at as int].0@
            == uid@,
        r is None ==> forall|i: int|
            0 <= i < service.running@.len() ==> (#[trigger] service.running@[i]).0@ != uid@,
{
}

/// A pass takes the answer to what it asked last, whether it is good or bad, and nothing else.
pub proof fn law_a_pass_takes_the_answer_to_its_question(
    service: &ReconciliationServiceImpl,
    event: &ReconcileEvent,
    r: bool,
)
    requires
        call_ensures(ReconciliationServiceImpl::is_awaiting, (service, event), r),
    ensures
        r == match service.stage {
            Stage::Idle => false,
            Stage::Fetching => event is PodsFetched,
            Stage::PodStatus { .. } | Stage::CheckingStatus { .. } => event is StatusKnown,
            Stage::PodReport { .. } | Stage::CheckingReport { .. } => event is StatusReported,
            Stage::Preparing { .. } => event is ImagePrepared,
            Stage::Starting { .. } => event is WorkloadStarted,
            Stage::Noting { .. } => event is EventRecorded,
            Stage::Stopping => event is WorkloadStopped,
        },
{
}

} // verus!
