//! What holds of every pass of the reconciliation.
use vstd::prelude::*;

use crate::models::{Pod, PodPhase};
use crate::services::orchestration::reconciliation_service::{
    all_desired, finished_uids, has_ended, has_uid, is_desired, is_over, is_passed_over,
    is_pod, lemma_push_keeps_unique, lemma_remove_keeps_unique, lemma_unfinished, next_pod, next_unwanted,
    unique_uids, ReconcileAction, ReconcileEvent, ReconciliationServiceImpl, Stage,
};
use crate::services::orchestration::workload_lifecycle_service::RunningWorkload;
use crate::text::views;

verus! {

pub(crate) proof fn lemma_next_pod(
    desired: Seq<Pod>,
    running: Seq<(String, RunningWorkload)>,
    ended: Seq<String>,
    from: int,
)
    requires
        0 <= from,
    ensures
        next_pod(desired, running, ended, from) <= desired.len(),
        from <= desired.len() ==> from <= next_pod(desired, running, ended, from),
        next_pod(desired, running, ended, from) < desired.len() ==> !is_passed_over(
            desired[next_pod(desired, running, ended, from)],
            running,
            ended,
        ),
        forall|j: int|
            from <= j < next_pod(desired, running, ended, from) && j < desired.len()
                ==> is_passed_over(#[trigger] desired[j], running, ended),
    decreases desired.len() - from,
{
    if from < desired.len() && is_passed_over(desired[from], running, ended) {
        lemma_next_pod(desired, running, ended, from + 1);
    }
}

pub(crate) proof fn lemma_next_unwanted(
    running: Seq<(String, RunningWorkload)>,
    desired: Seq<Pod>,
    from: int,
)
    requires
        0 <= from <= running.len(),
    ensures
        from <= next_unwanted(running, desired, from) <= running.len(),
        next_unwanted(running, desired, from) < running.len() ==> !is_desired(
            desired,
            running[next_unwanted(running, desired, from)].0@,
        ),
        forall|j: int|
            from <= j < next_unwanted(running, desired, from) ==> is_desired(
                desired,
                (#[trigger] running[j]).0@,
            ),
    decreases running.len() - from,
{
    if from < running.len() && is_desired(desired, running[from].0@) {
        lemma_next_unwanted(running, desired, from + 1);
    }
}

pub(crate) proof fn lemma_stops_next(
    pre: ReconciliationServiceImpl,
    post: ReconciliationServiceImpl,
    action: ReconcileAction,
)
    requires
        unique_uids(pre.running@),
        pre.stops_next(post, action),
    ensures
        post.wf(),
        action is StopWorkload ==> post.stage is Stopping && !is_desired(
            post.desired@,
            action->StopWorkload_uid@,
        ) && !has_uid(post.running@, action->StopWorkload_uid@) && post.running@.len() + 1
            == pre.running@.len(),
        action is Finished ==> pre.running@.len() == 0 && post.running@.len() == 0,
        action is StopWorkload || action is Finished || (post.stage == Stage::CheckingStatus {
            at: 0,
        } && post.running@ == pre.running@),
        forall|uid: Seq<char>|
            has_uid(pre.running@, uid) && is_desired(post.desired@, uid) ==> #[trigger] has_uid(
                post.running@,
                uid,
            ),
{
    let k = next_unwanted(pre.running@, pre.desired@, 0);
    lemma_next_unwanted(pre.running@, pre.desired@, 0);
    if k < pre.running@.len() {
        let left = pre.running@.remove(k);
        assert forall|i: int| 0 <= i < left.len() implies left[i] == pre.running@[if i < k {
            i
        } else {
            i + 1
        }] by {}
        lemma_remove_keeps_unique(pre.running@, k);
        let gone = pre.running@[k].0@;
        assert(!has_uid(left, gone)) by {
            if has_uid(left, gone) {
                let i = choose|i: int| 0 <= i < left.len() && (#[trigger] left[i]).0@ == gone;
                let a = if i < k { i } else { i + 1 };
                assert(pre.running@[a].0@ == pre.running@[k].0@);
            }
        }
        assert forall|uid: Seq<char>|
            has_uid(pre.running@, uid) && is_desired(post.desired@, uid) implies #[trigger] has_uid(
            post.running@,
            uid,
        ) by {
            let i = choose|i: int|
                0 <= i < pre.running@.len() && (#[trigger] pre.running@[i]).0@ == uid;
            let b = if i < k { i } else { i - 1 };
            assert(i != k);
            assert(left[b] == pre.running@[i]);
        }
    } else {
        assert(all_desired(pre.running@, pre.desired@));
        if pre.running@.len() == 0 {
            assert(post.running@ =~= Seq::empty());
        }
    }
}

proof fn lemma_takes_up(
    pre: ReconciliationServiceImpl,
    from: int,
    post: ReconciliationServiceImpl,
    action: ReconcileAction,
)
    requires
        0 <= from,
        unique_uids(pre.running@),
        pre.takes_up(from, post, action),
    ensures
        post.wf(),
        next_pod(pre.desired@, pre.running@, pre.ended@, from) < pre.desired@.len() || pre.stops_next(
            post,
            action,
        ),
{
    lemma_next_pod(pre.desired@, pre.running@, pre.ended@, from);
    if next_pod(pre.desired@, pre.running@, pre.ended@, from) >= pre.desired@.len() {
        lemma_stops_next(pre, post, action);
    }
}

/// Every step keeps the service well formed.
pub proof fn law_steps_keep_the_service_well_formed(
    pre: ReconciliationServiceImpl,
    event: ReconcileEvent,
    post: ReconciliationServiceImpl,
    action: ReconcileAction,
)
    requires
        pre.wf(),
        pre.steps_to(event, post, action),
    ensures
        post.wf(),
{
    match (pre.stage, event) {
        (Stage::Fetching, ReconcileEvent::PodsFetched(Ok(pods))) => {
            lemma_takes_up(
                ReconciliationServiceImpl { desired: pods, ..pre },
                0,
                post,
                action,
            );
        },
        (Stage::PodReport { pod }, ReconcileEvent::StatusReported(Ok(_))) => {
            lemma_takes_up(pre, pod + 1, post, action);
        },
        (Stage::Noting { pod }, ReconcileEvent::EventRecorded) => {
            lemma_takes_up(pre, pod + 1, post, action);
        },
        (Stage::Stopping, ReconcileEvent::WorkloadStopped) => {
            lemma_stops_next(pre, post, action);
        },
        (Stage::Starting { pod }, ReconcileEvent::WorkloadStarted(Ok(workload))) => {
            lemma_push_keeps_unique(
                pre.running@,
                (pre.desired@[pod as int].metadata.uid->0, workload),
            );
        },
        (Stage::CheckingReport { at }, ReconcileEvent::StatusReported(Ok(_))) => {
            assert(pre.running.len() <= usize::MAX);
            if at + 1 == pre.running@.len() {
                lemma_unfinished(pre.running@, pre.finished@);
            }
        },
        _ => {},
    }
}

/// A step that goes on with the assigned pods or with what runs beside them.
pub(crate) proof fn lemma_going_on(
    pre: ReconciliationServiceImpl,
    event: ReconcileEvent,
    post: ReconciliationServiceImpl,
    action: ReconcileAction,
) -> (r: (ReconciliationServiceImpl, int))
    requires
        pre.wf(),
        pre.steps_to(event, post, action),
    ensures
        r.0.running == pre.running,
        r.0.ended == pre.ended,
        r.0.desired == post.desired,
        pre.stage !is Fetching ==> r.0 == pre,
        0 <= r.1,
        event is PodsFetched && event->PodsFetched_0 is Ok ==> r.1 == 0 && r.0.takes_up(
            0,
            post,
            action,
        ),
        pre.stage matches Stage::PodReport { pod } ==> event->StatusReported_0 is Ok ==> r.1 == pod
            + 1 && r.0.takes_up(pod + 1, post, action),
        pre.stage matches Stage::Noting { pod } ==> r.1 == pod + 1 && r.0.takes_up(
            pod + 1,
            post,
            action,
        ),
        pre.stage is Stopping ==> r.0.stops_next(post, action),
        r.0.takes_up(r.1, post, action) ==> (next_pod(r.0.desired@, r.0.running@, r.0.ended@, r.1)
            < r.0.desired@.len() || r.0.stops_next(post, action)),
        post.desired == r.0.desired,
        unique_uids(r.0.running@),
{
    let start = if event is PodsFetched && event->PodsFetched_0 is Ok {
        ReconciliationServiceImpl { desired: event->PodsFetched_0->Ok_0, ..pre }
    } else {
        pre
    };
    let from = match pre.stage {
        Stage::PodReport { pod } => pod + 1,
        Stage::Noting { pod } => pod + 1,
        _ => 0,
    };
    (start, from)
}

/// A workload is started only for an assigned pod that has none yet and has had none.
pub proof fn law_no_pod_is_started_twice(
    pre: ReconciliationServiceImpl,
    event: ReconcileEvent,
    post: ReconciliationServiceImpl,
    action: ReconcileAction,
)
    requires
        pre.wf(),
        pre.steps_to(event, post, action),
        action is StartWorkload,
    ensures
        action->StartWorkload_pod < post.desired@.len(),
        post.desired@[action->StartWorkload_pod as int].metadata.uid is Some,
        !has_uid(
            post.running@,
            post.desired@[action->StartWorkload_pod as int].metadata.uid->0@,
        ),
        !has_ended(
            post.ended@,
            post.desired@[action->StartWorkload_pod as int].metadata.uid->0@,
        ),
{
    law_steps_keep_the_service_well_formed(pre, event, post, action);
    let (start, from) = lemma_going_on(pre, event, post, action);
    if start.stops_next(post, action) {
        lemma_stops_next(start, post, action);
    }
}

/// A workload is stopped only when its pod is no longer assigned, and it has left the
/// table by then.
pub proof fn law_only_unwanted_workloads_are_stopped(
    pre: ReconciliationServiceImpl,
    event: ReconcileEvent,
    post: ReconciliationServiceImpl,
    action: ReconcileAction,
)
    requires
        pre.wf(),
        pre.steps_to(event, post, action),
        action is StopWorkload,
    ensures
        !is_desired(post.desired@, action->StopWorkload_uid@),
        !has_uid(post.running@, action->StopWorkload_uid@),
{
    let (start, from) = lemma_going_on(pre, event, post, action);
    lemma_stops_next(start, post, action);
}

/// When a pass is over, every workload of the table is for an assigned pod.
pub proof fn law_finished_pass_leaves_assigned_workloads(
    pre: ReconciliationServiceImpl,
    event: ReconcileEvent,
    post: ReconciliationServiceImpl,
    action: ReconcileAction,
)
    requires
        pre.wf(),
        pre.steps_to(event, post, action),
        action is Finished,
    ensures
        post.stage == Stage::Idle,
        all_desired(post.running@, post.desired@),
{
    let (start, from) = lemma_going_on(pre, event, post, action);
    if start.stops_next(post, action) {
        lemma_stops_next(start, post, action);
    } else if pre.stage is CheckingReport {
        lemma_unfinished(pre.running@, pre.finished@);
        assert forall|i: int| 0 <= i < post.running@.len() implies is_desired(
            post.desired@,
            (#[trigger] post.running@[i]).0@,
        ) by {
            let k = choose|k: int|
                0 <= k < pre.running@.len() && !pre.finished@[k] && #[trigger] pre.running@[k]
                    == post.running@[i];
            assert(is_desired(pre.desired@, pre.running@[k].0@));
        }
    }
}

/// When a pass is over, the workloads that were found finished have left the table, and
/// all others are still there.
pub proof fn law_finished_workloads_leave(
    pre: ReconciliationServiceImpl,
    event: ReconcileEvent,
    post: ReconciliationServiceImpl,
    action: ReconcileAction,
    k: int,
)
    requires
        pre.wf(),
        pre.steps_to(event, post, action),
        action is Finished,
        0 <= k < pre.running@.len(),
    ensures
        pre.finished@.len() == pre.running@.len(),
        has_uid(post.running@, pre.running@[k].0@) <==> !pre.finished@[k],
{
    let (start, from) = lemma_going_on(pre, event, post, action);
    if start.stops_next(post, action) {
        lemma_stops_next(start, post, action);
    } else {
        lemma_unfinished(pre.running@, pre.finished@);
        let uid = pre.running@[k].0@;
        if !pre.finished@[k] {
            assert(post.running@.contains(pre.running@[k]));
            let i = choose|i: int| 0 <= i < post.running@.len() && post.running@[i]
                == pre.running@[k];
            assert(post.running@[i].0@ == uid);
        } else if has_uid(post.running@, uid) {
            let i = choose|i: int|
                0 <= i < post.running@.len() && (#[trigger] post.running@[i]).0@ == uid;
            let m = choose|m: int|
                0 <= m < pre.running@.len() && !pre.finished@[m] && #[trigger] pre.running@[m]
                    == post.running@[i];
            assert(m != k);
            if m < k {
                assert(pre.running@[m].0@ != pre.running@[k].0@);
            } else {
                assert(pre.running@[k].0@ != pre.running@[m].0@);
            }
        }
    }
}

/// A pass that is given up leaves the table as it was.
pub proof fn law_failed_pass_keeps_the_table(
    pre: ReconciliationServiceImpl,
    event: ReconcileEvent,
    post: ReconciliationServiceImpl,
    action: ReconcileAction,
)
    requires
        pre.wf(),
        pre.steps_to(event, post, action),
        action is Failed,
    ensures
        post.running@ == pre.running@,
        post.stage == Stage::Idle,
{
    let (start, from) = lemma_going_on(pre, event, post, action);
    if start.stops_next(post, action) {
        lemma_stops_next(start, post, action);
    }
}

/// Until a pass is over, no workload of an assigned pod leaves the table.
pub proof fn law_assigned_workloads_stay(
    pre: ReconciliationServiceImpl,
    event: ReconcileEvent,
    post: ReconciliationServiceImpl,
    action: ReconcileAction,
    uid: Seq<char>,
)
    requires
        pre.wf(),
        pre.steps_to(event, post, action),
        action !is Finished,
        has_uid(pre.running@, uid),
        is_desired(post.desired@, uid),
    ensures
        has_uid(post.running@, uid),
{
    let (start, from) = lemma_going_on(pre, event, post, action);
    if start.stops_next(post, action) {
        lemma_stops_next(start, post, action);
    } else if pre.stage is Starting && event->WorkloadStarted_0 is Ok {
        let i = choose|i: int|
            0 <= i < pre.running@.len() && (#[trigger] pre.running@[i]).0@ == uid;
        assert(post.running@[i] == pre.running@[i]);
    }
}

/// A bound on the number of steps that a pass still takes.
pub open spec fn steps_left(s: ReconciliationServiceImpl) -> int {
    let pods = s.desired@.len() as int;
    let workloads = s.running@.len() as int;
    match s.stage {
        Stage::Idle | Stage::Fetching => 0,
        Stage::PodStatus { pod, at } => 8 * (pods - pod) + 3 * workloads,
        Stage::PodReport { pod } => 8 * (pods - pod) - 1 + 3 * workloads,
        Stage::Preparing { pod } => 8 * (pods - pod) + 3 * workloads,
        Stage::Starting { pod } => 8 * (pods - pod) - 1 + 3 * workloads,
        Stage::Noting { pod } => 8 * (pods - pod) - 5 + 3 * workloads,
        Stage::Stopping => 3 * workloads + 1,
        Stage::CheckingStatus { at } => 3 * (workloads - at),
        Stage::CheckingReport { at } => 3 * (workloads - at) - 1,
    }
}

/// A pass comes to an end: once the assigned pods are known, each step that does not end
/// it brings its end nearer.
pub proof fn law_a_pass_ends(
    pre: ReconciliationServiceImpl,
    event: ReconcileEvent,
    post: ReconciliationServiceImpl,
    action: ReconcileAction,
)
    requires
        pre.wf(),
        pre.steps_to(event, post, action),
    ensures
        action is Finished || action is Failed <==> post.stage is Idle,
        post.stage is Idle || steps_left(post) > 0,
        post.stage !is Idle && pre.stage !is Fetching ==> steps_left(post) < steps_left(pre),
{
    law_steps_keep_the_service_well_formed(pre, event, post, action);
    let (start, from) = lemma_going_on(pre, event, post, action);
    lemma_next_pod(start.desired@, start.running@, start.ended@, from);
    assert(pre.running.len() <= usize::MAX);
    if start.stops_next(post, action) {
        lemma_stops_next(start, post, action);
    }
}

/// The record of a pass: from the state `states[i]`, the event `events[i]` leads to the
/// state `states[i + 1]`, where `actions[i]` is to be done.
pub open spec fn is_pass(
    states: Seq<ReconciliationServiceImpl>,
    events: Seq<ReconcileEvent>,
    actions: Seq<ReconcileAction>,
) -> bool {
    &&& states.len() == events.len() + 1
    &&& states.len() == actions.len() + 1
    &&& states[0].wf()
    &&& states[0].stage == Stage::Fetching
    &&& forall|i: int|
        0 <= i < events.len() ==> (#[trigger] states[i]).steps_to(
            events[i],
            states[i + 1],
            actions[i],
        )
}

/// The pass is at the pod at place `j`: it waits for its status or for its image.
pub open spec fn is_at_pod(s: ReconciliationServiceImpl, j: int) -> bool {
    match s.stage {
        Stage::PodStatus { pod, at } => pod == j,
        Stage::Preparing { pod } => pod == j,
        _ => false,
    }
}

/// The pods before this place were already taken up, if there was something to do.
spec fn frontier(s: ReconciliationServiceImpl) -> int {
    match s.stage {
        Stage::Idle | Stage::Fetching => 0,
        Stage::PodStatus { pod, at } => pod as int,
        Stage::Preparing { pod } => pod as int,
        Stage::PodReport { pod } => pod + 1,
        Stage::Starting { pod } => pod + 1,
        Stage::Noting { pod } => pod + 1,
        Stage::Stopping => s.desired@.len() as int,
        Stage::CheckingStatus { at } => s.desired@.len() as int,
        Stage::CheckingReport { at } => s.desired@.len() as int,
    }
}

/// There is something to do for a pod: it has an identifier, and it runs, or it names an image
/// and has not ended.
pub open spec fn is_runnable(
    pod: Pod,
    running: Seq<(String, RunningWorkload)>,
    ended: Seq<String>,
) -> bool {
    &&& pod.metadata.uid matches Some(uid)
    &&& {
        ||| is_running(pod, running)
        ||| {
            &&& pod.spec matches Some(spec)
            &&& spec.containers@.len() > 0
            &&& spec.containers@[0].image matches Some(image)
            &&& image@.len() > 0
            &&& forall|i: int| 0 <= i < ended.len() ==> (#[trigger] ended[i])@ != uid@
        }
    }
}

/// The pod runs.
pub open spec fn is_running(pod: Pod, running: Seq<(String, RunningWorkload)>) -> bool {
    pod.metadata.uid matches Some(uid) && exists|i: int|
        0 <= i < running.len() && (#[trigger] running[i]).0@ == uid@
}

/// The step learns the status of the pod that it is at, and has it reported.
pub open spec fn reports_pod(
    s: ReconciliationServiceImpl,
    event: ReconcileEvent,
    action: ReconcileAction,
) -> bool {
    &&& s.stage matches Stage::PodStatus { pod, at }
    &&& event matches ReconcileEvent::StatusKnown(Ok(status))
    &&& action == (ReconcileAction::ReportStatus {
        pod_name: s.running@[at as int].1.pod_name,
        namespace: s.running@[at as int].1.namespace,
        status,
    })
}

proof fn lemma_frontier(
    states: Seq<ReconciliationServiceImpl>,
    events: Seq<ReconcileEvent>,
    actions: Seq<ReconcileAction>,
    k: int,
    j: int,
)
    requires
        is_pass(states, events, actions),
        0 <= k < states.len(),
        forall|i: int| 0 <= i < k ==> (#[trigger] actions[i]) !is Finished && actions[i] !is Failed,
        0 <= j,
    ensures
        states[k].wf(),
        k > 0 ==> states[k].desired == states[1].desired,
        states[k].ended == states[0].ended,
        k > 0 ==> states[k].stage !is Fetching && states[k].stage !is Idle,
        k > 0 && j < states[k].desired@.len() && is_running(
            states[k].desired@[j],
            states[0].running@,
        ) ==> is_running(states[k].desired@[j], states[k].running@),
        k > 0 && j < frontier(states[k]) && j < states[k].desired@.len() && is_runnable(
            states[k].desired@[j],
            states[0].running@,
            states[0].ended@,
        ) ==> exists|i: int| 0 <= i < k && is_at_pod(#[trigger] states[i], j),
    decreases k,
{
    if k > 0 {
        let pre = states[k - 1];
        let post = states[k];
        let event = events[k - 1];
        let action = actions[k - 1];
        lemma_frontier(states, events, actions, k - 1, j);
        assert(pre.steps_to(event, post, action));
        law_steps_keep_the_service_well_formed(pre, event, post, action);
        law_a_pass_ends(pre, event, post, action);
        let (start, from) = lemma_going_on(pre, event, post, action);
        lemma_next_pod(start.desired@, start.running@, start.ended@, from);
        if start.stops_next(post, action) {
            lemma_stops_next(start, post, action);
        }
        if j < post.desired@.len() && is_running(post.desired@[j], states[0].running@) {
            let uid = post.desired@[j].metadata.uid->0@;
            assert(is_pod(post.desired@[j], uid));
            law_assigned_workloads_stay(pre, event, post, action, uid);
        }
        if j < frontier(post) && j < post.desired@.len() && is_runnable(
            post.desired@[j],
            states[0].running@,
            states[0].ended@,
        ) {
            if is_at_pod(pre, j) {
                assert(is_at_pod(states[k - 1], j));
            } else if k - 1 > 0 && j < frontier(pre) {
                let i = choose|i: int| 0 <= i < k - 1 && is_at_pod(#[trigger] states[i], j);
                assert(is_at_pod(states[i], j));
            } else {
                assert(!is_passed_over(start.desired@[j], start.running@, start.ended@));
                assert(start.desired == post.desired);
                assert(from <= j < next_pod(start.desired@, start.running@, start.ended@, from));
            }
        }
    }
}

/// In a pass that finishes, every assigned pod that runs, or that names an image and has not
/// ended, has its turn: if it runs, its status is asked for and reported, and if not, its image
/// is prepared.
pub proof fn law_every_assigned_pod_has_its_turn(
    states: Seq<ReconciliationServiceImpl>,
    events: Seq<ReconcileEvent>,
    actions: Seq<ReconcileAction>,
    j: int,
)
    requires
        is_pass(states, events, actions),
        actions.len() > 0,
        actions.last() is Finished,
        forall|i: int|
            0 <= i < actions.len() - 1 ==> (#[trigger] actions[i]) !is Finished && actions[i]
                !is Failed,
        0 <= j < states.last().desired@.len(),
        is_runnable(states.last().desired@[j], states[0].running@, states[0].ended@),
    ensures
        exists|i: int|
            {
                &&& 0 <= i < events.len()
                &&& is_at_pod(#[trigger] states[i], j)
                &&& is_running(states.last().desired@[j], states[0].running@) ==> reports_pod(
                    states[i],
                    events[i],
                    actions[i],
                )
            },
{
    let i = lemma_turn(states, events, actions, j);
    lemma_frontier(states, events, actions, i, j);
    lemma_frontier(states, events, actions, states.len() - 2, j);
    let last = states.len() - 2;
    assert(states[last].steps_to(events[last], states[last + 1], actions[last]));
    assert(states[i].steps_to(events[i], states[i + 1], actions[i]));
    assert(i < actions.len() - 1 ==> actions[i] !is Failed);
}

/// The pod at place `j` has its turn.
proof fn lemma_turn(
    states: Seq<ReconciliationServiceImpl>,
    events: Seq<ReconcileEvent>,
    actions: Seq<ReconcileAction>,
    j: int,
) -> (i: int)
    requires
        is_pass(states, events, actions),
        actions.len() > 0,
        actions.last() is Finished,
        forall|i: int|
            0 <= i < actions.len() - 1 ==> (#[trigger] actions[i]) !is Finished && actions[i]
                !is Failed,
        0 <= j < states.last().desired@.len(),
        is_runnable(states.last().desired@[j], states[0].running@, states[0].ended@),
    ensures
        0 < i < events.len(),
        is_at_pod(states[i], j),
{
    let k = states.len() - 2;
    let pre = states[k];
    let post = states[k + 1];
    lemma_frontier(states, events, actions, k, j);
    assert(pre.steps_to(events[k], post, actions[k]));
    let (start, from) = lemma_going_on(pre, events[k], post, actions[k]);
    lemma_next_pod(start.desired@, start.running@, start.ended@, from);
    if is_at_pod(pre, j) {
        k
    } else if k > 0 && j < frontier(pre) {
        choose|i: int| 0 <= i < k && is_at_pod(#[trigger] states[i], j)
    } else {
        assert(!is_passed_over(start.desired@[j], start.running@, start.ended@));
        k
    }
}

/// The status of the workload at place `at` of the table was asked for and reported before the
/// state `states[n]`, and the mark of the workload says whether it is over.
pub open spec fn was_reported(
    states: Seq<ReconciliationServiceImpl>,
    events: Seq<ReconcileEvent>,
    actions: Seq<ReconcileAction>,
    n: int,
    at: int,
) -> bool {
    exists|i: int| #![trigger states[i]]
        {
            &&& 0 < i && i + 1 < n
            &&& is_asked(states[i], actions[i - 1], at)
            &&& states[i].running@ == states[n].running@
            &&& is_told(states[n], events[i], actions[i], at)
            &&& events[i + 1] matches ReconcileEvent::StatusReported(Ok(_))
        }
}

/// The pass waits for the status of the workload at place `at`, which was asked for.
pub open spec fn is_asked(s: ReconciliationServiceImpl, action: ReconcileAction, at: int) -> bool {
    &&& s.stage == (Stage::CheckingStatus { at: at as usize })
    &&& action == (ReconcileAction::CheckStatus { at: at as usize })
}

/// The status of the workload at place `at` became known and is reported, and the mark of the
/// workload says whether it is over.
pub open spec fn is_told(
    s: ReconciliationServiceImpl,
    event: ReconcileEvent,
    action: ReconcileAction,
    at: int,
) -> bool {
    &&& event matches ReconcileEvent::StatusKnown(Ok(status))
    &&& action == (ReconcileAction::ReportStatus {
        pod_name: s.running@[at].1.pod_name,
        namespace: s.running@[at].1.namespace,
        status,
    })
    &&& s.finished@[at] == is_over(status.phase)
}

proof fn lemma_reported(
    states: Seq<ReconciliationServiceImpl>,
    events: Seq<ReconcileEvent>,
    actions: Seq<ReconcileAction>,
    n: int,
    m: int,
)
    requires
        is_pass(states, events, actions),
        0 <= n < states.len(),
        forall|i: int| 0 <= i < n ==> (#[trigger] actions[i]) !is Finished && actions[i] !is Failed,
        0 <= m,
    ensures
        states[n].wf(),
        states[n].stage matches Stage::CheckingStatus { at } ==> {
            &&& n > 0
            &&& is_asked(states[n], actions[n - 1], at as int)
            &&& m < at ==> was_reported(states, events, actions, n, m)
        },
        states[n].stage matches Stage::CheckingReport { at } ==> {
            &&& n > 1
            &&& is_asked(states[n - 1], actions[n - 2], at as int)
            &&& states[n - 1].running@ == states[n].running@
            &&& is_told(states[n], events[n - 1], actions[n - 1], at as int)
            &&& m < at ==> was_reported(states, events, actions, n, m)
        },
    decreases n,
{
    if n > 0 {
        let pre = states[n - 1];
        let post = states[n];
        let event = events[n - 1];
        let action = actions[n - 1];
        lemma_reported(states, events, actions, n - 1, m);
        assert(pre.steps_to(event, post, action));
        law_steps_keep_the_service_well_formed(pre, event, post, action);
        let (start, from) = lemma_going_on(pre, event, post, action);
        if start.stops_next(post, action) {
            lemma_stops_next(start, post, action);
        }
        lemma_keeps_reported(states, events, actions, n, m);
    }
}

/// What was reported stays so while the workloads are checked.
proof fn lemma_keeps_reported(
    states: Seq<ReconciliationServiceImpl>,
    events: Seq<ReconcileEvent>,
    actions: Seq<ReconcileAction>,
    n: int,
    m: int,
)
    requires
        0 < n < states.len(),
    ensures
        was_reported(states, events, actions, n - 1, m) && states[n].running@
            == states[n - 1].running@ && states[n].finished@[m] == states[n - 1].finished@[m]
            ==> was_reported(states, events, actions, n, m),
{
}

/// In a pass that finishes, the status of every workload that is in the table when it ends,
/// whether it stays or is dropped, was asked for and reported, and the workload is dropped if
/// and only if that status was one that it does not leave.
pub proof fn law_every_workload_is_reported(
    states: Seq<ReconciliationServiceImpl>,
    events: Seq<ReconcileEvent>,
    actions: Seq<ReconcileAction>,
    k: int,
)
    requires
        is_pass(states, events, actions),
        actions.len() > 0,
        actions.last() is Finished,
        forall|i: int|
            0 <= i < actions.len() - 1 ==> (#[trigger] actions[i]) !is Finished && actions[i]
                !is Failed,
        0 <= k < states[states.len() - 2].running@.len(),
    ensures
        exists|i: int| #![trigger states[i]]
            {
                let table = states[states.len() - 2].running@;
                &&& 0 < i && i + 1 < events.len()
                &&& is_asked(states[i], actions[i - 1], k)
                &&& states[i].running@ == table
                &&& events[i] matches ReconcileEvent::StatusKnown(Ok(status))
                &&& actions[i] == (ReconcileAction::ReportStatus {
                    pod_name: table[k].1.pod_name,
                    namespace: table[k].1.namespace,
                    status,
                })
                &&& events[i + 1] matches ReconcileEvent::StatusReported(Ok(_))
                &&& has_uid(states.last().running@, table[k].0@) <==> status.phase
                    != PodPhase::Failed && status.phase != PodPhase::Succeeded
            },
{
    let n = states.len() - 2;
    let pre = states[n];
    lemma_reported(states, events, actions, n, k);
    assert(pre.steps_to(events[n], states[n + 1], actions[n]));
    law_finished_workloads_leave(pre, events[n], states[n + 1], actions[n], k);
    let (start, from) = lemma_going_on(pre, events[n], states[n + 1], actions[n]);
    if start.stops_next(states[n + 1], actions[n]) {
        lemma_stops_next(start, states[n + 1], actions[n]);
    }
}

/// The views of the identifiers say which pods have ended.
proof fn lemma_has_ended(ended: Seq<String>, uid: Seq<char>)
    ensures
        has_ended(ended, uid) <==> views(ended).contains(uid),
{
    if has_ended(ended, uid) {
        let i = choose|i: int| 0 <= i < ended.len() && (#[trigger] ended[i])@ == uid;
        assert(views(ended)[i] == uid);
    }
    if views(ended).contains(uid) {
        let i = choose|i: int| 0 <= i < views(ended).len() && views(ended)[i] == uid;
        assert(ended[i]@ == uid);
    }
}

proof fn lemma_finished_uids(
    running: Seq<(String, RunningWorkload)>,
    finished: Seq<bool>,
    k: int,
)
    requires
        running.len() == finished.len(),
        0 <= k < running.len(),
        finished[k],
    ensures
        finished_uids(running, finished).contains(running[k].0@),
    decreases running.len(),
{
    let n = running.len() - 1;
    let rest = finished_uids(running.drop_last(), finished.take(n));
    let all = finished_uids(running, finished);
    if k < n {
        lemma_finished_uids(running.drop_last(), finished.take(n), k);
        let i = choose|i: int| 0 <= i < rest.len() && rest[i] == running[k].0@;
        assert(all[i] == running[k].0@);
    } else {
        assert(all[all.len() - 1] == running[k].0@);
    }
}

/// A pod that has ended stays ended.
pub proof fn law_ended_pods_stay_ended(
    pre: ReconciliationServiceImpl,
    event: ReconcileEvent,
    post: ReconciliationServiceImpl,
    action: ReconcileAction,
    uid: Seq<char>,
)
    requires
        pre.wf(),
        pre.steps_to(event, post, action),
        has_ended(pre.ended@, uid),
    ensures
        has_ended(post.ended@, uid),
{
    let (start, from) = lemma_going_on(pre, event, post, action);
    lemma_has_ended(pre.ended@, uid);
    lemma_has_ended(post.ended@, uid);
    let i = choose|i: int| 0 <= i < views(pre.ended@).len() && views(pre.ended@)[i] == uid;
    if post.ended != pre.ended {
        assert(views(post.ended@)[i] == uid);
    }
}

/// When a pass is over, it is noted of every workload that was found finished that its pod
/// has ended.
pub proof fn law_finished_pods_have_ended(
    pre: ReconciliationServiceImpl,
    event: ReconcileEvent,
    post: ReconciliationServiceImpl,
    action: ReconcileAction,
    k: int,
)
    requires
        pre.wf(),
        pre.steps_to(event, post, action),
        action is Finished,
        0 <= k < pre.running@.len(),
        pre.finished@[k],
    ensures
        has_ended(post.ended@, pre.running@[k].0@),
{
    let uid = pre.running@[k].0@;
    law_finished_workloads_leave(pre, event, post, action, k);
    let (start, from) = lemma_going_on(pre, event, post, action);
    if start.stops_next(post, action) {
        lemma_stops_next(start, post, action);
    } else {
        lemma_finished_uids(pre.running@, pre.finished@, k);
        lemma_has_ended(post.ended@, uid);
        let old_uids = views(pre.ended@);
        let new_uids = finished_uids(pre.running@, pre.finished@);
        let i = choose|i: int| 0 <= i < new_uids.len() && new_uids[i] == uid;
        assert((old_uids + new_uids)[old_uids.len() + i] == uid);
    }
}

/// A pass begins: nothing changes but the stage.
pub open spec fn begins(
    pre: ReconciliationServiceImpl,
    post: ReconciliationServiceImpl,
    action: ReconcileAction,
) -> bool {
    &&& post == (ReconciliationServiceImpl { stage: Stage::Fetching, ..pre })
    &&& action is FetchAssignedPods
}

/// The record of any number of passes, one after the other: `actions[i]` is what is to be
/// done in the state `states[i + 1]`, which follows `states[i]` by an event or by the begin of
/// a pass.
pub open spec fn is_history(
    states: Seq<ReconciliationServiceImpl>,
    events: Seq<ReconcileEvent>,
    actions: Seq<ReconcileAction>,
) -> bool {
    &&& states.len() == events.len() + 1
    &&& states.len() == actions.len() + 1
    &&& states[0].wf()
    &&& forall|i: int|
        0 <= i < events.len() ==> (#[trigger] states[i]).steps_to(
            events[i],
            states[i + 1],
            actions[i],
        ) || begins(states[i], states[i + 1], actions[i])
}

proof fn lemma_history(
    states: Seq<ReconciliationServiceImpl>,
    events: Seq<ReconcileEvent>,
    actions: Seq<ReconcileAction>,
    i: int,
    j: int,
    uid: Seq<char>,
)
    requires
        is_history(states, events, actions),
        0 <= i <= j < states.len(),
        has_ended(states[i].ended@, uid),
    ensures
        states[j].wf(),
        has_ended(states[j].ended@, uid),
    decreases j,
{
    if j > 0 {
        let pre = states[j - 1];
        let post = states[j];
        if i < j {
            lemma_history(states, events, actions, i, j - 1, uid);
        } else {
            lemma_history_wf(states, events, actions, j - 1);
        }
        if pre.steps_to(events[j - 1], post, actions[j - 1]) {
            law_steps_keep_the_service_well_formed(pre, events[j - 1], post, actions[j - 1]);
            if i < j {
                law_ended_pods_stay_ended(pre, events[j - 1], post, actions[j - 1], uid);
            }
        }
    }
}

proof fn lemma_history_wf(
    states: Seq<ReconciliationServiceImpl>,
    events: Seq<ReconcileEvent>,
    actions: Seq<ReconcileAction>,
    j: int,
)
    requires
        is_history(states, events, actions),
        0 <= j < states.len(),
    ensures
        states[j].wf(),
    decreases j,
{
    if j > 0 {
        lemma_history_wf(states, events, actions, j - 1);
        let pre = states[j - 1];
        if pre.steps_to(events[j - 1], states[j], actions[j - 1]) {
            law_steps_keep_the_service_well_formed(
                pre,
                events[j - 1],
                states[j],
                actions[j - 1],
            );
        }
    }
}

/// Pods run once: in any number of passes, a pod that has ended is not started again.
pub proof fn law_pods_run_once(
    states: Seq<ReconciliationServiceImpl>,
    events: Seq<ReconcileEvent>,
    actions: Seq<ReconcileAction>,
    i: int,
    j: int,
    uid: Seq<char>,
)
    requires
        is_history(states, events, actions),
        0 <= i <= j < actions.len(),
        has_ended(states[i].ended@, uid),
        actions[j] is StartWorkload,
    ensures
        states[j + 1].desired@[actions[j]->StartWorkload_pod as int].metadata.uid is Some,
        states[j + 1].desired@[actions[j]->StartWorkload_pod as int].metadata.uid->0@ != uid,
{
    lemma_history(states, events, actions, i, j, uid);
    let pre = states[j];
    assert(pre.steps_to(events[j], states[j + 1], actions[j]));
    law_no_pod_is_started_twice(pre, events[j], states[j + 1], actions[j]);
    law_ended_pods_stay_ended(pre, events[j], states[j + 1], actions[j], uid);
}

} // verus!
