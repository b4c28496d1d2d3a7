//! Brings the workloads that run into line with the pods that are assigned.
//!
//! One pass is a conversation. The service says what is to be done next
//! ([`ReconcileAction`]), its caller does it and tells what came of it
//! ([`ReconcileEvent`]), until the pass has finished or failed.
use vstd::prelude::*;

use crate::error::DroidError;
use crate::models::{EventType, ImageRef, Pod, PodPhase, PodRunStatus};
use crate::services::orchestration::workload_lifecycle_service::RunningWorkload;
use crate::text::{same, views};

verus! {

/// The time between two passes, in seconds.
pub const RECONCILE_INTERVAL_SECS: u64 = 15;

/// What is to be done next.
#[derive(Debug)]
pub enum ReconcileAction {
    /// Ask the control plane for the pods that are assigned to this node.
    FetchAssignedPods,
    /// Find out how the workload at this place of the table is doing.
    CheckStatus { at: usize },
    /// Tell the control plane how a pod is doing.
    ReportStatus { pod_name: String, namespace: String, status: PodRunStatus },
    /// Make the root file system of an image ready.
    PrepareImage { image: ImageRef },
    /// Start the assigned pod at this place of the list.
    StartWorkload { pod: usize, rootfs: String },
    /// Record an event. Whether that works makes no difference.
    RecordEvent { event_type: EventType, reason: String, message: String, pod_id: Option<String> },
    /// Stop a workload that is no longer in the table. Whether that works makes no
    /// difference.
    StopWorkload { uid: String, workload: RunningWorkload },
    /// The pass is over.
    Finished,
    /// The pass was given up.
    Failed(DroidError),
}

/// What came of an action.
#[derive(Debug)]
pub enum ReconcileEvent {
    PodsFetched(Result<Vec<Pod>, DroidError>),
    StatusKnown(Result<PodRunStatus, DroidError>),
    StatusReported(Result<(), DroidError>),
    ImagePrepared(Result<String, DroidError>),
    WorkloadStarted(Result<RunningWorkload, DroidError>),
    EventRecorded,
    WorkloadStopped,
}

/// Where a pass stands: what it waits for.
#[derive(Debug, Clone, Copy, PartialEq, Eq, Structural)]
pub enum Stage {
    /// No pass is under way.
    Idle,
    /// The assigned pods.
    Fetching,
    /// The status of an assigned pod whose workload is at place `at`.
    PodStatus { pod: usize, at: usize },
    /// The report of that status.
    PodReport { pod: usize },
    /// The image of an assigned pod.
    Preparing { pod: usize },
    /// The start of an assigned pod.
    Starting { pod: usize },
    /// The record of what came of an assigned pod.
    Noting { pod: usize },
    /// The end of a workload that is no longer wanted.
    Stopping,
    /// The status of the workload at place `at`.
    CheckingStatus { at: usize },
    /// The report of that status.
    CheckingReport { at: usize },
}

/// The workloads that run, by the identifiers of their pods.
pub type Table = Vec<(String, RunningWorkload)>;

/// The table has a workload for the pod `uid`.
pub open spec fn has_uid(running: Seq<(String, RunningWorkload)>, uid: Seq<char>) -> bool {
    exists|i: int| 0 <= i < running.len() && (#[trigger] running[i]).0@ == uid
}

/// No two workloads of the table are for the same pod.
pub open spec fn unique_uids(running: Seq<(String, RunningWorkload)>) -> bool {
    forall|i: int, j: int|
        0 <= i < j < running.len() ==> (#[trigger] running[i]).0@ != (#[trigger] running[j]).0@
}

/// The pod has the identifier `uid`.
pub open spec fn is_pod(pod: Pod, uid: Seq<char>) -> bool {
    pod.metadata.uid matches Some(u) && u@ == uid
}

/// A pod with the identifier `uid` is assigned to this node.
pub open spec fn is_desired(desired: Seq<Pod>, uid: Seq<char>) -> bool {
    exists|i: int| 0 <= i < desired.len() && is_pod(#[trigger] desired[i], uid)
}

/// Every workload of the table is for a pod that is assigned to this node.
pub open spec fn all_desired(
    running: Seq<(String, RunningWorkload)>,
    desired: Seq<Pod>,
) -> bool {
    forall|i: int| 0 <= i < running.len() ==> is_desired(desired, (#[trigger] running[i]).0@)
}

/// The image that a pod is to run, empty if it names none.
pub open spec fn image_of(pod: Pod) -> Seq<char> {
    match pod.spec_first_container() {
        Some(c) => match c.image {
            Some(image) => image@,
            None => Seq::empty(),
        },
        None => Seq::empty(),
    }
}

/// The pod `uid` has run and ended.
pub open spec fn has_ended(ended: Seq<String>, uid: Seq<char>) -> bool {
    exists|i: int| 0 <= i < ended.len() && (#[trigger] ended[i])@ == uid
}

/// There is nothing to do for a pod: it has no identifier, or it does not run and either
/// has run already or names no image.
pub open spec fn is_passed_over(
    pod: Pod,
    running: Seq<(String, RunningWorkload)>,
    ended: Seq<String>,
) -> bool {
    match pod.metadata.uid {
        Some(u) => !has_uid(running, u@) && (has_ended(ended, u@) || image_of(pod).len() == 0),
        None => true,
    }
}

/// The first pod, from place `from` on, for which there is something to do.
pub open spec fn next_pod(
    desired: Seq<Pod>,
    running: Seq<(String, RunningWorkload)>,
    ended: Seq<String>,
    from: int,
) -> int
    decreases desired.len() - from,
{
    if from >= desired.len() {
        desired.len() as int
    } else if is_passed_over(desired[from], running, ended) {
        next_pod(desired, running, ended, from + 1)
    } else {
        from
    }
}

/// The first workload, from place `from` on, whose pod is no longer assigned.
pub open spec fn next_unwanted(
    running: Seq<(String, RunningWorkload)>,
    desired: Seq<Pod>,
    from: int,
) -> int
    decreases running.len() - from,
{
    if from >= running.len() {
        running.len() as int
    } else if is_desired(desired, running[from].0@) {
        next_unwanted(running, desired, from + 1)
    } else {
        from
    }
}

/// The workloads that are not marked as finished.
pub open spec fn unfinished(
    running: Seq<(String, RunningWorkload)>,
    finished: Seq<bool>,
) -> Seq<(String, RunningWorkload)>
    decreases running.len(),
{
    if running.len() == 0 {
        Seq::empty()
    } else {
        let rest = unfinished(running.drop_last(), finished.take(running.len() - 1));
        if finished[running.len() - 1] {
            rest
        } else {
            rest.push(running.last())
        }
    }
}

/// The identifiers of the pods whose workloads are marked as finished.
pub open spec fn finished_uids(
    running: Seq<(String, RunningWorkload)>,
    finished: Seq<bool>,
) -> Seq<Seq<char>>
    decreases running.len(),
{
    if running.len() == 0 {
        Seq::empty()
    } else {
        let rest = finished_uids(running.drop_last(), finished.take(running.len() - 1));
        if finished[running.len() - 1] {
            rest.push(running.last().0@)
        } else {
            rest
        }
    }
}

/// A phase that a workload does not leave.
pub open spec fn is_over(phase: PodPhase) -> bool {
    phase == PodPhase::Failed || phase == PodPhase::Succeeded
}

/// Keeps the workloads of this node in line with its assigned pods.
#[derive(Debug)]
pub struct ReconciliationServiceImpl {
    pub node_name: String,
    /// The workloads that run.
    pub running: Table,
    /// The identifiers of the pods that have run and ended. They do not run again.
    pub ended: Vec<String>,
    /// The assigned pods of the pass that is under way.
    pub desired: Vec<Pod>,
    /// For each workload that was checked in this pass, whether it has finished.
    pub finished: Vec<bool>,
    pub stage: Stage,
}

impl ReconciliationServiceImpl {
    /// What holds between two steps.
    pub open spec fn wf(self) -> bool {
        &&& unique_uids(self.running@)
        &&& match self.stage {
            Stage::Idle | Stage::Fetching | Stage::Stopping => true,
            Stage::PodStatus { pod, at } => {
                &&& pod < self.desired@.len()
                &&& at < self.running@.len()
                &&& is_pod(self.desired@[pod as int], self.running@[at as int].0@)
            },
            Stage::PodReport { pod } | Stage::Noting { pod } => pod < self.desired@.len(),
            Stage::Preparing { pod } | Stage::Starting { pod } => {
                &&& pod < self.desired@.len()
                &&& self.desired@[pod as int].metadata.uid matches Some(u)
                &&& !has_uid(self.running@, u@)
                &&& !has_ended(self.ended@, u@)
            },
            Stage::CheckingStatus { at } => {
                &&& at < self.running@.len()
                &&& self.finished@.len() == at
                &&& all_desired(self.running@, self.desired@)
            },
            Stage::CheckingReport { at } => {
                &&& at < self.running@.len()
                &&& self.finished@.len() == at + 1
                &&& all_desired(self.running@, self.desired@)
            },
        }
    }

    /// The event answers the last action.
    pub open spec fn awaits(self, event: ReconcileEvent) -> bool {
        match event {
            ReconcileEvent::PodsFetched(_) => self.stage is Fetching,
            ReconcileEvent::StatusKnown(_) => self.stage is PodStatus || self.stage
                is CheckingStatus,
            ReconcileEvent::StatusReported(_) => self.stage is PodReport || self.stage
                is CheckingReport,
            ReconcileEvent::ImagePrepared(_) => self.stage is Preparing,
            ReconcileEvent::WorkloadStarted(_) => self.stage is Starting,
            ReconcileEvent::EventRecorded => self.stage is Noting,
            ReconcileEvent::WorkloadStopped => self.stage is Stopping,
        }
    }

    /// Only the table, the marks and the stage may differ.
    pub open spec fn same_pass(self, post: Self) -> bool {
        &&& post.node_name == self.node_name
        &&& post.desired == self.desired
        &&& post.ended == self.ended
    }

    /// From `self`, the pass goes on with the workloads from place `at` on, of which
    /// those before are marked in `finished`. When all are checked, the finished ones
    /// leave the table, it is noted that they have ended, and the pass is over.
    pub open spec fn checks_from(
        self,
        at: int,
        finished: Seq<bool>,
        post: Self,
        action: ReconcileAction,
    ) -> bool {
        if at < self.running@.len() {
            &&& self.same_pass(post)
            &&& post.running@ == self.running@
            &&& post.finished@ == finished
            &&& post.stage == (Stage::CheckingStatus { at: at as usize })
            &&& action == (ReconcileAction::CheckStatus { at: at as usize })
        } else {
            &&& post.node_name == self.node_name
            &&& post.desired == self.desired
            &&& post.running@ == unfinished(self.running@, finished)
            &&& views(post.ended@) == views(self.ended@) + finished_uids(self.running@, finished)
            &&& post.stage == Stage::Idle
            &&& action is Finished
        }
    }

    /// From `self`, the pass goes on with the workloads that are no longer wanted: the
    /// first of them leaves the table and is stopped.
    pub open spec fn stops_next(self, post: Self, action: ReconcileAction) -> bool {
        let k = next_unwanted(self.running@, self.desired@, 0);
        if k < self.running@.len() {
            &&& self.same_pass(post)
            &&& post.running@ == self.running@.remove(k)
            &&& post.stage == Stage::Stopping
            &&& action matches ReconcileAction::StopWorkload { uid, workload }
            &&& uid == self.running@[k].0
            &&& workload == self.running@[k].1
        } else {
            self.checks_from(0, Seq::empty(), post, action)
        }
    }

    /// From `self`, the pass goes on with the assigned pods from place `from` on: a pod
    /// that runs is asked for its status, and the image of one that does not is prepared.
    pub open spec fn takes_up(self, from: int, post: Self, action: ReconcileAction) -> bool {
        let p = next_pod(self.desired@, self.running@, self.ended@, from);
        if p < self.desired@.len() {
            &&& self.same_pass(post)
            &&& post.running@ == self.running@
            &&& match post.stage {
                Stage::PodStatus { pod, at } => {
                    &&& pod == p
                    &&& at < self.running@.len()
                    &&& is_pod(self.desired@[p], self.running@[at as int].0@)
                    &&& action == (ReconcileAction::CheckStatus { at })
                },
                Stage::Preparing { pod } => {
                    &&& pod == p
                    &&& self.desired@[p].metadata.uid matches Some(u)
                    &&& !has_uid(self.running@, u@)
                    &&& !has_ended(self.ended@, u@)
                    &&& action matches ReconcileAction::PrepareImage { image }
                    &&& image.refers_to(image_of(self.desired@[p]))
                },
                _ => false,
            }
        } else {
            self.stops_next(post, action)
        }
    }

    /// From `self`, the pass is given up.
    pub open spec fn gives_up(self, e: DroidError, post: Self, action: ReconcileAction) -> bool {
        &&& self.same_pass(post)
        &&& post.running@ == self.running@
        &&& post.stage == Stage::Idle
        &&& action == ReconcileAction::Failed(e)
    }

    /// From `self`, what came of the pod at place `pod` is recorded.
    pub open spec fn notes(
        self,
        pod: usize,
        event_type: EventType,
        reason: Seq<char>,
        message: Seq<char>,
        post: Self,
        action: ReconcileAction,
    ) -> bool {
        &&& self.same_pass(post)
        &&& post.stage == (Stage::Noting { pod })
        &&& action matches ReconcileAction::RecordEvent {
            event_type: t,
            reason: r,
            message: m,
            pod_id,
        }
        &&& t == event_type
        &&& r@ == reason
        &&& m@ == message
        &&& pod_id == self.desired@[pod as int].metadata.uid
    }

    /// From `self`, a status is reported for the workload at place `at`.
    pub open spec fn reports(
        self,
        at: usize,
        status: PodRunStatus,
        post: Self,
        action: ReconcileAction,
    ) -> bool {
        &&& self.same_pass(post)
        &&& post.running@ == self.running@
        &&& action == (ReconcileAction::ReportStatus {
            pod_name: self.running@[at as int].1.pod_name,
            namespace: self.running@[at as int].1.namespace,
            status,
        })
    }

    /// One step of a pass: `event` leads from `self` to `post`, where `action` is to be
    /// done.
    pub open spec fn steps_to(
        self,
        event: ReconcileEvent,
        post: Self,
        action: ReconcileAction,
    ) -> bool {
        match (self.stage, event) {
            (Stage::Fetching, ReconcileEvent::PodsFetched(Ok(pods))) => {
                (ReconciliationServiceImpl { desired: pods, ..self }).takes_up(0, post, action)
            },
            (Stage::Fetching, ReconcileEvent::PodsFetched(Err(e))) => {
                self.gives_up(e, post, action)
            },
            (Stage::PodStatus { pod, at }, ReconcileEvent::StatusKnown(Ok(status))) => {
                &&& self.reports(at, status, post, action)
                &&& post.stage == (Stage::PodReport { pod })
            },
            (Stage::PodStatus { .. }, ReconcileEvent::StatusKnown(Err(e))) => {
                self.gives_up(e, post, action)
            },
            (Stage::PodReport { pod }, ReconcileEvent::StatusReported(Ok(_))) => {
                self.takes_up(pod + 1, post, action)
            },
            (Stage::PodReport { .. }, ReconcileEvent::StatusReported(Err(e))) => {
                self.gives_up(e, post, action)
            },
            (Stage::Preparing { pod }, ReconcileEvent::ImagePrepared(Ok(rootfs))) => {
                &&& self.same_pass(post)
                &&& post.running@ == self.running@
                &&& post.stage == (Stage::Starting { pod })
                &&& action == (ReconcileAction::StartWorkload { pod, rootfs })
            },
            (Stage::Preparing { pod }, ReconcileEvent::ImagePrepared(Err(e))) => {
                &&& self.notes(
                    pod,
                    EventType::Warning,
                    "ImagePullFailed"@,
                    e.text(),
                    post,
                    action,
                )
                &&& post.running@ == self.running@
            },
            (Stage::Starting { pod }, ReconcileEvent::WorkloadStarted(Ok(workload))) => {
                &&& self.notes(
                    pod,
                    EventType::Normal,
                    "Started"@,
                    "workload started successfully"@,
                    post,
                    action,
                )
                &&& post.running@ == self.running@.push(
                    (self.desired@[pod as int].metadata.uid->0, workload),
                )
            },
            (Stage::Starting { pod }, ReconcileEvent::WorkloadStarted(Err(e))) => {
                &&& self.notes(pod, EventType::Warning, "WorkloadFailed"@, e.text(), post, action)
                &&& post.running@ == self.running@
            },
            (Stage::Noting { pod }, ReconcileEvent::EventRecorded) => {
                self.takes_up(pod + 1, post, action)
            },
            (Stage::Stopping, ReconcileEvent::WorkloadStopped) => { self.stops_next(post, action) },
            (Stage::CheckingStatus { at }, ReconcileEvent::StatusKnown(Ok(status))) => {
                &&& self.reports(at, status, post, action)
                &&& post.finished@ == self.finished@.push(is_over(status.phase))
                &&& post.stage == (Stage::CheckingReport { at })
            },
            (Stage::CheckingStatus { .. }, ReconcileEvent::StatusKnown(Err(e))) => {
                self.gives_up(e, post, action)
            },
            (Stage::CheckingReport { at }, ReconcileEvent::StatusReported(Ok(_))) => {
                self.checks_from(at + 1, self.finished@, post, action)
            },
            (Stage::CheckingReport { .. }, ReconcileEvent::StatusReported(Err(e))) => {
                self.gives_up(e, post, action)
            },
            _ => false,
        }
    }

    pub fn new(node_name: String) -> (r: Self)
        ensures
            r.wf(),
            r.node_name == node_name,
            r.running@.len() == 0,
            r.ended@.len() == 0,
            r.stage == Stage::Idle,
    {
        ReconciliationServiceImpl {
            node_name,
            running: Vec::new(),
            ended: Vec::new(),
            desired: Vec::new(),
            finished: Vec::new(),
            stage: Stage::Idle,
        }
    }

    /// Begins a pass.
    pub fn begin(&mut self) -> (action: ReconcileAction)
        requires
            old(self).wf(),
        ensures
            final(self).wf(),
            *final(self) == (ReconciliationServiceImpl { stage: Stage::Fetching, ..*old(self) }),
            action is FetchAssignedPods,
    {
        self.stage = Stage::Fetching;
        ReconcileAction::FetchAssignedPods
    }

    /// Whether an event answers the last action.
    pub fn is_awaiting(&self, event: &ReconcileEvent) -> (r: bool)
        ensures
            r == self.awaits(*event),
    {
        match event {
            ReconcileEvent::PodsFetched(_) => matches!(self.stage, Stage::Fetching),
            ReconcileEvent::StatusKnown(_) => matches!(self.stage, Stage::PodStatus { .. })
                || matches!(self.stage, Stage::CheckingStatus { .. }),
            ReconcileEvent::StatusReported(_) => matches!(self.stage, Stage::PodReport { .. })
                || matches!(self.stage, Stage::CheckingReport { .. }),
            ReconcileEvent::ImagePrepared(_) => matches!(self.stage, Stage::Preparing { .. }),
            ReconcileEvent::WorkloadStarted(_) => matches!(self.stage, Stage::Starting { .. }),
            ReconcileEvent::EventRecorded => matches!(self.stage, Stage::Noting { .. }),
            ReconcileEvent::WorkloadStopped => matches!(self.stage, Stage::Stopping),
        }
    }

    /// The place of the workload for the pod `uid`.
    pub fn find(&self, uid: &str) -> (r: Option<usize>)
        ensures
            match r {
                Some(at) => at < self.running@.len() && self.running@[at as int].0@ == uid@,
                None => !has_uid(self.running@, uid@),
            },
    {
        let mut i: usize = 0;
        while i < self.running.len()
            invariant
                i <= self.running@.len(),
                forall|j: int| 0 <= j < i ==> (#[trigger] self.running@[j]).0@ != uid@,
            decreases self.running.len() - i,
        {
            if same(self.running[i].0.as_str(), uid) {
                return Some(i);
            }
            i = i + 1;
        }
        None
    }

    /// Whether the pod `uid` has run and ended.
    fn ran(&self, uid: &str) -> (r: bool)
        ensures
            r == has_ended(self.ended@, uid@),
    {
        let mut i: usize = 0;
        while i < self.ended.len()
            invariant
                i <= self.ended@.len(),
                forall|j: int| 0 <= j < i ==> (#[trigger] self.ended@[j])@ != uid@,
            decreases self.ended.len() - i,
        {
            if same(self.ended[i].as_str(), uid) {
                return true;
            }
            i = i + 1;
        }
        false
    }

    /// Notes that the workloads that are marked as finished have ended.
    fn note_ended(&mut self)
        requires
            old(self).finished@.len() == old(self).running@.len(),
        ensures
            views(final(self).ended@) == views(old(self).ended@) + finished_uids(
                old(self).running@,
                old(self).finished@,
            ),
            final(self).node_name == old(self).node_name,
            final(self).running == old(self).running,
            final(self).desired == old(self).desired,
            final(self).finished == old(self).finished,
            final(self).stage == old(self).stage,
    {
        let ghost before = views(self.ended@);
        let ghost table = self.running@;
        let ghost marks = self.finished@;
        let mut i: usize = 0;
        assert(before + finished_uids(table.take(0), marks.take(0)) =~= before);
        while i < self.running.len()
            invariant
                i <= table.len(),
                marks.len() == table.len(),
                self.running == old(self).running,
                self.finished == old(self).finished,
                self.node_name == old(self).node_name,
                self.desired == old(self).desired,
                self.stage == old(self).stage,
                table == self.running@,
                marks == self.finished@,
                views(self.ended@) == before + finished_uids(
                    table.take(i as int),
                    marks.take(i as int),
                ),
            decreases table.len() - i,
        {
            let ghost entries = table.take(i + 1);
            let ghost prefix = marks.take(i + 1);
            assert(entries.drop_last() =~= table.take(i as int));
            assert(prefix.take(i as int) =~= marks.take(i as int));
            if self.finished[i] {
                let ghost sofar = self.ended@;
                let uid: String = self.running[i].0.clone();
                self.ended.push(uid);
                assert(views(self.ended@) =~= views(sofar).push(uid@));
                assert(views(self.ended@) =~= before + finished_uids(entries, prefix));
            }
            i = i + 1;
        }
        assert(table.take(table.len() as int) =~= table);
        assert(marks.take(marks.len() as int) =~= marks);
    }

    /// Whether the pod `uid` is assigned to this node.
    fn desires(&self, uid: &str) -> (r: bool)
        ensures
            r == is_desired(self.desired@, uid@),
    {
        let mut i: usize = 0;
        while i < self.desired.len()
            invariant
                i <= self.desired@.len(),
                forall|j: int| 0 <= j < i ==> !is_pod(#[trigger] self.desired@[j], uid@),
            decreases self.desired.len() - i,
        {
            if let Some(u) = &self.desired[i].metadata.uid {
                if same(u.as_str(), uid) {
                    assert(is_pod(self.desired@[i as int], uid@));
                    return true;
                }
            }
            i = i + 1;
        }
        false
    }

    /// Goes on with the workloads from place `at` on.
    fn check_from(&mut self, at: usize) -> (action: ReconcileAction)
        requires
            unique_uids(old(self).running@),
            all_desired(old(self).running@, old(self).desired@),
            at <= old(self).running@.len(),
            old(self).finished@.len() == at,
        ensures
            final(self).wf(),
            old(self).checks_from(at as int, old(self).finished@, *final(self), action),
    {
        if at < self.running.len() {
            self.stage = Stage::CheckingStatus { at };
            ReconcileAction::CheckStatus { at }
        } else {
            self.note_ended();
            let ghost noted = self.ended@;
            let ghost before = self.running@;
            let ghost marks = self.finished@;
            let mut i: usize = self.running.len();
            assert(before.take(i as int) =~= before);
            assert(marks.take(i as int) =~= marks);
            assert(unfinished(before, marks) + before.skip(i as int) =~= unfinished(before, marks));
            // From the end, so that the places before `i` stay as they are.
            while i > 0
                invariant
                    i <= before.len(),
                    i <= self.running@.len(),
                    self.running@.take(i as int) == before.take(i as int),
                    marks == self.finished@,
                    marks.len() == before.len(),
                    self.desired == old(self).desired,
                    self.node_name == old(self).node_name,
                    self.ended@ == noted,
                    unfinished(before.take(i as int), marks.take(i as int)) + self.running@.skip(
                        i as int,
                    ) == unfinished(before, marks),
                decreases i,
            {
                i = i - 1;
                let ghost entries = before.take(i + 1);
                let ghost prefix = marks.take(i + 1);
                let ghost table = self.running@;
                proof {
                    assert(entries.drop_last() =~= before.take(i as int));
                    assert(prefix.take(i as int) =~= marks.take(i as int));
                    assert(table[i as int] == table.take(i + 1)[i as int]);
                    assert(table.take(i as int) =~= table.take(i + 1).take(i as int));
                    assert(before.take(i as int) =~= before.take(i + 1).take(i as int));
                }
                if self.finished[i] {
                    let _ = self.running.remove(i);
                    assert(self.running@.skip(i as int) =~= table.skip(i + 1));
                    assert(self.running@.take(i as int) =~= table.take(i as int));
                } else {
                    assert(unfinished(before.take(i as int), marks.take(i as int)) + table.skip(
                        i as int,
                    ) =~= unfinished(entries, prefix) + table.skip(i + 1));
                }
            }
            assert(unfinished(before.take(0), marks.take(0)) + self.running@.skip(0)
                =~= self.running@);
            self.stage = Stage::Idle;
            proof {
                lemma_unfinished(before, marks);
            }
            ReconcileAction::Finished
        }
    }

    /// Goes on with the workloads that are no longer wanted.
    fn stop_next(&mut self) -> (action: ReconcileAction)
        requires
            unique_uids(old(self).running@),
        ensures
            final(self).wf(),
            old(self).stops_next(*final(self), action),
    {
        let ghost pre = *self;
        let mut i: usize = 0;
        while i < self.running.len()
            invariant
                *self == pre,
                i <= self.running@.len(),
                next_unwanted(pre.running@, pre.desired@, 0) == next_unwanted(
                    pre.running@,
                    pre.desired@,
                    i as int,
                ),
                forall|j: int|
                    0 <= j < i ==> is_desired(pre.desired@, (#[trigger] pre.running@[j]).0@),
            ensures
                i < pre.running@.len() ==> !is_desired(pre.desired@, pre.running@[i as int].0@),
            decreases self.running.len() - i,
        {
            if !self.desires(self.running[i].0.as_str()) {
                break;
            }
            i = i + 1;
        }
        if i < self.running.len() {
            let (uid, workload) = self.running.remove(i);
            self.stage = Stage::Stopping;
            proof {
                lemma_remove_keeps_unique(pre.running@, i as int);
            }
            ReconcileAction::StopWorkload { uid, workload }
        } else {
            self.finished = Vec::new();
            self.check_from(0)
        }
    }

    /// Goes on with the assigned pods from place `from` on.
    fn take_up(&mut self, from: usize) -> (action: ReconcileAction)
        requires
            unique_uids(old(self).running@),
        ensures
            final(self).wf(),
            old(self).takes_up(from as int, *final(self), action),
    {
        let ghost pre = *self;
        let mut i: usize = from;
        while i < self.desired.len()
            invariant
                *self == pre,
                *self == *old(self),
                from <= i,
                unique_uids(pre.running@),
                next_pod(pre.desired@, pre.running@, pre.ended@, from as int) == next_pod(
                    pre.desired@,
                    pre.running@,
                    pre.ended@,
                    i as int,
                ),
            decreases self.desired.len() - i,
        {
            if let Some(uid) = &self.desired[i].metadata.uid {
                if let Some(at) = self.find(uid.as_str()) {
                    self.stage = Stage::PodStatus { pod: i, at };
                    return ReconcileAction::CheckStatus { at };
                }
                if let Some(container) = self.desired[i].first_container() {
                    if let Some(image) = &container.image {
                        if !image.as_str().is_empty() && !self.ran(uid.as_str()) {
                            if let Ok(image_ref) = ImageRef::parse(image.as_str()) {
                                self.stage = Stage::Preparing { pod: i };
                                return ReconcileAction::PrepareImage { image: image_ref };
                            }
                        }
                    }
                }
            }
            assert(is_passed_over(pre.desired@[i as int], pre.running@, pre.ended@));
            i = i + 1;
        }
        self.stop_next()
    }

    /// Takes note of what came of the last action, and says what is to be done next.
    pub fn step(&mut self, event: ReconcileEvent) -> (action: ReconcileAction)
        requires
            old(self).wf(),
            old(self).awaits(event),
        ensures
            final(self).wf(),
            old(self).steps_to(event, *final(self), action),
    {
        match event {
            ReconcileEvent::PodsFetched(Ok(pods)) => {
                self.desired = pods;
                self.take_up(0)
            },
            ReconcileEvent::PodsFetched(Err(e)) => self.give_up(e),
            ReconcileEvent::StatusKnown(Ok(status)) => match self.stage {
                Stage::PodStatus { pod, at } => {
                    self.stage = Stage::PodReport { pod };
                    self.report(at, status)
                },
                Stage::CheckingStatus { at } => {
                    let over = matches!(status.phase, PodPhase::Failed) || matches!(
                        status.phase,
                        PodPhase::Succeeded
                    );
                    self.finished.push(over);
                    self.stage = Stage::CheckingReport { at };
                    self.report(at, status)
                },
                _ => vstd::pervasive::unreached(),
            },
            ReconcileEvent::StatusKnown(Err(e)) => self.give_up(e),
            ReconcileEvent::StatusReported(Ok(_)) => match self.stage {
                Stage::PodReport { pod } => self.take_up_after(pod),
                Stage::CheckingReport { at } => {
                    assert(self.running.len() <= usize::MAX);
                    self.check_from(at + 1)
                },
                _ => vstd::pervasive::unreached(),
            },
            ReconcileEvent::StatusReported(Err(e)) => self.give_up(e),
            ReconcileEvent::ImagePrepared(Ok(rootfs)) => match self.stage {
                Stage::Preparing { pod } => {
                    self.stage = Stage::Starting { pod };
                    ReconcileAction::StartWorkload { pod, rootfs }
                },
                _ => vstd::pervasive::unreached(),
            },
            ReconcileEvent::ImagePrepared(Err(e)) => match self.stage {
                Stage::Preparing { pod } => self.note(
                    pod,
                    EventType::Warning,
                    "ImagePullFailed".to_owned(),
                    e.describe(),
                ),
                _ => vstd::pervasive::unreached(),
            },
            ReconcileEvent::WorkloadStarted(Ok(workload)) => match self.stage {
                Stage::Starting { pod } => {
                    if let Some(uid) = &self.desired[pod].metadata.uid {
                        let ghost before = self.running@;
                        let key: String = uid.clone();
                        self.running.push((key, workload));
                        proof {
                            lemma_push_keeps_unique(before, (key, workload));
                        }
                    }
                    self.note(
                        pod,
                        EventType::Normal,
                        "Started".to_owned(),
                        "workload started successfully".to_owned(),
                    )
                },
                _ => vstd::pervasive::unreached(),
            },
            ReconcileEvent::WorkloadStarted(Err(e)) => match self.stage {
                Stage::Starting { pod } => self.note(
                    pod,
                    EventType::Warning,
                    "WorkloadFailed".to_owned(),
                    e.describe(),
                ),
                _ => vstd::pervasive::unreached(),
            },
            ReconcileEvent::EventRecorded => match self.stage {
                Stage::Noting { pod } => self.take_up_after(pod),
                _ => vstd::pervasive::unreached(),
            },
            ReconcileEvent::WorkloadStopped => self.stop_next(),
        }
    }

    /// Goes on with the assigned pods behind place `pod`.
    fn take_up_after(&mut self, pod: usize) -> (action: ReconcileAction)
        requires
            unique_uids(old(self).running@),
            pod < old(self).desired@.len(),
        ensures
            final(self).wf(),
            old(self).takes_up(pod + 1, *final(self), action),
    {
        assert(self.desired.len() <= usize::MAX);
        self.take_up(pod + 1)
    }

    /// Gives the pass up.
    fn give_up(&mut self, e: DroidError) -> (action: ReconcileAction)
        requires
            unique_uids(old(self).running@),
        ensures
            final(self).wf(),
            old(self).gives_up(e, *final(self), action),
    {
        self.stage = Stage::Idle;
        ReconcileAction::Failed(e)
    }

    /// Has a status reported for the workload at place `at`.
    fn report(&mut self, at: usize, status: PodRunStatus) -> (action: ReconcileAction)
        requires
            at < old(self).running@.len(),
        ensures
            *final(self) == *old(self),
            old(self).reports(at, status, *final(self), action),
    {
        ReconcileAction::ReportStatus {
            pod_name: self.running[at].1.pod_name.clone(),
            namespace: self.running[at].1.namespace.clone(),
            status,
        }
    }

    /// Has it recorded what came of the pod at place `pod`.
    fn note(&mut self, pod: usize, event_type: EventType, reason: String, message: String) -> (action:
        ReconcileAction)
        requires
            pod < old(self).desired@.len(),
            unique_uids(old(self).running@),
        ensures
            final(self).wf(),
            final(self).running == old(self).running,
            old(self).notes(pod, event_type, reason@, message@, *final(self), action),
    {
        self.stage = Stage::Noting { pod };
        let pod_id: Option<String> = match &self.desired[pod].metadata.uid {
            Some(uid) => Some(uid.clone()),
            None => None,
        };
        ReconcileAction::RecordEvent { event_type, reason, message, pod_id }
    }
}

/// A table that loses a workload still has one for each pod at most.
pub proof fn lemma_remove_keeps_unique(running: Seq<(String, RunningWorkload)>, k: int)
    requires
        unique_uids(running),
        0 <= k < running.len(),
    ensures
        unique_uids(running.remove(k)),
{
    let left = running.remove(k);
    assert forall|i: int, j: int| 0 <= i < j < left.len() implies (#[trigger] left[i]).0@ != (
    #[trigger] left[j]).0@ by {
        let a = if i < k { i } else { i + 1 };
        let b = if j < k { j } else { j + 1 };
        assert(left[i] == running[a]);
        assert(left[j] == running[b]);
    }
}

/// A table that gains a workload of a new pod still has one for each pod at most.
pub proof fn lemma_push_keeps_unique(
    running: Seq<(String, RunningWorkload)>,
    entry: (String, RunningWorkload),
)
    requires
        unique_uids(running),
        !has_uid(running, entry.0@),
    ensures
        unique_uids(running.push(entry)),
{
    let all = running.push(entry);
    assert forall|i: int, j: int| 0 <= i < j < all.len() implies (#[trigger] all[i]).0@ != (
    #[trigger] all[j]).0@ by {
        assert(all[i] == running[i]);
        if j < running.len() {
            assert(all[j] == running[j]);
        }
    }
}

/// What is left when the finished workloads leave: those not marked, in their order.
pub proof fn lemma_unfinished(running: Seq<(String, RunningWorkload)>, finished: Seq<bool>)
    requires
        running.len() == finished.len(),
    ensures
        unfinished(running, finished).len() <= running.len(),
        unique_uids(running) ==> unique_uids(unfinished(running, finished)),
        forall|i: int|
            0 <= i < unfinished(running, finished).len() ==> exists|k: int|
                0 <= k < running.len() && !finished[k] && #[trigger] running[k]
                    == #[trigger] unfinished(running, finished)[i],
        forall|k: int|
            0 <= k < running.len() && !finished[k] ==> unfinished(running, finished).contains(
                #[trigger] running[k],
            ),
    decreases running.len(),
{
    if running.len() > 0 {
        let n = running.len() - 1;
        let r = running.drop_last();
        let f = finished.take(n);
        lemma_unfinished(r, f);
        let rest = unfinished(r, f);
        let all = unfinished(running, finished);
        assert forall|i: int| 0 <= i < all.len() implies exists|k: int|
            0 <= k < running.len() && !finished[k] && #[trigger] running[k] == #[trigger] all[i] by {
            if i < rest.len() {
                assert(all[i] == rest[i]);
                let k = choose|k: int| 0 <= k < r.len() && !f[k] && r[k] == rest[i];
                assert(!finished[k] && running[k] == all[i]);
            } else {
                assert(!finished[n] && running[n] == all[i]);
            }
        }
        assert forall|k: int| 0 <= k < running.len() && !finished[k] implies all.contains(
            #[trigger] running[k],
        ) by {
            if k < n {
                assert(!f[k] && r[k] == running[k]);
                let i = choose|i: int| 0 <= i < rest.len() && rest[i] == r[k];
                assert(all[i] == running[k]);
            } else {
                assert(all[all.len() - 1] == running[k]);
            }
        }
        if unique_uids(running) {
            assert(unique_uids(r)) by {
                assert forall|i: int, j: int| 0 <= i < j < r.len() implies (#[trigger] r[i]).0@ != (
                #[trigger] r[j]).0@ by {
                    assert(r[i] == running[i] && r[j] == running[j]);
                }
            }
            assert forall|i: int, j: int| 0 <= i < j < all.len() implies (#[trigger] all[i]).0@ != (
            #[trigger] all[j]).0@ by {
                assert(all[i] == rest[i]);
                if j < rest.len() {
                    assert(all[j] == rest[j]);
                } else {
                    let k = choose|k: int| 0 <= k < r.len() && !f[k] && r[k] == rest[i];
                    assert(running[k] == all[i] && running[n] == all[j]);
                }
            }
        }
    }
}

} // verus!
