//! Workloads: how they start, how they are doing, and how they end.
use vstd::prelude::*;

use crate::error::DroidError;
use crate::models::{ContainerRunStatus, Pod, PodPhase, PodRunStatus};
use crate::text::cat2;

verus! {

/// A workload that was started.
#[derive(Debug, Clone)]
pub struct RunningWorkload {
    pub pod_uid: String,
    pub pod_name: String,
    pub namespace: String,
    pub container_name: String,
    pub rootfs: String,
}

/// What is known of the process of a workload.
#[derive(Debug)]
pub enum ProcessState {
    /// It runs.
    Running,
    /// It has ended, with a code if it was not killed.
    Exited { success: bool, code: Option<i32> },
    /// It could not be asked.
    Unknown,
}

/// A text, or `default` where there is none.
pub open spec fn text_or(text: Option<String>, default: Seq<char>) -> Seq<char> {
    match text {
        Some(t) => t@,
        None => default,
    }
}

fn clone_or(text: &Option<String>, default: &str) -> (r: String)
    ensures
        r@ == text_or(*text, default@),
{
    match text {
        Some(t) => t.clone(),
        None => default.to_owned(),
    }
}

impl RunningWorkload {
    /// The workload is one of `pod`, in the root file system `rootfs`.
    pub open spec fn is_of(self, pod: Pod, rootfs: Seq<char>) -> bool {
        &&& self.pod_uid@ == text_or(pod.metadata.uid, ""@)
        &&& self.pod_name@ == text_or(pod.metadata.name, ""@)
        &&& self.namespace@ == text_or(pod.metadata.namespace, "default"@)
        &&& self.container_name@ == match pod.spec_first_container() {
            Some(c) => c.name@,
            None => "container"@,
        }
        &&& self.rootfs@ == rootfs
    }

    /// The name under which the lines that the workload writes are kept: that of its pod, by
    /// which logs are asked for.
    pub fn log_key(&self) -> (r: &str)
        ensures
            r@ == self.pod_name@,
    {
        self.pod_name.as_str()
    }
}

/// Starts and stops workloads, and tells how they are doing.
#[derive(Debug, Clone, Copy)]
pub struct WorkloadLifecycleServiceImpl {}

impl WorkloadLifecycleServiceImpl {
    pub fn new() -> (r: Self)
        ensures
            r == (WorkloadLifecycleServiceImpl {  }),
    {
        WorkloadLifecycleServiceImpl {  }
    }

    /// The workload of a pod. It is started where its process could be.
    pub fn start(&self, pod: &Pod, rootfs: &str, process: Result<(), DroidError>) -> (r: Result<
        RunningWorkload,
        DroidError,
    >)
        ensures
            match process {
                Ok(_) => r matches Ok(workload) && workload.is_of(*pod, rootfs@),
                Err(e) => r == Err::<RunningWorkload, DroidError>(e),
            },
    {
        match process {
            Ok(_) => {
                let container_name: String = match pod.first_container() {
                    Some(c) => c.name.clone(),
                    None => "container".to_owned(),
                };
                Ok(
                    RunningWorkload {
                        pod_uid: clone_or(&pod.metadata.uid, ""),
                        pod_name: clone_or(&pod.metadata.name, ""),
                        namespace: clone_or(&pod.metadata.namespace, "default"),
                        container_name,
                        rootfs: rootfs.to_owned(),
                    },
                )
            },
            Err(e) => Err(e),
        }
    }

    /// What came of killing the process of a workload.
    pub fn stop(&self, killed: Result<(), String>) -> (r: Result<(), DroidError>)
        ensures
            match killed {
                Ok(_) => r is Ok,
                Err(text) => r matches Err(DroidError::Process(m)) && m@ == "kill failed: "@
                    + text@,
            },
    {
        match killed {
            Ok(_) => Ok(()),
            Err(text) => Err(DroidError::Process(cat2("kill failed: ", text.as_str()))),
        }
    }

    /// How a workload is doing.
    pub fn status(&self, workload: &RunningWorkload, process: ProcessState) -> (r: Result<
        PodRunStatus,
        DroidError,
    >)
        ensures
            r is Ok,
            is_status_of(*workload, process, r->Ok_0),
    {
        let (phase, exit_code, running) = match process {
            ProcessState::Exited { success, code } => {
                let phase = if success {
                    PodPhase::Succeeded
                } else {
                    PodPhase::Failed
                };
                (phase, code, false)
            },
            ProcessState::Running => (PodPhase::Running, None, true),
            ProcessState::Unknown => (PodPhase::Unknown, None, false),
        };
        let mut containers: Vec<ContainerRunStatus> = Vec::new();
        containers.push(
            ContainerRunStatus {
                name: workload.container_name.clone(),
                ready: running,
                running,
                exit_code,
            },
        );
        Ok(
            PodRunStatus {
                pod_uid: workload.pod_uid.clone(),
                pod_name: workload.pod_name.clone(),
                namespace: workload.namespace.clone(),
                phase,
                message: None,
                containers,
            },
        )
    }
}

/// The status is that of a workload whose process is in the state `process`.
pub open spec fn is_status_of(
    workload: RunningWorkload,
    process: ProcessState,
    status: PodRunStatus,
) -> bool {
    &&& status.pod_uid == workload.pod_uid
    &&& status.pod_name == workload.pod_name
    &&& status.namespace == workload.namespace
    &&& status.message is None
    &&& status.phase == match process {
        ProcessState::Running => PodPhase::Running,
        ProcessState::Exited { success, .. } => if success {
            PodPhase::Succeeded
        } else {
            PodPhase::Failed
        },
        ProcessState::Unknown => PodPhase::Unknown,
    }
    &&& status.containers@.len() == 1
    &&& status.containers@[0].name == workload.container_name
    &&& status.containers@[0].ready == (process is Running)
    &&& status.containers@[0].running == (process is Running)
    &&& status.containers@[0].exit_code == match process {
        ProcessState::Exited { code, .. } => code,
        _ => None,
    }
}

// ---------------------------------------------------------------------------

/// A pod is reported as running just when its process runs, and as ended just when its
/// process has ended.
pub proof fn law_phases_tell_of_processes(
    workload: RunningWorkload,
    process: ProcessState,
    status: PodRunStatus,
)
    requires
        is_status_of(workload, process, status),
    ensures
        status.phase == PodPhase::Running <==> process is Running,
        (status.phase == PodPhase::Succeeded || status.phase == PodPhase::Failed)
            <==> process is Exited,
        status.containers@[0].running <==> status.phase == PodPhase::Running,
        status.phase != PodPhase::Pending,
{
}

/// The workload that was started for a pod goes by the identifier, the name and the namespace of
/// the pod and by the name of its first container, and runs where it was told to. Where the
/// process could not be started there is no workload.
pub proof fn law_workloads_go_by_their_pods(
    service: &WorkloadLifecycleServiceImpl,
    pod: &Pod,
    rootfs: &str,
    process: Result<(), DroidError>,
    r: Result<RunningWorkload, DroidError>,
)
    requires
        call_ensures(WorkloadLifecycleServiceImpl::start, (service, pod, rootfs, process), r),
    ensures
        process matches Err(e) ==> r == Err::<RunningWorkload, DroidError>(e),
        process is Ok ==> r is Ok,
        r matches Ok(workload) ==> {
            &&& workload.rootfs@ == rootfs@
            &&& pod.metadata.uid matches Some(uid) ==> workload.pod_uid@ == uid@
            &&& pod.metadata.uid is None ==> workload.pod_uid@.len() == 0
            &&& pod.metadata.name matches Some(name) ==> workload.pod_name@ == name@
            &&& pod.metadata.name is None ==> workload.pod_name@.len() == 0
            &&& pod.metadata.namespace matches Some(ns) ==> workload.namespace@ == ns@
            &&& pod.metadata.namespace is None ==> workload.namespace@ == "default"@
            &&& pod.spec is Some && pod.spec->0.containers@.len() > 0 ==> workload.container_name@
                == pod.spec->0.containers@[0].name@
            &&& pod.spec is None || pod.spec->0.containers@.len() == 0
                ==> workload.container_name@ == "container"@
        },
{
    reveal_strlit("");
}

/// The status of a workload is that of its pod: it runs while its process runs, has succeeded or
/// failed as its process has, and tells the code that the process has ended with.
pub proof fn law_statuses_tell_of_their_workloads(
    service: &WorkloadLifecycleServiceImpl,
    workload: &RunningWorkload,
    process: ProcessState,
    r: Result<PodRunStatus, DroidError>,
)
    requires
        call_ensures(WorkloadLifecycleServiceImpl::status, (service, workload, process), r),
    ensures
        r is Ok,
        r->Ok_0.pod_uid@ == workload.pod_uid@,
        r->Ok_0.pod_name@ == workload.pod_name@,
        r->Ok_0.namespace@ == workload.namespace@,
        r->Ok_0.message is None,
        r->Ok_0.containers@.len() == 1,
        r->Ok_0.containers@[0].name@ == workload.container_name@,
        match process {
            ProcessState::Running => {
                &&& r->Ok_0.phase == PodPhase::Running
                &&& r->Ok_0.containers@[0].running
                &&& r->Ok_0.containers@[0].ready
                &&& r->Ok_0.containers@[0].exit_code is None
            },
            ProcessState::Exited { success, code } => {
                &&& success ==> r->Ok_0.phase == PodPhase::Succeeded
                &&& !success ==> r->Ok_0.phase == PodPhase::Failed
                &&& !r->Ok_0.containers@[0].running
                &&& !r->Ok_0.containers@[0].ready
                &&& r->Ok_0.containers@[0].exit_code == code
            },
            ProcessState::Unknown => {
                &&& r->Ok_0.phase == PodPhase::Unknown
                &&& !r->Ok_0.containers@[0].running
                &&& !r->Ok_0.containers@[0].ready
                &&& r->Ok_0.containers@[0].exit_code is None
            },
        },
{
}

/// Stopping a workload works just when its process could be killed.
pub proof fn law_stopping_is_killing(
    service: &WorkloadLifecycleServiceImpl,
    killed: Result<(), String>,
    r: Result<(), DroidError>,
)
    requires
        call_ensures(WorkloadLifecycleServiceImpl::stop, (service, killed), r),
    ensures
        r is Ok <==> killed is Ok,
        killed matches Err(reason) ==> (r matches Err(DroidError::Process(m)) && m@
            == "kill failed: "@ + reason@),
{
}

/// The lines that a workload writes are kept under the name of its pod.
pub proof fn law_logs_go_by_the_name_of_the_pod(workload: &RunningWorkload, key: &str)
    requires
        call_ensures(RunningWorkload::log_key, (workload,), key),
    ensures
        key@ == workload.pod_name@,
{
}

} // verus!
