//! What the agent tells the control plane of its cluster, and asks of it.
//!
//! The objects here hold what is sent. Their callers write them in the form that the
//! interface of the control plane wants, and send them.
use vstd::prelude::*;

use crate::error::DroidError;
use crate::models::{
    ContainerRunStatus, EventType, NodeEvent, NodeProfile, NodeStatus, PodRunStatus,
};
use crate::text::{cat2, decimal, show};

verus! {

/// The name under which the agent changes objects and reports events.
pub const FIELD_MANAGER: &'static str = "droidnode";

/// The namespace that events of nodes belong to.
pub const EVENT_NAMESPACE: &'static str = "default";

/// The status with which the control plane refuses an object that is there already.
pub const CONFLICT: u16 = 409;

/// A node, as it is registered.
#[derive(Debug)]
pub struct NodeObject {
    pub name: String,
    pub labels: Vec<(String, String)>,
}

impl NodeObject {
    /// The label at position `i` is `key` with `value`.
    pub open spec fn has_label(self, i: int, key: Seq<char>, value: Seq<char>) -> bool {
        &&& 0 <= i < self.labels@.len()
        &&& self.labels@[i].0@ == key
        &&& self.labels@[i].1@ == value
    }
}

/// A condition of a node.
#[derive(Debug)]
pub struct Condition {
    pub condition_type: &'static str,
    pub status: &'static str,
    pub reason: &'static str,
    pub message: Option<&'static str>,
}

/// A truth value as conditions write it.
pub open spec fn truth(b: bool) -> Seq<char> {
    if b {
        "True"@
    } else {
        "False"@
    }
}

impl Condition {
    pub open spec fn says(
        self,
        condition_type: Seq<char>,
        holds: bool,
        reason: Seq<char>,
        message: Option<Seq<char>>,
    ) -> bool {
        &&& self.condition_type@ == condition_type
        &&& self.status@ == truth(holds)
        &&& self.reason@ == reason
        &&& match self.message {
            Some(m) => message == Some(m@),
            None => message is None,
        }
    }
}

/// The part of a node's status that a heartbeat changes.
#[derive(Debug)]
pub struct NodeStatusPatch {
    pub conditions: Vec<Condition>,
    pub allocatable_cpu: String,
    pub allocatable_memory: String,
    pub capacity_memory: String,
}

/// An amount of memory, in whole kibibytes.
pub open spec fn kibibytes(bytes: u64) -> Seq<char> {
    decimal((bytes / 1024) as nat) + "Ki"@
}

impl NodeStatusPatch {
    /// The patch says that the node is in the state `status`.
    pub open spec fn reports(self, status: NodeStatus) -> bool {
        &&& self.conditions@.len() == 3
        &&& self.conditions@[0].says(
            "Ready"@,
            status.conditions.ready,
            "DroidNodeReady"@,
            Some("droidnode agent is running"@),
        )
        &&& self.conditions@[1].says(
            "MemoryPressure"@,
            status.conditions.memory_pressure,
            "DroidNodeMemory"@,
            None,
        )
        &&& self.conditions@[2].says(
            "NetworkUnavailable"@,
            !status.conditions.network_available,
            "DroidNodeNetwork"@,
            None,
        )
        &&& self.allocatable_cpu@ == decimal(0)
        &&& self.allocatable_memory@ == kibibytes(status.memory.available_bytes)
        &&& self.capacity_memory@ == kibibytes(status.memory.total_bytes)
    }
}

/// The state of a container.
#[derive(Debug, Clone, Copy, PartialEq, Eq, Structural)]
pub enum ContainerState {
    /// It runs, since a time that is not told.
    Running,
    Terminated { exit_code: i32 },
}

/// The status of a container, as it is reported.
#[derive(Debug)]
pub struct ContainerStatusPatch {
    pub name: String,
    pub ready: bool,
    pub state: ContainerState,
}

impl ContainerStatusPatch {
    /// The patch says that the container is in the state `c`. A container that stopped
    /// without an exit code is reported with 0.
    pub open spec fn reports(self, c: ContainerRunStatus) -> bool {
        &&& self.name@ == c.name@
        &&& self.ready == c.ready
        &&& self.state == (if c.running {
            ContainerState::Running
        } else {
            ContainerState::Terminated {
                exit_code: match c.exit_code {
                    Some(code) => code,
                    None => 0,
                },
            }
        })
    }
}

/// The part of a pod's status that the agent changes.
#[derive(Debug)]
pub struct PodStatusPatch {
    pub phase: &'static str,
    pub message: Option<String>,
    pub container_statuses: Vec<ContainerStatusPatch>,
}

impl PodStatusPatch {
    /// The patch says that the pod is in the state `s`.
    pub open spec fn reports(self, s: PodRunStatus) -> bool {
        &&& self.phase@ == s.phase.text()
        &&& self.message == s.message
        &&& self.container_statuses@.len() == s.containers@.len()
        &&& forall|i: int|
            0 <= i < s.containers@.len() ==> (#[trigger] self.container_statuses@[i]).reports(
                s.containers@[i],
            )
    }
}

/// An event, as it is recorded. The time is added where it is sent.
#[derive(Debug)]
pub struct EventObject {
    pub generate_name: String,
    pub namespace: &'static str,
    pub action: String,
    pub reason: String,
    pub message: String,
    pub event_type: &'static str,
    pub reporting_component: &'static str,
    pub reporting_instance: String,
}

/// How the control plane answered the request to create an object.
#[derive(Debug)]
pub enum CreateOutcome {
    Created,
    /// It refused with a status code.
    Refused { code: u16, message: String },
    /// There was no answer that could be read.
    Failed(String),
}

/// Speaks to the control plane for one node.
#[derive(Debug)]
pub struct ControlPlaneBrokerImpl {
    pub node_name: String,
}

fn truth_text(b: bool) -> (r: &'static str)
    ensures
        r@ == truth(b),
{
    if b {
        "True"
    } else {
        "False"
    }
}

fn kibibytes_text(bytes: u64) -> (r: String)
    ensures
        r@ == kibibytes(bytes),
{
    cat2(show(bytes / 1024).as_str(), "Ki")
}

impl ControlPlaneBrokerImpl {
    pub fn new(node_name: String) -> (r: Self)
        ensures
            r.node_name == node_name,
    {
        ControlPlaneBrokerImpl { node_name }
    }

    /// The node that is registered for a profile.
    pub fn build_node_object(&self, profile: &NodeProfile) -> (r: NodeObject)
        ensures
            r.name == self.node_name,
            r.labels@.len() == 4,
            r.has_label(0, "kubernetes.io/hostname"@, self.node_name@),
            r.has_label(1, "kubernetes.io/arch"@, profile.cpu.arch@),
            r.has_label(2, "kubernetes.io/os"@, "linux"@),
            r.has_label(3, "droidnode/managed"@, "true"@),
    {
        let mut labels: Vec<(String, String)> = Vec::new();
        labels.push(("kubernetes.io/hostname".to_owned(), self.node_name.clone()));
        labels.push(("kubernetes.io/arch".to_owned(), profile.cpu.arch.clone()));
        labels.push(("kubernetes.io/os".to_owned(), "linux".to_owned()));
        labels.push(("droidnode/managed".to_owned(), "true".to_owned()));
        NodeObject { name: self.node_name.clone(), labels }
    }

    /// What follows the request to create the node: where the node was created, or was
    /// there already, its full status is sent at once.
    pub fn register_node(&self, profile: &NodeProfile, created: CreateOutcome) -> (r: Result<
        NodeStatusPatch,
        DroidError,
    >)
        ensures
            match created {
                CreateOutcome::Created => r is Ok,
                CreateOutcome::Refused { code, message } => if code == CONFLICT {
                    r is Ok
                } else {
                    r == Err::<NodeStatusPatch, DroidError>(DroidError::KubeApi(message))
                },
                CreateOutcome::Failed(message) => r == Err::<NodeStatusPatch, DroidError>(
                    DroidError::KubeApi(message),
                ),
            },
            r matches Ok(patch) ==> forall|s: NodeStatus|
                profile.has_status(s) ==> #[trigger] patch.reports(s),
    {
        match created {
            CreateOutcome::Created => {},
            CreateOutcome::Refused { code, message } => {
                if code != CONFLICT {
                    return Err(DroidError::KubeApi(message));
                }
            },
            CreateOutcome::Failed(message) => {
                return Err(DroidError::KubeApi(message));
            },
        }
        Ok(self.send_heartbeat(&profile.status()))
    }

    /// The heartbeat that reports a status.
    pub fn send_heartbeat(&self, status: &NodeStatus) -> (r: NodeStatusPatch)
        ensures
            r.reports(*status),
    {
        let mut conditions: Vec<Condition> = Vec::new();
        conditions.push(
            Condition {
                condition_type: "Ready",
                status: truth_text(status.conditions.ready),
                reason: "DroidNodeReady",
                message: Some("droidnode agent is running"),
            },
        );
        conditions.push(
            Condition {
                condition_type: "MemoryPressure",
                status: truth_text(status.conditions.memory_pressure),
                reason: "DroidNodeMemory",
                message: None,
            },
        );
        conditions.push(
            Condition {
                condition_type: "NetworkUnavailable",
                status: truth_text(!status.conditions.network_available),
                reason: "DroidNodeNetwork",
                message: None,
            },
        );
        NodeStatusPatch {
            conditions,
            allocatable_cpu: show(0),
            allocatable_memory: kibibytes_text(status.memory.available_bytes),
            capacity_memory: kibibytes_text(status.memory.total_bytes),
        }
    }

    /// The selector of the pods that are assigned to the node.
    pub fn get_assigned_pods(&self) -> (r: String)
        ensures
            r@ == "spec.nodeName="@ + self.node_name@,
    {
        cat2("spec.nodeName=", self.node_name.as_str())
    }

    /// The report of a pod's status.
    pub fn report_pod_status(&self, status: &PodRunStatus) -> (r: PodStatusPatch)
        ensures
            r.reports(*status),
    {
        let mut container_statuses: Vec<ContainerStatusPatch> = Vec::new();
        let mut i: usize = 0;
        while i < status.containers.len()
            invariant
                i <= status.containers@.len(),
                container_statuses@.len() == i,
                forall|j: int|
                    0 <= j < i ==> (#[trigger] container_statuses@[j]).reports(
                        status.containers@[j],
                    ),
            decreases status.containers.len() - i,
        {
            let c = &status.containers[i];
            let state = if c.running {
                ContainerState::Running
            } else {
                ContainerState::Terminated {
                    exit_code: match c.exit_code {
                        Some(code) => code,
                        None => 0,
                    },
                }
            };
            container_statuses.push(
                ContainerStatusPatch { name: c.name.clone(), ready: c.ready, state },
            );
            i = i + 1;
        }
        PodStatusPatch {
            phase: status.phase.as_str(),
            message: status.message.clone(),
            container_statuses,
        }
    }

    /// The event that is recorded for something that happened.
    pub fn record_event(&self, event: &NodeEvent) -> (r: EventObject)
        ensures
            r.generate_name@ == self.node_name@ + "-"@,
            r.namespace@ == EVENT_NAMESPACE@,
            r.action == event.reason,
            r.reason == event.reason,
            r.message == event.message,
            r.event_type@ == (match event.event_type {
                EventType::Normal => "Normal"@,
                EventType::Warning => "Warning"@,
            }),
            r.reporting_component@ == "droidnode"@,
            r.reporting_instance == self.node_name,
    {
        EventObject {
            generate_name: cat2(self.node_name.as_str(), "-"),
            namespace: EVENT_NAMESPACE,
            action: event.reason.clone(),
            reason: event.reason.clone(),
            message: event.message.clone(),
            event_type: match event.event_type {
                EventType::Normal => "Normal",
                EventType::Warning => "Warning",
            },
            reporting_component: "droidnode",
            reporting_instance: self.node_name.clone(),
        }
    }
}

} // verus!
