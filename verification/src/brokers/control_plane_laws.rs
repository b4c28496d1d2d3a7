//! What the control plane is told.
use vstd::prelude::*;

use crate::brokers::control_plane_broker::{
    Condition, ContainerState, ControlPlaneBrokerImpl, CreateOutcome, EventObject, NodeObject,
    NodeStatusPatch, PodStatusPatch,
};
use crate::error::DroidError;
use crate::models::{EventType, NodeEvent, NodeProfile, NodeStatus, PodPhase, PodRunStatus};
use crate::text::decimal;

verus! {

/// A label of a node is `key` with `value`.
pub open spec fn is_labelled(node: NodeObject, key: Seq<char>, value: Seq<char>) -> bool {
    exists|i: int|
        0 <= i < node.labels@.len() && (#[trigger] node.labels@[i]).0@ == key
            && node.labels@[i].1@ == value
}

/// A node is registered under its own name, with labels for its name, its hardware, its
/// operating system and the agent that looks after it.
pub proof fn law_nodes_are_registered_under_their_names(
    broker: &ControlPlaneBrokerImpl,
    profile: &NodeProfile,
    node: NodeObject,
)
    requires
        call_ensures(ControlPlaneBrokerImpl::build_node_object, (broker, profile), node),
    ensures
        node.name@ == broker.node_name@,
        node.labels@.len() == 4,
        is_labelled(node, "kubernetes.io/hostname"@, broker.node_name@),
        is_labelled(node, "kubernetes.io/arch"@, profile.cpu.arch@),
        is_labelled(node, "kubernetes.io/os"@, "linux"@),
        is_labelled(node, "droidnode/managed"@, "true"@),
{
    assert(node.labels@[0].0@ == "kubernetes.io/hostname"@);
    assert(node.labels@[1].0@ == "kubernetes.io/arch"@);
    assert(node.labels@[2].0@ == "kubernetes.io/os"@);
    assert(node.labels@[3].0@ == "droidnode/managed"@);
}

/// The condition says of `kind` that it holds, or that it does not.
pub open spec fn says(condition: Condition, kind: Seq<char>, holds: bool) -> bool {
    &&& condition.condition_type@ == kind
    &&& holds ==> condition.status@ == "True"@
    &&& !holds ==> condition.status@ == "False"@
}

/// The patch tells the state of a node: whether it is ready, short of memory and without a
/// network, and how much memory it has and has free, in whole kibibytes.
pub open spec fn tells(patch: NodeStatusPatch, status: NodeStatus) -> bool {
    &&& patch.conditions@.len() == 3
    &&& says(patch.conditions@[0], "Ready"@, status.conditions.ready)
    &&& patch.conditions@[0].reason@ == "DroidNodeReady"@
    &&& patch.conditions@[0].message matches Some(m) && m@ == "droidnode agent is running"@
    &&& says(patch.conditions@[1], "MemoryPressure"@, status.conditions.memory_pressure)
    &&& patch.conditions@[1].reason@ == "DroidNodeMemory"@
    &&& patch.conditions@[1].message is None
    &&& says(patch.conditions@[2], "NetworkUnavailable"@, !status.conditions.network_available)
    &&& patch.conditions@[2].reason@ == "DroidNodeNetwork"@
    &&& patch.conditions@[2].message is None
    &&& patch.allocatable_memory@ == decimal((status.memory.available_bytes / 1024) as nat) + "Ki"@
    &&& patch.capacity_memory@ == decimal((status.memory.total_bytes / 1024) as nat) + "Ki"@
    &&& patch.allocatable_cpu@ == "0"@
}

/// A heartbeat tells the state of the node.
pub proof fn law_heartbeats_tell_the_state_of_the_node(
    broker: &ControlPlaneBrokerImpl,
    status: &NodeStatus,
    patch: NodeStatusPatch,
)
    requires
        call_ensures(ControlPlaneBrokerImpl::send_heartbeat, (broker, status), patch),
    ensures
        tells(patch, *status),
{
    reveal_strlit("0");
    assert("0"@ =~= decimal(0));
}

/// A node that was created, or that is there already, tells its state at once. Any other refusal
/// is an error with what the control plane says.
pub proof fn law_a_node_that_is_there_already_is_registered(
    broker: &ControlPlaneBrokerImpl,
    profile: &NodeProfile,
    created: CreateOutcome,
    r: Result<NodeStatusPatch, DroidError>,
    status: NodeStatus,
)
    requires
        call_ensures(ControlPlaneBrokerImpl::register_node, (broker, profile, created), r),
        status.node_id == profile.node_id,
        status.conditions == profile.conditions,
        status.memory == profile.memory,
        status.storage == profile.storage,
        status.battery == profile.battery,
        status.network == profile.network,
    ensures
        match created {
            CreateOutcome::Created => r is Ok,
            CreateOutcome::Refused { code, message } => if code == 409 {
                r is Ok
            } else {
                r == Err::<NodeStatusPatch, DroidError>(DroidError::KubeApi(message))
            },
            CreateOutcome::Failed(message) => r == Err::<NodeStatusPatch, DroidError>(
                DroidError::KubeApi(message),
            ),
        },
        r matches Ok(patch) ==> tells(patch, status),
{
    reveal_strlit("0");
    assert("0"@ =~= decimal(0));
    assert(profile.has_status(status));
    if let Ok(patch) = r {
        assert(patch.reports(status));
    }
}

/// The pods that are asked for are those that are assigned to the node.
pub proof fn law_the_pods_of_the_node_are_asked_for(broker: &ControlPlaneBrokerImpl, r: String)
    requires
        call_ensures(ControlPlaneBrokerImpl::get_assigned_pods, (broker,), r),
    ensures
        r@ == "spec.nodeName="@ + broker.node_name@,
{
}

/// The report of a pod tells its phase and its message, and of each of its containers the name,
/// whether it is ready, and that it runs or with what code it has ended.
pub proof fn law_reports_tell_the_state_of_the_pod(
    broker: &ControlPlaneBrokerImpl,
    status: &PodRunStatus,
    patch: PodStatusPatch,
)
    requires
        call_ensures(ControlPlaneBrokerImpl::report_pod_status, (broker, status), patch),
    ensures
        patch.phase@ == match status.phase {
            PodPhase::Pending => "Pending"@,
            PodPhase::Running => "Running"@,
            PodPhase::Succeeded => "Succeeded"@,
            PodPhase::Failed => "Failed"@,
            PodPhase::Unknown => "Unknown"@,
        },
        patch.message == status.message,
        patch.container_statuses@.len() == status.containers@.len(),
        forall|i: int|
            0 <= i < status.containers@.len() ==> {
                let told = #[trigger] patch.container_statuses@[i];
                let c = status.containers@[i];
                &&& told.name@ == c.name@
                &&& told.ready == c.ready
                &&& c.running ==> told.state == ContainerState::Running
                &&& !c.running ==> (c.exit_code matches Some(code) ==> told.state == (
                ContainerState::Terminated { exit_code: code }))
                &&& !c.running && c.exit_code is None ==> told.state == (
                ContainerState::Terminated { exit_code: 0 })
            },
{
    assert forall|i: int| 0 <= i < status.containers@.len() implies ({
        let told = #[trigger] patch.container_statuses@[i];
        let c = status.containers@[i];
        &&& told.name@ == c.name@
        &&& told.ready == c.ready
        &&& c.running ==> told.state == ContainerState::Running
        &&& !c.running ==> (c.exit_code matches Some(code) ==> told.state == (
        ContainerState::Terminated { exit_code: code }))
        &&& !c.running && c.exit_code is None ==> told.state == (ContainerState::Terminated {
            exit_code: 0,
        })
    }) by {
        assert(patch.container_statuses@[i].reports(status.containers@[i]));
    }
}

/// An event is recorded with its reason and its message, under the name of the node.
pub proof fn law_events_are_recorded_as_they_happened(
    broker: &ControlPlaneBrokerImpl,
    event: &NodeEvent,
    object: EventObject,
)
    requires
        call_ensures(ControlPlaneBrokerImpl::record_event, (broker, event), object),
    ensures
        object.reason@ == event.reason@,
        object.action@ == event.reason@,
        object.message@ == event.message@,
        event.event_type == EventType::Normal ==> object.event_type@ == "Normal"@,
        event.event_type == EventType::Warning ==> object.event_type@ == "Warning"@,
        object.generate_name@ == broker.node_name@ + "-"@,
        object.reporting_instance@ == broker.node_name@,
        object.reporting_component@ == "droidnode"@,
        object.namespace@ == "default"@,
{
}

/// The broker speaks for the node that it was made for.
pub proof fn law_brokers_speak_for_their_nodes(node_name: String, r: ControlPlaneBrokerImpl)
    requires
        call_ensures(ControlPlaneBrokerImpl::new, (node_name,), r),
    ensures
        r.node_name == node_name,
{
}

} // verus!
