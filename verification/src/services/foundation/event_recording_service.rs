//! Events of the node.
use vstd::prelude::*;

use crate::models::{EventType, NodeEvent};

verus! {

/// Makes events of one node.
#[derive(Debug)]
pub struct EventRecordingServiceImpl {
    pub node_id: String,
}

impl EventRecordingServiceImpl {
    pub fn new(node_id: String) -> (r: Self)
        ensures
            r.node_id == node_id,
    {
        EventRecordingServiceImpl { node_id }
    }

    /// The event is one of this node, with these contents.
    pub open spec fn makes(
        self,
        event_type: EventType,
        reason: Seq<char>,
        message: Seq<char>,
        pod_id: Option<String>,
        event: NodeEvent,
    ) -> bool {
        &&& event.node_id == self.node_id
        &&& event.event_type == event_type
        &&& event.reason@ == reason
        &&& event.message@ == message
        &&& event.pod_id == pod_id
    }

    fn record(
        &self,
        event_type: EventType,
        reason: &str,
        message: &str,
        pod_id: Option<String>,
    ) -> (r: NodeEvent)
        ensures
            self.makes(event_type, reason@, message@, pod_id, r),
    {
        NodeEvent {
            node_id: self.node_id.clone(),
            event_type,
            reason: reason.to_owned(),
            message: message.to_owned(),
            pod_id,
        }
    }

    /// An event that was to be expected.
    pub fn record_normal(&self, reason: &str, message: &str, pod_id: Option<String>) -> (r:
        NodeEvent)
        ensures
            self.makes(EventType::Normal, reason@, message@, pod_id, r),
    {
        self.record(EventType::Normal, reason, message, pod_id)
    }

    /// An event that should not have happened.
    pub fn record_warning(&self, reason: &str, message: &str, pod_id: Option<String>) -> (r:
        NodeEvent)
        ensures
            self.makes(EventType::Warning, reason@, message@, pod_id, r),
    {
        self.record(EventType::Warning, reason, message, pod_id)
    }
}

// ---------------------------------------------------------------------------

/// An event is one of the node, with the reason, the message and the pod that it is recorded
/// with, and is normal or a warning as it is recorded.
pub proof fn law_events_tell_what_they_are_recorded_with(
    service: &EventRecordingServiceImpl,
    reason: &str,
    message: &str,
    pod_id: Option<String>,
    normal: NodeEvent,
    warning: NodeEvent,
)
    requires
        call_ensures(
            EventRecordingServiceImpl::record_normal,
            (service, reason, message, pod_id),
            normal,
        ),
        call_ensures(
            EventRecordingServiceImpl::record_warning,
            (service, reason, message, pod_id),
            warning,
        ),
    ensures
        normal.event_type == EventType::Normal,
        warning.event_type == EventType::Warning,
        normal.node_id == service.node_id,
        warning.node_id == service.node_id,
        normal.reason@ == reason@,
        warning.reason@ == reason@,
        normal.message@ == message@,
        warning.message@ == message@,
        normal.pod_id == pod_id,
        warning.pod_id == pod_id,
{
}

} // verus!
