//! Registers the node, and reports its status again and again.
//!
//! [`NodeRegistrationServiceImpl`] says what is to be done next, and is told what came of it.
use vstd::prelude::*;

use crate::error::DroidError;
use crate::models::{NodeProfile, NodeStatus};

verus! {

/// The time between two heartbeats, in seconds.
pub const HEARTBEAT_INTERVAL_SECS: u64 = 30;

/// What is to be done next.
#[derive(Debug)]
pub enum RegistrationAction {
    /// Find out what the node is able to do.
    ReadProfile,
    /// Register the node.
    Register { profile: NodeProfile },
    /// Wait.
    Sleep { seconds: u64 },
    /// Report a status.
    SendHeartbeat { status: NodeStatus },
    /// The node could not be registered.
    Failed(DroidError),
}

/// What came of an action.
#[derive(Debug)]
pub enum RegistrationEvent {
    ProfileRead(Result<NodeProfile, DroidError>),
    Registered(Result<(), DroidError>),
    Slept,
    HeartbeatSent(Result<(), DroidError>),
}

/// What the service waits for.
#[derive(Debug, Clone, Copy, PartialEq, Eq, Structural)]
pub enum RegistrationStage {
    /// The profile to register.
    FirstProfile,
    Registering,
    Sleeping,
    /// The profile to report.
    Profile,
    Reporting,
    Over,
}

/// Keeps the node known to the control plane.
#[derive(Debug)]
pub struct NodeRegistrationServiceImpl {
    pub stage: RegistrationStage,
}

impl NodeRegistrationServiceImpl {
    pub fn new() -> (r: Self)
        ensures
            r.stage == RegistrationStage::Over,
    {
        NodeRegistrationServiceImpl { stage: RegistrationStage::Over }
    }

    /// The event answers the last action.
    pub open spec fn awaits(self, event: RegistrationEvent) -> bool {
        match self.stage {
            RegistrationStage::FirstProfile | RegistrationStage::Profile => event is ProfileRead,
            RegistrationStage::Registering => event is Registered,
            RegistrationStage::Sleeping => event is Slept,
            RegistrationStage::Reporting => event is HeartbeatSent,
            RegistrationStage::Over => false,
        }
    }

    /// The service waits until the next heartbeat.
    pub open spec fn is_sleeping(self, action: RegistrationAction) -> bool {
        &&& self.stage == RegistrationStage::Sleeping
        &&& action == (RegistrationAction::Sleep { seconds: HEARTBEAT_INTERVAL_SECS })
    }

    /// One step: `event` leads from `self` to `post`, where `action` is to be done. What goes
    /// wrong while the node is being registered ends the service. What goes wrong later does
    /// not.
    pub open spec fn steps_to(
        self,
        event: RegistrationEvent,
        post: Self,
        action: RegistrationAction,
    ) -> bool {
        match event {
            RegistrationEvent::ProfileRead(Ok(profile)) => if self.stage
                == RegistrationStage::FirstProfile {
                &&& post.stage == RegistrationStage::Registering
                &&& action == (RegistrationAction::Register { profile })
            } else {
                &&& post.stage == RegistrationStage::Reporting
                &&& action matches RegistrationAction::SendHeartbeat { status }
                &&& profile.has_status(status)
            },
            RegistrationEvent::ProfileRead(Err(e)) => if self.stage
                == RegistrationStage::FirstProfile {
                &&& post.stage == RegistrationStage::Over
                &&& action == RegistrationAction::Failed(e)
            } else {
                post.is_sleeping(action)
            },
            RegistrationEvent::Registered(Err(e)) => {
                &&& post.stage == RegistrationStage::Over
                &&& action == RegistrationAction::Failed(e)
            },
            RegistrationEvent::Registered(Ok(_)) => post.is_sleeping(action),
            RegistrationEvent::HeartbeatSent(_) => post.is_sleeping(action),
            RegistrationEvent::Slept => {
                &&& post.stage == RegistrationStage::Profile
                &&& action is ReadProfile
            },
        }
    }

    /// Begins to register the node.
    pub fn run(&mut self) -> (action: RegistrationAction)
        ensures
            final(self).stage == RegistrationStage::FirstProfile,
            action is ReadProfile,
    {
        self.stage = RegistrationStage::FirstProfile;
        RegistrationAction::ReadProfile
    }

    /// Whether an event answers the last action.
    pub fn is_awaiting(&self, event: &RegistrationEvent) -> (r: bool)
        ensures
            r == self.awaits(*event),
    {
        match self.stage {
            RegistrationStage::FirstProfile | RegistrationStage::Profile => matches!(
                event,
                RegistrationEvent::ProfileRead(_)
            ),
            RegistrationStage::Registering => matches!(event, RegistrationEvent::Registered(_)),
            RegistrationStage::Sleeping => matches!(event, RegistrationEvent::Slept),
            RegistrationStage::Reporting => matches!(event, RegistrationEvent::HeartbeatSent(_)),
            RegistrationStage::Over => false,
        }
    }

    fn sleep(&mut self) -> (action: RegistrationAction)
        ensures
            final(self).is_sleeping(action),
    {
        self.stage = RegistrationStage::Sleeping;
        RegistrationAction::Sleep { seconds: HEARTBEAT_INTERVAL_SECS }
    }

    /// Takes note of what came of the last action, and says what is to be done next.
    pub fn step(&mut self, event: RegistrationEvent) -> (action: RegistrationAction)
        requires
            old(self).awaits(event),
        ensures
            old(self).steps_to(event, *final(self), action),
    {
        match event {
            RegistrationEvent::ProfileRead(Ok(profile)) => {
                if matches!(self.stage, RegistrationStage::FirstProfile) {
                    self.stage = RegistrationStage::Registering;
                    RegistrationAction::Register { profile }
                } else {
                    self.stage = RegistrationStage::Reporting;
                    RegistrationAction::SendHeartbeat { status: profile.status() }
                }
            },
            RegistrationEvent::ProfileRead(Err(e)) => {
                if matches!(self.stage, RegistrationStage::FirstProfile) {
                    self.stage = RegistrationStage::Over;
                    RegistrationAction::Failed(e)
                } else {
                    self.sleep()
                }
            },
            RegistrationEvent::Registered(Err(e)) => {
                self.stage = RegistrationStage::Over;
                RegistrationAction::Failed(e)
            },
            RegistrationEvent::Registered(Ok(_)) => self.sleep(),
            RegistrationEvent::HeartbeatSent(_) => self.sleep(),
            RegistrationEvent::Slept => {
                self.stage = RegistrationStage::Profile;
                RegistrationAction::ReadProfile
            },
        }
    }
}

// ---------------------------------------------------------------------------

/// The node is registered: nothing but its heartbeats is left to do.
pub open spec fn is_registered(stage: RegistrationStage) -> bool {
    stage == RegistrationStage::Sleeping || stage == RegistrationStage::Profile || stage
        == RegistrationStage::Reporting
}

/// Once the node is registered the heartbeats go on, whatever goes wrong.
pub proof fn law_heartbeats_go_on(
    pre: NodeRegistrationServiceImpl,
    event: RegistrationEvent,
    post: NodeRegistrationServiceImpl,
    action: RegistrationAction,
)
    requires
        is_registered(pre.stage),
        pre.awaits(event),
        pre.steps_to(event, post, action),
    ensures
        is_registered(post.stage),
        !(action is Failed),
        !(action is Register),
{
}

/// No heartbeat is sent before the node is registered.
pub proof fn law_no_heartbeat_before_registration(
    pre: NodeRegistrationServiceImpl,
    event: RegistrationEvent,
    post: NodeRegistrationServiceImpl,
    action: RegistrationAction,
)
    requires
        pre.awaits(event),
        pre.steps_to(event, post, action),
        !is_registered(pre.stage),
    ensures
        !(action is SendHeartbeat),
        is_registered(post.stage) ==> event is Registered && event->Registered_0 is Ok,
{
}

/// What the service does in each of its stages: it registers the node with the profile that was
/// read first, and then reports the state of the node every thirty seconds, each time from a
/// profile that was read anew. What goes wrong before the node is registered ends the service for
/// that reason, and what goes wrong later is passed over until the next time.
pub proof fn law_the_node_is_registered_and_reported(
    pre: NodeRegistrationServiceImpl,
    event: RegistrationEvent,
    post: NodeRegistrationServiceImpl,
    action: RegistrationAction,
)
    requires
        pre.awaits(event),
        pre.steps_to(event, post, action),
    ensures
        match (pre.stage, event) {
            (
                RegistrationStage::FirstProfile,
                RegistrationEvent::ProfileRead(Ok(profile)),
            ) => action == (RegistrationAction::Register { profile }) && post.stage
                == RegistrationStage::Registering,
            (
                RegistrationStage::FirstProfile,
                RegistrationEvent::ProfileRead(Err(e)),
            ) => action == RegistrationAction::Failed(e),
            (RegistrationStage::Registering, RegistrationEvent::Registered(Err(e))) => action
                == RegistrationAction::Failed(e),
            (RegistrationStage::Registering, RegistrationEvent::Registered(Ok(_))) => action == (
            RegistrationAction::Sleep { seconds: 30 }) && post.stage == RegistrationStage::Sleeping,
            (RegistrationStage::Sleeping, RegistrationEvent::Slept) => action is ReadProfile
                && post.stage == RegistrationStage::Profile,
            (RegistrationStage::Profile, RegistrationEvent::ProfileRead(Ok(profile))) => {
                &&& action matches RegistrationAction::SendHeartbeat { status }
                &&& status.node_id == profile.node_id
                &&& status.conditions == profile.conditions
                &&& status.memory == profile.memory
                &&& status.storage == profile.storage
                &&& status.battery == profile.battery
                &&& status.network == profile.network
                &&& post.stage == RegistrationStage::Reporting
            },
            (RegistrationStage::Profile, RegistrationEvent::ProfileRead(Err(_))) => action == (
            RegistrationAction::Sleep { seconds: 30 }) && post.stage == RegistrationStage::Sleeping,
            (RegistrationStage::Reporting, RegistrationEvent::HeartbeatSent(_)) => action == (
            RegistrationAction::Sleep { seconds: 30 }) && post.stage == RegistrationStage::Sleeping,
            _ => false,
        },
{
}

/// The service begins by reading the profile of the node.
pub proof fn law_registration_begins_with_a_profile(
    service: &mut NodeRegistrationServiceImpl,
    action: RegistrationAction,
)
    requires
        call_ensures(NodeRegistrationServiceImpl::run, (service,), action),
    ensures
        action is ReadProfile,
        final(service).stage == RegistrationStage::FirstProfile,
{
}

/// The service takes the answer to what it asked last, and each step of it is one that the laws
/// speak of.
pub proof fn law_registration_takes_the_answer_to_its_question(
    service: &NodeRegistrationServiceImpl,
    asked: &RegistrationEvent,
    r: bool,
    pre: &mut NodeRegistrationServiceImpl,
    event: RegistrationEvent,
    action: RegistrationAction,
)
    requires
        call_ensures(NodeRegistrationServiceImpl::is_awaiting, (service, asked), r),
        call_ensures(NodeRegistrationServiceImpl::step, (pre, event), action),
    ensures
        r == match service.stage {
            RegistrationStage::FirstProfile | RegistrationStage::Profile => asked is ProfileRead,
            RegistrationStage::Registering => asked is Registered,
            RegistrationStage::Sleeping => asked is Slept,
            RegistrationStage::Reporting => asked is HeartbeatSent,
            RegistrationStage::Over => false,
        },
        old(pre).steps_to(event, *final(pre), action),
{
}

} // verus!
