//! The passes of the reconciliation, one after the other.
//!
//! [`ReconciliationLoop`] says when the next pass is to be made, and is told what came of it.
use vstd::prelude::*;

use crate::error::DroidError;
use crate::services::orchestration::reconciliation_service::{
    ReconciliationServiceImpl, RECONCILE_INTERVAL_SECS,
};

verus! {

/// What is to be done next.
#[derive(Debug, Clone, Copy, PartialEq, Eq, Structural)]
pub enum LoopAction {
    /// Make a pass.
    Reconcile,
    /// Wait.
    Sleep { seconds: u64 },
}

/// What came of an action.
#[derive(Debug)]
pub enum LoopEvent {
    /// The pass has finished, or was given up.
    Passed(Result<(), DroidError>),
    Slept,
}

/// What the loop waits for.
#[derive(Debug, Clone, Copy, PartialEq, Eq, Structural)]
pub enum LoopStage {
    Reconciling,
    Sleeping,
}

/// The loop that makes passes.
#[derive(Debug)]
pub struct ReconciliationLoop {
    pub stage: LoopStage,
}

impl ReconciliationServiceImpl {
    /// Begins to make passes, with one at once.
    pub fn run_loop(&self) -> (r: (ReconciliationLoop, LoopAction))
        ensures
            r.0.stage == LoopStage::Reconciling,
            r.1 == LoopAction::Reconcile,
    {
        (ReconciliationLoop { stage: LoopStage::Reconciling }, LoopAction::Reconcile)
    }
}

impl ReconciliationLoop {
    /// The event answers the last action.
    pub open spec fn awaits(self, event: LoopEvent) -> bool {
        match self.stage {
            LoopStage::Reconciling => event is Passed,
            LoopStage::Sleeping => event is Slept,
        }
    }

    /// One step: `event` leads from `self` to `post`, where `action` is to be done. A pass is
    /// made again after a while, whatever came of the last one.
    pub open spec fn steps_to(self, event: LoopEvent, post: Self, action: LoopAction) -> bool {
        match event {
            LoopEvent::Passed(_) => {
                &&& post.stage == LoopStage::Sleeping
                &&& action == (LoopAction::Sleep { seconds: RECONCILE_INTERVAL_SECS })
            },
            LoopEvent::Slept => {
                &&& post.stage == LoopStage::Reconciling
                &&& action == LoopAction::Reconcile
            },
        }
    }

    /// Whether an event answers the last action.
    pub fn is_awaiting(&self, event: &LoopEvent) -> (r: bool)
        ensures
            r == self.awaits(*event),
    {
        match self.stage {
            LoopStage::Reconciling => matches!(event, LoopEvent::Passed(_)),
            LoopStage::Sleeping => matches!(event, LoopEvent::Slept),
        }
    }

    /// Takes note of what came of the last action, and says what is to be done next.
    pub fn step(&mut self, event: LoopEvent) -> (action: LoopAction)
        requires
            old(self).awaits(event),
        ensures
            old(self).steps_to(event, *final(self), action),
    {
        match event {
            LoopEvent::Passed(_) => {
                self.stage = LoopStage::Sleeping;
                LoopAction::Sleep { seconds: RECONCILE_INTERVAL_SECS }
            },
            LoopEvent::Slept => {
                self.stage = LoopStage::Reconciling;
                LoopAction::Reconcile
            },
        }
    }
}

// ---------------------------------------------------------------------------

/// The record of a loop: in the state `states[i]` the action `actions[i]` is done, and
/// `events[i]` comes of it.
pub open spec fn is_loop(
    states: Seq<ReconciliationLoop>,
    actions: Seq<LoopAction>,
    events: Seq<LoopEvent>,
) -> bool {
    &&& states.len() == events.len() + 1
    &&& actions.len() == events.len() + 1
    &&& states[0].stage == LoopStage::Reconciling
    &&& actions[0] == LoopAction::Reconcile
    &&& forall|i: int|
        0 <= i < events.len() ==> {
            &&& states[i].awaits(#[trigger] events[i])
            &&& states[i].steps_to(events[i], states[i + 1], actions[i + 1])
        }
}

/// Passes go on, whatever goes wrong: there is always something to do next, and it is in turn
/// a pass and a wait of the same time.
pub proof fn law_passes_go_on(
    states: Seq<ReconciliationLoop>,
    actions: Seq<LoopAction>,
    events: Seq<LoopEvent>,
    i: int,
)
    requires
        is_loop(states, actions, events),
        0 <= i < actions.len(),
    ensures
        actions[i] == if i % 2 == 0 {
            LoopAction::Reconcile
        } else {
            LoopAction::Sleep { seconds: RECONCILE_INTERVAL_SECS }
        },
        states[i].stage == if i % 2 == 0 {
            LoopStage::Reconciling
        } else {
            LoopStage::Sleeping
        },
    decreases i,
{
    if i > 0 {
        law_passes_go_on(states, actions, events, i - 1);
        assert(states[i - 1].awaits(events[i - 1]));
    }
}

/// A pass is made at once, and then another fifteen seconds after each.
pub proof fn law_passes_are_fifteen_seconds_apart(
    service: &ReconciliationServiceImpl,
    begun: (ReconciliationLoop, LoopAction),
    pre: ReconciliationLoop,
    event: LoopEvent,
    post: ReconciliationLoop,
    action: LoopAction,
)
    requires
        call_ensures(ReconciliationServiceImpl::run_loop, (service,), begun),
        pre.steps_to(event, post, action),
    ensures
        begun.1 == LoopAction::Reconcile,
        begun.0.stage == LoopStage::Reconciling,
        event is Passed ==> action == (LoopAction::Sleep { seconds: 15 }) && post.stage
            == LoopStage::Sleeping,
        event is Slept ==> action == LoopAction::Reconcile && post.stage == LoopStage::Reconciling,
{
}

/// The loop takes the answer to what it asked last, and each step of it is one that the laws speak
/// of.
pub proof fn law_the_loop_takes_the_answer_to_its_question(
    passes: &ReconciliationLoop,
    asked: &LoopEvent,
    r: bool,
    pre: &mut ReconciliationLoop,
    event: LoopEvent,
    action: LoopAction,
)
    requires
        call_ensures(ReconciliationLoop::is_awaiting, (passes, asked), r),
        call_ensures(ReconciliationLoop::step, (pre, event), action),
    ensures
        r == match passes.stage {
            LoopStage::Reconciling => asked is Passed,
            LoopStage::Sleeping => asked is Slept,
        },
        old(pre).steps_to(event, *final(pre), action),
{
}

} // verus!
