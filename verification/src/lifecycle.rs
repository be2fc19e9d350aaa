//! The lifecycle of a run that is bounded by time.
//!
//! Two triggers compete while the scheduler runs: an interrupt from outside
//! and the deadline of the configured running time. Whichever comes first
//! ends the run; the other is discarded. The scheduler's task is then
//! cancelled, a short grace period lets recordings under way land, and the
//! resources are released.
//!
//! The controller decides; the caller waits for the events and carries the
//! actions out.

use vstd::prelude::*;
use crate::clock::SECONDS_PER_MINUTE;

verus! {

/// Seconds granted to recordings under way once the scheduler is cancelled.
pub const GRACE_PERIOD_SECONDS: u64 = 2;

/// Where a run stands.
#[derive(Clone, Copy, Debug, PartialEq, Eq, Structural)]
pub enum LifecycleState {
    /// The scheduler's task is active.
    Running,
    /// An interrupt arrived before the deadline.
    Interrupted,
    /// The running time elapsed before any interrupt.
    TimedOut,
    /// The scheduler is cancelled and the grace period runs.
    ShuttingDown,
    /// The resources are released.
    Stopped,
}

/// What the caller reports to the controller.
#[derive(Clone, Copy, Debug, PartialEq, Eq, Structural)]
pub enum LifecycleEvent {
    /// The interrupt signal arrived.
    Interrupt,
    /// The configured running time has elapsed.
    DeadlineElapsed,
    /// The scheduler's task has been cancelled.
    SchedulerCancelled,
    /// The grace period has elapsed.
    GraceElapsed,
}

/// What the controller asks of the caller.
#[derive(Clone, Copy, Debug, PartialEq, Eq, Structural)]
pub enum LifecycleAction {
    /// Abort the scheduler's task; operations under way may be abandoned.
    CancelScheduler,
    /// Wait for this many seconds.
    WaitGrace(u64),
    /// Release the execution contexts and the sessions, and return.
    ReleaseResources,
    /// Nothing: the event does not concern the state.
    Ignore,
}

/// The state that follows `state` on `event`.
pub open spec fn next_state(state: LifecycleState, event: LifecycleEvent) -> LifecycleState {
    match (state, event) {
        (LifecycleState::Running, LifecycleEvent::Interrupt) => LifecycleState::Interrupted,
        (LifecycleState::Running, LifecycleEvent::DeadlineElapsed) => LifecycleState::TimedOut,
        (LifecycleState::Interrupted, LifecycleEvent::SchedulerCancelled) => LifecycleState::ShuttingDown,
        (LifecycleState::TimedOut, LifecycleEvent::SchedulerCancelled) => LifecycleState::ShuttingDown,
        (LifecycleState::ShuttingDown, LifecycleEvent::GraceElapsed) => LifecycleState::Stopped,
        _ => state,
    }
}

/// The action that `event` calls for in `state`.
pub open spec fn action_for(state: LifecycleState, event: LifecycleEvent) -> LifecycleAction {
    match (state, event) {
        (LifecycleState::Running, LifecycleEvent::Interrupt) => LifecycleAction::CancelScheduler,
        (LifecycleState::Running, LifecycleEvent::DeadlineElapsed) => LifecycleAction::CancelScheduler,
        (LifecycleState::Interrupted, LifecycleEvent::SchedulerCancelled) => LifecycleAction::WaitGrace(
            GRACE_PERIOD_SECONDS,
        ),
        (LifecycleState::TimedOut, LifecycleEvent::SchedulerCancelled) => LifecycleAction::WaitGrace(
            GRACE_PERIOD_SECONDS,
        ),
        (LifecycleState::ShuttingDown, LifecycleEvent::GraceElapsed) => LifecycleAction::ReleaseResources,
        _ => LifecycleAction::Ignore,
    }
}

/// The controller of a time-bounded run.
#[derive(Clone, Copy, Debug, PartialEq, Eq, Structural)]
pub struct LifecycleController {
    /// Where the run stands.
    pub state: LifecycleState,
}

impl LifecycleController {
    /// The controller of a run that has just started.
    pub fn new() -> (controller: LifecycleController)
        ensures
            controller.state == LifecycleState::Running,
    {
        LifecycleController { state: LifecycleState::Running }
    }

    /// Whether the run is over and its resources released.
    pub fn is_stopped(&self) -> (stopped: bool)
        ensures
            stopped == (self.state == LifecycleState::Stopped),
    {
        match self.state {
            LifecycleState::Stopped => true,
            _ => false,
        }
    }

    /// Takes an event, moves on and says what to do.
    ///
    /// An event that does not concern the current state changes nothing: the
    /// trigger that lost the race is discarded in this way.
    pub fn on_event(&mut self, event: LifecycleEvent) -> (action: LifecycleAction)
        ensures
            final(self).state == next_state(old(self).state, event),
            action == action_for(old(self).state, event),
    {
        match (self.state, event) {
            (LifecycleState::Running, LifecycleEvent::Interrupt) => {
                self.state = LifecycleState::Interrupted;
                LifecycleAction::CancelScheduler
            },
            (LifecycleState::Running, LifecycleEvent::DeadlineElapsed) => {
                self.state = LifecycleState::TimedOut;
                LifecycleAction::CancelScheduler
            },
            (LifecycleState::Interrupted, LifecycleEvent::SchedulerCancelled) => {
                self.state = LifecycleState::ShuttingDown;
                LifecycleAction::WaitGrace(GRACE_PERIOD_SECONDS)
            },
            (LifecycleState::TimedOut, LifecycleEvent::SchedulerCancelled) => {
                self.state = LifecycleState::ShuttingDown;
                LifecycleAction::WaitGrace(GRACE_PERIOD_SECONDS)
            },
            (LifecycleState::ShuttingDown, LifecycleEvent::GraceElapsed) => {
                self.state = LifecycleState::Stopped;
                LifecycleAction::ReleaseResources
            },
            _ => LifecycleAction::Ignore,
        }
    }
}

/// The deadline of a running time of `minutes` minutes, in seconds.
///
/// A negative running time has no deadline, nor has one whose seconds exceed
/// the range of the result.
pub fn deadline_seconds(minutes: i64) -> (seconds: Option<u64>)
    ensures
        seconds == (if 0 <= minutes && minutes * SECONDS_PER_MINUTE <= u64::MAX {
            Some((minutes * SECONDS_PER_MINUTE) as u64)
        } else {
            None
        }),
{
    if minutes < 0 {
        None
    } else {
        (minutes as u64).checked_mul(SECONDS_PER_MINUTE)
    }
}

/// Once a trigger has come, the run stops after the cancellation and the
/// grace period, whichever trigger it was: three events lead from `Running`
/// to `Stopped`, they call for the cancellation, the grace period and the
/// release in this order, and no event of the storage collaborator is waited
/// for on the way.
pub proof fn lemma_trigger_leads_to_stopped(trigger: LifecycleEvent)
    requires
        trigger == LifecycleEvent::Interrupt || trigger == LifecycleEvent::DeadlineElapsed,
    ensures
        ({
            let triggered = next_state(LifecycleState::Running, trigger);
            let cancelled = next_state(triggered, LifecycleEvent::SchedulerCancelled);
            let stopped = next_state(cancelled, LifecycleEvent::GraceElapsed);
            &&& action_for(LifecycleState::Running, trigger) == LifecycleAction::CancelScheduler
            &&& action_for(triggered, LifecycleEvent::SchedulerCancelled)
                == LifecycleAction::WaitGrace(GRACE_PERIOD_SECONDS)
            &&& action_for(cancelled, LifecycleEvent::GraceElapsed)
                == LifecycleAction::ReleaseResources
            &&& cancelled == LifecycleState::ShuttingDown
            &&& stopped == LifecycleState::Stopped
        }),
{
}

/// The trigger that comes second is discarded, and a stopped run stays stopped.
pub proof fn lemma_late_events_change_nothing(state: LifecycleState, event: LifecycleEvent)
    requires
        state != LifecycleState::Running,
        event == LifecycleEvent::Interrupt || event == LifecycleEvent::DeadlineElapsed
            || state == LifecycleState::Stopped,
    ensures
        next_state(state, event) == state,
        action_for(state, event) == LifecycleAction::Ignore,
{
}

} // verus!
