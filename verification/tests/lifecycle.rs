use smartness::lifecycle::deadline_seconds;
use smartness::lifecycle::LifecycleAction;
use smartness::lifecycle::LifecycleController;
use smartness::lifecycle::LifecycleEvent;
use smartness::lifecycle::LifecycleState;
use smartness::lifecycle::GRACE_PERIOD_SECONDS;

#[test]
fn a_run_starts_running() {
    let controller = LifecycleController::new();
    assert_eq!(controller.state, LifecycleState::Running);
    assert!(!controller.is_stopped());
}

#[test]
fn an_interrupt_cancels_waits_and_releases() {
    let mut controller = LifecycleController::new();
    assert_eq!(controller.on_event(LifecycleEvent::Interrupt), LifecycleAction::CancelScheduler);
    assert_eq!(controller.state, LifecycleState::Interrupted);
    assert_eq!(
        controller.on_event(LifecycleEvent::SchedulerCancelled),
        LifecycleAction::WaitGrace(2)
    );
    assert_eq!(controller.state, LifecycleState::ShuttingDown);
    assert_eq!(controller.on_event(LifecycleEvent::GraceElapsed), LifecycleAction::ReleaseResources);
    assert_eq!(controller.state, LifecycleState::Stopped);
    assert!(controller.is_stopped());
}

#[test]
fn the_deadline_cancels_waits_and_releases() {
    let mut controller = LifecycleController::new();
    assert_eq!(
        controller.on_event(LifecycleEvent::DeadlineElapsed),
        LifecycleAction::CancelScheduler
    );
    assert_eq!(controller.state, LifecycleState::TimedOut);
    assert_eq!(
        controller.on_event(LifecycleEvent::SchedulerCancelled),
        LifecycleAction::WaitGrace(GRACE_PERIOD_SECONDS)
    );
    assert_eq!(controller.state, LifecycleState::ShuttingDown);
    assert_eq!(controller.on_event(LifecycleEvent::GraceElapsed), LifecycleAction::ReleaseResources);
    assert!(controller.is_stopped());
}

#[test]
fn the_trigger_that_comes_second_is_discarded() {
    let mut controller = LifecycleController::new();
    controller.on_event(LifecycleEvent::DeadlineElapsed);
    assert_eq!(controller.on_event(LifecycleEvent::Interrupt), LifecycleAction::Ignore);
    assert_eq!(controller.state, LifecycleState::TimedOut);
    let mut controller = LifecycleController::new();
    controller.on_event(LifecycleEvent::Interrupt);
    assert_eq!(controller.on_event(LifecycleEvent::DeadlineElapsed), LifecycleAction::Ignore);
    assert_eq!(controller.state, LifecycleState::Interrupted);
}

#[test]
fn events_out_of_turn_change_nothing() {
    let mut controller = LifecycleController::new();
    assert_eq!(controller.on_event(LifecycleEvent::GraceElapsed), LifecycleAction::Ignore);
    assert_eq!(controller.on_event(LifecycleEvent::SchedulerCancelled), LifecycleAction::Ignore);
    assert_eq!(controller.state, LifecycleState::Running);
    controller.on_event(LifecycleEvent::Interrupt);
    assert_eq!(controller.on_event(LifecycleEvent::GraceElapsed), LifecycleAction::Ignore);
    assert_eq!(controller.state, LifecycleState::Interrupted);
    controller.on_event(LifecycleEvent::SchedulerCancelled);
    assert_eq!(controller.on_event(LifecycleEvent::SchedulerCancelled), LifecycleAction::Ignore);
    assert_eq!(controller.state, LifecycleState::ShuttingDown);
}

#[test]
fn a_stopped_run_stays_stopped() {
    let mut controller = LifecycleController { state: LifecycleState::Stopped };
    for event in [
        LifecycleEvent::Interrupt,
        LifecycleEvent::DeadlineElapsed,
        LifecycleEvent::SchedulerCancelled,
        LifecycleEvent::GraceElapsed,
    ] {
        assert_eq!(controller.on_event(event), LifecycleAction::Ignore);
        assert!(controller.is_stopped());
    }
}

#[test]
fn the_deadline_is_sixty_seconds_a_minute() {
    assert_eq!(deadline_seconds(0), Some(0));
    assert_eq!(deadline_seconds(1), Some(60));
    assert_eq!(deadline_seconds(90), Some(5400));
    assert_eq!(deadline_seconds(307_445_734_561_825_860), Some(18_446_744_073_709_551_600));
}

#[test]
fn a_negative_or_too_long_running_time_has_no_deadline() {
    assert_eq!(deadline_seconds(-1), None);
    assert_eq!(deadline_seconds(i64::MIN), None);
    assert_eq!(deadline_seconds(307_445_734_561_825_861), None);
    assert_eq!(deadline_seconds(i64::MAX), None);
}
