use aperture::shutdown::{drain_action, drain_advance, DrainAction, DrainEvent, DrainStage};
use aperture::shutdown::{
    drain_verdict, repeated_shutdown_outcome, senders_delivered, sum_in_flight, DrainOutcome,
    ShutdownTrigger, READYZ_DRAIN_GRACE_MS,
};

#[test]
fn shutdown_trigger_renders_handle_shutdown_string() {
    assert_eq!(ShutdownTrigger::HandleShutdown.as_str(), "handle_shutdown");
}

#[test]
fn shutdown_trigger_renders_sigterm_string() {
    assert_eq!(ShutdownTrigger::Sigterm.as_str(), "SIGTERM");
}

#[test]
fn shutdown_trigger_renders_sigint_string() {
    assert_eq!(ShutdownTrigger::Sigint.as_str(), "SIGINT");
}

#[test]
fn clean_drain_exit_code_is_zero() {
    assert_eq!(DrainOutcome::Clean { drained_count: 3 }.exit_code(), 0);
}

#[test]
fn deadline_exceeded_exit_code_is_one() {
    assert_eq!(DrainOutcome::DeadlineExceeded { dropped_count: 2 }.exit_code(), 1);
}

#[test]
fn sum_in_flight_returns_grpc_when_http_is_zero() {
    assert_eq!(sum_in_flight(1, 0), 1);
}

#[test]
fn sum_in_flight_returns_http_when_grpc_is_zero() {
    assert_eq!(sum_in_flight(0, 1), 1);
}

#[test]
fn sum_in_flight_adds_both_arms_when_both_non_zero() {
    assert_eq!(sum_in_flight(2, 3), 5);
}

#[test]
fn sum_in_flight_saturates_on_overflow() {
    assert_eq!(sum_in_flight(u32::MAX, 1), u32::MAX);
}

#[test]
fn serve_failure_exit_code_is_three() {
    assert_eq!(DrainOutcome::ServeFailed.exit_code(), 3);
}

#[test]
fn drain_verdict_names_the_count_of_its_ending() {
    assert_eq!(drain_verdict(true, 4, 9), DrainOutcome::Clean { drained_count: 4 });
    assert_eq!(drain_verdict(false, 4, 9), DrainOutcome::DeadlineExceeded { dropped_count: 9 });
    assert_eq!(drain_verdict(false, 4, 9).exit_code(), 1);
}

#[test]
fn repeated_shutdown_is_an_empty_clean_drain() {
    assert_eq!(repeated_shutdown_outcome(), DrainOutcome::Clean { drained_count: 0 });
    assert_eq!(repeated_shutdown_outcome().exit_code(), 0);
}

#[test]
fn senders_delivered_counts_each_delivery() {
    assert_eq!(senders_delivered(true, true), 2);
    assert_eq!(senders_delivered(true, false), 1);
    assert_eq!(senders_delivered(false, true), 1);
    assert_eq!(senders_delivered(false, false), 0);
}

#[test]
fn readyz_grace_is_a_quarter_second() {
    assert_eq!(READYZ_DRAIN_GRACE_MS, 250);
}

#[test]
fn drain_flips_readiness_before_signalling_the_listeners() {
    let mut stage = DrainStage::Initiated;
    assert_eq!(drain_action(stage), DrainAction::FlipReadiness);
    // An out-of-order report does not move the drain on.
    assert_eq!(drain_advance(stage, DrainEvent::ListenersSignalled), DrainStage::Initiated);
    stage = drain_advance(stage, DrainEvent::ReadinessFlipped { in_flight: 3 });
    assert_eq!(drain_action(stage), DrainAction::WaitGrace { ms: READYZ_DRAIN_GRACE_MS });
    stage = drain_advance(stage, DrainEvent::GraceElapsed);
    assert_eq!(drain_action(stage), DrainAction::SignalListeners);
    stage = drain_advance(stage, DrainEvent::ListenersSignalled);
    assert_eq!(drain_action(stage), DrainAction::AwaitListeners);
    stage = drain_advance(stage, DrainEvent::ListenersJoined { finished_in_time: true, in_flight: 0 });
    assert_eq!(drain_action(stage), DrainAction::Finish(DrainOutcome::Clean { drained_count: 3 }));
}

#[test]
fn drain_past_the_deadline_names_the_requests_left() {
    let mut stage = DrainStage::Initiated;
    for event in [
        DrainEvent::ReadinessFlipped { in_flight: 5 },
        DrainEvent::GraceElapsed,
        DrainEvent::ListenersSignalled,
        DrainEvent::ListenersJoined { finished_in_time: false, in_flight: 2 },
    ] {
        stage = drain_advance(stage, event);
    }
    let outcome = DrainOutcome::DeadlineExceeded { dropped_count: 2 };
    assert_eq!(drain_action(stage), DrainAction::Finish(outcome));
    assert_eq!(outcome.exit_code(), 1);
    assert_eq!(drain_advance(stage, DrainEvent::GraceElapsed), stage);
}
