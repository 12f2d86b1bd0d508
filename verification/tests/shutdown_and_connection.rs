//! Shutdown coordination, connection-state transitions, reconnect backoff,
//! URL validation, and the classification of transport faults.

use celery::connection::{
    classify_broker_error, conn_step, error_from_lapin, validate_broker_url, ConnEvent, ConnState,
    ReconnectPolicy,
};
use celery::engine::{step, Acknowledge, TaskEvent, TaskState};
use celery::error::{error_from_broker, BrokerFault, ErrorKind};
use celery::shutdown::{Phase, ShutdownState, WorkerControl};

#[test]
fn graceful_shutdown_waits_for_running_task() {
    let mut s = ShutdownState::new();
    assert!(s.may_consume());
    // grace period 2000 ms, one task still running
    let cancel = s.request_shutdown(1000, 2000, false, 1);
    assert!(!cancel);
    assert_eq!(s.phase, Phase::Draining);
    assert_eq!(s.deadline, Some(3000));
    assert!(!s.may_consume());
    // the task settles 500 ms in, well before the deadline: shutdown
    // completes at once and nothing is cancelled
    let cancel = s.tick(1500, 1);
    assert!(!cancel);
    s.task_settled(0);
    assert_eq!(s.phase, Phase::Terminated);
}

#[test]
fn graceful_shutdown_with_nothing_in_flight_finishes_at_once() {
    let mut s = ShutdownState::new();
    let cancel = s.request_shutdown(1000, 2000, false, 0);
    assert!(!cancel);
    assert_eq!(s.phase, Phase::Terminated);
}

#[test]
fn forced_shutdown_cancels_and_requeues() {
    let mut s = ShutdownState::new();
    let cancel = s.request_shutdown(1000, 2000, true, 1);
    assert!(cancel);
    assert_eq!(s.phase, Phase::Terminated);
    // the cancelled run's envelope is nacked with requeue
    let (state, emitted) = step(TaskState::Running, TaskEvent::Cancel).unwrap();
    assert_eq!(state, TaskState::Nacked);
    assert_eq!(emitted, Some(Acknowledge::NackRequeue));
}

#[test]
fn grace_deadline_elapsing_forces_cancellation() {
    let mut s = ShutdownState::new();
    assert!(!s.request_shutdown(1000, 2000, false, 2));
    assert!(!s.tick(2999, 2));
    assert_eq!(s.phase, Phase::Draining);
    let cancel = s.tick(3000, 2);
    assert!(cancel);
    assert_eq!(s.phase, Phase::Terminated);
}

#[test]
fn worker_control_ties_slots_to_shutdown() {
    let mut w = WorkerControl::start(2);
    assert!(w.may_pull());
    assert!(w.dispatch());
    assert!(w.dispatch());
    // both slots taken: backpressure stops the pulling
    assert!(!w.may_pull());
    // graceful shutdown with work in flight: draining, nothing cancelled
    let cancel = w.shutdown(1000, 2000, false);
    assert!(!cancel);
    assert_eq!(w.coordinator.phase, Phase::Draining);
    assert!(!w.may_pull());
    // the last settle terminates the worker before the deadline
    w.settle();
    assert_eq!(w.coordinator.phase, Phase::Draining);
    w.settle();
    assert_eq!(w.coordinator.phase, Phase::Terminated);
}

#[test]
fn connection_state_transitions() {
    assert_eq!(
        conn_step(ConnState::Disconnected, ConnEvent::StartConnect),
        Some(ConnState::Connecting)
    );
    assert_eq!(
        conn_step(ConnState::Connecting, ConnEvent::Established),
        Some(ConnState::Connected)
    );
    assert_eq!(
        conn_step(ConnState::Connected, ConnEvent::Lost),
        Some(ConnState::ReconnectBackoff)
    );
    assert_eq!(
        conn_step(ConnState::Connecting, ConnEvent::Lost),
        Some(ConnState::ReconnectBackoff)
    );
    assert_eq!(
        conn_step(ConnState::ReconnectBackoff, ConnEvent::BackoffElapsed),
        Some(ConnState::Connecting)
    );
    assert_eq!(conn_step(ConnState::Disconnected, ConnEvent::Lost), None);
    assert_eq!(conn_step(ConnState::Connected, ConnEvent::Established), None);
}

#[test]
fn reconnect_backoff_is_exponential_with_cap() {
    let p = ReconnectPolicy { base_ms: 250, cap_ms: 8000, max_attempts: None };
    assert_eq!(p.delay_for(0), 250);
    assert_eq!(p.delay_for(1), 500);
    assert_eq!(p.delay_for(3), 2000);
    assert_eq!(p.delay_for(5), 8000);
    assert_eq!(p.delay_for(63), 8000);
    assert!(p.may_attempt(1_000_000));
    let bounded = ReconnectPolicy { base_ms: 250, cap_ms: 8000, max_attempts: Some(4) };
    assert!(bounded.may_attempt(0));
    assert!(bounded.may_attempt(3));
    assert!(!bounded.may_attempt(4));
}

#[test]
fn valid_broker_urls_parse() {
    let a = validate_broker_url(&"amqp://localhost".to_string()).unwrap();
    assert!(!a.tls);
    assert_eq!(a.host, "localhost");
    assert_eq!(a.port, 5672);
    assert_eq!(a.vhost, "");

    let a = validate_broker_url(&"amqps://broker.example.com".to_string()).unwrap();
    assert!(a.tls);
    assert_eq!(a.port, 5671);

    let a = validate_broker_url(&"amqp://10.0.0.9:5673/work".to_string()).unwrap();
    assert_eq!(a.host, "10.0.0.9");
    assert_eq!(a.port, 5673);
    assert_eq!(a.vhost, "work");

    let a = validate_broker_url(&"amqp://h/only-vhost".to_string()).unwrap();
    assert_eq!(a.host, "h");
    assert_eq!(a.port, 5672);
    assert_eq!(a.vhost, "only-vhost");

    let a = validate_broker_url(&"amqp://h:65535".to_string()).unwrap();
    assert_eq!(a.port, 65535);
}

#[test]
fn malformed_broker_urls_are_rejected() {
    for bad in [
        "http://localhost",
        "amqp:/localhost",
        "amqp://",
        "amqp://:5672",
        "amqp://h:",
        "amqp://h:/v",
        "amqp://h:65536",
        "amqp://h:12x9",
        "",
    ] {
        let err = validate_broker_url(&bad.to_string()).unwrap_err();
        assert_eq!(err.kind, ErrorKind::InvalidBrokerUrl(bad.to_string()));
    }
}

#[test]
fn broker_fault_classes_map_into_the_taxonomy() {
    assert_eq!(error_from_broker(BrokerFault::Io).kind, ErrorKind::BrokerConnectionError);
    assert_eq!(
        error_from_broker(BrokerFault::RuntimeShutdown).kind,
        ErrorKind::BrokerConnectionError
    );
    assert_eq!(
        error_from_broker(BrokerFault::BadConnectionState).kind,
        ErrorKind::BrokerConnectionError
    );
    assert_eq!(
        error_from_broker(BrokerFault::Protocol).kind,
        ErrorKind::AMQPError(Some(BrokerFault::Protocol))
    );
    assert_eq!(
        error_from_broker(BrokerFault::Other).kind,
        ErrorKind::AMQPError(Some(BrokerFault::Other))
    );
}

#[test]
fn lapin_faults_are_classified_not_passed_through() {
    let io_fault = lapin::Error::from(std::io::Error::new(
        std::io::ErrorKind::ConnectionReset,
        "reset by peer",
    ));
    assert_eq!(classify_broker_error(&io_fault), BrokerFault::Io);
    assert_eq!(error_from_lapin(&io_fault).kind, ErrorKind::BrokerConnectionError);

    let limit = lapin::Error::from(lapin::ErrorKind::ChannelsLimitReached);
    assert_eq!(classify_broker_error(&limit), BrokerFault::Other);
    assert_eq!(
        error_from_lapin(&limit).kind,
        ErrorKind::AMQPError(Some(BrokerFault::Other))
    );

    let state = lapin::Error::from(lapin::ErrorKind::InvalidConnectionState(
        lapin::ConnectionState::Closed,
    ));
    assert_eq!(classify_broker_error(&state), BrokerFault::BadConnectionState);
    assert_eq!(error_from_lapin(&state).kind, ErrorKind::BrokerConnectionError);
}
