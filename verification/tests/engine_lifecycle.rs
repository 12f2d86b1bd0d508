//! The per-envelope execution state machine: screening, retry decisions,
//! timeouts, and exactly-once acknowledgment.

use celery::engine::{
    decide_outcome, disposition_event, report_failure, screen_delivery, screening_event, step,
    Acknowledge, Disposition, ExecutionSlots, RunOutcome, Screening, TaskEvent, TaskState,
};
use celery::error::{CeleryError, ErrorKind};
use celery::engine::dispatch_deadline;
use celery::envelope::Envelope;
use celery::registry::{BackoffPolicy, TaskPolicy};

fn envelope(retries: u32, expires_at: Option<u64>) -> Envelope {
    Envelope {
        id: "msg-1".to_string(),
        task: "orders.create".to_string(),
        args: vec![1, 2, 3],
        queue: "orders_q".to_string(),
        retries,
        expires_at,
        eta: None,
        correlation_id: "corr-1".to_string(),
    }
}

fn policy() -> TaskPolicy {
    TaskPolicy {
        max_retries: 3,
        backoff: BackoffPolicy::Fixed(100),
        timeout_ms: 100,
        expires_after_ms: None,
    }
}

/// Drive a full event sequence, returning the final state and every
/// acknowledgment emitted along the way.
fn run(events: &[TaskEvent]) -> (TaskState, Vec<Acknowledge>) {
    let mut state = TaskState::Received;
    let mut acks = Vec::new();
    for ev in events {
        let (next, emitted) = step(state, *ev).expect("event valid in state");
        state = next;
        if let Some(a) = emitted {
            acks.push(a);
        }
    }
    (state, acks)
}

#[test]
fn expired_envelope_is_rejected_before_dispatch() {
    let env = envelope(0, Some(500));
    // expiry moment reached
    assert_eq!(screen_delivery(&env, 500, true), Screening::RejectExpired);
    assert_eq!(screen_delivery(&env, 9000, true), Screening::RejectExpired);
    // expiry wins over an unknown task name
    assert_eq!(screen_delivery(&env, 9000, false), Screening::RejectExpired);
    // not yet expired
    assert_eq!(screen_delivery(&env, 499, true), Screening::Proceed);
    let fresh = envelope(0, None);
    assert_eq!(screen_delivery(&fresh, u64::MAX, true), Screening::Proceed);
    assert_eq!(screen_delivery(&fresh, 0, false), Screening::RejectUnregistered);
}

#[test]
fn expired_envelope_is_nacked_without_requeue() {
    let env = envelope(0, Some(1));
    let screening = screen_delivery(&env, 10, true);
    let ev = screening_event(screening);
    assert_eq!(ev, TaskEvent::Expire);
    let (state, acks) = run(&[ev, TaskEvent::RejectExpired]);
    assert_eq!(state, TaskState::Nacked);
    assert_eq!(acks, vec![Acknowledge::NackDiscard]);
}

#[test]
fn successful_run_is_acked_exactly_once() {
    let (state, acks) = run(&[
        TaskEvent::Dispatch,
        TaskEvent::Start,
        TaskEvent::Finish(RunOutcome::Success),
        TaskEvent::AckOk,
    ]);
    assert_eq!(state, TaskState::Acked);
    assert_eq!(acks, vec![Acknowledge::Ack]);
}

#[test]
fn retried_run_acks_original_exactly_once() {
    let (state, acks) = run(&[
        TaskEvent::Dispatch,
        TaskEvent::Start,
        TaskEvent::Finish(RunOutcome::ExpectedFailure),
        TaskEvent::BudgetLeft,
        TaskEvent::Republished,
    ]);
    assert_eq!(state, TaskState::Acked);
    assert_eq!(acks, vec![Acknowledge::Ack]);
}

#[test]
fn exhausted_budget_nacks_exactly_once() {
    let (state, acks) = run(&[
        TaskEvent::Dispatch,
        TaskEvent::Start,
        TaskEvent::Finish(RunOutcome::TimedOut),
        TaskEvent::BudgetExhausted,
    ]);
    assert_eq!(state, TaskState::Nacked);
    assert_eq!(acks, vec![Acknowledge::NackDiscard]);
}

#[test]
fn no_event_leaves_a_terminal_state() {
    for ev in [
        TaskEvent::Expire,
        TaskEvent::Unknown,
        TaskEvent::Dispatch,
        TaskEvent::Start,
        TaskEvent::Finish(RunOutcome::Success),
        TaskEvent::BudgetLeft,
        TaskEvent::BudgetExhausted,
        TaskEvent::Republished,
        TaskEvent::AckOk,
        TaskEvent::RejectExpired,
        TaskEvent::Cancel,
    ] {
        assert!(step(TaskState::Acked, ev).is_none());
        assert!(step(TaskState::Nacked, ev).is_none());
    }
}

#[test]
fn retry_counts_increase_to_budget_then_terminal() {
    let p = policy();
    let mut env = envelope(0, None);
    let mut observed = vec![env.retries];
    // three failures are retried, the counts climbing 0, 1, 2, 3
    for _ in 0..3 {
        match decide_outcome(&env, &p, RunOutcome::ExpectedFailure, 1000) {
            Disposition::RetryLater { next, delay_ms } => {
                assert_eq!(delay_ms, 100);
                assert_eq!(next.retries, env.retries + 1);
                assert_eq!(next.eta, Some(1100));
                observed.push(next.retries);
                env = next;
            },
            _ => panic!("expected a retry"),
        }
    }
    assert_eq!(observed, vec![0, 1, 2, 3]);
    // the fourth failure is terminal: nacked, no further retry
    match decide_outcome(&env, &p, RunOutcome::ExpectedFailure, 1000) {
        Disposition::FailTerminal { reason } => assert_eq!(reason, RunOutcome::ExpectedFailure),
        _ => panic!("expected a terminal failure"),
    }
}

#[test]
fn success_is_acked_not_retried() {
    let env = envelope(3, None);
    match decide_outcome(&env, &policy(), RunOutcome::Success, 0) {
        Disposition::AckSuccess => {},
        _ => panic!("expected an ack"),
    }
}

#[test]
fn timeout_is_treated_as_expected_failure() {
    let env = envelope(1, None);
    let p = policy();
    let timed = decide_outcome(&env, &p, RunOutcome::TimedOut, 42);
    let expected = decide_outcome(&env, &p, RunOutcome::ExpectedFailure, 42);
    match (timed, expected) {
        (
            Disposition::RetryLater { next: a, delay_ms: da },
            Disposition::RetryLater { next: b, delay_ms: db },
        ) => {
            assert_eq!(da, db);
            assert_eq!(a.retries, b.retries);
            assert_eq!(a.eta, b.eta);
            assert_eq!(a.id, b.id);
        },
        _ => panic!("both outcomes must retry"),
    }
    // with the budget spent the timeout is terminal too
    let spent = envelope(3, None);
    match decide_outcome(&spent, &p, RunOutcome::TimedOut, 42) {
        Disposition::FailTerminal { reason } => assert_eq!(reason, RunOutcome::TimedOut),
        _ => panic!("expected a terminal failure"),
    }
}

#[test]
fn retry_keeps_identity_and_routing() {
    let env = envelope(0, Some(99999));
    match decide_outcome(&env, &policy(), RunOutcome::UnexpectedFailure, 500) {
        Disposition::RetryLater { next, .. } => {
            assert_eq!(next.id, "msg-1");
            assert_eq!(next.task, "orders.create");
            assert_eq!(next.queue, "orders_q");
            assert_eq!(next.args, vec![1, 2, 3]);
            assert_eq!(next.correlation_id, "corr-1");
            assert_eq!(next.expires_at, Some(99999));
            assert_eq!(next.retries, 1);
            assert_eq!(next.eta, Some(600));
        },
        _ => panic!("expected a retry"),
    }
}

#[test]
fn terminal_failures_are_reported_by_cause() {
    assert!(report_failure(RunOutcome::Success, "ok".to_string()).is_none());
    assert_eq!(
        report_failure(RunOutcome::ExpectedFailure, "flaky".to_string()).unwrap().kind,
        ErrorKind::ExpectedError("flaky".to_string())
    );
    assert_eq!(
        report_failure(RunOutcome::RetryRequested, "again".to_string()).unwrap().kind,
        ErrorKind::ExpectedError("again".to_string())
    );
    assert_eq!(
        report_failure(RunOutcome::UnexpectedFailure, "boom".to_string()).unwrap().kind,
        ErrorKind::UnexpectedError("boom".to_string())
    );
    assert_eq!(
        report_failure(RunOutcome::TimedOut, "slow".to_string()).unwrap().kind,
        ErrorKind::TimeoutError
    );
}

#[test]
fn default_expiry_follows_the_policy_horizon() {
    let mut p = policy();
    assert_eq!(p.default_expiry(500), None);
    p.expires_after_ms = Some(2000);
    assert_eq!(p.default_expiry(500), Some(2500));
    assert_eq!(p.default_expiry(u64::MAX - 1), Some(u64::MAX));
}

#[test]
fn eta_gates_readiness() {
    let mut env = envelope(0, None);
    env.eta = Some(1000);
    assert!(!env.is_ready(999));
    assert!(env.is_ready(1000));
    assert!(env.is_ready(5000));
    let fresh = envelope(0, None);
    assert!(fresh.is_ready(0));
}

#[test]
fn duplicate_copies_every_field() {
    let env = envelope(4, Some(77));
    let copy = env.duplicate();
    assert_eq!(copy.id, env.id);
    assert_eq!(copy.task, env.task);
    assert_eq!(copy.args, env.args);
    assert_eq!(copy.queue, env.queue);
    assert_eq!(copy.retries, env.retries);
    assert_eq!(copy.expires_at, env.expires_at);
    assert_eq!(copy.eta, env.eta);
    assert_eq!(copy.correlation_id, env.correlation_id);
}

#[test]
fn retry_eta_saturates_at_the_clock_limit() {
    let env = envelope(0, None);
    let p = TaskPolicy {
        max_retries: 3,
        backoff: BackoffPolicy::Fixed(u64::MAX),
        timeout_ms: 100,
        expires_after_ms: None,
    };
    match decide_outcome(&env, &p, RunOutcome::ExpectedFailure, u64::MAX - 5) {
        Disposition::RetryLater { next, .. } => assert_eq!(next.eta, Some(u64::MAX)),
        _ => panic!("expected a retry"),
    }
}

#[test]
fn dispatch_deadline_is_start_plus_timeout() {
    assert_eq!(dispatch_deadline(100, &policy()), 200);
    assert_eq!(dispatch_deadline(u64::MAX - 10, &policy()), u64::MAX);
}

#[test]
fn errors_wrap_kind_and_cause() {
    let e: CeleryError = ErrorKind::Retry.into();
    assert_eq!(e.kind, ErrorKind::Retry);
    assert_eq!(e.cause, None);
    assert_eq!(*e.kind(), ErrorKind::Retry);
    let e = CeleryError::with_cause(ErrorKind::SyncError, "slot 3 fell over".to_string());
    assert_eq!(e.kind, ErrorKind::SyncError);
    assert_eq!(e.cause, Some("slot 3 fell over".to_string()));
}

#[test]
fn one_full_cycle_from_receipt_to_retry_ack() {
    let env = envelope(0, None);
    let p = policy();
    // screening admits the fresh, registered envelope
    let screening = screen_delivery(&env, 50, true);
    assert_eq!(screening, Screening::Proceed);
    let mut state = TaskState::Received;
    let mut acks: Vec<Acknowledge> = Vec::new();
    for ev in [
        screening_event(screening),
        TaskEvent::Start,
        TaskEvent::Finish(RunOutcome::ExpectedFailure),
    ] {
        let (next, emitted) = step(state, ev).unwrap();
        state = next;
        if let Some(a) = emitted {
            acks.push(a);
        }
    }
    assert_eq!(state, TaskState::ExpectedFailure);
    // the decision picks the budget event, the republish settles the original
    let d = decide_outcome(&env, &p, RunOutcome::ExpectedFailure, 50);
    let budget = disposition_event(&d);
    assert_eq!(budget, TaskEvent::BudgetLeft);
    for ev in [budget, TaskEvent::Republished] {
        let (next, emitted) = step(state, ev).unwrap();
        state = next;
        if let Some(a) = emitted {
            acks.push(a);
        }
    }
    assert_eq!(state, TaskState::Acked);
    assert_eq!(acks, vec![Acknowledge::Ack]);
}

#[test]
fn slots_bound_concurrency() {
    let mut slots = ExecutionSlots::new(2);
    assert!(slots.may_pull());
    assert!(slots.acquire());
    assert!(slots.acquire());
    assert!(!slots.may_pull());
    assert!(!slots.acquire());
    slots.release();
    assert!(slots.may_pull());
    assert!(slots.acquire());
}
