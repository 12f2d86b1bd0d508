//! The execution engine's decision core: the per-envelope state machine.
//!
//! Per envelope the lifecycle is
//! `Received -> Dispatched -> Running -> {Succeeded | ExpectedFailure |
//! UnexpectedFailure | TimedOut | Expired} -> {Acked | Retrying | Nacked}`.
//!
//! The engine decides; the embedding application performs the broker I/O and
//! the handler invocation, and feeds the resulting events back in.  Every
//! decision is a function from plain values to plain values and is verified:
//! expiry screening, handler lookup screening, the retry-or-fail decision
//! with its backoff, and the acknowledgment emitted on each terminal
//! transition.

use vstd::prelude::*;

use crate::envelope::{Envelope, EnvelopeView, spec_expired, spec_retried};
use crate::registry::{TaskPolicy, spec_backoff};

verus! {

/// The outcome of one run of a handler, as reported by the embedding
/// application: success, a failure the task marked expected, a failure it
/// marked unexpected, an explicit request to retry, or the run exceeding its
/// deadline.
#[derive(Debug, Clone, Copy, PartialEq, Eq, Structural)]
pub enum RunOutcome {
    Success,
    ExpectedFailure,
    UnexpectedFailure,
    RetryRequested,
    TimedOut,
}

/// The acknowledgment the engine emits towards the broker for one delivery.
#[derive(Debug, Clone, Copy, PartialEq, Eq, Structural)]
pub enum Acknowledge {
    /// The delivery is settled; discard it.
    Ack,
    /// Return the delivery to the broker for redelivery to another worker.
    NackRequeue,
    /// Reject the delivery without redelivery.
    NackDiscard,
}

/// The states of one envelope's lifecycle inside the engine.
#[derive(Debug, Clone, Copy, PartialEq, Eq, Structural)]
pub enum TaskState {
    Received,
    Dispatched,
    Running,
    Succeeded,
    ExpectedFailure,
    UnexpectedFailure,
    TimedOut,
    Expired,
    Acked,
    Retrying,
    Nacked,
}

/// The events that drive one envelope's lifecycle.
#[derive(Debug, Clone, Copy, PartialEq, Eq, Structural)]
pub enum TaskEvent {
    /// The expiry moment had been reached when the envelope was received.
    Expire,
    /// No task is registered under the envelope's name.
    Unknown,
    /// The envelope passed screening and is handed to a worker slot.
    Dispatch,
    /// The handler was invoked.
    Start,
    /// The handler's run resolved with the given outcome.
    Finish(RunOutcome),
    /// The retry budget still has room for another attempt.
    BudgetLeft,
    /// The retry budget is spent; the failure is terminal.
    BudgetExhausted,
    /// The retry envelope was published; the original can be settled.
    Republished,
    /// A successful run is settled.
    AckOk,
    /// An expired envelope is rejected.
    RejectExpired,
    /// The run was cancelled by a forced shutdown.
    Cancel,
}

/// The lifecycle state a finished run resolves to.  An explicit retry
/// request is treated exactly as an expected failure.
pub open spec fn outcome_state(o: RunOutcome) -> TaskState {
    match o {
        RunOutcome::Success => TaskState::Succeeded,
        RunOutcome::ExpectedFailure => TaskState::ExpectedFailure,
        RunOutcome::RetryRequested => TaskState::ExpectedFailure,
        RunOutcome::UnexpectedFailure => TaskState::UnexpectedFailure,
        RunOutcome::TimedOut => TaskState::TimedOut,
    }
}

/// A state from which the envelope's delivery has been settled: exactly the
/// states entered by emitting an acknowledgment.
pub open spec fn is_terminal(s: TaskState) -> bool {
    s == TaskState::Acked || s == TaskState::Nacked
}

/// Whether `s` is one of the three failure-outcome states awaiting the retry
/// decision.
pub open spec fn is_failure_state(s: TaskState) -> bool {
    s == TaskState::ExpectedFailure || s == TaskState::UnexpectedFailure || s
        == TaskState::TimedOut
}

/// One transition of the lifecycle: the next state, and the acknowledgment
/// emitted on the transition, if any.  `None` for an event that is not valid
/// in the state.  No transition leaves a terminal state, and an
/// acknowledgment is emitted exactly on the transitions into a terminal
/// state.
pub open spec fn spec_step(s: TaskState, ev: TaskEvent) -> Option<(TaskState, Option<Acknowledge>)> {
    match (s, ev) {
        (TaskState::Received, TaskEvent::Expire) => Some((TaskState::Expired, None)),
        (TaskState::Received, TaskEvent::Unknown) => Some(
            (TaskState::Nacked, Some(Acknowledge::NackDiscard)),
        ),
        (TaskState::Received, TaskEvent::Dispatch) => Some((TaskState::Dispatched, None)),
        (TaskState::Dispatched, TaskEvent::Start) => Some((TaskState::Running, None)),
        (TaskState::Dispatched, TaskEvent::Cancel) => Some(
            (TaskState::Nacked, Some(Acknowledge::NackRequeue)),
        ),
        (TaskState::Running, TaskEvent::Finish(o)) => Some((outcome_state(o), None)),
        (TaskState::Running, TaskEvent::Cancel) => Some(
            (TaskState::Nacked, Some(Acknowledge::NackRequeue)),
        ),
        (TaskState::Succeeded, TaskEvent::AckOk) => Some(
            (TaskState::Acked, Some(Acknowledge::Ack)),
        ),
        (TaskState::Expired, TaskEvent::RejectExpired) => Some(
            (TaskState::Nacked, Some(Acknowledge::NackDiscard)),
        ),
        (TaskState::Retrying, TaskEvent::Republished) => Some(
            (TaskState::Acked, Some(Acknowledge::Ack)),
        ),
        (s, TaskEvent::BudgetLeft) => if is_failure_state(s) {
            Some((TaskState::Retrying, None))
        } else {
            None
        },
        (s, TaskEvent::BudgetExhausted) => if is_failure_state(s) {
            Some((TaskState::Nacked, Some(Acknowledge::NackDiscard)))
        } else {
            None
        },
        _ => None,
    }
}

/// Executable mirror of [`spec_step`], for the embedding application to track
/// lifecycle states at run time.
pub fn step(s: TaskState, ev: TaskEvent) -> (r: Option<(TaskState, Option<Acknowledge>)>)
    ensures
        r == spec_step(s, ev),
{
    match (s, ev) {
        (TaskState::Received, TaskEvent::Expire) => Some((TaskState::Expired, None)),
        (TaskState::Received, TaskEvent::Unknown) => Some(
            (TaskState::Nacked, Some(Acknowledge::NackDiscard)),
        ),
        (TaskState::Received, TaskEvent::Dispatch) => Some((TaskState::Dispatched, None)),
        (TaskState::Dispatched, TaskEvent::Start) => Some((TaskState::Running, None)),
        (TaskState::Dispatched, TaskEvent::Cancel) => Some(
            (TaskState::Nacked, Some(Acknowledge::NackRequeue)),
        ),
        (TaskState::Running, TaskEvent::Finish(o)) => {
            let t = match o {
                RunOutcome::Success => TaskState::Succeeded,
                RunOutcome::ExpectedFailure => TaskState::ExpectedFailure,
                RunOutcome::RetryRequested => TaskState::ExpectedFailure,
                RunOutcome::UnexpectedFailure => TaskState::UnexpectedFailure,
                RunOutcome::TimedOut => TaskState::TimedOut,
            };
            Some((t, None))
        },
        (TaskState::Running, TaskEvent::Cancel) => Some(
            (TaskState::Nacked, Some(Acknowledge::NackRequeue)),
        ),
        (TaskState::Succeeded, TaskEvent::AckOk) => Some(
            (TaskState::Acked, Some(Acknowledge::Ack)),
        ),
        (TaskState::Expired, TaskEvent::RejectExpired) => Some(
            (TaskState::Nacked, Some(Acknowledge::NackDiscard)),
        ),
        (TaskState::Retrying, TaskEvent::Republished) => Some(
            (TaskState::Acked, Some(Acknowledge::Ack)),
        ),
        (
            TaskState::ExpectedFailure
            | TaskState::UnexpectedFailure
            | TaskState::TimedOut,
            TaskEvent::BudgetLeft,
        ) => Some((TaskState::Retrying, None)),
        (
            TaskState::ExpectedFailure
            | TaskState::UnexpectedFailure
            | TaskState::TimedOut,
            TaskEvent::BudgetExhausted,
        ) => Some((TaskState::Nacked, Some(Acknowledge::NackDiscard))),
        _ => None,
    }
}

/// Run the lifecycle over a sequence of events: the final state and the
/// number of acknowledgments emitted on the way, or `None` if some event is
/// not valid in its state.
pub open spec fn spec_run(s: TaskState, evs: Seq<TaskEvent>) -> Option<(TaskState, nat)>
    decreases evs.len(),
{
    if evs.len() == 0 {
        Some((s, 0))
    } else {
        match spec_step(s, evs[0]) {
            None => None,
            Some((s1, em)) => match spec_run(s1, evs.skip(1)) {
                None => None,
                Some((t, n)) => Some(
                    (
                        t,
                        (n + (if em is Some {
                            1nat
                        } else {
                            0nat
                        })) as nat,
                    ),
                ),
            },
        }
    }
}

/// An acknowledgment is emitted exactly on the transitions into a terminal
/// state, and no transition leaves a terminal state.
pub proof fn lemma_step_emission(s: TaskState, ev: TaskEvent)
    ensures
        spec_step(s, ev) matches Some(t) ==> ((t.1 is Some) <==> is_terminal(t.0)),
        is_terminal(s) ==> spec_step(s, ev) is None,
{
}

/// Exactly-once acknowledgment: along any valid run from a non-terminal
/// state, exactly one acknowledgment is emitted if the run reaches a
/// terminal state, and none before.  Each emission is a single
/// [`Acknowledge`] value, so for every envelope exactly one of ack / nack is
/// observed on its delivery tag — never both, never neither — across the
/// success, failure, timeout and forced-shutdown paths.
pub proof fn lemma_exactly_once_ack(s: TaskState, evs: Seq<TaskEvent>)
    requires
        !is_terminal(s),
        spec_run(s, evs) is Some,
    ensures
        spec_run(s, evs) matches Some(r) ==> r.1 == (if is_terminal(r.0) {
            1nat
        } else {
            0nat
        }),
    decreases evs.len(),
{
    if evs.len() == 0 {
    } else {
        let (s1, em) = spec_step(s, evs[0]).unwrap();
        lemma_step_emission(s, evs[0]);
        if is_terminal(s1) {
            // no step leaves s1, so the rest of the run must be empty
            if evs.skip(1).len() != 0 {
                lemma_step_emission(s1, evs.skip(1)[0]);
                assert(spec_run(s1, evs.skip(1)) is None);
            }
        } else {
            lemma_exactly_once_ack(s1, evs.skip(1));
        }
    }
}

/// The states reachable along a run, including the start state.
pub open spec fn spec_visits(s: TaskState, evs: Seq<TaskEvent>, t: TaskState) -> bool
    decreases evs.len(),
{
    s == t || (evs.len() > 0 && match spec_step(s, evs[0]) {
        None => false,
        Some(st) => spec_visits(st.0, evs.skip(1), t),
    })
}

/// An envelope that reaches the `Expired` state is never run: no sequence of
/// events leads from `Expired` to `Running`, so an envelope whose expiry
/// moment has passed at dispatch time is never passed to a handler.
pub proof fn lemma_expired_never_runs(evs: Seq<TaskEvent>)
    ensures
        !spec_visits(TaskState::Expired, evs, TaskState::Running),
    decreases evs.len(),
{
    if evs.len() > 0 {
        match spec_step(TaskState::Expired, evs[0]) {
            None => {},
            Some(st) => {
                assert(st.0 == TaskState::Nacked);
                lemma_nacked_stuck(evs.skip(1));
                assert(!spec_visits(TaskState::Nacked, evs.skip(1), TaskState::Running));
            },
        }
    }
}

/// From the `Nacked` state nothing is reachable but `Nacked` itself.
pub proof fn lemma_nacked_stuck(evs: Seq<TaskEvent>)
    ensures
        forall|t: TaskState|
            spec_visits(TaskState::Nacked, evs, t) ==> t == TaskState::Nacked,
    decreases evs.len(),
{
}

/// What the engine does with an envelope on receipt, before any dispatch.
#[derive(Debug, Clone, Copy, PartialEq, Eq, Structural)]
pub enum Screening {
    /// Hand the envelope to a worker slot.
    Proceed,
    /// The expiry moment has been reached: reject without redelivery and
    /// report `TaskExpiredError`.
    RejectExpired,
    /// No task is registered under the envelope's name: reject without
    /// redelivery and report `UnregisteredTaskError`.
    RejectUnregistered,
}

/// Screen an envelope on receipt.  Expiry is checked first: an envelope
/// whose expiry moment has been reached at time `now` is never dispatched,
/// whether or not its task is registered.
pub fn screen_delivery(env: &Envelope, now: u64, registered: bool) -> (r: Screening)
    ensures
        spec_expired(env@, now) ==> r == Screening::RejectExpired,
        !spec_expired(env@, now) && !registered ==> r == Screening::RejectUnregistered,
        !spec_expired(env@, now) && registered ==> r == Screening::Proceed,
{
    if env.is_expired(now) {
        Screening::RejectExpired
    } else if !registered {
        Screening::RejectUnregistered
    } else {
        Screening::Proceed
    }
}

/// The lifecycle event that a screening decision feeds into the state
/// machine.
pub fn screening_event(s: Screening) -> (ev: TaskEvent)
    ensures
        s == Screening::Proceed ==> ev == TaskEvent::Dispatch,
        s == Screening::RejectExpired ==> ev == TaskEvent::Expire,
        s == Screening::RejectUnregistered ==> ev == TaskEvent::Unknown,
{
    match s {
        Screening::Proceed => TaskEvent::Dispatch,
        Screening::RejectExpired => TaskEvent::Expire,
        Screening::RejectUnregistered => TaskEvent::Unknown,
    }
}

/// The deadline of one run dispatched at `now` under `policy`.
pub fn dispatch_deadline(now: u64, policy: &TaskPolicy) -> (r: u64)
    ensures
        r == crate::spec_saturating_add(now, policy.timeout_ms),
{
    crate::saturating_add_u64(now, policy.timeout_ms)
}

/// The mathematical value of a [`Disposition`].
pub ghost enum DispositionV {
    AckSuccess,
    RetryLater { next: EnvelopeView, delay_ms: u64 },
    FailTerminal { reason: RunOutcome },
}

/// What the engine decides once a run has resolved.
#[derive(Debug)]
pub enum Disposition {
    /// The run succeeded: ack the delivery and discard the envelope.
    AckSuccess,
    /// Retry: publish `next` (the same message with the retry count
    /// incremented and an eta `delay_ms` from now), then ack the original
    /// delivery.  The retry is a new message, not a requeue-in-place.
    RetryLater { next: Envelope, delay_ms: u64 },
    /// The retry budget is spent: nack the delivery without redelivery and
    /// report the reason as a terminal failure.
    FailTerminal { reason: RunOutcome },
}

impl View for Disposition {
    type V = DispositionV;

    open spec fn view(&self) -> DispositionV {
        match *self {
            Disposition::AckSuccess => DispositionV::AckSuccess,
            Disposition::RetryLater { next, delay_ms } => DispositionV::RetryLater {
                next: next@,
                delay_ms,
            },
            Disposition::FailTerminal { reason } => DispositionV::FailTerminal { reason },
        }
    }
}

/// The lifecycle event that a disposition feeds into the state machine once
/// the run has finished: a success is settled, a retry enters the
/// republish path, a terminal failure spends the budget.
pub fn disposition_event(d: &Disposition) -> (ev: TaskEvent)
    ensures
        (d is AckSuccess) ==> ev == TaskEvent::AckOk,
        (d is RetryLater) ==> ev == TaskEvent::BudgetLeft,
        (d is FailTerminal) ==> ev == TaskEvent::BudgetExhausted,
{
    match d {
        Disposition::AckSuccess => TaskEvent::AckOk,
        Disposition::RetryLater { .. } => TaskEvent::BudgetLeft,
        Disposition::FailTerminal { .. } => TaskEvent::BudgetExhausted,
    }
}

/// The engine's retry-or-fail decision.  A failed run (expected failure,
/// unexpected failure, explicit retry request, or timeout) is retried while
/// the envelope's retry count is under the task's budget; the attempt's
/// backoff delay becomes the retry's eta.  Beyond the budget the failure is
/// terminal.
pub open spec fn spec_decide(e: EnvelopeView, p: TaskPolicy, o: RunOutcome, now: u64) -> DispositionV {
    if o == RunOutcome::Success {
        DispositionV::AckSuccess
    } else if e.retries < p.max_retries {
        let delay = spec_backoff(p.backoff, (e.retries + 1) as u32) as u64;
        DispositionV::RetryLater { next: spec_retried(e, now, delay), delay_ms: delay }
    } else {
        DispositionV::FailTerminal { reason: o }
    }
}

/// Decide what to do with an envelope whose run resolved with outcome `o` at
/// time `now`.
pub fn decide_outcome(env: &Envelope, p: &TaskPolicy, o: RunOutcome, now: u64) -> (d: Disposition)
    ensures
        d@ == spec_decide(env@, *p, o, now),
{
    match o {
        RunOutcome::Success => Disposition::AckSuccess,
        _ => {
            if env.retries < p.max_retries {
                let delay = p.backoff.delay_for(env.retries + 1);
                Disposition::RetryLater { next: env.for_retry(now, delay), delay_ms: delay }
            } else {
                Disposition::FailTerminal { reason: o }
            }
        },
    }
}

/// A timeout is treated identically to an expected failure: under a
/// remaining budget both produce the same retry envelope with the same
/// delay, and with the budget spent both are terminal.
pub proof fn lemma_timeout_like_expected_failure(e: EnvelopeView, p: TaskPolicy, now: u64)
    ensures
        e.retries < p.max_retries ==> spec_decide(e, p, RunOutcome::TimedOut, now) == spec_decide(
            e,
            p,
            RunOutcome::ExpectedFailure,
            now,
        ),
        e.retries >= p.max_retries ==> spec_decide(e, p, RunOutcome::TimedOut, now)
            == (DispositionV::FailTerminal { reason: RunOutcome::TimedOut }),
{
}

/// The envelope in flight after `k` failed rounds, each resolved with
/// outcome `o` at time `now`: each round under budget replaces the envelope
/// by its retry.
pub open spec fn spec_retry_chain(
    e: EnvelopeView,
    p: TaskPolicy,
    o: RunOutcome,
    now: u64,
    k: nat,
) -> EnvelopeView
    decreases k,
{
    if k == 0 {
        e
    } else {
        let prev = spec_retry_chain(e, p, o, now, (k - 1) as nat);
        match spec_decide(prev, p, o, now) {
            DispositionV::RetryLater { next, delay_ms } => next,
            _ => prev,
        }
    }
}

/// Retry monotonicity: starting from a fresh envelope (retry count 0) that
/// keeps failing, the retry counts observed are `0, 1, ..., max_retries` in
/// order, and the failure of the round run with count `max_retries` is
/// terminal: nacked, no further retry published.
pub proof fn lemma_retry_counts(e: EnvelopeView, p: TaskPolicy, o: RunOutcome, now: u64, k: nat)
    requires
        o != RunOutcome::Success,
        e.retries == 0,
        k <= p.max_retries,
    ensures
        spec_retry_chain(e, p, o, now, k).retries == k,
        k == p.max_retries ==> spec_decide(spec_retry_chain(e, p, o, now, k), p, o, now)
            == (DispositionV::FailTerminal { reason: o }),
    decreases k,
{
    if k > 0 {
        lemma_retry_counts(e, p, o, now, (k - 1) as nat);
    }
}

/// The error reported for a terminal failure, by the outcome that caused
/// it: an expected failure or an exhausted explicit retry carries the
/// handler's message as `ExpectedError`, an unexpected failure as
/// `UnexpectedError`, and a timeout is `TimeoutError`.  A successful run
/// reports nothing.
pub fn report_failure(reason: RunOutcome, detail: String) -> (r: Option<
    crate::error::CeleryError,
>)
    ensures
        (reason == RunOutcome::Success) <==> (r is None),
        reason == RunOutcome::ExpectedFailure ==> (r matches Some(e) && (
        e.kind matches crate::error::ErrorKind::ExpectedError(m) && m@ == detail@)),
        reason == RunOutcome::RetryRequested ==> (r matches Some(e) && (
        e.kind matches crate::error::ErrorKind::ExpectedError(m) && m@ == detail@)),
        reason == RunOutcome::UnexpectedFailure ==> (r matches Some(e) && (
        e.kind matches crate::error::ErrorKind::UnexpectedError(m) && m@ == detail@)),
        reason == RunOutcome::TimedOut ==> (r matches Some(e) && e.kind
            == crate::error::ErrorKind::TimeoutError),
{
    match reason {
        RunOutcome::Success => None,
        RunOutcome::ExpectedFailure => Some(
            crate::error::CeleryError::new(crate::error::ErrorKind::ExpectedError(detail)),
        ),
        RunOutcome::RetryRequested => Some(
            crate::error::CeleryError::new(crate::error::ErrorKind::ExpectedError(detail)),
        ),
        RunOutcome::UnexpectedFailure => Some(
            crate::error::CeleryError::new(crate::error::ErrorKind::UnexpectedError(detail)),
        ),
        RunOutcome::TimedOut => Some(
            crate::error::CeleryError::new(crate::error::ErrorKind::TimeoutError),
        ),
    }
}

/// The fixed pool of execution slots: the engine's backpressure.  A new
/// delivery is pulled from the broker only while a slot is free, so at most
/// `capacity` tasks are ever in flight.
#[derive(Debug, Clone, Copy, PartialEq, Eq, Structural)]
pub struct ExecutionSlots {
    pub capacity: usize,
    pub in_flight: usize,
}

impl ExecutionSlots {
    /// No more tasks in flight than the pool has slots.
    pub open spec fn wf(&self) -> bool {
        self.in_flight <= self.capacity
    }

    /// A fresh pool of `capacity` slots, none taken.
    pub fn new(capacity: usize) -> (r: ExecutionSlots)
        ensures
            r.wf(),
            r.capacity == capacity,
            r.in_flight == 0,
    {
        ExecutionSlots { capacity, in_flight: 0 }
    }

    /// Whether the consume loop may pull another delivery.
    pub fn may_pull(&self) -> (r: bool)
        ensures
            r == (self.in_flight < self.capacity),
    {
        self.in_flight < self.capacity
    }

    /// Take a slot for a dispatched envelope.
    pub fn acquire(&mut self) -> (r: bool)
        requires
            old(self).wf(),
        ensures
            final(self).wf(),
            final(self).capacity == old(self).capacity,
            r == (old(self).in_flight < old(self).capacity),
            r ==> final(self).in_flight == old(self).in_flight + 1,
            !r ==> final(self).in_flight == old(self).in_flight,
    {
        if self.in_flight < self.capacity {
            self.in_flight = self.in_flight + 1;
            true
        } else {
            false
        }
    }

    /// Release the slot of an envelope that reached a terminal state.
    pub fn release(&mut self)
        requires
            old(self).wf(),
            old(self).in_flight > 0,
        ensures
            final(self).wf(),
            final(self).capacity == old(self).capacity,
            final(self).in_flight == old(self).in_flight - 1,
    {
        self.in_flight = self.in_flight - 1;
    }
}

} // verus!
