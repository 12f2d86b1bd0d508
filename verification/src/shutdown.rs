//! The shutdown coordinator: drives the worker from `Running` through
//! `Draining` to `Terminated`, gracefully or forced.
//!
//! Graceful shutdown stops the pulling of new deliveries and waits for the
//! in-flight tasks up to a grace period; a task that settles in time is
//! acknowledged normally.  When the grace period elapses with tasks still
//! running, or when a forced shutdown is requested, every in-flight task's
//! cancellation handle is invoked, the outstanding envelopes are nacked with
//! requeue so another worker may pick them up, and the outcome is reported as
//! `ForcedShutdown`.

use vstd::prelude::*;

use crate::engine::{Acknowledge, TaskEvent, TaskState, spec_step};
use crate::spec_saturating_add;

verus! {

/// The phases of the worker's shutdown.
#[derive(Debug, Clone, Copy, PartialEq, Eq, Structural)]
pub enum Phase {
    /// Consuming and executing normally.
    Running,
    /// No new deliveries are pulled; in-flight tasks are awaited until the
    /// grace deadline.
    Draining,
    /// All work is settled or cancelled; the worker is done.
    Terminated,
}

/// The shutdown coordinator's state: the phase, and the grace deadline while
/// draining.
#[derive(Debug, Clone, Copy, PartialEq, Eq, Structural)]
pub struct ShutdownState {
    pub phase: Phase,
    /// The moment the grace period elapses; present exactly while draining.
    pub deadline: Option<u64>,
}

impl ShutdownState {
    /// The deadline is carried exactly while draining.
    pub open spec fn wf(&self) -> bool {
        (self.deadline is Some) <==> (self.phase == Phase::Draining)
    }

    /// Whether the consume loop may still pull new deliveries.
    pub open spec fn spec_may_consume(&self) -> bool {
        self.phase == Phase::Running
    }

    /// A worker that has just started.
    pub fn new() -> (r: ShutdownState)
        ensures
            r.wf(),
            r.phase == Phase::Running,
    {
        ShutdownState { phase: Phase::Running, deadline: None }
    }

    /// Whether the consume loop may still pull new deliveries.
    pub fn may_consume(&self) -> (r: bool)
        ensures
            r == self.spec_may_consume(),
    {
        match self.phase {
            Phase::Running => true,
            _ => false,
        }
    }
}

/// The coordinator's answer to a shutdown request or to the grace deadline:
/// whether every in-flight task is now to be cancelled, its envelope nacked
/// with requeue, and the outcome reported as `ForcedShutdown`.
pub open spec fn spec_request_shutdown(
    s: ShutdownState,
    now: u64,
    grace_ms: u64,
    forced: bool,
    in_flight: usize,
) -> (ShutdownState, bool) {
    if forced {
        (ShutdownState { phase: Phase::Terminated, deadline: None }, in_flight > 0)
    } else if s.phase == Phase::Running {
        if in_flight == 0 {
            (ShutdownState { phase: Phase::Terminated, deadline: None }, false)
        } else {
            (
                ShutdownState {
                    phase: Phase::Draining,
                    deadline: Some(spec_saturating_add(now, grace_ms)),
                },
                false,
            )
        }
    } else {
        (s, false)
    }
}

/// The coordinator's transition when an in-flight task settles, leaving
/// `remaining` tasks in flight.
pub open spec fn spec_task_settled(s: ShutdownState, remaining: usize) -> ShutdownState {
    if s.phase == Phase::Draining && remaining == 0 {
        ShutdownState { phase: Phase::Terminated, deadline: None }
    } else {
        s
    }
}

/// The coordinator's transition when the clock reaches `now`: the grace
/// deadline elapsing while tasks are still in flight forces cancellation.
pub open spec fn spec_tick(s: ShutdownState, now: u64, in_flight: usize) -> (ShutdownState, bool) {
    if s.phase == Phase::Draining && (s.deadline matches Some(d) && d <= now) {
        (ShutdownState { phase: Phase::Terminated, deadline: None }, in_flight > 0)
    } else {
        (s, false)
    }
}

impl ShutdownState {
    /// Request shutdown.  Forced shutdown short-circuits draining: the
    /// worker terminates at once and every in-flight task is cancelled.  A
    /// graceful request with nothing in flight terminates at once with
    /// nothing cancelled; otherwise the worker drains until the grace
    /// deadline `now + grace_ms`.
    ///
    /// Returns whether the in-flight tasks are now to be cancelled, their
    /// envelopes nacked with requeue, and `ForcedShutdown` reported.
    pub fn request_shutdown(
        &mut self,
        now: u64,
        grace_ms: u64,
        forced: bool,
        in_flight: usize,
    ) -> (cancel: bool)
        requires
            old(self).wf(),
        ensures
            final(self).wf(),
            (*final(self), cancel) == spec_request_shutdown(
                *old(self),
                now,
                grace_ms,
                forced,
                in_flight,
            ),
    {
        if forced {
            self.phase = Phase::Terminated;
            self.deadline = None;
            in_flight > 0
        } else if self.may_consume() {
            if in_flight == 0 {
                self.phase = Phase::Terminated;
                self.deadline = None;
            } else {
                self.phase = Phase::Draining;
                self.deadline = Some(crate::saturating_add_u64(now, grace_ms));
            }
            false
        } else {
            false
        }
    }

    /// Record that an in-flight task settled, leaving `remaining` in flight.
    /// While draining, the last task settling terminates the worker — before
    /// the grace deadline, with nothing cancelled.
    pub fn task_settled(&mut self, remaining: usize)
        requires
            old(self).wf(),
        ensures
            final(self).wf(),
            *final(self) == spec_task_settled(*old(self), remaining),
    {
        let draining = match self.phase {
            Phase::Draining => true,
            _ => false,
        };
        if draining && remaining == 0 {
            self.phase = Phase::Terminated;
            self.deadline = None;
        }
    }

    /// Observe the clock.  While draining, the grace deadline elapsing with
    /// tasks still in flight cancels them all.
    ///
    /// Returns whether the in-flight tasks are now to be cancelled, their
    /// envelopes nacked with requeue, and `ForcedShutdown` reported.
    pub fn tick(&mut self, now: u64, in_flight: usize) -> (cancel: bool)
        requires
            old(self).wf(),
        ensures
            final(self).wf(),
            (*final(self), cancel) == spec_tick(*old(self), now, in_flight),
    {
        let due = match self.phase {
            Phase::Draining => match self.deadline {
                Some(d) => d <= now,
                None => false,
            },
            _ => false,
        };
        if due {
            self.phase = Phase::Terminated;
            self.deadline = None;
            in_flight > 0
        } else {
            false
        }
    }
}

/// The worker's control surface: the execution-slot pool and the shutdown
/// coordinator together.  The coordinator observes the in-flight count; the
/// consume loop pulls a new delivery only while the worker is running and a
/// slot is free.
#[derive(Debug, Clone, Copy, PartialEq, Eq, Structural)]
pub struct WorkerControl {
    pub slots: crate::engine::ExecutionSlots,
    pub coordinator: ShutdownState,
}

impl WorkerControl {
    pub open spec fn wf(&self) -> bool {
        self.slots.wf() && self.coordinator.wf()
    }

    /// Start a worker with the given concurrency bound.
    pub fn start(concurrency: usize) -> (r: WorkerControl)
        ensures
            r.wf(),
            r.slots.capacity == concurrency,
            r.slots.in_flight == 0,
            r.coordinator.phase == Phase::Running,
    {
        WorkerControl {
            slots: crate::engine::ExecutionSlots::new(concurrency),
            coordinator: ShutdownState::new(),
        }
    }

    /// Whether the consume loop may pull another delivery: only while
    /// running, and only into a free slot.
    pub fn may_pull(&self) -> (r: bool)
        ensures
            r == (self.coordinator.spec_may_consume() && self.slots.in_flight
                < self.slots.capacity),
    {
        self.coordinator.may_consume() && self.slots.may_pull()
    }

    /// Take a slot for a dispatched envelope.
    pub fn dispatch(&mut self) -> (r: bool)
        requires
            old(self).wf(),
        ensures
            final(self).wf(),
            final(self).coordinator == old(self).coordinator,
            final(self).slots.capacity == old(self).slots.capacity,
            r == (old(self).slots.in_flight < old(self).slots.capacity),
            r ==> final(self).slots.in_flight == old(self).slots.in_flight + 1,
            !r ==> final(self).slots.in_flight == old(self).slots.in_flight,
    {
        self.slots.acquire()
    }

    /// Record that an in-flight envelope reached a terminal state: its slot
    /// is freed and the coordinator observes the new in-flight count.
    pub fn settle(&mut self)
        requires
            old(self).wf(),
            old(self).slots.in_flight > 0,
        ensures
            final(self).wf(),
            final(self).slots.capacity == old(self).slots.capacity,
            final(self).slots.in_flight == old(self).slots.in_flight - 1,
            final(self).coordinator == spec_task_settled(
                old(self).coordinator,
                (old(self).slots.in_flight - 1) as usize,
            ),
    {
        self.slots.release();
        self.coordinator.task_settled(self.slots.in_flight);
    }

    /// Request shutdown; see [`ShutdownState::request_shutdown`].
    pub fn shutdown(&mut self, now: u64, grace_ms: u64, forced: bool) -> (cancel: bool)
        requires
            old(self).wf(),
        ensures
            final(self).wf(),
            final(self).slots == old(self).slots,
            (final(self).coordinator, cancel) == spec_request_shutdown(
                old(self).coordinator,
                now,
                grace_ms,
                forced,
                old(self).slots.in_flight,
            ),
    {
        self.coordinator.request_shutdown(now, grace_ms, forced, self.slots.in_flight)
    }

    /// Observe the clock; see [`ShutdownState::tick`].
    pub fn tick(&mut self, now: u64) -> (cancel: bool)
        requires
            old(self).wf(),
        ensures
            final(self).wf(),
            final(self).slots == old(self).slots,
            (final(self).coordinator, cancel) == spec_tick(
                old(self).coordinator,
                now,
                old(self).slots.in_flight,
            ),
    {
        self.coordinator.tick(now, self.slots.in_flight)
    }
}

/// Graceful shutdown lets in-flight work finish: a graceful request with
/// tasks in flight drains without cancelling anything, and the moment the
/// last task settles — however early before the grace deadline — the worker
/// is terminated, still without cancelling anything.  The settled task's
/// outcome is acknowledged normally.
pub proof fn lemma_graceful_shutdown_waits(s: ShutdownState, now: u64, grace_ms: u64, n: usize)
    requires
        s.wf(),
        s.phase == Phase::Running,
        n > 0,
    ensures
        ({
            let (s1, cancel1) = spec_request_shutdown(s, now, grace_ms, false, n);
            &&& !cancel1
            &&& s1.phase == Phase::Draining
            &&& s1.deadline == Some(spec_saturating_add(now, grace_ms))
            &&& !s1.spec_may_consume()
            &&& spec_task_settled(s1, 0).phase == Phase::Terminated
        }),
{
}

/// Forced shutdown cancels at once: under `forced = true` a running worker
/// with tasks in flight terminates immediately and the tasks are cancelled;
/// a cancelled run's envelope is nacked with requeue, handing the delivery
/// back to the broker for redelivery.
pub proof fn lemma_forced_shutdown_cancels(s: ShutdownState, now: u64, grace_ms: u64, n: usize)
    requires
        s.wf(),
        n > 0,
    ensures
        ({
            let (s1, cancel1) = spec_request_shutdown(s, now, grace_ms, true, n);
            &&& cancel1
            &&& s1.phase == Phase::Terminated
        }),
        spec_step(TaskState::Running, TaskEvent::Cancel) == Some(
            (TaskState::Nacked, Some(Acknowledge::NackRequeue)),
        ),
        spec_step(TaskState::Dispatched, TaskEvent::Cancel) == Some(
            (TaskState::Nacked, Some(Acknowledge::NackRequeue)),
        ),
{
}

/// The grace deadline elapsing with tasks still in flight forces
/// cancellation, exactly as a forced request would.
pub proof fn lemma_grace_elapsed_cancels(s: ShutdownState, now: u64, n: usize)
    requires
        s.wf(),
        s.phase == Phase::Draining,
        s.deadline matches Some(d) && d <= now,
        n > 0,
    ensures
        ({
            let (s1, cancel1) = spec_tick(s, now, n);
            &&& cancel1
            &&& s1.phase == Phase::Terminated
        }),
{
}

} // verus!
