//! The task registry: maps a task name to its handler capability and its
//! execution policy (retry budget, backoff, timeout, expiration horizon).
//!
//! A name can be registered once; registration of a duplicate fails with
//! `TaskAlreadyExists`, and lookup of an unregistered name fails with
//! `UnregisteredTaskError` — a normal outcome for a misrouted task, not a
//! crash.  The registry is built at startup and read-only while the worker
//! runs.

use vstd::prelude::*;

use crate::error::{CeleryError, ErrorKind};

verus! {

/// The backoff policy of a task: a function from the attempt number (the
/// retry count of the attempt being scheduled) to a delay in milliseconds.
#[derive(Debug, Clone, Copy, PartialEq, Eq, Structural)]
pub enum BackoffPolicy {
    /// The same delay for every attempt.
    Fixed(u64),
    /// Delay grows linearly: `step_ms * attempt`, saturating.
    Linear(u64),
    /// Delay doubles with each attempt: `base_ms * 2^attempt`, capped.
    Exponential { base_ms: u64, cap_ms: u64 },
}

/// The smaller of `x` and `cap`.
pub open spec fn capped(x: int, cap: int) -> int {
    if x <= cap {
        x
    } else {
        cap
    }
}

/// The delay in milliseconds that a backoff policy assigns to an attempt.
pub open spec fn spec_backoff(b: BackoffPolicy, attempt: u32) -> int {
    match b {
        BackoffPolicy::Fixed(d) => d as int,
        BackoffPolicy::Linear(step) => capped(step * attempt, u64::MAX as int),
        BackoffPolicy::Exponential { base_ms, cap_ms } => capped(
            base_ms * vstd::arithmetic::power2::pow2(attempt as nat),
            cap_ms as int,
        ),
    }
}

impl BackoffPolicy {
    /// Compute the delay before the given attempt.
    pub fn delay_for(&self, attempt: u32) -> (r: u64)
        ensures
            r == spec_backoff(*self, attempt),
    {
        match *self {
            BackoffPolicy::Fixed(d) => d,
            BackoffPolicy::Linear(step) => {
                proof {
                    assert(step * attempt < u128::MAX) by (nonlinear_arith)
                        requires
                            step <= u64::MAX,
                            attempt <= u32::MAX,
                    ;
                }
                let wide: u128 = (step as u128) * (attempt as u128);
                if wide <= u64::MAX as u128 {
                    wide as u64
                } else {
                    u64::MAX
                }
            },
            BackoffPolicy::Exponential { base_ms, cap_ms } => {
                exponential_delay(base_ms, cap_ms, attempt)
            },
        }
    }
}

/// `base_ms * 2^attempt`, capped at `cap_ms`.
fn exponential_delay(base_ms: u64, cap_ms: u64, attempt: u32) -> (r: u64)
    ensures
        r == capped(base_ms * vstd::arithmetic::power2::pow2(attempt as nat), cap_ms as int),
{
    proof {
        vstd::arithmetic::power2::lemma_pow2_pos(attempt as nat);
    }
    if base_ms == 0 {
        return 0;
    }
    let mut d: u64 = if base_ms > cap_ms {
        cap_ms
    } else {
        base_ms
    };
    let mut i: u32 = 0;
    proof {
        vstd::arithmetic::power2::lemma2_to64();
    }
    while i < attempt
        invariant
            i <= attempt,
            base_ms >= 1,
            d == capped(base_ms * vstd::arithmetic::power2::pow2(i as nat), cap_ms as int),
        decreases attempt - i,
    {
        proof {
            vstd::arithmetic::power2::lemma_pow2_unfold((i + 1) as nat);
            assert(base_ms * vstd::arithmetic::power2::pow2((i + 1) as nat) == 2 * (base_ms
                * vstd::arithmetic::power2::pow2(i as nat))) by (nonlinear_arith)
                requires
                    vstd::arithmetic::power2::pow2((i + 1) as nat) == 2
                        * vstd::arithmetic::power2::pow2(i as nat),
            ;
            vstd::arithmetic::power2::lemma_pow2_pos(i as nat);
            assert(base_ms * vstd::arithmetic::power2::pow2(i as nat) >= base_ms)
                by (nonlinear_arith)
                requires
                    vstd::arithmetic::power2::pow2(i as nat) >= 1,
                    base_ms >= 0,
            ;
        }
        if d > cap_ms / 2 {
            d = cap_ms;
        } else {
            d = 2 * d;
        }
        i = i + 1;
    }
    d
}

/// The execution policy of a registered task.
#[derive(Debug, Clone, Copy, PartialEq, Eq, Structural)]
pub struct TaskPolicy {
    /// How many times a failed run may be retried before the failure is
    /// terminal.
    pub max_retries: u32,
    /// The delay assigned to each retry attempt.
    pub backoff: BackoffPolicy,
    /// The wall-clock deadline of one run, in milliseconds.
    pub timeout_ms: u64,
    /// The default expiration horizon of a fresh envelope, in milliseconds,
    /// if the task has one.
    pub expires_after_ms: Option<u64>,
}

impl TaskPolicy {
    /// The expiry timestamp of a fresh envelope submitted at `now` under
    /// this policy: `now` plus the task's expiration horizon, if it has one.
    pub fn default_expiry(&self, now: u64) -> (r: Option<u64>)
        ensures
            r == match self.expires_after_ms {
                Some(d) => Some(crate::spec_saturating_add(now, d)),
                None => None::<u64>,
            },
    {
        match self.expires_after_ms {
            Some(d) => Some(crate::saturating_add_u64(now, d)),
            None => None,
        }
    }
}

/// A registered task: its unique name, a token the embedding application
/// resolves to the handler callable, and the execution policy.
#[derive(Debug, Clone)]
pub struct TaskDef {
    pub name: String,
    /// Opaque handle to the handler capability; the embedding application
    /// maps it to the callable that runs the task.
    pub handler: u64,
    pub policy: TaskPolicy,
}

/// The task registry.  Built at startup, read-only afterwards.
pub struct TaskRegistry {
    pub tasks: Vec<TaskDef>,
}

impl TaskRegistry {
    /// Task names are unique.
    pub open spec fn wf(&self) -> bool {
        forall|i: int, j: int|
            0 <= i < j < self.tasks@.len() ==> self.tasks@[i].name@ != self.tasks@[j].name@
    }

    /// Whether some task is registered under this name.
    pub open spec fn contains_name(&self, n: Seq<char>) -> bool {
        exists|i: int| 0 <= i < self.tasks@.len() && self.tasks@[i].name@ == n
    }

    /// An empty registry.
    pub fn new() -> (r: TaskRegistry)
        ensures
            r.wf(),
            r.tasks@.len() == 0,
    {
        TaskRegistry { tasks: Vec::new() }
    }

    /// The index of the task registered under `name`, if any.
    fn find(&self, name: &String) -> (r: Option<usize>)
        ensures
            match r {
                Some(i) => i < self.tasks@.len() && self.tasks@[i as int].name@ == name@,
                None => !self.contains_name(name@),
            },
    {
        let n = self.tasks.len();
        let mut i: usize = 0;
        while i < n
            invariant
                i <= n,
                n == self.tasks@.len(),
                forall|k: int| 0 <= k < i ==> self.tasks@[k].name@ != name@,
            decreases n - i,
        {
            if self.tasks[i].name == *name {
                return Some(i);
            }
            i = i + 1;
        }
        None
    }

    /// Register a task.  Fails with `TaskAlreadyExists` if a task by that
    /// name is already registered; the registry is then unchanged.
    pub fn register(&mut self, task: TaskDef) -> (r: Result<(), CeleryError>)
        requires
            old(self).wf(),
        ensures
            final(self).wf(),
            old(self).contains_name(task.name@) ==> {
                &&& r matches Err(e) && (e.kind matches ErrorKind::TaskAlreadyExists(n) && n@
                    == task.name@)
                &&& final(self).tasks@ == old(self).tasks@
            },
            !old(self).contains_name(task.name@) ==> {
                &&& r is Ok
                &&& final(self).tasks@ == old(self).tasks@.push(task)
            },
    {
        match self.find(&task.name) {
            Some(_) => Err(CeleryError::new(ErrorKind::TaskAlreadyExists(task.name.clone()))),
            None => {
                self.tasks.push(task);
                Ok(())
            },
        }
    }

    /// Look up the task registered under `name`.  Fails with
    /// `UnregisteredTaskError` if there is none — an expected outcome for a
    /// misrouted or versioned-out task.
    pub fn lookup(&self, name: &String) -> (r: Result<&TaskDef, CeleryError>)
        ensures
            self.contains_name(name@) ==> (r matches Ok(d) && d.name@ == name@
                && self.tasks@.contains(*d)),
            !self.contains_name(name@) ==> (r matches Err(e) && (
            e.kind matches ErrorKind::UnregisteredTaskError(n) && n@ == name@)),
    {
        match self.find(name) {
            Some(i) => {
                let d = &self.tasks[i];
                proof {
                    assert(self.tasks@.contains(self.tasks@[i as int]));
                }
                Ok(d)
            },
            None => Err(CeleryError::new(ErrorKind::UnregisteredTaskError(name.clone()))),
        }
    }
}

} // verus!
