//! A distributed task-queue worker library: producers submit named tasks to a
//! message broker; workers consume, decode, dispatch, execute and acknowledge
//! them, with retry, expiration, routing and shutdown semantics.
//!
//! The crate holds the pieces of the worker that decide, as verified code:
//! the task registry, the envelope codec, the routing engine, the per-envelope
//! execution state machine with its retry and expiration policy, the shutdown
//! coordinator and the connection-state model.  The embedding application
//! performs the broker I/O and feeds events to these pieces.

pub mod codec;
pub mod connection;
pub mod engine;
pub mod envelope;
pub mod error;
pub mod registry;
pub mod router;
pub mod shutdown;

use vstd::prelude::*;

verus! {

/// `a + b`, saturating at the largest representable instant.
pub open spec fn spec_saturating_add(a: u64, b: u64) -> u64 {
    if a + b <= u64::MAX {
        (a + b) as u64
    } else {
        u64::MAX
    }
}

/// Saturating addition on instants and durations in milliseconds.
pub fn saturating_add_u64(a: u64, b: u64) -> (r: u64)
    ensures
        r == spec_saturating_add(a, b),
{
    if a <= u64::MAX - b {
        a + b
    } else {
        u64::MAX
    }
}

} // verus!
