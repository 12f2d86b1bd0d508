//! The envelope: one task message in flight, with its identity, payload and
//! redelivery metadata.
//!
//! An envelope is created by a producer, or by the retry path: a retry is a
//! new envelope carrying the incremented retry count and a fresh eta, never a
//! requeue-in-place.

use vstd::prelude::*;

use crate::spec_saturating_add;

verus! {

/// The mathematical value of an [`Envelope`].
pub ghost struct EnvelopeView {
    pub id: Seq<char>,
    pub task: Seq<char>,
    pub args: Seq<u8>,
    pub queue: Seq<char>,
    pub retries: u32,
    pub expires_at: Option<u64>,
    pub eta: Option<u64>,
    pub correlation_id: Seq<char>,
}

/// One task message in flight.
///
/// Timestamps (`expires_at`, `eta`) are in milliseconds on the same clock the
/// embedding application feeds to the engine as `now`.
#[derive(Debug)]
pub struct Envelope {
    /// Unique id of the message.
    pub id: String,
    /// Name of the task to run.
    pub task: String,
    /// Serialized arguments of the task.
    pub args: Vec<u8>,
    /// The queue the message was (or is to be) published on.
    pub queue: String,
    /// How often this message has been redelivered; starts at 0 and never
    /// decreases along the retry path.
    pub retries: u32,
    /// If set, the moment from which the message must no longer be executed.
    pub expires_at: Option<u64>,
    /// If set, the moment before which the message must not be executed.
    pub eta: Option<u64>,
    /// Opaque correlation handle back to the producer.
    pub correlation_id: String,
}

impl View for Envelope {
    type V = EnvelopeView;

    open spec fn view(&self) -> EnvelopeView {
        EnvelopeView {
            id: self.id@,
            task: self.task@,
            args: self.args@,
            queue: self.queue@,
            retries: self.retries,
            expires_at: self.expires_at,
            eta: self.eta,
            correlation_id: self.correlation_id@,
        }
    }
}

/// Whether the envelope's expiry moment has been reached at time `now`.
pub open spec fn spec_expired(e: EnvelopeView, now: u64) -> bool {
    e.expires_at matches Some(t) && t <= now
}

/// The envelope that the retry path publishes in place of `e`: the same
/// message with the retry count incremented and an eta `delay_ms` after `now`.
pub open spec fn spec_retried(e: EnvelopeView, now: u64, delay_ms: u64) -> EnvelopeView {
    EnvelopeView {
        retries: (e.retries + 1) as u32,
        eta: Some(spec_saturating_add(now, delay_ms)),
        ..e
    }
}

impl Envelope {
    /// A fresh envelope as a producer submits it: no redeliveries yet.
    pub fn new(
        id: String,
        task: String,
        args: Vec<u8>,
        queue: String,
        expires_at: Option<u64>,
        eta: Option<u64>,
        correlation_id: String,
    ) -> (r: Envelope)
        ensures
            r@ == (EnvelopeView {
                id: id@,
                task: task@,
                args: args@,
                queue: queue@,
                retries: 0u32,
                expires_at,
                eta,
                correlation_id: correlation_id@,
            }),
    {
        Envelope { id, task, args, queue, retries: 0, expires_at, eta, correlation_id }
    }

    /// A field-for-field copy.
    pub fn duplicate(&self) -> (r: Envelope)
        ensures
            r@ == self@,
    {
        Envelope {
            id: self.id.clone(),
            task: self.task.clone(),
            args: copy_bytes(&self.args),
            queue: self.queue.clone(),
            retries: self.retries,
            expires_at: self.expires_at,
            eta: self.eta,
            correlation_id: self.correlation_id.clone(),
        }
    }

    /// Whether the envelope may run at time `now`: its eta, if it has one,
    /// has been reached.
    pub fn is_ready(&self, now: u64) -> (r: bool)
        ensures
            r == match self.eta {
                Some(t) => t <= now,
                None => true,
            },
    {
        match self.eta {
            Some(t) => t <= now,
            None => true,
        }
    }

    /// Whether the envelope's expiry moment has been reached at time `now`.
    pub fn is_expired(&self, now: u64) -> (r: bool)
        ensures
            r == spec_expired(self@, now),
    {
        match self.expires_at {
            Some(t) => t <= now,
            None => false,
        }
    }

    /// The retry of this envelope: a fresh message with the retry count
    /// incremented and an eta `delay_ms` after `now`.  Every other field is
    /// kept, so the retry is routed and expired exactly as the original.
    pub fn for_retry(&self, now: u64, delay_ms: u64) -> (r: Envelope)
        requires
            self.retries < u32::MAX,
        ensures
            r@ == spec_retried(self@, now, delay_ms),
    {
        Envelope {
            id: self.id.clone(),
            task: self.task.clone(),
            args: copy_bytes(&self.args),
            queue: self.queue.clone(),
            retries: self.retries + 1,
            expires_at: self.expires_at,
            eta: Some(crate::saturating_add_u64(now, delay_ms)),
            correlation_id: self.correlation_id.clone(),
        }
    }
}

/// A copy of a byte vector.
pub fn copy_bytes(v: &Vec<u8>) -> (r: Vec<u8>)
    ensures
        r@ == v@,
{
    vstd::slice::slice_to_vec(v.as_slice())
}

} // verus!
