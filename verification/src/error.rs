//! The error taxonomy of the library.
//!
//! Every fault the worker can meet is a variant of [`ErrorKind`]: configuration
//! faults (duplicate task, bad URL, bad routing pattern), transport faults,
//! message-format faults, task-level faults and lifecycle faults.  The taxonomy
//! carries only plain values of its own; faults of outside libraries are mapped
//! into it at each boundary.

use vstd::prelude::*;

verus! {

/// The class of a broker-transport fault, as plain data.
///
/// A fault reported by the transport library is classified into one of these
/// before it enters the taxonomy, so that the taxonomy itself stays free of
/// the transport library's types.
#[derive(Debug, Clone, Copy, PartialEq, Eq, Structural)]
pub enum BrokerFault {
    /// An underlying I/O fault (connection reset, broken pipe, refused).
    Io,
    /// The async runtime was torn down while an operation was in progress.
    RuntimeShutdown,
    /// An operation was attempted while the connection was in the wrong state.
    BadConnectionState,
    /// The broker reported a protocol-level error.
    Protocol,
    /// A fault outside the known classes (channel faults, parse and
    /// serialisation faults, authentication faults and the like).
    Other,
}

/// The class of an I/O fault, as plain data.
#[derive(Debug, Clone, Copy, PartialEq, Eq, Structural)]
pub enum IoKind {
    NotFound,
    PermissionDenied,
    ConnectionRefused,
    ConnectionReset,
    BrokenPipe,
    WouldBlock,
    TimedOut,
    Interrupted,
    UnexpectedEof,
    Other,
}

/// Error kinds that can occur while using `celery`.
#[derive(Debug, Clone, PartialEq)]
pub enum ErrorKind {
    /// You tried to register a task but a task by that name already exists.
    TaskAlreadyExists(String),
    /// Received an unregistered task.
    UnregisteredTaskError(String),
    /// An AMQP broker error.
    AMQPError(Option<BrokerFault>),
    /// Raised when a broker URL can't be parsed.
    InvalidBrokerUrl(String),
    /// An error occurred while serializing or deserializing.
    SerializationError(String),
    /// A consumed delivery was in an unknown format.
    AMQPMessageParseError(String),
    /// The queue you're attempting to use has not been defined.
    UnknownQueueError(String),
    /// An error that is expected to happen every once in a while and should
    /// trigger the task to be retried without causing a fit.
    ExpectedError(String),
    /// Should be used when a task encounters an error that is unexpected.
    UnexpectedError(String),
    /// Should be used when an expired task is received.
    TaskExpiredError,
    /// Raised when a task should be retried.
    Retry,
    /// Shared state was corrupted by a fault in another worker.
    SyncError,
    /// An I/O error.
    IoError(IoKind),
    /// Forced shutdown.
    ForcedShutdown,
    /// Task timed out.
    TimeoutError,
    /// Invalid routing glob pattern.
    BadRoutingRulePatternError(Option<String>),
    /// Broker connection failed.
    BrokerConnectionError,
}

/// Any error that can occur while using `celery`: a kind together with an
/// optional chained description of the root cause, kept for diagnostics.
#[derive(Debug, Clone)]
pub struct CeleryError {
    pub kind: ErrorKind,
    pub cause: Option<String>,
}

impl CeleryError {
    /// Wrap a kind with no recorded cause.
    pub fn new(kind: ErrorKind) -> (r: CeleryError)
        ensures
            r.kind == kind,
            r.cause is None,
    {
        CeleryError { kind, cause: None }
    }

    /// Wrap a kind together with a description of its root cause.
    pub fn with_cause(kind: ErrorKind, cause: String) -> (r: CeleryError)
        ensures
            r.kind == kind,
            r.cause == Some(cause),
    {
        CeleryError { kind, cause: Some(cause) }
    }

    /// Get the inner `ErrorKind`.
    pub fn kind(&self) -> (r: &ErrorKind)
        ensures
            *r == self.kind,
    {
        &self.kind
    }
}

impl From<ErrorKind> for CeleryError {
    fn from(kind: ErrorKind) -> (r: CeleryError) {
        CeleryError { kind, cause: None }
    }
}

impl vstd::std_specs::convert::FromSpecImpl<ErrorKind> for CeleryError {
    open spec fn obeys_from_spec() -> bool {
        true
    }

    open spec fn from_spec(kind: ErrorKind) -> CeleryError {
        CeleryError { kind, cause: None }
    }
}

/// Map the class of a broker-transport fault into the taxonomy.
///
/// Faults that mean the connection itself is unusable (I/O faults, a runtime
/// torn down underneath the socket, a wrong connection state) become
/// `BrokerConnectionError`, which drives the reconnect policy; every other
/// class is a broker-protocol fault and surfaces as `AMQPError`.
pub fn error_from_broker(f: BrokerFault) -> (r: CeleryError)
    ensures
        (f == BrokerFault::Io || f == BrokerFault::RuntimeShutdown || f
            == BrokerFault::BadConnectionState) ==> r.kind == ErrorKind::BrokerConnectionError,
        !(f == BrokerFault::Io || f == BrokerFault::RuntimeShutdown || f
            == BrokerFault::BadConnectionState) ==> r.kind == ErrorKind::AMQPError(Some(f)),
{
    match f {
        BrokerFault::Io => CeleryError::new(ErrorKind::BrokerConnectionError),
        BrokerFault::RuntimeShutdown => CeleryError::new(ErrorKind::BrokerConnectionError),
        BrokerFault::BadConnectionState => CeleryError::new(ErrorKind::BrokerConnectionError),
        _ => CeleryError::new(ErrorKind::AMQPError(Some(f))),
    }
}

} // verus!
