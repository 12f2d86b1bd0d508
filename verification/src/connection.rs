//! The broker-connection model: the connection's state machine, the
//! reconnect policy, and the validation of broker URLs.
//!
//! The transport itself is the `lapin` AMQP client, driven by the embedding
//! application; this module holds what can be decided from plain values: how
//! the connection state reacts to transport events, how long to back off
//! before the next reconnect attempt, whether a broker URL is well formed,
//! and how a transport fault is classified into the error taxonomy.

use vstd::prelude::*;
use vstd::string::StrSliceExecFns;

use crate::error::{BrokerFault, ErrorKind};
use crate::registry::BackoffPolicy;

verus! {

/// The states of the broker connection.
#[derive(Debug, Clone, Copy, PartialEq, Eq, Structural)]
pub enum ConnState {
    Disconnected,
    Connecting,
    Connected,
    ReconnectBackoff,
}

/// The transport events that drive the connection's state.
#[derive(Debug, Clone, Copy, PartialEq, Eq, Structural)]
pub enum ConnEvent {
    /// A connection attempt was started.
    StartConnect,
    /// The transport reported the connection established.
    Established,
    /// The connection was lost or the attempt failed.
    Lost,
    /// The reconnect backoff delay has elapsed.
    BackoffElapsed,
}

/// One transition of the connection's state machine, or `None` for an event
/// that is not valid in the state.  A lost connection always enters the
/// backoff state rather than terminating the consume loop.
pub open spec fn spec_conn_step(s: ConnState, ev: ConnEvent) -> Option<ConnState> {
    match (s, ev) {
        (ConnState::Disconnected, ConnEvent::StartConnect) => Some(ConnState::Connecting),
        (ConnState::Connecting, ConnEvent::Established) => Some(ConnState::Connected),
        (ConnState::Connecting, ConnEvent::Lost) => Some(ConnState::ReconnectBackoff),
        (ConnState::Connected, ConnEvent::Lost) => Some(ConnState::ReconnectBackoff),
        (ConnState::ReconnectBackoff, ConnEvent::BackoffElapsed) => Some(ConnState::Connecting),
        _ => None,
    }
}

/// Executable mirror of [`spec_conn_step`].
pub fn conn_step(s: ConnState, ev: ConnEvent) -> (r: Option<ConnState>)
    ensures
        r == spec_conn_step(s, ev),
{
    match (s, ev) {
        (ConnState::Disconnected, ConnEvent::StartConnect) => Some(ConnState::Connecting),
        (ConnState::Connecting, ConnEvent::Established) => Some(ConnState::Connected),
        (ConnState::Connecting, ConnEvent::Lost) => Some(ConnState::ReconnectBackoff),
        (ConnState::Connected, ConnEvent::Lost) => Some(ConnState::ReconnectBackoff),
        (ConnState::ReconnectBackoff, ConnEvent::BackoffElapsed) => Some(ConnState::Connecting),
        _ => None,
    }
}

/// The reconnect policy: exponential backoff with a cap, and an optional
/// ceiling on the number of attempts.  The delay before reconnect attempt
/// number `attempt` (counted from 0) is `base_ms * 2^attempt`, capped at
/// `cap_ms`.
#[derive(Debug, Clone, Copy, PartialEq, Eq, Structural)]
pub struct ReconnectPolicy {
    pub base_ms: u64,
    pub cap_ms: u64,
    /// How many reconnect attempts may be made before the connection loss
    /// becomes fatal; `None` keeps reconnecting forever.
    pub max_attempts: Option<u32>,
}

impl ReconnectPolicy {
    /// The delay before the given reconnect attempt.
    pub fn delay_for(&self, attempt: u32) -> (r: u64)
        ensures
            r == crate::registry::spec_backoff(
                BackoffPolicy::Exponential { base_ms: self.base_ms, cap_ms: self.cap_ms },
                attempt,
            ),
    {
        let b = BackoffPolicy::Exponential { base_ms: self.base_ms, cap_ms: self.cap_ms };
        b.delay_for(attempt)
    }

    /// Whether reconnect attempt number `attempt` is still within the
    /// ceiling; beyond it the connection loss is fatal to the worker.
    pub fn may_attempt(&self, attempt: u32) -> (r: bool)
        ensures
            r == match self.max_attempts {
                Some(m) => attempt < m,
                None => true,
            },
    {
        match self.max_attempts {
            Some(m) => attempt < m,
            None => true,
        }
    }
}

/// The mathematical value of a [`BrokerAddr`].
pub ghost struct BrokerAddrView {
    pub tls: bool,
    pub host: Seq<char>,
    pub port: u16,
    pub vhost: Seq<char>,
}

/// A validated broker address: scheme, host, port and virtual host.
#[derive(Debug)]
pub struct BrokerAddr {
    /// Whether the `amqps` scheme was given.
    pub tls: bool,
    pub host: String,
    pub port: u16,
    /// The virtual host; empty when the URL names none.
    pub vhost: String,
}

impl View for BrokerAddr {
    type V = BrokerAddrView;

    open spec fn view(&self) -> BrokerAddrView {
        BrokerAddrView { tls: self.tls, host: self.host@, port: self.port, vhost: self.vhost@ }
    }
}

/// Whether `s` starts with `amqp://`.
pub open spec fn has_amqp_prefix(s: Seq<char>) -> bool {
    s.len() >= 7 && s[0] == 'a' && s[1] == 'm' && s[2] == 'q' && s[3] == 'p' && s[4] == ':' && s[5]
        == '/' && s[6] == '/'
}

/// Whether `s` starts with `amqps://`.
pub open spec fn has_amqps_prefix(s: Seq<char>) -> bool {
    s.len() >= 8 && s[0] == 'a' && s[1] == 'm' && s[2] == 'q' && s[3] == 'p' && s[4] == 's' && s[5]
        == ':' && s[6] == '/' && s[7] == '/'
}

/// The length of the scheme prefix, or -1 for an unknown scheme.
pub open spec fn scheme_len(s: Seq<char>) -> int {
    if has_amqps_prefix(s) {
        8
    } else if has_amqp_prefix(s) {
        7
    } else {
        -1
    }
}

/// The first index `k >= i` holding `:` or `/`, or `s.len()`.
pub open spec fn find_delim(s: Seq<char>, i: int) -> int
    decreases s.len() - i,
{
    if i < 0 || i >= s.len() {
        s.len() as int
    } else if s[i] == ':' || s[i] == '/' {
        i
    } else {
        find_delim(s, i + 1)
    }
}

/// The first index `k >= i` holding `/`, or `s.len()`.
pub open spec fn find_slash(s: Seq<char>, i: int) -> int
    decreases s.len() - i,
{
    if i < 0 || i >= s.len() {
        s.len() as int
    } else if s[i] == '/' {
        i
    } else {
        find_slash(s, i + 1)
    }
}

/// Whether every character of `s[i..end)` is a decimal digit.
pub open spec fn all_digits(s: Seq<char>, i: int, end: int) -> bool {
    forall|k: int| i <= k < end ==> '0' as u32 <= #[trigger] (s[k] as u32) <= '9' as u32
}

/// The decimal value of the digits `s[i..end)`.
pub open spec fn digits_value(s: Seq<char>, i: int, end: int) -> int
    decreases end - i,
{
    if i >= end {
        0
    } else {
        digits_value(s, i, end - 1) * 10 + (s[end - 1] as u32 - '0' as u32)
    }
}

/// The value of a run of digits is not negative.
pub proof fn lemma_digits_nonneg(s: Seq<char>, i: int, end: int)
    requires
        all_digits(s, i, end),
    ensures
        0 <= digits_value(s, i, end),
    decreases end - i,
{
    if i < end {
        lemma_digits_nonneg(s, i, end - 1);
        assert(s[end - 1] as u32 >= '0' as u32);
    }
}

/// Appending digits never decreases the value.
pub proof fn lemma_digits_monotone(s: Seq<char>, i: int, j: int, end: int)
    requires
        i <= j <= end,
        all_digits(s, i, end),
    ensures
        0 <= digits_value(s, i, j) <= digits_value(s, i, end),
    decreases end - j,
{
    if j < end {
        lemma_digits_monotone(s, i, j, end - 1);
        assert(s[end - 1] as u32 >= '0' as u32);
    } else {
        lemma_digits_nonneg(s, i, j);
    }
}

/// The parse of a broker URL: `amqp://host[:port][/vhost]` or
/// `amqps://host[:port][/vhost]`.  The host is nonempty; a given port is a
/// nonempty run of digits valued at most 65535; the port defaults to 5672
/// (`amqp`) or 5671 (`amqps`); the virtual host may be empty and is
/// otherwise arbitrary.  `None` for a malformed URL.
pub open spec fn spec_parse_url(s: Seq<char>) -> Option<BrokerAddrView> {
    let sl = scheme_len(s);
    if sl < 0 {
        None
    } else {
        let tls = sl == 8;
        let he = find_delim(s, sl);
        if he == sl {
            None
        } else {
            let host = s.subrange(sl, he);
            let dflt: u16 = if tls {
                5671
            } else {
                5672
            };
            if he == s.len() {
                Some(BrokerAddrView { tls, host, port: dflt, vhost: Seq::empty() })
            } else if s[he] == '/' {
                Some(
                    BrokerAddrView { tls, host, port: dflt, vhost: s.subrange(he + 1, s.len() as int) },
                )
            } else {
                let pe = find_slash(s, he + 1);
                if pe == he + 1 || !all_digits(s, he + 1, pe) || digits_value(s, he + 1, pe)
                    > 65535 {
                    None
                } else {
                    let port = digits_value(s, he + 1, pe) as u16;
                    if pe == s.len() {
                        Some(BrokerAddrView { tls, host, port, vhost: Seq::empty() })
                    } else {
                        Some(
                            BrokerAddrView {
                                tls,
                                host,
                                port,
                                vhost: s.subrange(pe + 1, s.len() as int),
                            },
                        )
                    }
                }
            }
        }
    }
}

/// Scan for the first `:` or `/` at or past `i`.
fn scan_delim(s: &str, n: usize, i: usize) -> (r: usize)
    requires
        n == s@.len(),
        i <= n,
    ensures
        r == find_delim(s@, i as int),
        i <= r <= n,
{
    let mut j = i;
    while j < n
        invariant
            n == s@.len(),
            i <= j <= n,
            find_delim(s@, i as int) == find_delim(s@, j as int),
        decreases n - j,
    {
        let c = s.get_char(j);
        if c == ':' || c == '/' {
            return j;
        }
        j = j + 1;
    }
    n
}

/// Scan for the first `/` at or past `i`.
fn scan_slash(s: &str, n: usize, i: usize) -> (r: usize)
    requires
        n == s@.len(),
        i <= n,
    ensures
        r == find_slash(s@, i as int),
        i <= r <= n,
{
    let mut j = i;
    while j < n
        invariant
            n == s@.len(),
            i <= j <= n,
            find_slash(s@, i as int) == find_slash(s@, j as int),
        decreases n - j,
    {
        if s.get_char(j) == '/' {
            return j;
        }
        j = j + 1;
    }
    n
}

/// Validate and parse a broker URL before any connection attempt.  A
/// malformed URL is rejected with `InvalidBrokerUrl` naming the URL.
pub fn validate_broker_url(url: &String) -> (r: Result<BrokerAddr, crate::error::CeleryError>)
    ensures
        match r {
            Ok(a) => spec_parse_url(url@) == Some(a@),
            Err(e) => spec_parse_url(url@) is None && (
            e.kind matches ErrorKind::InvalidBrokerUrl(u) && u@ == url@),
        },
{
    let s = url.as_str();
    let n = s.unicode_len();
    let sl: usize;
    if n >= 8 && s.get_char(0) == 'a' && s.get_char(1) == 'm' && s.get_char(2) == 'q'
        && s.get_char(3) == 'p' && s.get_char(4) == 's' && s.get_char(5) == ':' && s.get_char(6)
        == '/' && s.get_char(7) == '/' {
        sl = 8;
    } else if n >= 7 && s.get_char(0) == 'a' && s.get_char(1) == 'm' && s.get_char(2) == 'q'
        && s.get_char(3) == 'p' && s.get_char(4) == ':' && s.get_char(5) == '/' && s.get_char(6)
        == '/' {
        sl = 7;
    } else {
        return Err(crate::error::CeleryError::new(ErrorKind::InvalidBrokerUrl(url.clone())));
    }
    let tls = sl == 8;
    let he = scan_delim(s, n, sl);
    if he == sl {
        return Err(crate::error::CeleryError::new(ErrorKind::InvalidBrokerUrl(url.clone())));
    }
    let host = s.substring_char(sl, he).to_owned();
    let dflt: u16 = if tls {
        5671
    } else {
        5672
    };
    if he == n {
        return Ok(BrokerAddr { tls, host, port: dflt, vhost: String::new() });
    }
    if s.get_char(he) == '/' {
        let vhost = s.substring_char(he + 1, n).to_owned();
        return Ok(BrokerAddr { tls, host, port: dflt, vhost });
    }
    // a ':' introduces the port
    let pe = scan_slash(s, n, he + 1);
    if pe == he + 1 {
        return Err(crate::error::CeleryError::new(ErrorKind::InvalidBrokerUrl(url.clone())));
    }
    let mut value: u64 = 0;
    let mut j = he + 1;
    while j < pe
        invariant
            n == s@.len(),
            s@ == url@,
            sl == scheme_len(s@),
            sl == 7 || sl == 8,
            he == find_delim(s@, sl as int),
            sl < he < n,
            s@[he as int] != '/',
            pe == find_slash(s@, he + 1 as int),
            pe != he + 1,
            he + 1 <= j <= pe <= n,
            all_digits(s@, he + 1 as int, j as int),
            value == digits_value(s@, he + 1 as int, j as int),
            value <= 65535,
        decreases pe - j,
    {
        let c = s.get_char(j);
        if !(c as u32 >= '0' as u32 && c as u32 <= '9' as u32) {
            proof {
                assert(s@[j as int] == c);
                assert(!('0' as u32 <= (s@[j as int] as u32) && (s@[j as int] as u32) <= '9'
                    as u32));
                assert(!all_digits(s@, he + 1 as int, pe as int));
                assert(spec_parse_url(url@) is None);
            }
            return Err(crate::error::CeleryError::new(ErrorKind::InvalidBrokerUrl(url.clone())));
        }
        value = value * 10 + ((c as u32 - '0' as u32) as u64);
        j = j + 1;
        if value > 65535 {
            proof {
                if all_digits(s@, he + 1 as int, pe as int) {
                    lemma_digits_monotone(s@, he + 1 as int, j as int, pe as int);
                    assert(digits_value(s@, he + 1 as int, pe as int) > 65535);
                }
                assert(spec_parse_url(url@) is None);
            }
            return Err(crate::error::CeleryError::new(ErrorKind::InvalidBrokerUrl(url.clone())));
        }
    }
    let port: u16 = value as u16;
    if pe == n {
        Ok(BrokerAddr { tls, host, port, vhost: String::new() })
    } else {
        let vhost = s.substring_char(pe + 1, n).to_owned();
        Ok(BrokerAddr { tls, host, port, vhost })
    }
}

/// Classify a fault of the `lapin` transport into the plain
/// [`BrokerFault`] classes.
///
/// Relies on `lapin::Error::kind`, which exposes the fault's variant: the
/// classification only tells the variants apart, one arm each.
#[verifier::external_body]
pub fn classify_broker_error(e: &lapin::Error) -> (r: BrokerFault) {
    match e.kind() {
        lapin::ErrorKind::IOError(_) => BrokerFault::Io,
        lapin::ErrorKind::RuntimeShutdownError(_) => BrokerFault::RuntimeShutdown,
        lapin::ErrorKind::InvalidConnectionState(_) => BrokerFault::BadConnectionState,
        lapin::ErrorKind::ProtocolError(_) => BrokerFault::Protocol,
        _ => BrokerFault::Other,
    }
}

/// Normalize a fault of the `lapin` transport into the taxonomy:
/// connection-class faults become `BrokerConnectionError` (driving the
/// reconnect policy), all others `AMQPError`.
pub fn error_from_lapin(e: &lapin::Error) -> (r: crate::error::CeleryError)
    ensures
        r.kind == ErrorKind::BrokerConnectionError || (
        r.kind matches ErrorKind::AMQPError(f) && f is Some),
{
    let f = classify_broker_error(e);
    crate::error::error_from_broker(f)
}

/// Declares `lapin::Error` to the verifier; values of it are opaque and are
/// only carried through to [`classify_broker_error`].
#[verifier::external_type_specification]
#[verifier::external_body]
pub struct ExLapinError(lapin::Error);

} // verus!
