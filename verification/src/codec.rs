//! The envelope codec: converts between an envelope's wire bytes and its
//! logical structure.
//!
//! The wire layout is a plain framing of the envelope's logical schema, each
//! field in order: `id`, `task`, `args`, `queue` and `correlation_id` as
//! length-prefixed byte runs (a little-endian `u64` length, then the bytes;
//! the string fields as UTF-8), `retries` as a little-endian `u32`, and each
//! optional timestamp as a tag byte (0 absent, 1 present) followed by a
//! little-endian `u64` when present.
//!
//! `decode` rejects structurally invalid input — truncated fields, an
//! invalid UTF-8 run, a bad option tag, trailing bytes — with
//! `AMQPMessageParseError`, without crashing the consume loop.  `encode` is
//! the inverse: decoding an encoded envelope yields the envelope back
//! ([`lemma_codec_round_trip`]), and a byte string that decodes at all is
//! exactly the encoding of what it decodes to ([`lemma_codec_canonical`]).

use vstd::prelude::*;
use vstd::bytes::{
    lemma_auto_spec_u32_to_from_le_bytes, lemma_auto_spec_u64_to_from_le_bytes,
    spec_u32_from_le_bytes, spec_u32_to_le_bytes, spec_u64_from_le_bytes, spec_u64_to_le_bytes,
    u32_from_le_bytes, u32_to_le_bytes, u64_from_le_bytes, u64_to_le_bytes,
};
use vstd::string::StrSliceExecFns;
use vstd::utf8::{decode_utf8, encode_utf8, encode_utf8_decode_utf8, encode_utf8_valid_utf8,
    valid_utf8};

use crate::envelope::{copy_bytes, Envelope, EnvelopeView};
use crate::error::{CeleryError, ErrorKind};

verus! {

/// A length-prefixed byte run: a little-endian `u64` length, then the bytes.
pub open spec fn enc_chunk(b: Seq<u8>) -> Seq<u8> {
    spec_u64_to_le_bytes(b.len() as u64) + b
}

/// A length-prefixed UTF-8 run.
pub open spec fn enc_str(s: Seq<char>) -> Seq<u8> {
    enc_chunk(encode_utf8(s))
}

/// An optional timestamp: a tag byte, then the value when present.
pub open spec fn enc_opt(o: Option<u64>) -> Seq<u8> {
    match o {
        None => seq![0u8],
        Some(x) => seq![1u8] + spec_u64_to_le_bytes(x),
    }
}

/// The wire bytes of an envelope.
pub open spec fn spec_encode(e: EnvelopeView) -> Seq<u8> {
    enc_str(e.id) + (enc_str(e.task) + (enc_chunk(e.args) + (enc_str(e.queue) + (
    spec_u32_to_le_bytes(e.retries) + (enc_opt(e.expires_at) + (enc_opt(e.eta) + enc_str(
        e.correlation_id,
    )))))))
}

/// Every field's byte run is short enough for its length prefix.  The view
/// of any envelope held in memory satisfies this.
pub open spec fn wf_wire(e: EnvelopeView) -> bool {
    &&& encode_utf8(e.id).len() <= u64::MAX
    &&& encode_utf8(e.task).len() <= u64::MAX
    &&& e.args.len() <= u64::MAX
    &&& encode_utf8(e.queue).len() <= u64::MAX
    &&& encode_utf8(e.correlation_id).len() <= u64::MAX
}

/// Read a `u64` off the front.
pub open spec fn take_u64(b: Seq<u8>) -> Option<(u64, Seq<u8>)> {
    if b.len() >= 8 {
        Some((spec_u64_from_le_bytes(b.take(8)), b.skip(8)))
    } else {
        None
    }
}

/// Read a `u32` off the front.
pub open spec fn take_u32(b: Seq<u8>) -> Option<(u32, Seq<u8>)> {
    if b.len() >= 4 {
        Some((spec_u32_from_le_bytes(b.take(4)), b.skip(4)))
    } else {
        None
    }
}

/// Read a length-prefixed byte run off the front.
pub open spec fn take_chunk(b: Seq<u8>) -> Option<(Seq<u8>, Seq<u8>)> {
    match take_u64(b) {
        None => None,
        Some((n, r)) => if r.len() >= n {
            Some((r.take(n as int), r.skip(n as int)))
        } else {
            None
        },
    }
}

/// Read a length-prefixed UTF-8 run off the front.
pub open spec fn take_str(b: Seq<u8>) -> Option<(Seq<char>, Seq<u8>)> {
    match take_chunk(b) {
        None => None,
        Some((c, r)) => if valid_utf8(c) {
            Some((decode_utf8(c), r))
        } else {
            None
        },
    }
}

/// Read an optional timestamp off the front.
pub open spec fn take_opt(b: Seq<u8>) -> Option<(Option<u64>, Seq<u8>)> {
    if b.len() < 1 {
        None
    } else if b[0] == 0 {
        Some((None, b.skip(1)))
    } else if b[0] == 1 {
        match take_u64(b.skip(1)) {
            None => None,
            Some((x, r)) => Some((Some(x), r)),
        }
    } else {
        None
    }
}

/// The parse of an envelope's wire bytes, consuming them exactly.
pub open spec fn spec_decode(b: Seq<u8>) -> Option<EnvelopeView> {
    match take_str(b) {
        None => None,
        Some((id, b)) => match take_str(b) {
            None => None,
            Some((task, b)) => match take_chunk(b) {
                None => None,
                Some((args, b)) => match take_str(b) {
                    None => None,
                    Some((queue, b)) => match take_u32(b) {
                        None => None,
                        Some((retries, b)) => match take_opt(b) {
                            None => None,
                            Some((expires_at, b)) => match take_opt(b) {
                                None => None,
                                Some((eta, b)) => match take_str(b) {
                                    None => None,
                                    Some((correlation_id, b)) => if b.len() == 0 {
                                        Some(
                                            EnvelopeView {
                                                id,
                                                task,
                                                args,
                                                queue,
                                                retries,
                                                expires_at,
                                                eta,
                                                correlation_id,
                                            },
                                        )
                                    } else {
                                        None
                                    },
                                },
                            },
                        },
                    },
                },
            },
        },
    }
}

/// Reading a `u64` undoes writing one.
proof fn lemma_take_u64_enc(x: u64, rest: Seq<u8>)
    ensures
        take_u64(spec_u64_to_le_bytes(x) + rest) == Some((x, rest)),
{
    lemma_auto_spec_u64_to_from_le_bytes();
    let b = spec_u64_to_le_bytes(x) + rest;
    assert(b.take(8) =~= spec_u64_to_le_bytes(x));
    assert(b.skip(8) =~= rest);
}

/// Reading a `u32` undoes writing one.
proof fn lemma_take_u32_enc(x: u32, rest: Seq<u8>)
    ensures
        take_u32(spec_u32_to_le_bytes(x) + rest) == Some((x, rest)),
{
    lemma_auto_spec_u32_to_from_le_bytes();
    let b = spec_u32_to_le_bytes(x) + rest;
    assert(b.take(4) =~= spec_u32_to_le_bytes(x));
    assert(b.skip(4) =~= rest);
}

/// Reading a byte run undoes writing one.
proof fn lemma_take_chunk_enc(c: Seq<u8>, rest: Seq<u8>)
    requires
        c.len() <= u64::MAX,
    ensures
        take_chunk(enc_chunk(c) + rest) == Some((c, rest)),
{
    lemma_auto_spec_u64_to_from_le_bytes();
    assert(enc_chunk(c) + rest =~= spec_u64_to_le_bytes(c.len() as u64) + (c + rest));
    lemma_take_u64_enc(c.len() as u64, c + rest);
    assert((c + rest).take(c.len() as int) =~= c);
    assert((c + rest).skip(c.len() as int) =~= rest);
}

/// Reading a UTF-8 run undoes writing one.
proof fn lemma_take_str_enc(s: Seq<char>, rest: Seq<u8>)
    requires
        encode_utf8(s).len() <= u64::MAX,
    ensures
        take_str(enc_str(s) + rest) == Some((s, rest)),
{
    lemma_take_chunk_enc(encode_utf8(s), rest);
    encode_utf8_valid_utf8(s);
    encode_utf8_decode_utf8(s);
}

/// Reading an optional timestamp undoes writing one.
proof fn lemma_take_opt_enc(o: Option<u64>, rest: Seq<u8>)
    ensures
        take_opt(enc_opt(o) + rest) == Some((o, rest)),
{
    match o {
        None => {
            let b = enc_opt(o) + rest;
            assert(b[0] == 0);
            assert(b.skip(1) =~= rest);
        },
        Some(x) => {
            let b = enc_opt(o) + rest;
            assert(b[0] == 1);
            assert(b.skip(1) =~= spec_u64_to_le_bytes(x) + rest);
            lemma_take_u64_enc(x, rest);
        },
    }
}

/// Codec round trip: decoding an encoded envelope yields the envelope back,
/// for every envelope whose fields fit their length prefixes — which every
/// envelope held in memory does.
pub proof fn lemma_codec_round_trip(e: EnvelopeView)
    requires
        wf_wire(e),
    ensures
        spec_decode(spec_encode(e)) == Some(e),
{
    let r7 = enc_str(e.correlation_id);
    let r6 = enc_opt(e.eta) + r7;
    let r5 = enc_opt(e.expires_at) + r6;
    let r4 = spec_u32_to_le_bytes(e.retries) + r5;
    let r3 = enc_str(e.queue) + r4;
    let r2 = enc_chunk(e.args) + r3;
    let r1 = enc_str(e.task) + r2;
    lemma_take_str_enc(e.id, r1);
    lemma_take_str_enc(e.task, r2);
    lemma_take_chunk_enc(e.args, r3);
    lemma_take_str_enc(e.queue, r4);
    lemma_take_u32_enc(e.retries, r5);
    lemma_take_opt_enc(e.expires_at, r6);
    lemma_take_opt_enc(e.eta, r7);
    assert(r7 =~= enc_str(e.correlation_id) + Seq::<u8>::empty());
    lemma_take_str_enc(e.correlation_id, Seq::<u8>::empty());
    assert(spec_decode(spec_encode(e)) == Some(e));
}

/// Writing a `u64` undoes reading one.
proof fn lemma_enc_take_u64(b: Seq<u8>)
    requires
        take_u64(b) is Some,
    ensures
        ({
            let (x, r) = take_u64(b).unwrap();
            spec_u64_to_le_bytes(x) + r == b
        }),
{
    lemma_auto_spec_u64_to_from_le_bytes();
    let (x, r) = take_u64(b).unwrap();
    assert(spec_u64_to_le_bytes(x) =~= b.take(8));
    assert(spec_u64_to_le_bytes(x) + r =~= b);
}

/// Writing a `u32` undoes reading one.
proof fn lemma_enc_take_u32(b: Seq<u8>)
    requires
        take_u32(b) is Some,
    ensures
        ({
            let (x, r) = take_u32(b).unwrap();
            spec_u32_to_le_bytes(x) + r == b
        }),
{
    lemma_auto_spec_u32_to_from_le_bytes();
    let (x, r) = take_u32(b).unwrap();
    assert(spec_u32_to_le_bytes(x) =~= b.take(4));
    assert(spec_u32_to_le_bytes(x) + r =~= b);
}

/// Writing a byte run undoes reading one.
proof fn lemma_enc_take_chunk(b: Seq<u8>)
    requires
        take_chunk(b) is Some,
    ensures
        ({
            let (c, r) = take_chunk(b).unwrap();
            enc_chunk(c) + r == b && c.len() <= u64::MAX
        }),
{
    lemma_enc_take_u64(b);
    let (n, r0) = take_u64(b).unwrap();
    let (c, r) = take_chunk(b).unwrap();
    assert(c.len() == n as int);
    assert(c + r =~= r0);
    assert(enc_chunk(c) + r =~= spec_u64_to_le_bytes(n) + r0);
}

/// Writing a UTF-8 run undoes reading one.
proof fn lemma_enc_take_str(b: Seq<u8>)
    requires
        take_str(b) is Some,
    ensures
        ({
            let (s, r) = take_str(b).unwrap();
            enc_str(s) + r == b && encode_utf8(s).len() <= u64::MAX
        }),
{
    lemma_enc_take_chunk(b);
    let (c, r) = take_chunk(b).unwrap();
    vstd::utf8::decode_utf8_encode_utf8(c);
}

/// Writing an optional timestamp undoes reading one.
proof fn lemma_enc_take_opt(b: Seq<u8>)
    requires
        take_opt(b) is Some,
    ensures
        ({
            let (o, r) = take_opt(b).unwrap();
            enc_opt(o) + r == b
        }),
{
    let (o, r) = take_opt(b).unwrap();
    if b[0] == 0 {
        assert(enc_opt(o) + r =~= b);
    } else {
        lemma_enc_take_u64(b.skip(1));
        let (x, r1) = take_u64(b.skip(1)).unwrap();
        assert(enc_opt(Some(x)) + r1 =~= seq![1u8] + (spec_u64_to_le_bytes(x) + r1));
        assert(seq![1u8] + b.skip(1) =~= b);
    }
}

/// The format is canonical: a byte string that decodes at all is exactly
/// the encoding of the envelope it decodes to.  Together with
/// [`lemma_codec_round_trip`] this makes `encode` and `decode` inverse to
/// each other.
pub proof fn lemma_codec_canonical(b: Seq<u8>)
    requires
        spec_decode(b) is Some,
    ensures
        wf_wire(spec_decode(b).unwrap()),
        spec_encode(spec_decode(b).unwrap()) == b,
{
    let e = spec_decode(b).unwrap();
    lemma_enc_take_str(b);
    let (id, b1) = take_str(b).unwrap();
    lemma_enc_take_str(b1);
    let (task, b2) = take_str(b1).unwrap();
    lemma_enc_take_chunk(b2);
    let (args, b3) = take_chunk(b2).unwrap();
    lemma_enc_take_str(b3);
    let (queue, b4) = take_str(b3).unwrap();
    lemma_enc_take_u32(b4);
    let (retries, b5) = take_u32(b4).unwrap();
    lemma_enc_take_opt(b5);
    let (expires_at, b6) = take_opt(b5).unwrap();
    lemma_enc_take_opt(b6);
    let (eta, b7) = take_opt(b6).unwrap();
    lemma_enc_take_str(b7);
    let (correlation_id, b8) = take_str(b7).unwrap();
    assert(b8.len() == 0);
    assert(enc_str(correlation_id) =~= enc_str(correlation_id) + b8);
    assert(spec_encode(e) =~= b);
}

/// Append a length-prefixed byte run.
fn push_chunk(out: &mut Vec<u8>, b: &Vec<u8>)
    ensures
        final (out)@ == old(out)@ + enc_chunk(b@),
{
    let mut len_bytes = u64_to_le_bytes(b.len() as u64);
    out.append(&mut len_bytes);
    let mut data = copy_bytes(b);
    out.append(&mut data);
}

/// Append a length-prefixed UTF-8 run.
fn push_str(out: &mut Vec<u8>, s: &String)
    ensures
        final (out)@ == old(out)@ + enc_str(s@),
{
    let bytes = s.as_str().as_bytes_vec();
    push_chunk(out, &bytes);
}

/// Append an optional timestamp.
fn push_opt(out: &mut Vec<u8>, o: &Option<u64>)
    ensures
        final (out)@ == old(out)@ + enc_opt(*o),
{
    match o {
        None => {
            out.push(0u8);
            assert(final (out)@ =~= old(out)@ + enc_opt(None::<u64>));
        },
        Some(x) => {
            out.push(1u8);
            let mut bytes = u64_to_le_bytes(*x);
            out.append(&mut bytes);
            assert(final (out)@ =~= old(out)@ + enc_opt(Some(*x)));
        },
    }
}

/// Encode an envelope into its wire bytes.
pub fn encode(env: &Envelope) -> (r: Vec<u8>)
    ensures
        r@ == spec_encode(env@),
{
    let mut out: Vec<u8> = Vec::new();
    push_str(&mut out, &env.id);
    push_str(&mut out, &env.task);
    push_chunk(&mut out, &env.args);
    push_str(&mut out, &env.queue);
    let mut retry_bytes = u32_to_le_bytes(env.retries);
    out.append(&mut retry_bytes);
    push_opt(&mut out, &env.expires_at);
    push_opt(&mut out, &env.eta);
    push_str(&mut out, &env.correlation_id);
    proof {
        assert(out@ =~= spec_encode(env@));
    }
    out
}

/// Build a `String` from UTF-8 bytes.
///
/// Relies on `String::from_utf8`: it succeeds exactly on valid UTF-8 and
/// yields the string those bytes encode.
#[verifier::external_body]
fn bytes_to_string(v: Vec<u8>) -> (r: Option<String>)
    ensures
        (r is Some) <==> valid_utf8(v@),
        r matches Some(s) ==> s@ == decode_utf8(v@),
{
    String::from_utf8(v).ok()
}

/// Read a `u64` at `i`.
fn read_u64(b: &Vec<u8>, i: usize) -> (r: Option<(u64, usize)>)
    requires
        i <= b@.len(),
    ensures
        match r {
            Some(t) => i + 8 == t.1 && t.1 <= b@.len() && take_u64(b@.skip(i as int)) == Some(
                (t.0, b@.skip(t.1 as int)),
            ),
            None => take_u64(b@.skip(i as int)) is None,
        },
{
    if b.len() - i >= 8 {
        let s = vstd::slice::slice_subrange(b.as_slice(), i, i + 8);
        let x = u64_from_le_bytes(s);
        proof {
            assert(b@.skip(i as int).take(8) =~= b@.subrange(i as int, i + 8));
            assert(b@.skip(i as int).skip(8) =~= b@.skip(i + 8));
        }
        Some((x, i + 8))
    } else {
        None
    }
}

/// Read a `u32` at `i`.
fn read_u32(b: &Vec<u8>, i: usize) -> (r: Option<(u32, usize)>)
    requires
        i <= b@.len(),
    ensures
        match r {
            Some(t) => i + 4 == t.1 && t.1 <= b@.len() && take_u32(b@.skip(i as int)) == Some(
                (t.0, b@.skip(t.1 as int)),
            ),
            None => take_u32(b@.skip(i as int)) is None,
        },
{
    if b.len() - i >= 4 {
        let s = vstd::slice::slice_subrange(b.as_slice(), i, i + 4);
        let x = u32_from_le_bytes(s);
        proof {
            assert(b@.skip(i as int).take(4) =~= b@.subrange(i as int, i + 4));
            assert(b@.skip(i as int).skip(4) =~= b@.skip(i + 4));
        }
        Some((x, i + 4))
    } else {
        None
    }
}

/// Read a length-prefixed byte run at `i`.
fn read_chunk(b: &Vec<u8>, i: usize) -> (r: Option<(Vec<u8>, usize)>)
    requires
        i <= b@.len(),
    ensures
        match r {
            Some(t) => t.1 <= b@.len() && take_chunk(b@.skip(i as int)) == Some(
                (t.0@, b@.skip(t.1 as int)),
            ),
            None => take_chunk(b@.skip(i as int)) is None,
        },
{
    match read_u64(b, i) {
        None => None,
        Some((n, j)) => {
            if n <= (b.len() - j) as u64 {
                let end = j + (n as usize);
                let c = vstd::slice::slice_to_vec(
                    vstd::slice::slice_subrange(b.as_slice(), j, end),
                );
                proof {
                    assert(b@.skip(j as int).take(n as int) =~= b@.subrange(j as int, end as int));
                    assert(b@.skip(j as int).skip(n as int) =~= b@.skip(end as int));
                }
                Some((c, end))
            } else {
                None
            }
        },
    }
}

/// Read a length-prefixed UTF-8 run at `i`.
fn read_str(b: &Vec<u8>, i: usize) -> (r: Option<(String, usize)>)
    requires
        i <= b@.len(),
    ensures
        match r {
            Some(t) => t.1 <= b@.len() && take_str(b@.skip(i as int)) == Some(
                (t.0@, b@.skip(t.1 as int)),
            ),
            None => take_str(b@.skip(i as int)) is None,
        },
{
    match read_chunk(b, i) {
        None => None,
        Some((c, j)) => match bytes_to_string(c) {
            None => None,
            Some(s) => Some((s, j)),
        },
    }
}

/// Read an optional timestamp at `i`.
fn read_opt(b: &Vec<u8>, i: usize) -> (r: Option<(Option<u64>, usize)>)
    requires
        i <= b@.len(),
    ensures
        match r {
            Some(t) => t.1 <= b@.len() && take_opt(b@.skip(i as int)) == Some(
                (t.0, b@.skip(t.1 as int)),
            ),
            None => take_opt(b@.skip(i as int)) is None,
        },
{
    if i >= b.len() {
        return None;
    }
    let tag = b[i];
    proof {
        assert(b@.skip(i as int)[0] == b@[i as int]);
        assert(b@.skip(i as int).skip(1) =~= b@.skip(i + 1));
    }
    if tag == 0 {
        Some((None, i + 1))
    } else if tag == 1 {
        match read_u64(b, i + 1) {
            None => None,
            Some((x, j)) => Some((Some(x), j)),
        }
    } else {
        None
    }
}

/// Decode an envelope from its wire bytes.  Structurally invalid input —
/// truncated fields, an invalid UTF-8 run, a bad option tag, trailing
/// bytes — fails with `AMQPMessageParseError`; such a delivery is reported
/// and nacked without retry, never retried.
pub fn decode(bytes: &Vec<u8>) -> (r: Result<Envelope, CeleryError>)
    ensures
        match r {
            Ok(env) => spec_decode(bytes@) == Some(env@),
            Err(e) => spec_decode(bytes@) is None && (
            e.kind matches ErrorKind::AMQPMessageParseError(_)),
        },
{
    proof {
        assert(bytes@.skip(0) =~= bytes@);
    }
    let (id, i) = match read_str(bytes, 0) {
        Some(t) => t,
        None => {
            return Err(parse_error());
        },
    };
    let (task, i) = match read_str(bytes, i) {
        Some(t) => t,
        None => {
            return Err(parse_error());
        },
    };
    let (args, i) = match read_chunk(bytes, i) {
        Some(t) => t,
        None => {
            return Err(parse_error());
        },
    };
    let (queue, i) = match read_str(bytes, i) {
        Some(t) => t,
        None => {
            return Err(parse_error());
        },
    };
    let (retries, i) = match read_u32(bytes, i) {
        Some(t) => t,
        None => {
            return Err(parse_error());
        },
    };
    let (expires_at, i) = match read_opt(bytes, i) {
        Some(t) => t,
        None => {
            return Err(parse_error());
        },
    };
    let (eta, i) = match read_opt(bytes, i) {
        Some(t) => t,
        None => {
            return Err(parse_error());
        },
    };
    let (correlation_id, i) = match read_str(bytes, i) {
        Some(t) => t,
        None => {
            return Err(parse_error());
        },
    };
    if i != bytes.len() {
        return Err(parse_error());
    }
    Ok(Envelope { id, task, args, queue, retries, expires_at, eta, correlation_id })
}

/// The error reported for a structurally invalid delivery.
fn parse_error() -> (r: CeleryError)
    ensures
        r.kind matches ErrorKind::AMQPMessageParseError(_),
{
    CeleryError::new(ErrorKind::AMQPMessageParseError(String::new()))
}

} // verus!
