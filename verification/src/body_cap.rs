//! Receive-body-size cap: the decisions that guard the transport boundary
//! against oversized OTLP bodies.
//!
//! A cap of `None` or `Some(0)` means "no cap". Otherwise a body of exactly
//! `limit` bytes is accepted and anything larger is refused, naming the
//! configured `limit` and the size the refusing surface actually observed.

use vstd::prelude::*;
use crate::text::{dec_nat, parse_u64, parse_u64_spec, push_dec_u64, trim, trim_spec};

verus! {

/// Length of the gRPC frame header: one compression flag, then a four-byte
/// big-endian message length.
pub const GRPC_HEADER_SIZE: u64 = 5;

/// The active cap: `None` and `Some(0)` are "no cap".
pub open spec fn active_cap_spec(cap: Option<u32>) -> Option<u32> {
    match cap {
        Some(limit) => if limit > 0 {
            Some(limit)
        } else {
            None
        },
        None => None,
    }
}

/// Resolve the active cap: `None` and `Some(0)` both mean "no cap";
/// `Some(n)` for `n > 0` is the inclusive maximum body size.
pub fn active_cap(cap: Option<u32>) -> (r: Option<u32>)
    ensures
        r == active_cap_spec(cap),
{
    match cap {
        Some(limit) => if limit > 0 {
            Some(limit)
        } else {
            None
        },
        None => None,
    }
}

/// The operator-facing diagnostic naming the observed size and the cap.
pub open spec fn too_large_text(limit: u32, size: u64) -> Seq<char> {
    "aperture: body of "@ + dec_nat(size as nat) + " bytes exceeds max_recv_msg_size cap of "@
        + dec_nat(limit as nat) + " bytes"@
}

/// The diagnostic used as the HTTP 413 body and the gRPC `grpc-message`.
pub fn too_large_message(limit: u32, size: u64) -> (m: String)
    ensures
        m@ == too_large_text(limit, size),
{
    let mut m = String::from_str("aperture: body of ");
    push_dec_u64(&mut m, size);
    m.append(" bytes exceeds max_recv_msg_size cap of ");
    push_dec_u64(&mut m, limit as u64);
    m.append(" bytes");
    proof {
        reveal_strlit("aperture: body of ");
        reveal_strlit(" bytes exceeds max_recv_msg_size cap of ");
        reveal_strlit(" bytes");
    }
    m
}

/// The HTTP 413 body: the diagnostic and a newline.
pub fn http_too_large_body(limit: u32, size: u64) -> (b: String)
    ensures
        b@ == too_large_text(limit, size) + "\n"@,
{
    let mut b = too_large_message(limit, size);
    b.append("\n");
    b
}

/// The declared `Content-Length`: the header's text, trimmed, parsed as a
/// `u64`. An absent or unparseable header declares nothing.
pub open spec fn declared_content_length_spec(raw: Option<Seq<char>>) -> Option<u64> {
    match raw {
        Some(t) => parse_u64_spec(trim_spec(t)),
        None => None,
    }
}

/// The declared `Content-Length`, given the header's text when it is present
/// and readable as text.
pub fn declared_content_length(raw: Option<&str>) -> (r: Option<u64>)
    ensures
        r == declared_content_length_spec(match raw {
            Some(t) => Some(t@),
            None => None,
        }),
{
    match raw {
        Some(t) => parse_u64(trim(t)),
        None => None,
    }
}

/// How an HTTP request body is to be read.
#[derive(Debug, Clone, Copy, PartialEq, Eq, Structural)]
pub enum HttpBodyPlan {
    /// No cap: collect the whole body.
    Uncapped,
    /// The declared length is over the cap: refuse before reading a byte.
    Reject { limit: u32, size: u64 },
    /// Read through a length-checked stream that aborts past `limit`.
    Stream { limit: u32 },
}

/// The plan for an HTTP body under `cap`, given its declared length.
pub open spec fn http_body_plan_spec(cap: Option<u32>, declared: Option<u64>) -> HttpBodyPlan {
    match active_cap_spec(cap) {
        None => HttpBodyPlan::Uncapped,
        Some(limit) => match declared {
            Some(size) => if size > limit {
                HttpBodyPlan::Reject { limit, size }
            } else {
                HttpBodyPlan::Stream { limit }
            },
            None => HttpBodyPlan::Stream { limit },
        },
    }
}

/// Decide how to read an HTTP body: no cap collects it whole; a declared
/// length over the cap is refused before any byte is read (its size is the
/// declared length); otherwise the body is streamed against the cap.
pub fn http_body_plan(cap: Option<u32>, declared: Option<u64>) -> (p: HttpBodyPlan)
    ensures
        p == http_body_plan_spec(cap, declared),
{
    match active_cap(cap) {
        None => HttpBodyPlan::Uncapped,
        Some(limit) => match declared {
            Some(size) => if size > limit as u64 {
                HttpBodyPlan::Reject { limit, size }
            } else {
                HttpBodyPlan::Stream { limit }
            },
            None => HttpBodyPlan::Stream { limit },
        },
    }
}

/// The verdict of reading a request body against the cap.
#[derive(Debug, Clone)]
pub enum BodyCapOutcome {
    /// The body fit within the cap; carries its bytes.
    WithinCap(Vec<u8>),
    /// The body exceeded the cap; carries the observed size.
    OverCap { observed: u64 },
    /// The body could not be read before a size verdict.
    ReadError,
}

/// The verdict of a streamed HTTP read under `limit`: the collected bytes
/// when the read stayed within the cap, otherwise an over-cap verdict whose
/// observed size is `limit + 1`, the least size the aborted read can vouch for.
pub fn http_streamed_outcome(limit: u32, collected: Option<Vec<u8>>) -> (r: BodyCapOutcome)
    ensures
        match collected {
            Some(bytes) => r matches BodyCapOutcome::WithinCap(b) && b@ == bytes@,
            None => r == (BodyCapOutcome::OverCap { observed: (limit + 1) as u64 }),
        },
{
    match collected {
        Some(bytes) => BodyCapOutcome::WithinCap(bytes),
        None => BodyCapOutcome::OverCap { observed: limit as u64 + 1 },
    }
}

/// The big-endian value of four bytes.
pub open spec fn be_u32(b0: u8, b1: u8, b2: u8, b3: u8) -> nat {
    (b0 as nat) * 16777216 + (b1 as nat) * 65536 + (b2 as nat) * 256 + (b3 as nat)
}

/// The message length a gRPC frame header declares.
pub open spec fn declared_frame_len(buf: Seq<u8>) -> nat
    recommends
        buf.len() >= 5,
{
    be_u32(buf[1], buf[2], buf[3], buf[4])
}

/// The over-cap size a buffered frame head declares: `None` until the
/// five-byte header is present, or when the declared length is within the cap.
pub open spec fn prefix_verdict_spec(buf: Seq<u8>, limit: u32) -> Option<u64> {
    if buf.len() < 5 {
        None
    } else if declared_frame_len(buf) > limit {
        Some(declared_frame_len(buf) as u64)
    } else {
        None
    }
}

/// The over-cap outcome for an observed size, if any.
pub open spec fn over_cap(observed: Option<u64>) -> Option<BodyCapOutcome> {
    match observed {
        Some(o) => Some(BodyCapOutcome::OverCap { observed: o }),
        None => None,
    }
}

/// Inspect the buffered head of a gRPC frame against the cap: an over-cap
/// verdict when the declared message length exceeds `limit`, otherwise none.
pub fn grpc_prefix_verdict(buf: &[u8], limit: u32) -> (r: Option<BodyCapOutcome>)
    ensures
        r == over_cap(prefix_verdict_spec(buf@, limit)),
{
    if buf.len() < 5 {
        return None;
    }
    let declared: u32 = (buf[1] as u32) * 16777216 + (buf[2] as u32) * 65536 + (buf[3] as u32)
        * 256 + (buf[4] as u32);
    if declared > limit {
        Some(BodyCapOutcome::OverCap { observed: declared as u64 })
    } else {
        None
    }
}

/// The verdict after a chunk lands in the buffer: the prefix verdict when it
/// refuses, else a refusal with observed size `limit + 1` once the buffer
/// outgrows one cap plus the frame header, else none.
pub open spec fn chunk_verdict(buf: Seq<u8>, limit: u32) -> Option<u64> {
    match prefix_verdict_spec(buf, limit) {
        Some(o) => Some(o),
        None => if buf.len() > limit + GRPC_HEADER_SIZE {
            Some((limit + 1) as u64)
        } else {
            None
        },
    }
}

/// A bounded reader of one gRPC request body under a cap.
pub struct GrpcCapCollector {
    buf: Vec<u8>,
    limit: u32,
}

impl View for GrpcCapCollector {
    type V = Seq<u8>;

    /// The bytes buffered so far.
    closed spec fn view(&self) -> Seq<u8> {
        self.buf@
    }
}

impl GrpcCapCollector {
    /// The cap the collector reads against.
    pub closed spec fn limit(&self) -> u32 {
        self.limit
    }

    /// An empty collector for `limit`.
    pub fn new(limit: u32) -> (c: GrpcCapCollector)
        ensures
            c@ == Seq::<u8>::empty(),
            c.limit() == limit,
    {
        GrpcCapCollector { buf: Vec::new(), limit }
    }

    /// Buffer one data chunk and report a verdict if one is reached.
    pub fn push_chunk(&mut self, data: &[u8]) -> (r: Option<BodyCapOutcome>)
        ensures
            final(self)@ == old(self)@ + data@,
            final(self).limit() == old(self).limit(),
            r == over_cap(chunk_verdict(final(self)@, old(self).limit())),
    {
        let mut i: usize = 0;
        while i < data.len()
            invariant
                i <= data@.len(),
                self.limit == old(self).limit,
                self.buf@ == old(self).buf@ + data@.subrange(0, i as int),
            decreases data@.len() - i,
        {
            self.buf.push(data[i]);
            assert(old(self).buf@ + data@.subrange(0, (i + 1) as int) =~= old(self).buf@
                + data@.subrange(0, i as int) + seq![data@[i as int]]);
            i = i + 1;
        }
        assert(data@.subrange(0, data@.len() as int) =~= data@);
        let verdict = grpc_prefix_verdict(self.buf.as_slice(), self.limit);
        if verdict.is_some() {
            return verdict;
        }
        if self.buf.len() as u64 > self.limit as u64 + GRPC_HEADER_SIZE {
            return Some(BodyCapOutcome::OverCap { observed: self.limit as u64 + 1 });
        }
        None
    }

    /// The verdict once the body ended: the prefix verdict when it refuses,
    /// otherwise the buffered bytes.
    pub fn finish(self) -> (r: BodyCapOutcome)
        ensures
            match prefix_verdict_spec(self@, self.limit()) {
                Some(o) => r == (BodyCapOutcome::OverCap { observed: o }),
                None => r matches BodyCapOutcome::WithinCap(b) && b@ == self@,
            },
    {
        match grpc_prefix_verdict(self.buf.as_slice(), self.limit) {
            Some(verdict) => verdict,
            None => BodyCapOutcome::WithinCap(self.buf),
        }
    }
}

/// A cap of 0, like no cap at all, reads every body whole whatever its
/// declared length.
pub proof fn lemma_zero_cap_is_no_cap(declared: Option<u64>)
    ensures
        active_cap_spec(Some(0)) is None,
        http_body_plan_spec(Some(0), declared) == HttpBodyPlan::Uncapped,
        http_body_plan_spec(None, declared) == HttpBodyPlan::Uncapped,
{
}

/// The cap is inclusive: a body declaring exactly `limit` bytes is read,
/// one declaring `limit + 1` is refused naming that size.
pub proof fn lemma_cap_is_inclusive(limit: u32)
    requires
        limit > 0,
    ensures
        http_body_plan_spec(Some(limit), Some(limit as u64)) == (HttpBodyPlan::Stream { limit }),
        http_body_plan_spec(Some(limit), Some((limit + 1) as u64)) == (HttpBodyPlan::Reject {
            limit,
            size: (limit + 1) as u64,
        }),
{
}

/// A gRPC frame head declaring exactly the cap passes the prefix check;
/// one declaring more is refused with the declared length as its size.
pub proof fn lemma_frame_prefix_inclusive(buf: Seq<u8>, limit: u32)
    requires
        buf.len() >= 5,
    ensures
        declared_frame_len(buf) <= limit ==> prefix_verdict_spec(buf, limit) is None,
        declared_frame_len(buf) > limit ==> prefix_verdict_spec(buf, limit) == Some(
            declared_frame_len(buf) as u64,
        ),
{
}

} // verus!
