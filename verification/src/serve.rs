//! Decisions of the transport layer: how a serving loop's end is judged,
//! what `/readyz` answers, which request bodies count as OTLP protobuf,
//! and the serve-failure injection seam used by tests and the binary.

use tokio::task::JoinError;
use vstd::prelude::*;
use crate::readiness::{ReadinessOp, ReadinessPhase, ReadinessState, step};
use crate::backpressure::{refusal_message, refusal_text, CapTransport};
use crate::ports::SinkError;
use crate::shutdown::ShutdownTrigger;
use crate::body_cap::{http_too_large_body, too_large_text};
use crate::text::{back_ws_from, skip_ws_from, str_eq, trim_bounds};

verus! {

/// `tokio::task::JoinError`, carried opaquely.
#[verifier::external_type_specification]
#[verifier::external_body]
pub struct ExJoinError(JoinError);

/// Verdict a serving-loop task resolves to.
#[derive(Debug, Clone, Copy, PartialEq, Eq, Structural)]
pub enum ServeOutcome {
    /// The serve future returned while a shutdown was requested.
    Graceful,
    /// The serve future returned with no shutdown requested.
    Failed,
}

/// The reason a serving loop died, as text.
#[derive(Debug, Clone)]
pub struct ServeError(String);

/// The reason text of an unexpected early `Ok`.
pub open spec fn early_ok_text() -> Seq<char> {
    "serving loop returned without a shutdown request"@
}

impl ServeError {
    pub closed spec fn text(&self) -> Seq<char> {
        self.0@
    }

    /// The reason rendered from a serve future's error.
    pub fn from_err(reason: String) -> (e: ServeError)
        ensures
            e.text() == reason@,
    {
        ServeError(reason)
    }

    /// The reason for an unexpected early `Ok`.
    pub fn from_early_ok() -> (e: ServeError)
        ensures
            e.text() == early_ok_text(),
    {
        ServeError(String::from_str("serving loop returned without a shutdown request"))
    }

    /// The reason text.
    pub fn as_str(&self) -> (s: &str)
        ensures
            s@ == self.text(),
    {
        self.0.as_str()
    }
}

/// The fields of the `serve_loop_failed` event.
#[derive(Debug, Clone)]
pub struct ServeFailure {
    pub transport: &'static str,
    pub error: ServeError,
}

/// The `serve_loop_failed` event a verdict carries: `None` for a graceful
/// end; otherwise the transport and the reason (an error names itself, an
/// early `Ok` names the missing shutdown request).
pub open spec fn failure_matches(
    f: Option<ServeFailure>,
    serve_result: Result<(), String>,
    shutdown_requested: bool,
    transport: &'static str,
) -> bool {
    if shutdown_requested {
        f is None
    } else {
        f matches Some(f) && f.transport@ == transport@ && f.error.text() == match serve_result {
            Err(e) => e@,
            Ok(()) => early_ok_text(),
        }
    }
}

/// Decide a serving loop's verdict from its serve result and whether a
/// shutdown was requested. With a shutdown requested any end is
/// `Graceful` and readiness is untouched; otherwise the verdict is
/// `Failed`, readiness flips to `Failed` (a no-op once draining), and the
/// `serve_loop_failed` event to emit is returned.
pub fn resolve_serve_outcome(
    serve_result: Result<(), String>,
    shutdown_requested: bool,
    transport: &'static str,
    readiness: &mut ReadinessState,
) -> (r: (ServeOutcome, Option<ServeFailure>))
    ensures
        shutdown_requested ==> r.0 == ServeOutcome::Graceful && final(readiness)@ == old(readiness)@,
        !shutdown_requested ==> r.0 == ServeOutcome::Failed && final(readiness)@ == step(
            old(readiness)@,
            ReadinessOp::FlipToFailed,
        ),
        failure_matches(r.1, serve_result, shutdown_requested, transport),
{
    if shutdown_requested {
        return (ServeOutcome::Graceful, None);
    }
    let error = match serve_result {
        Err(e) => ServeError::from_err(e),
        Ok(()) => ServeError::from_early_ok(),
    };
    let _ = readiness.flip_to_failed();
    (ServeOutcome::Failed, Some(ServeFailure { transport, error }))
}

/// The error text of an injected serve failure.
pub open spec fn injected_error_text() -> Seq<char> {
    "injected post-bind serve failure (test seam)"@
}

/// The serve result an injected failure stands for: an early `Ok`, or an
/// error naming the injection.
pub fn injected_serve_result(early_ok: bool) -> (r: Result<(), String>)
    ensures
        early_ok ==> r is Ok,
        !early_ok ==> (r matches Err(e) && e@ == injected_error_text()),
{
    if early_ok {
        Ok(())
    } else {
        Err(String::from_str("injected post-bind serve failure (test seam)"))
    }
}

/// Drive the post-bind-death self-reaction for `transport` with no
/// shutdown requested: the verdict is `Failed`, readiness flips to
/// `Failed`, and the failure names the transport and the injected reason.
pub fn inject_serve_failure(transport: &'static str, readiness: &mut ReadinessState, early_ok: bool) -> (r: (
    ServeOutcome,
    Option<ServeFailure>,
))
    ensures
        r.0 == ServeOutcome::Failed,
        final(readiness)@ == step(old(readiness)@, ReadinessOp::FlipToFailed),
        r.1 matches Some(f) && f.transport@ == transport@ && f.error.text() == if early_ok {
            early_ok_text()
        } else {
            injected_error_text()
        },
{
    let injected = injected_serve_result(early_ok);
    resolve_serve_outcome(injected, false, transport, readiness)
}

/// Which transport's serving loop an injected failure kills.
#[derive(Debug, Clone, Copy, PartialEq, Eq, Structural)]
pub enum InjectServeFailure {
    /// The gRPC serving loop resolves to `Err` post-bind.
    Grpc,
    /// The HTTP serving loop resolves to `Err` post-bind.
    Http,
    /// The gRPC serving loop returns `Ok` early with no shutdown requested.
    GrpcEarlyOk,
}

/// The transport name and early-`Ok` flag an injection stands for.
pub fn injection_target(which: InjectServeFailure) -> (r: (&'static str, bool))
    ensures
        r.0@ == (match which {
            InjectServeFailure::Http => "http"@,
            _ => "grpc"@,
        }),
        r.1 == (which == InjectServeFailure::GrpcEarlyOk),
{
    match which {
        InjectServeFailure::Grpc => ("grpc", false),
        InjectServeFailure::Http => ("http", false),
        InjectServeFailure::GrpcEarlyOk => ("grpc", true),
    }
}

/// Map the serve-failure injection setting to a transport name: `grpc` and
/// `http` are recognised, anything else injects nothing.
pub fn inject_transport_from_env(raw: &str) -> (r: Option<&'static str>)
    ensures
        raw@ == "grpc"@ ==> (r matches Some(t) && t@ == "grpc"@),
        raw@ == "http"@ ==> (r matches Some(t) && t@ == "http"@),
        raw@ != "grpc"@ && raw@ != "http"@ ==> r is None,
{
    if str_eq(raw, "grpc") {
        Some("grpc")
    } else if str_eq(raw, "http") {
        Some("http")
    } else {
        None
    }
}

/// What ended the run loop's wait.
#[derive(Debug, Clone, Copy, PartialEq, Eq, Structural)]
pub enum RunEvent {
    Shutdown(ShutdownTrigger),
    ServeDeath,
}

impl RunEvent {
    /// True only for the serve-death arm.
    pub fn is_serve_death(&self) -> (b: bool)
        ensures
            b == (*self == RunEvent::ServeDeath),
    {
        match self {
            RunEvent::ServeDeath => true,
            _ => false,
        }
    }
}

/// Classify a serving join's resolution: only a `Failed` verdict is a
/// post-bind death; a graceful end or a join error keeps the normal
/// shutdown path.
pub fn serve_join_event(joined: Result<ServeOutcome, JoinError>) -> (e: RunEvent)
    ensures
        e == (if joined matches Ok(ServeOutcome::Failed) {
            RunEvent::ServeDeath
        } else {
            RunEvent::Shutdown(ShutdownTrigger::HandleShutdown)
        }),
{
    match joined {
        Ok(ServeOutcome::Failed) => RunEvent::ServeDeath,
        _ => RunEvent::Shutdown(ShutdownTrigger::HandleShutdown),
    }
}

/// The `/readyz` status code and body for each phase.
pub open spec fn readyz_spec(phase: ReadinessPhase) -> (u16, Seq<char>) {
    match phase {
        ReadinessPhase::Starting => (503, "starting\n"@),
        ReadinessPhase::Ready => (200, "ready\n"@),
        ReadinessPhase::Draining => (503, "draining\n"@),
        ReadinessPhase::Failed => (503, "failed\n"@),
    }
}

/// The `/readyz` answer: 200 only when ready.
pub fn readyz_response(phase: ReadinessPhase) -> (r: (u16, &'static str))
    ensures
        (r.0, r.1@) == readyz_spec(phase),
{
    match phase {
        ReadinessPhase::Starting => (503, "starting\n"),
        ReadinessPhase::Ready => (200, "ready\n"),
        ReadinessPhase::Draining => (503, "draining\n"),
        ReadinessPhase::Failed => (503, "failed\n"),
    }
}

// ---------------------------------------------------------------------
// Content-Type classification
// ---------------------------------------------------------------------

/// The first index at or after `k` holding `c`, or the length.
pub open spec fn find_from(s: Seq<char>, k: int, c: char) -> int
    decreases s.len() - k,
{
    if k >= s.len() {
        s.len() as int
    } else if s[k] == c {
        k
    } else {
        find_from(s, k + 1, c)
    }
}

/// The media type of a Content-Type value: the text before the first
/// `;`, with surrounding whitespace trimmed.
pub open spec fn media_type(s: Seq<char>) -> Seq<char> {
    let end = find_from(s, 0, ';');
    let lo = skip_ws_from(s, 0, end);
    let hi = back_ws_from(s, lo, end);
    s.subrange(lo, hi)
}

/// ASCII lowercase of one character.
pub open spec fn ascii_lower(c: char) -> char {
    if 'A' <= c && c <= 'Z' {
        ((c as u32) + 32) as char
    } else {
        c
    }
}

/// `a` equals the lowercase ASCII text `lower` ignoring ASCII case.
pub open spec fn eq_ignore_ascii_case(a: Seq<char>, lower: Seq<char>) -> bool {
    a.len() == lower.len() && forall|i: int| 0 <= i < a.len() ==> ascii_lower(a[i]) == lower[i]
}

/// The OTLP/HTTP protobuf media type.
pub open spec fn protobuf_media() -> Seq<char> {
    "application/x-protobuf"@
}

fn ascii_lower_exec(c: char) -> (r: char)
    ensures
        r == ascii_lower(c),
{
    if 'A' <= c && c <= 'Z' {
        (((c as u32) + 32) as u8) as char
    } else {
        c
    }
}

/// The Content-Type text `content_type` names `application/x-protobuf`.
pub open spec fn is_protobuf_spec(content_type: Option<&str>) -> bool {
    content_type matches Some(t) && eq_ignore_ascii_case(media_type(t@), protobuf_media())
}

/// True when a Content-Type value names `application/x-protobuf`
/// (ASCII case-insensitive, optional `;` parameters, surrounding
/// whitespace). An absent (or non-text) header is not protobuf.
pub fn is_protobuf_content_type(content_type: Option<&str>) -> (b: bool)
    ensures
        b == is_protobuf_spec(content_type),
{
    let text = match content_type {
        Some(t) => t,
        None => return false,
    };
    let ghost s = text@;
    let n = text.unicode_len();
    let mut end: usize = 0;
    while end < n && text.get_char(end) != ';'
        invariant
            s == text@,
            n == s.len(),
            end <= n,
            find_from(s, end as int, ';') == find_from(s, 0, ';'),
        decreases n - end,
    {
        end = end + 1;
    }
    let (lo, hi) = trim_bounds(text, end);
    assert(media_type(s) == s.subrange(lo as int, hi as int));
    let target = "application/x-protobuf";
    proof {
        reveal_strlit("application/x-protobuf");
    }
    let tn = target.unicode_len();
    if hi - lo != tn {
        return false;
    }
    let mut i: usize = 0;
    while i < tn
        invariant
            s == text@,
            n == s.len(),
            lo <= hi <= n,
            hi - lo == tn,
            tn == target@.len(),
            target@ == protobuf_media(),
            i <= tn,
            content_type == Some(text),
            media_type(s) == s.subrange(lo as int, hi as int),
            forall|k: int| 0 <= k < i ==> ascii_lower(s[lo + k]) == target@[k],
        decreases tn - i,
    {
        if ascii_lower_exec(text.get_char(lo + i)) != target.get_char(i) {
            assert(media_type(s)[i as int] == s[lo + i]);
            assert(ascii_lower(media_type(s)[i as int]) != protobuf_media()[i as int]);
            return false;
        }
        i = i + 1;
    }
    assert(eq_ignore_ascii_case(s.subrange(lo as int, hi as int), protobuf_media()));
    true
}

// ---------------------------------------------------------------------
// Replies
// ---------------------------------------------------------------------

/// The top-level error of a run, as text.
#[derive(Debug)]
pub struct ApertureError(pub String);

impl ApertureError {
    /// The error's text (what `Display` shows).
    pub fn message(&self) -> (s: &str)
        ensures
            s@ == self.0@,
    {
        self.0.as_str()
    }

    /// A listener that could not bind: `listener bind failed for {transport}: {reason}`.
    pub fn bind_failed(transport: &str, reason: &str) -> (e: ApertureError)
        ensures
            e.0@ == "listener bind failed for "@ + transport@ + ": "@ + reason@,
    {
        let mut m = String::from_str("listener bind failed for ");
        m.append(transport);
        m.append(": ");
        m.append(reason);
        ApertureError(m)
    }

    /// A sink whose startup probe failed: `sink probe failed: {reason}`.
    pub fn probe_failed(reason: &str) -> (e: ApertureError)
        ensures
            e.0@ == "sink probe failed: "@ + reason@,
    {
        let mut m = String::from_str("sink probe failed: ");
        m.append(reason);
        ApertureError(m)
    }
}

/// How a validate-and-route call ended: accepted, rejected by the
/// conformance harness (with its rendered violation), or refused by the sink.
#[derive(Debug)]
pub enum IngestOutcome {
    Accepted,
    Rejected(String),
    SinkRefused(SinkError),
}

/// The text media type of every non-protobuf reply.
pub open spec fn text_plain() -> Seq<char> {
    "text/plain; charset=utf-8"@
}

/// An HTTP reply: status, content type, whether `Retry-After: 1` is set,
/// and body.
#[derive(Debug)]
pub struct HttpReply {
    pub status: u16,
    pub content_type: &'static str,
    pub retry_after: bool,
    pub body: String,
}

/// `/healthz`: always 200 `ok` while the process is up.
pub fn healthz_reply() -> (r: HttpReply)
    ensures
        r.status == 200,
        r.content_type@ == text_plain(),
        !r.retry_after,
        r.body@ == "ok\n"@,
{
    HttpReply {
        status: 200,
        content_type: "text/plain; charset=utf-8",
        retry_after: false,
        body: String::from_str("ok\n"),
    }
}

/// `r` is the HTTP refusal at the concurrency cap `cap`.
pub open spec fn is_http_cap_refusal(r: HttpReply, cap: u32) -> bool {
    &&& r.status == 503
    &&& r.content_type@ == text_plain()
    &&& r.retry_after
    &&& r.body@ == refusal_text(CapTransport::HttpProtobuf, cap) + "\n"@
}

/// The HTTP refusal at the concurrency cap: 503 with `Retry-After: 1` and
/// a body naming the cap.
pub fn http_cap_refusal(cap: u32) -> (r: HttpReply)
    ensures
        is_http_cap_refusal(r, cap),
{
    let mut body = refusal_message(CapTransport::HttpProtobuf, cap);
    body.append("\n");
    HttpReply { status: 503, content_type: "text/plain; charset=utf-8", retry_after: true, body }
}

/// `r` is the 415 reply to a body that is not protobuf.
pub open spec fn is_unsupported_media_type_reply(r: HttpReply) -> bool {
    &&& r.status == 415
    &&& r.content_type@ == text_plain()
    &&& !r.retry_after
    &&& r.body@ == "unsupported media type; expected application/x-protobuf\n"@
}

/// The reply to a body that is not `application/x-protobuf`: 415.
pub fn unsupported_media_type_reply() -> (r: HttpReply)
    ensures
        is_unsupported_media_type_reply(r),
{
    HttpReply {
        status: 415,
        content_type: "text/plain; charset=utf-8",
        retry_after: false,
        body: String::from_str("unsupported media type; expected application/x-protobuf\n"),
    }
}

/// `r` is the HTTP reply to the ingest outcome `outcome`.
pub open spec fn is_http_reply_to(r: HttpReply, outcome: IngestOutcome) -> bool {
    &&& !r.retry_after
    &&& match outcome {
        IngestOutcome::Accepted => r.status == 200 && r.content_type@ == "application/x-protobuf"@
            && r.body@ == Seq::<char>::empty(),
        IngestOutcome::Rejected(v) => r.status == 400 && r.content_type@ == text_plain() && r.body@
            == v@,
        IngestOutcome::SinkRefused(e) => r.status == 503 && r.content_type@ == text_plain() && r.body@
            == e.text(),
    }
}

/// The HTTP reply to an ingest: 200 with an empty protobuf body when
/// accepted, 400 with the violation text when rejected, 503 with the
/// sink's text when the sink refused.
pub fn http_reply(outcome: IngestOutcome) -> (r: HttpReply)
    ensures
        is_http_reply_to(r, outcome),
{
    match outcome {
        IngestOutcome::Accepted => HttpReply {
            status: 200,
            content_type: "application/x-protobuf",
            retry_after: false,
            body: String::new(),
        },
        IngestOutcome::Rejected(v) => HttpReply {
            status: 400,
            content_type: "text/plain; charset=utf-8",
            retry_after: false,
            body: v,
        },
        IngestOutcome::SinkRefused(e) => HttpReply {
            status: 503,
            content_type: "text/plain; charset=utf-8",
            retry_after: false,
            body: e.message(),
        },
    }
}

/// The gRPC status codes a refusal uses.
#[derive(Debug, Clone, Copy, PartialEq, Eq, Structural)]
pub enum GrpcCode {
    ResourceExhausted,
    InvalidArgument,
    Unavailable,
}

/// A gRPC reply: an accepted export, or a refusal with a status code and
/// message.
#[derive(Debug)]
pub enum GrpcReply {
    Accepted,
    Refused { code: GrpcCode, message: String },
}

/// `r` is the gRPC refusal at the concurrency cap `cap`.
pub open spec fn is_grpc_cap_refusal(r: GrpcReply, cap: u32) -> bool {
    r matches GrpcReply::Refused { code, message } && code == GrpcCode::ResourceExhausted
        && message@ == refusal_text(CapTransport::Grpc, cap)
}

/// The gRPC refusal at the concurrency cap: `RESOURCE_EXHAUSTED` naming
/// the cap.
pub fn grpc_cap_refusal(cap: u32) -> (r: GrpcReply)
    ensures
        is_grpc_cap_refusal(r, cap),
{
    GrpcReply::Refused {
        code: GrpcCode::ResourceExhausted,
        message: refusal_message(CapTransport::Grpc, cap),
    }
}

/// `r` is the gRPC reply to the ingest outcome `outcome`.
pub open spec fn is_grpc_reply_to(r: GrpcReply, outcome: IngestOutcome) -> bool {
    match outcome {
        IngestOutcome::Accepted => r is Accepted,
        IngestOutcome::Rejected(v) => r matches GrpcReply::Refused { code, message } && code
            == GrpcCode::InvalidArgument && message@ == v@,
        IngestOutcome::SinkRefused(e) => r matches GrpcReply::Refused { code, message } && code
            == GrpcCode::Unavailable && message@ == e.text(),
    }
}

/// The gRPC reply to an ingest: accepted, `INVALID_ARGUMENT` with the
/// violation text, or `UNAVAILABLE` with the sink's text.
pub fn grpc_reply(outcome: IngestOutcome) -> (r: GrpcReply)
    ensures
        is_grpc_reply_to(r, outcome),
{
    match outcome {
        IngestOutcome::Accepted => GrpcReply::Accepted,
        IngestOutcome::Rejected(v) => GrpcReply::Refused { code: GrpcCode::InvalidArgument, message: v },
        IngestOutcome::SinkRefused(e) => GrpcReply::Refused {
            code: GrpcCode::Unavailable,
            message: e.message(),
        },
    }
}

/// How reading an HTTP request body ended.
#[derive(Debug, Clone, Copy, PartialEq, Eq, Structural)]
pub enum HttpBodyRead {
    /// The body was read whole within the cap.
    Read,
    /// The body declared or streamed more than `limit` bytes; `size` is the
    /// size named in the refusal.
    TooLarge { limit: u32, size: u64 },
    /// The body could not be read.
    Unreadable,
}

/// `r` is the refusal of a body whose read ended in `read` (which is not
/// `Read`): 413 naming the size and the cap, or 400.
pub open spec fn is_body_refusal(r: HttpReply, read: HttpBodyRead) -> bool {
    &&& r.content_type@ == text_plain()
    &&& !r.retry_after
    &&& match read {
        HttpBodyRead::TooLarge { limit, size } => r.status == 413 && r.body@ == too_large_text(
            limit,
            size,
        ) + "\n"@,
        _ => r.status == 400 && r.body@ == "failed to read request body\n"@,
    }
}

/// The HTTP reply refusing a body that was not read within the cap.
pub fn http_body_refusal(read: HttpBodyRead) -> (r: HttpReply)
    requires
        read != HttpBodyRead::Read,
    ensures
        is_body_refusal(r, read),
{
    match read {
        HttpBodyRead::TooLarge { limit, size } => HttpReply {
            status: 413,
            content_type: "text/plain; charset=utf-8",
            retry_after: false,
            body: http_too_large_body(limit, size),
        },
        _ => HttpReply {
            status: 400,
            content_type: "text/plain; charset=utf-8",
            retry_after: false,
            body: String::from_str("failed to read request body\n"),
        },
    }
}

/// What an HTTP export does next.
#[derive(Debug)]
pub enum HttpExportAction {
    /// Answer with this reply; the export is over.
    Reply(HttpReply),
    /// Read the body within the cap and report how the read ended.
    ReadBody,
    /// Hand the body to the sink and report the ingest outcome.
    Ingest,
}

/// One step of an HTTP export. The checks run in a fixed order: the
/// concurrency cap, the media type, the body cap, then the ingest. Each
/// argument is what a stage gave, `None` where the stage has not run yet;
/// the result is the next thing to do.
pub fn http_export_step(
    cap: u32,
    permit_granted: bool,
    content_type: Option<&str>,
    body: Option<HttpBodyRead>,
    ingested: Option<IngestOutcome>,
) -> (a: HttpExportAction)
    ensures
        !permit_granted ==> (a matches HttpExportAction::Reply(r) && is_http_cap_refusal(r, cap)),
        permit_granted && !is_protobuf_spec(content_type) ==> (a matches HttpExportAction::Reply(r)
            && is_unsupported_media_type_reply(r)),
        permit_granted && is_protobuf_spec(content_type) ==> match body {
            None => a is ReadBody,
            Some(HttpBodyRead::Read) => match ingested {
                None => a is Ingest,
                Some(o) => a matches HttpExportAction::Reply(r) && is_http_reply_to(r, o),
            },
            Some(read) => a matches HttpExportAction::Reply(r) && is_body_refusal(r, read),
        },
{
    if !permit_granted {
        return HttpExportAction::Reply(http_cap_refusal(cap));
    }
    if !is_protobuf_content_type(content_type) {
        return HttpExportAction::Reply(unsupported_media_type_reply());
    }
    match body {
        None => HttpExportAction::ReadBody,
        Some(HttpBodyRead::Read) => match ingested {
            None => HttpExportAction::Ingest,
            Some(o) => HttpExportAction::Reply(http_reply(o)),
        },
        Some(read) => HttpExportAction::Reply(http_body_refusal(read)),
    }
}

/// What a gRPC export does next.
#[derive(Debug)]
pub enum GrpcExportAction {
    /// Answer with this reply; the export is over.
    Reply(GrpcReply),
    /// Hand the request to the sink and report the ingest outcome.
    Ingest,
}

/// One step of a gRPC export: the concurrency cap first, then the ingest.
/// (The body cap runs in the layer in front of the service.)
pub fn grpc_export_step(cap: u32, permit_granted: bool, ingested: Option<IngestOutcome>) -> (a:
    GrpcExportAction)
    ensures
        !permit_granted ==> (a matches GrpcExportAction::Reply(r) && is_grpc_cap_refusal(r, cap)),
        permit_granted ==> match ingested {
            None => a is Ingest,
            Some(o) => a matches GrpcExportAction::Reply(r) && is_grpc_reply_to(r, o),
        },
{
    if !permit_granted {
        return GrpcExportAction::Reply(grpc_cap_refusal(cap));
    }
    match ingested {
        None => GrpcExportAction::Ingest,
        Some(o) => GrpcExportAction::Reply(grpc_reply(o)),
    }
}

} // verus!
