//! Field-by-field translation of OTLP requests into pillar records.
//!
//! A whole request is translated before anything is persisted: a
//! wrong-length byte-array identifier anywhere refuses the request and
//! yields no records. The tenant of a request is resolved from the first
//! resource's `tenant.id` attribute.

use vstd::prelude::*;
use crate::otlp::{
    any_value_to_string, opt_value_text, Event, ExportLogsServiceRequest, ExportTraceServiceRequest,
    KeyValue, Link, LogRecord as ProtoLogRecord, Resource, ResourceLogs, ResourceSpans, ScopeLogs,
    ScopeSpans, Span as ProtoSpan, Status,
};
use crate::pillar::{
    AttributeMap, LogRecord, SeverityNumber, Span, SpanEvent, SpanId, SpanKind, SpanLink,
    SpanStatus, StatusCode, TraceId,
};
use crate::text::{dec_nat, opt_view, push_dec_u64, str_eq};

verus! {

/// A refusal of a translation, naming the offending identifier.
#[derive(Debug)]
pub enum TranslationError {
    /// A byte-array identifier was neither empty nor the required length.
    MalformedByteId { field: &'static str, expected: usize, actual: usize },
}

/// A malformed identifier: the field, the required length, the actual one.
pub type IdFault = (Seq<char>, nat, nat);

/// The fault a translation error reports.
pub open spec fn fault_of(e: TranslationError) -> IdFault {
    match e {
        TranslationError::MalformedByteId { field, expected, actual } => (
            field@,
            expected as nat,
            actual as nat,
        ),
    }
}

/// The text of a fault: `malformed {field}: expected {n} bytes, got {m}`.
pub open spec fn fault_text(f: IdFault) -> Seq<char> {
    "malformed "@ + f.0 + ": expected "@ + dec_nat(f.1) + " bytes, got "@ + dec_nat(f.2)
}

impl TranslationError {
    /// The operator-facing text naming the field and both lengths.
    pub fn message(&self) -> (s: String)
        ensures
            s@ == fault_text(fault_of(*self)),
    {
        match self {
            TranslationError::MalformedByteId { field, expected, actual } => {
                let mut s = String::from_str("malformed ");
                s.append(field);
                s.append(": expected ");
                push_dec_u64(&mut s, *expected as u64);
                s.append(" bytes, got ");
                push_dec_u64(&mut s, *actual as u64);
                s
            },
        }
    }
}

impl PartialEq for TranslationError {
    fn eq(&self, other: &Self) -> (r: bool) {
        match (self, other) {
            (
                TranslationError::MalformedByteId { field: f1, expected: e1, actual: a1 },
                TranslationError::MalformedByteId { field: f2, expected: e2, actual: a2 },
            ) => str_eq(f1, f2) && *e1 == *e2 && *a1 == *a2,
        }
    }
}

impl vstd::std_specs::cmp::PartialEqSpecImpl for TranslationError {
    open spec fn obeys_eq_spec() -> bool {
        true
    }

    open spec fn eq_spec(&self, other: &Self) -> bool {
        fault_of(*self) == fault_of(*other)
    }
}

// ---------------------------------------------------------------------
// Identifiers
// ---------------------------------------------------------------------

/// The fault of a byte-array identifier that must be `n` bytes: an empty
/// one is at fault only when `required`, with actual length 0.
pub open spec fn id_fault(bytes: Seq<u8>, field: Seq<char>, n: nat, required: bool) -> Option<IdFault> {
    if bytes.len() == 0 {
        if required {
            Some((field, n, 0))
        } else {
            None
        }
    } else if bytes.len() == n {
        None
    } else {
        Some((field, n, bytes.len()))
    }
}

/// The first of two possible faults.
pub open spec fn first_fault(a: Option<IdFault>, b: Option<IdFault>) -> Option<IdFault> {
    if a is Some {
        a
    } else {
        b
    }
}

/// An identifier that must be `n` bytes or absent: empty is `None`, exactly
/// `n` bytes is the identifier, any other length refuses naming the field.
fn byte_id(bytes: &[u8], field: &'static str, n: usize) -> (r: Result<Option<Vec<u8>>, TranslationError>)
    ensures
        match r {
            Ok(o) => id_fault(bytes@, field@, n as nat, false) is None && (bytes@.len() == 0 ==> o is None)
                && (bytes@.len() > 0 ==> (o matches Some(v) && v@ == bytes@)),
            Err(e) => id_fault(bytes@, field@, n as nat, false) == Some(fault_of(e)),
        },
{
    if bytes.len() == 0 {
        return Ok(None);
    }
    if bytes.len() == n {
        let mut v: Vec<u8> = Vec::new();
        let mut i: usize = 0;
        while i < bytes.len()
            invariant
                i <= bytes@.len(),
                v@ == bytes@.subrange(0, i as int),
            decreases bytes@.len() - i,
        {
            v.push(bytes[i]);
            i = i + 1;
        }
        assert(bytes@.subrange(0, bytes@.len() as int) =~= bytes@);
        return Ok(Some(v));
    }
    Err(TranslationError::MalformedByteId { field, expected: n, actual: bytes.len() })
}

/// A 16-byte trace id, or absent: empty is `None`, exactly 16 bytes is the
/// id, any other length refuses naming the field.
pub fn byte_id_16(bytes: &[u8], field: &'static str) -> (r: Result<Option<Vec<u8>>, TranslationError>)
    ensures
        match r {
            Ok(o) => id_fault(bytes@, field@, 16, false) is None && (bytes@.len() == 0 ==> o is None)
                && (bytes@.len() > 0 ==> (o matches Some(v) && v@ == bytes@)),
            Err(e) => id_fault(bytes@, field@, 16, false) == Some(fault_of(e)),
        },
{
    byte_id(bytes, field, 16)
}

/// An 8-byte span id, or absent: empty is `None`, exactly 8 bytes is the
/// id, any other length refuses naming the field.
pub fn byte_id_8(bytes: &[u8], field: &'static str) -> (r: Result<Option<Vec<u8>>, TranslationError>)
    ensures
        match r {
            Ok(o) => id_fault(bytes@, field@, 8, false) is None && (bytes@.len() == 0 ==> o is None)
                && (bytes@.len() > 0 ==> (o matches Some(v) && v@ == bytes@)),
            Err(e) => id_fault(bytes@, field@, 8, false) == Some(fault_of(e)),
        },
{
    byte_id(bytes, field, 8)
}

/// A required 16-byte trace id: empty or wrong-length refuses.
pub fn require_trace_id(bytes: &[u8], field: &'static str) -> (r: Result<TraceId, TranslationError>)
    ensures
        match r {
            Ok(id) => id_fault(bytes@, field@, 16, true) is None && id.0@ == bytes@,
            Err(e) => id_fault(bytes@, field@, 16, true) == Some(fault_of(e)),
        },
{
    match byte_id_16(bytes, field) {
        Ok(Some(v)) => Ok(TraceId(v)),
        Ok(None) => Err(TranslationError::MalformedByteId { field, expected: 16, actual: 0 }),
        Err(e) => Err(e),
    }
}

/// A required 8-byte span id: empty or wrong-length refuses.
pub fn require_span_id(bytes: &[u8], field: &'static str) -> (r: Result<SpanId, TranslationError>)
    ensures
        match r {
            Ok(id) => id_fault(bytes@, field@, 8, true) is None && id.0@ == bytes@,
            Err(e) => id_fault(bytes@, field@, 8, true) == Some(fault_of(e)),
        },
{
    match byte_id_8(bytes, field) {
        Ok(Some(v)) => Ok(SpanId(v)),
        Ok(None) => Err(TranslationError::MalformedByteId { field, expected: 8, actual: 0 }),
        Err(e) => Err(e),
    }
}

// ---------------------------------------------------------------------
// Attributes
// ---------------------------------------------------------------------

/// The map an attribute list folds to: each value rendered to text, a
/// later duplicate key overwriting an earlier one.
pub open spec fn fold_spec(attrs: Seq<KeyValue>) -> Map<Seq<char>, Seq<char>>
    decreases attrs.len(),
{
    if attrs.len() == 0 {
        Map::empty()
    } else {
        fold_spec(attrs.drop_last()).insert(attrs.last().key@, opt_value_text(attrs.last().value))
    }
}

/// Fold an attribute list into a string map; later duplicates overwrite.
pub fn fold_attributes(attributes: &Vec<KeyValue>) -> (m: AttributeMap)
    ensures
        m@ == fold_spec(attributes@),
{
    let mut folded = AttributeMap::new();
    let mut i: usize = 0;
    while i < attributes.len()
        invariant
            i <= attributes@.len(),
            folded@ == fold_spec(attributes@.subrange(0, i as int)),
        decreases attributes@.len() - i,
    {
        let kv = &attributes[i];
        let value = match &kv.value {
            Some(v) => any_value_to_string(Some(v)),
            None => any_value_to_string(None),
        };
        folded.insert(kv.key.clone(), value);
        assert(attributes@.subrange(0, (i + 1) as int).drop_last() =~= attributes@.subrange(
            0,
            i as int,
        ));
        i = i + 1;
    }
    assert(attributes@.subrange(0, attributes@.len() as int) =~= attributes@);
    folded
}

/// The folded attributes of an optional resource: empty when absent.
pub open spec fn resource_map(resource: Option<Resource>) -> Map<Seq<char>, Seq<char>> {
    match resource {
        Some(r) => fold_spec(r.attributes@),
        None => Map::empty(),
    }
}

/// Fold an optional resource's attributes; an absent resource is empty.
pub fn fold_resource_attributes(resource: &Option<Resource>) -> (m: AttributeMap)
    ensures
        m@ == resource_map(*resource),
{
    match resource {
        Some(r) => fold_attributes(&r.attributes),
        None => AttributeMap::new(),
    }
}

// ---------------------------------------------------------------------
// Tenant resolution
// ---------------------------------------------------------------------

/// The rendered value of the first attribute named `key`, if any.
pub open spec fn first_attr(attrs: Seq<KeyValue>, key: Seq<char>) -> Option<Seq<char>>
    decreases attrs.len(),
{
    if attrs.len() == 0 {
        None
    } else if attrs[0].key@ == key {
        Some(opt_value_text(attrs[0].value))
    } else {
        first_attr(attrs.drop_first(), key)
    }
}

/// The tenant a request names: the first resource's first `tenant.id`
/// attribute, when the request has a first resource.
pub open spec fn tenant_of(first: Option<Option<Resource>>) -> Option<Seq<char>> {
    match first {
        Some(Some(r)) => first_attr(r.attributes@, "tenant.id"@),
        _ => None,
    }
}

/// The rendered value of the first `key` attribute.
fn find_attr(attrs: &Vec<KeyValue>, key: &str) -> (r: Option<String>)
    ensures
        opt_view(r) == first_attr(attrs@, key@),
{
    let mut i: usize = 0;
    assert(attrs@.subrange(0, attrs@.len() as int) =~= attrs@);
    while i < attrs.len()
        invariant
            i <= attrs@.len(),
            first_attr(attrs@.subrange(i as int, attrs@.len() as int), key@) == first_attr(attrs@, key@),
        decreases attrs@.len() - i,
    {
        let ghost rest = attrs@.subrange(i as int, attrs@.len() as int);
        assert(rest.drop_first() =~= attrs@.subrange(i + 1, attrs@.len() as int));
        if str_eq(attrs[i].key.as_str(), key) {
            let value = match &attrs[i].value {
                Some(v) => any_value_to_string(Some(v)),
                None => any_value_to_string(None),
            };
            return Some(value);
        }
        i = i + 1;
    }
    None
}

/// The first element of a resource list's resources, if any.
pub open spec fn first_log_resource(rl: Seq<ResourceLogs>) -> Option<Option<Resource>> {
    if rl.len() == 0 {
        None
    } else {
        Some(rl[0].resource)
    }
}

/// The first element of a resource list's resources, if any.
pub open spec fn first_span_resource(rs: Seq<ResourceSpans>) -> Option<Option<Resource>> {
    if rs.len() == 0 {
        None
    } else {
        Some(rs[0].resource)
    }
}

/// The tenant a logs request names: the `tenant.id` attribute of its
/// first resource, or `None`.
pub fn resolve_tenant_id(request: &ExportLogsServiceRequest) -> (r: Option<String>)
    ensures
        opt_view(r) == tenant_of(first_log_resource(request.resource_logs@)),
{
    proof {
        reveal_strlit("tenant.id");
    }
    if request.resource_logs.len() == 0 {
        return None;
    }
    match &request.resource_logs[0].resource {
        Some(resource) => find_attr(&resource.attributes, "tenant.id"),
        None => None,
    }
}

/// The tenant a traces request names: the `tenant.id` attribute of its
/// first resource, or `None`.
pub fn resolve_trace_tenant_id(request: &ExportTraceServiceRequest) -> (r: Option<String>)
    ensures
        opt_view(r) == tenant_of(first_span_resource(request.resource_spans@)),
{
    proof {
        reveal_strlit("tenant.id");
    }
    if request.resource_spans.len() == 0 {
        return None;
    }
    match &request.resource_spans[0].resource {
        Some(resource) => find_attr(&resource.attributes, "tenant.id"),
        None => None,
    }
}

// ---------------------------------------------------------------------
// Spans
// ---------------------------------------------------------------------

/// OTLP span kind numbers: 1 internal, 2 server, 3 client, 4 producer,
/// 5 consumer; anything else is unspecified.
pub open spec fn kind_spec(kind: i32) -> SpanKind {
    if kind == 1 {
        SpanKind::Internal
    } else if kind == 2 {
        SpanKind::Server
    } else if kind == 3 {
        SpanKind::Client
    } else if kind == 4 {
        SpanKind::Producer
    } else if kind == 5 {
        SpanKind::Consumer
    } else {
        SpanKind::Unspecified
    }
}

/// Map an OTLP span kind number; an unknown number is `Unspecified`.
pub fn span_kind_from_i32(kind: i32) -> (k: SpanKind)
    ensures
        k == kind_spec(kind),
{
    match kind {
        1 => SpanKind::Internal,
        2 => SpanKind::Server,
        3 => SpanKind::Client,
        4 => SpanKind::Producer,
        5 => SpanKind::Consumer,
        _ => SpanKind::Unspecified,
    }
}

/// OTLP status code numbers: 1 OK, 2 error; anything else is unset.
pub open spec fn status_code_spec(code: i32) -> StatusCode {
    if code == 1 {
        StatusCode::Success
    } else if code == 2 {
        StatusCode::Error
    } else {
        StatusCode::Unset
    }
}

/// Map an OTLP status code number; an unknown number is `Unset`.
pub fn status_code_from_i32(code: i32) -> (c: StatusCode)
    ensures
        c == status_code_spec(code),
{
    match code {
        1 => StatusCode::Success,
        2 => StatusCode::Error,
        _ => StatusCode::Unset,
    }
}

/// The status a span records: unset with an empty message when absent.
pub open spec fn status_matches(proto: Option<Status>, s: SpanStatus) -> bool {
    match proto {
        None => s.code == StatusCode::Unset && s.message@ == Seq::<char>::empty(),
        Some(p) => s.code == status_code_spec(p.code) && s.message@ == p.message@,
    }
}

/// Translate an optional OTLP status.
pub fn span_status(status: Option<&Status>) -> (s: SpanStatus)
    ensures
        status_matches(
            match status {
                Some(p) => Some(*p),
                None => None,
            },
            s,
        ),
{
    match status {
        None => SpanStatus { code: StatusCode::Unset, message: String::new() },
        Some(p) => SpanStatus { code: status_code_from_i32(p.code), message: p.message.clone() },
    }
}

/// An event translated field for field.
pub open spec fn event_matches(p: Event, e: SpanEvent) -> bool {
    &&& e.time_unix_nano == p.time_unix_nano
    &&& e.name@ == p.name@
    &&& e.attributes@ == fold_spec(p.attributes@)
}

/// Translate span events; events carry no identifiers and never refuse.
pub fn translate_events(events: &Vec<Event>) -> (r: Vec<SpanEvent>)
    ensures
        r@.len() == events@.len(),
        forall|i: int| 0 <= i < events@.len() ==> event_matches(events@[i], #[trigger] r@[i]),
{
    let mut out: Vec<SpanEvent> = Vec::new();
    let mut i: usize = 0;
    while i < events.len()
        invariant
            i <= events@.len(),
            out@.len() == i,
            forall|j: int| 0 <= j < i ==> event_matches(events@[j], #[trigger] out@[j]),
        decreases events@.len() - i,
    {
        let e = &events[i];
        out.push(
            SpanEvent {
                time_unix_nano: e.time_unix_nano,
                name: e.name.clone(),
                attributes: fold_attributes(&e.attributes),
            },
        );
        i = i + 1;
    }
    out
}

/// The fault of one link: its trace id, then its span id.
pub open spec fn link_fault(l: Link) -> Option<IdFault> {
    first_fault(
        id_fault(l.trace_id@, "link.trace_id"@, 16, true),
        id_fault(l.span_id@, "link.span_id"@, 8, true),
    )
}

/// The first fault among links, in order.
pub open spec fn links_fault(ls: Seq<Link>) -> Option<IdFault>
    decreases ls.len(),
{
    if ls.len() == 0 {
        None
    } else {
        first_fault(links_fault(ls.drop_last()), link_fault(ls.last()))
    }
}

/// A link translated field for field.
pub open spec fn link_matches(p: Link, l: SpanLink) -> bool {
    &&& l.trace_id.0@ == p.trace_id@
    &&& l.span_id.0@ == p.span_id@
    &&& l.attributes@ == fold_spec(p.attributes@)
}

/// Translate span links; a link's ids must be exactly 16 and 8 bytes, and
/// the first that is not refuses them all.
pub fn translate_links(links: &Vec<Link>) -> (r: Result<Vec<SpanLink>, TranslationError>)
    ensures
        match r {
            Ok(out) => links_fault(links@) is None && out@.len() == links@.len() && forall|i: int|
                0 <= i < links@.len() ==> link_matches(links@[i], #[trigger] out@[i]),
            Err(e) => links_fault(links@) == Some(fault_of(e)),
        },
{
    let mut out: Vec<SpanLink> = Vec::new();
    let mut i: usize = 0;
    proof {
        reveal_strlit("link.trace_id");
        reveal_strlit("link.span_id");
    }
    while i < links.len()
        invariant
            i <= links@.len(),
            out@.len() == i,
            links_fault(links@.subrange(0, i as int)) is None,
            forall|j: int| 0 <= j < i ==> link_matches(links@[j], #[trigger] out@[j]),
        decreases links@.len() - i,
    {
        let l = &links[i];
        assert(links@.subrange(0, (i + 1) as int).drop_last() =~= links@.subrange(0, i as int));
        let trace_id = match require_trace_id(l.trace_id.as_slice(), "link.trace_id") {
            Ok(id) => id,
            Err(e) => {
                proof {
                    lemma_links_fault_prefix(links@, i as int + 1);
                }
                return Err(e);
            },
        };
        let span_id = match require_span_id(l.span_id.as_slice(), "link.span_id") {
            Ok(id) => id,
            Err(e) => {
                proof {
                    lemma_links_fault_prefix(links@, i as int + 1);
                }
                return Err(e);
            },
        };
        out.push(SpanLink { trace_id, span_id, attributes: fold_attributes(&l.attributes) });
        i = i + 1;
    }
    assert(links@.subrange(0, links@.len() as int) =~= links@);
    Ok(out)
}

/// A fault in a prefix is the fault of the whole list.
proof fn lemma_links_fault_prefix(ls: Seq<Link>, k: int)
    requires
        0 <= k <= ls.len(),
        links_fault(ls.subrange(0, k)) is Some,
    ensures
        links_fault(ls) == links_fault(ls.subrange(0, k)),
    decreases ls.len() - k,
{
    if k < ls.len() {
        assert(ls.subrange(0, k + 1).drop_last() =~= ls.subrange(0, k));
        lemma_links_fault_prefix(ls, k + 1);
    } else {
        assert(ls.subrange(0, k) =~= ls);
    }
}

/// The fault of one span: its trace id, span id and parent id, then its
/// links in order.
pub open spec fn span_fault(p: ProtoSpan) -> Option<IdFault> {
    first_fault(
        id_fault(p.trace_id@, "trace_id"@, 16, true),
        first_fault(
            id_fault(p.span_id@, "span_id"@, 8, true),
            first_fault(id_fault(p.parent_span_id@, "parent_span_id"@, 8, false), links_fault(p.links@)),
        ),
    )
}

/// A span translated field for field against its resource's attributes.
pub open spec fn span_matches(p: ProtoSpan, resource: Map<Seq<char>, Seq<char>>, s: Span) -> bool {
    &&& s.trace_id.0@ == p.trace_id@
    &&& s.span_id.0@ == p.span_id@
    &&& (p.parent_span_id@.len() == 0 ==> s.parent_span_id is None)
    &&& (p.parent_span_id@.len() > 0 ==> (s.parent_span_id matches Some(id) && id.0@
        == p.parent_span_id@))
    &&& s.name@ == p.name@
    &&& s.kind == kind_spec(p.kind)
    &&& s.start_time_unix_nano == p.start_time_unix_nano
    &&& s.end_time_unix_nano == p.end_time_unix_nano
    &&& status_matches(p.status, s.status)
    &&& s.attributes@ == fold_spec(p.attributes@)
    &&& s.resource_attributes@ == resource
    &&& s.events@.len() == p.events@.len()
    &&& (forall|i: int| 0 <= i < p.events@.len() ==> event_matches(p.events@[i], #[trigger] s.events@[i]))
    &&& s.links@.len() == p.links@.len()
    &&& (forall|i: int| 0 <= i < p.links@.len() ==> link_matches(p.links@[i], #[trigger] s.links@[i]))
}

/// Translate one span against its resource's folded attributes; a
/// malformed id (its own or a link's) refuses.
pub fn translate_span(proto: &ProtoSpan, resource_attributes: &AttributeMap) -> (r: Result<
    Span,
    TranslationError,
>)
    ensures
        match r {
            Ok(s) => span_fault(*proto) is None && span_matches(*proto, resource_attributes@, s),
            Err(e) => span_fault(*proto) == Some(fault_of(e)),
        },
{
    proof {
        reveal_strlit("trace_id");
        reveal_strlit("span_id");
        reveal_strlit("parent_span_id");
    }
    let trace_id = match require_trace_id(proto.trace_id.as_slice(), "trace_id") {
        Ok(id) => id,
        Err(e) => return Err(e),
    };
    let span_id = match require_span_id(proto.span_id.as_slice(), "span_id") {
        Ok(id) => id,
        Err(e) => return Err(e),
    };
    let parent_span_id = match byte_id_8(proto.parent_span_id.as_slice(), "parent_span_id") {
        Ok(Some(v)) => Some(SpanId(v)),
        Ok(None) => None,
        Err(e) => return Err(e),
    };
    let links = match translate_links(&proto.links) {
        Ok(links) => links,
        Err(e) => return Err(e),
    };
    let status = match &proto.status {
        Some(st) => span_status(Some(st)),
        None => span_status(None),
    };
    Ok(
        Span {
            trace_id,
            span_id,
            parent_span_id,
            name: proto.name.clone(),
            kind: span_kind_from_i32(proto.kind),
            start_time_unix_nano: proto.start_time_unix_nano,
            end_time_unix_nano: proto.end_time_unix_nano,
            status,
            attributes: fold_attributes(&proto.attributes),
            resource_attributes: resource_attributes.duplicate(),
            events: translate_events(&proto.events),
            links,
        },
    )
}

// ---------------------------------------------------------------------
// Whole requests
// ---------------------------------------------------------------------

/// The first fault in a list of faults-or-none.
pub open spec fn first_some(s: Seq<Option<IdFault>>) -> Option<IdFault>
    decreases s.len(),
{
    if s.len() == 0 {
        None
    } else {
        first_fault(first_some(s.drop_last()), s.last())
    }
}

proof fn lemma_first_some_concat(a: Seq<Option<IdFault>>, b: Seq<Option<IdFault>>)
    ensures
        first_some(a + b) == first_fault(first_some(a), first_some(b)),
    decreases b.len(),
{
    if b.len() == 0 {
        assert(a + b =~= a);
    } else {
        assert((a + b).drop_last() =~= a + b.drop_last());
        lemma_first_some_concat(a, b.drop_last());
    }
}

/// The spans of a list of scopes, in order, each with the resource map.
pub open spec fn scope_span_list(scopes: Seq<ScopeSpans>, resource: Map<Seq<char>, Seq<char>>) -> Seq<
    (ProtoSpan, Map<Seq<char>, Seq<char>>),
>
    decreases scopes.len(),
{
    if scopes.len() == 0 {
        Seq::empty()
    } else {
        scope_span_list(scopes.drop_last(), resource) + scopes.last().spans@.map_values(
            |p: ProtoSpan| (p, resource),
        )
    }
}

/// Every span of a traces request in order, each paired with its
/// resource's folded attributes.
pub open spec fn request_span_list(rs: Seq<ResourceSpans>) -> Seq<(ProtoSpan, Map<Seq<char>, Seq<char>>)>
    decreases rs.len(),
{
    if rs.len() == 0 {
        Seq::empty()
    } else {
        request_span_list(rs.drop_last()) + scope_span_list(
            rs.last().scope_spans@,
            resource_map(rs.last().resource),
        )
    }
}

/// The first fault among listed spans.
pub open spec fn spans_fault(list: Seq<(ProtoSpan, Map<Seq<char>, Seq<char>>)>) -> Option<IdFault> {
    first_some(list.map_values(|p: (ProtoSpan, Map<Seq<char>, Seq<char>>)| span_fault(p.0)))
}

/// `out` extends `before` with the translation of each listed span.
pub open spec fn spans_appended(
    before: Seq<Span>,
    out: Seq<Span>,
    list: Seq<(ProtoSpan, Map<Seq<char>, Seq<char>>)>,
) -> bool {
    &&& out.len() == before.len() + list.len()
    &&& forall|i: int| 0 <= i < before.len() ==> #[trigger] out[i] == before[i]
    &&& forall|i: int|
        0 <= i < list.len() ==> span_matches(list[i].0, list[i].1, #[trigger] out[before.len() + i])
}

proof fn lemma_spans_fault_concat(
    a: Seq<(ProtoSpan, Map<Seq<char>, Seq<char>>)>,
    b: Seq<(ProtoSpan, Map<Seq<char>, Seq<char>>)>,
)
    ensures
        spans_fault(a + b) == first_fault(spans_fault(a), spans_fault(b)),
{
    let f = |p: (ProtoSpan, Map<Seq<char>, Seq<char>>)| span_fault(p.0);
    assert((a + b).map_values(f) =~= a.map_values(f) + b.map_values(f));
    lemma_first_some_concat(a.map_values(f), b.map_values(f));
}

/// Translate the spans of one scope and append them to `out`.
fn translate_scope_spans(
    spans: &Vec<ProtoSpan>,
    resource_attributes: &AttributeMap,
    out: &mut Vec<Span>,
) -> (r: Result<(), TranslationError>)
    ensures
        match r {
            Ok(()) => spans_fault(spans@.map_values(|p: ProtoSpan| (p, resource_attributes@))) is None
                && spans_appended(
                old(out)@,
                final(out)@,
                spans@.map_values(|p: ProtoSpan| (p, resource_attributes@)),
            ),
            Err(e) => spans_fault(spans@.map_values(|p: ProtoSpan| (p, resource_attributes@))) == Some(
                fault_of(e),
            ),
        },
{
    let ghost list = spans@.map_values(|p: ProtoSpan| (p, resource_attributes@));
    let ghost before = out@;
    let mut i: usize = 0;
    while i < spans.len()
        invariant
            i <= spans@.len(),
            list == spans@.map_values(|p: ProtoSpan| (p, resource_attributes@)),
            spans_fault(list.subrange(0, i as int)) is None,
            spans_appended(before, out@, list.subrange(0, i as int)),
        decreases spans@.len() - i,
    {
        proof {
            assert(list.subrange(0, (i + 1) as int) =~= list.subrange(0, i as int) + seq![list[i as int]]);
            lemma_spans_fault_concat(list.subrange(0, i as int), seq![list[i as int]]);
            assert(seq![list[i as int]].map_values(
                |p: (ProtoSpan, Map<Seq<char>, Seq<char>>)| span_fault(p.0),
            ) =~= seq![span_fault(spans@[i as int])]);
            let single = seq![span_fault(spans@[i as int])];
            assert(single.drop_last() =~= Seq::<Option<IdFault>>::empty());
            assert(first_some(single.drop_last()) is None);
            assert(single.last() == span_fault(spans@[i as int]));
            assert(first_some(single) == span_fault(spans@[i as int]));
        }
        match translate_span(&spans[i], resource_attributes) {
            Ok(s) => {
                let ghost prev = out@;
                out.push(s);
                assert(spans_appended(before, out@, list.subrange(0, (i + 1) as int))) by {
                    assert forall|j: int| 0 <= j < (i + 1) as int implies span_matches(
                        list.subrange(0, (i + 1) as int)[j].0,
                        list.subrange(0, (i + 1) as int)[j].1,
                        #[trigger] out@[before.len() + j],
                    ) by {
                        if j < i {
                            assert(out@[before.len() + j] == prev[before.len() + j]);
                        }
                    }
                }
            },
            Err(e) => {
                proof {
                    lemma_spans_fault_concat(
                        list.subrange(0, (i + 1) as int),
                        list.subrange((i + 1) as int, list.len() as int),
                    );
                    assert(list =~= list.subrange(0, (i + 1) as int) + list.subrange(
                        (i + 1) as int,
                        list.len() as int,
                    ));
                }
                return Err(e);
            },
        }
        i = i + 1;
    }
    assert(list.subrange(0, list.len() as int) =~= list);
    Ok(())
}

proof fn lemma_spans_appended_trans(
    a: Seq<Span>,
    b: Seq<Span>,
    c: Seq<Span>,
    l1: Seq<(ProtoSpan, Map<Seq<char>, Seq<char>>)>,
    l2: Seq<(ProtoSpan, Map<Seq<char>, Seq<char>>)>,
)
    requires
        spans_appended(a, b, l1),
        spans_appended(b, c, l2),
    ensures
        spans_appended(a, c, l1 + l2),
{
    assert forall|i: int| 0 <= i < (l1 + l2).len() implies span_matches(
        (l1 + l2)[i].0,
        (l1 + l2)[i].1,
        #[trigger] c[a.len() + i],
    ) by {
        if i < l1.len() {
            assert(c[a.len() + i] == b[a.len() + i]);
        } else {
            assert(c[b.len() + (i - l1.len())] == c[a.len() + i]);
        }
    }
    assert forall|i: int| 0 <= i < a.len() implies #[trigger] c[i] == a[i] by {
        assert(c[i] == b[i]);
    }
}

/// Translate every span of one resource and append them to `out`.
fn translate_resource_spans(rs: &ResourceSpans, out: &mut Vec<Span>) -> (r: Result<(), TranslationError>)
    ensures
        match r {
            Ok(()) => spans_fault(scope_span_list(rs.scope_spans@, resource_map(rs.resource))) is None
                && spans_appended(
                old(out)@,
                final(out)@,
                scope_span_list(rs.scope_spans@, resource_map(rs.resource)),
            ),
            Err(e) => spans_fault(scope_span_list(rs.scope_spans@, resource_map(rs.resource)))
                == Some(fault_of(e)),
        },
{
    let resource_attributes = fold_resource_attributes(&rs.resource);
    let ghost res = resource_map(rs.resource);
    let ghost scopes = rs.scope_spans@;
    let ghost before = out@;
    let mut k: usize = 0;
    assert(scope_span_list(scopes.subrange(0, 0), res) =~= Seq::empty());
    assert(spans_fault(Seq::empty()) is None) by {
        assert(Seq::<(ProtoSpan, Map<Seq<char>, Seq<char>>)>::empty().map_values(
            |p: (ProtoSpan, Map<Seq<char>, Seq<char>>)| span_fault(p.0),
        ) =~= Seq::empty());
    }
    while k < rs.scope_spans.len()
        invariant
            k <= scopes.len(),
            scopes == rs.scope_spans@,
            res == resource_map(rs.resource),
            resource_attributes@ == res,
            spans_fault(scope_span_list(scopes.subrange(0, k as int), res)) is None,
            spans_appended(before, out@, scope_span_list(scopes.subrange(0, k as int), res)),
        decreases scopes.len() - k,
    {
        let ghost done = scope_span_list(scopes.subrange(0, k as int), res);
        let ghost mid = out@;
        let ghost here = scopes[k as int].spans@.map_values(|p: ProtoSpan| (p, res));
        assert(scopes.subrange(0, (k + 1) as int).drop_last() =~= scopes.subrange(0, k as int));
        assert(scope_span_list(scopes.subrange(0, (k + 1) as int), res) == done + here);
        proof {
            lemma_spans_fault_concat(done, here);
        }
        match translate_scope_spans(&rs.scope_spans[k].spans, &resource_attributes, out) {
            Ok(()) => {
                proof {
                    lemma_spans_appended_trans(before, mid, out@, done, here);
                }
            },
            Err(e) => {
                proof {
                    lemma_scope_span_list_split(scopes, k as int + 1, res);
                    let rest = scope_span_list(scopes.subrange(k as int + 1, scopes.len() as int), res);
                    lemma_spans_fault_concat(done + here, rest);
                }
                return Err(e);
            },
        }
        k = k + 1;
    }
    assert(scopes.subrange(0, scopes.len() as int) =~= scopes);
    Ok(())
}

proof fn lemma_scope_span_list_concat(a: Seq<ScopeSpans>, b: Seq<ScopeSpans>, res: Map<Seq<char>, Seq<char>>)
    ensures
        scope_span_list(a + b, res) == scope_span_list(a, res) + scope_span_list(b, res),
    decreases b.len(),
{
    if b.len() == 0 {
        assert(a + b =~= a);
        assert(scope_span_list(a, res) + scope_span_list(b, res) =~= scope_span_list(a, res));
    } else {
        assert((a + b).drop_last() =~= a + b.drop_last());
        lemma_scope_span_list_concat(a, b.drop_last(), res);
        assert(scope_span_list(a + b, res) =~= scope_span_list(a, res) + scope_span_list(b, res));
    }
}

proof fn lemma_scope_span_list_split(scopes: Seq<ScopeSpans>, k: int, res: Map<Seq<char>, Seq<char>>)
    requires
        0 <= k <= scopes.len(),
    ensures
        scope_span_list(scopes, res) == scope_span_list(scopes.subrange(0, k), res) + scope_span_list(
            scopes.subrange(k, scopes.len() as int),
            res,
        ),
{
    assert(scopes =~= scopes.subrange(0, k) + scopes.subrange(k, scopes.len() as int));
    lemma_scope_span_list_concat(scopes.subrange(0, k), scopes.subrange(k, scopes.len() as int), res);
}

proof fn lemma_request_span_list_concat(a: Seq<ResourceSpans>, b: Seq<ResourceSpans>)
    ensures
        request_span_list(a + b) == request_span_list(a) + request_span_list(b),
    decreases b.len(),
{
    if b.len() == 0 {
        assert(a + b =~= a);
        assert(request_span_list(a) + request_span_list(b) =~= request_span_list(a));
    } else {
        assert((a + b).drop_last() =~= a + b.drop_last());
        lemma_request_span_list_concat(a, b.drop_last());
        assert(request_span_list(a + b) =~= request_span_list(a) + request_span_list(b));
    }
}

/// Translate a whole traces request: every span of every scope of every
/// resource, in order, each with its resource's attributes. The first
/// malformed identifier anywhere refuses the whole request and no span
/// is returned.
pub fn translate_traces(request: &ExportTraceServiceRequest) -> (r: Result<Vec<Span>, TranslationError>)
    ensures
        match r {
            Ok(spans) => spans_fault(request_span_list(request.resource_spans@)) is None
                && spans_appended(Seq::empty(), spans@, request_span_list(request.resource_spans@)),
            Err(e) => spans_fault(request_span_list(request.resource_spans@)) == Some(fault_of(e)),
        },
{
    let ghost rs = request.resource_spans@;
    let mut spans: Vec<Span> = Vec::new();
    let mut k: usize = 0;
    assert(request_span_list(rs.subrange(0, 0)) =~= Seq::empty());
    assert(spans_fault(Seq::empty()) is None) by {
        assert(Seq::<(ProtoSpan, Map<Seq<char>, Seq<char>>)>::empty().map_values(
            |p: (ProtoSpan, Map<Seq<char>, Seq<char>>)| span_fault(p.0),
        ) =~= Seq::empty());
    }
    while k < request.resource_spans.len()
        invariant
            k <= rs.len(),
            rs == request.resource_spans@,
            spans_fault(request_span_list(rs.subrange(0, k as int))) is None,
            spans_appended(Seq::empty(), spans@, request_span_list(rs.subrange(0, k as int))),
        decreases rs.len() - k,
    {
        let ghost done = request_span_list(rs.subrange(0, k as int));
        let ghost mid = spans@;
        let ghost here = scope_span_list(rs[k as int].scope_spans@, resource_map(rs[k as int].resource));
        assert(rs.subrange(0, (k + 1) as int).drop_last() =~= rs.subrange(0, k as int));
        assert(request_span_list(rs.subrange(0, (k + 1) as int)) == done + here);
        proof {
            lemma_spans_fault_concat(done, here);
        }
        match translate_resource_spans(&request.resource_spans[k], &mut spans) {
            Ok(()) => {
                proof {
                    lemma_spans_appended_trans(Seq::empty(), mid, spans@, done, here);
                }
            },
            Err(e) => {
                proof {
                    let tail = rs.subrange(k as int + 1, rs.len() as int);
                    assert(rs =~= rs.subrange(0, k as int + 1) + tail);
                    lemma_request_span_list_concat(rs.subrange(0, k as int + 1), tail);
                    lemma_spans_fault_concat(done + here, request_span_list(tail));
                }
                return Err(e);
            },
        }
        k = k + 1;
    }
    assert(rs.subrange(0, rs.len() as int) =~= rs);
    Ok(spans)
}

// ---------------------------------------------------------------------
// Logs
// ---------------------------------------------------------------------

/// The observed time of a record: `observed_time_unix_nano` when
/// non-zero, else the event time.
pub open spec fn observed_time_spec(p: ProtoLogRecord) -> u64 {
    if p.observed_time_unix_nano != 0 {
        p.observed_time_unix_nano
    } else {
        p.time_unix_nano
    }
}

/// The observed time of a record, falling back to the event time.
pub fn observed_time(proto: &ProtoLogRecord) -> (t: u64)
    ensures
        t == observed_time_spec(*proto),
{
    if proto.observed_time_unix_nano != 0 {
        proto.observed_time_unix_nano
    } else {
        proto.time_unix_nano
    }
}

/// The fault of a log record: its optional trace id, then span id.
pub open spec fn record_fault(p: ProtoLogRecord) -> Option<IdFault> {
    first_fault(id_fault(p.trace_id@, "trace_id"@, 16, false), id_fault(p.span_id@, "span_id"@, 8, false))
}

/// An optional identifier carried over: empty is `None`.
pub open spec fn opt_id_matches(p: Seq<u8>, id: Option<Vec<u8>>) -> bool {
    &&& (p.len() == 0 ==> id is None)
    &&& (p.len() > 0 ==> (id matches Some(v) && v@ == p))
}

/// A log record translated field for field against its resource's
/// attributes.
pub open spec fn record_matches(p: ProtoLogRecord, resource: Map<Seq<char>, Seq<char>>, r: LogRecord) -> bool {
    &&& r.observed_time_unix_nano == observed_time_spec(p)
    &&& r.severity_number == SeverityNumber(p.severity_number)
    &&& r.severity_text@ == p.severity_text@
    &&& r.body@ == opt_value_text(p.body)
    &&& r.attributes@ == fold_spec(p.attributes@)
    &&& r.resource_attributes@ == resource
    &&& opt_id_matches(p.trace_id@, r.trace_id)
    &&& opt_id_matches(p.span_id@, r.span_id)
}

/// Translate one log record against its resource's folded attributes; a
/// wrong-length trace or span id refuses.
pub fn translate_record(proto: &ProtoLogRecord, resource_attributes: &AttributeMap) -> (r: Result<
    LogRecord,
    TranslationError,
>)
    ensures
        match r {
            Ok(rec) => record_fault(*proto) is None && record_matches(*proto, resource_attributes@, rec),
            Err(e) => record_fault(*proto) == Some(fault_of(e)),
        },
{
    proof {
        reveal_strlit("trace_id");
        reveal_strlit("span_id");
    }
    let trace_id = match byte_id_16(proto.trace_id.as_slice(), "trace_id") {
        Ok(id) => id,
        Err(e) => return Err(e),
    };
    let span_id = match byte_id_8(proto.span_id.as_slice(), "span_id") {
        Ok(id) => id,
        Err(e) => return Err(e),
    };
    let body = match &proto.body {
        Some(b) => any_value_to_string(Some(b)),
        None => any_value_to_string(None),
    };
    Ok(
        LogRecord {
            observed_time_unix_nano: observed_time(proto),
            severity_number: SeverityNumber(proto.severity_number),
            severity_text: proto.severity_text.clone(),
            body,
            attributes: fold_attributes(&proto.attributes),
            resource_attributes: resource_attributes.duplicate(),
            trace_id,
            span_id,
        },
    )
}

/// The records of a list of scopes, in order, each with the resource map.
pub open spec fn scope_record_list(scopes: Seq<ScopeLogs>, resource: Map<Seq<char>, Seq<char>>) -> Seq<
    (ProtoLogRecord, Map<Seq<char>, Seq<char>>),
>
    decreases scopes.len(),
{
    if scopes.len() == 0 {
        Seq::empty()
    } else {
        scope_record_list(scopes.drop_last(), resource) + scopes.last().log_records@.map_values(
            |p: ProtoLogRecord| (p, resource),
        )
    }
}

/// Every log record of a logs request in order, each paired with its
/// resource's folded attributes.
pub open spec fn request_record_list(rl: Seq<ResourceLogs>) -> Seq<(ProtoLogRecord, Map<Seq<char>, Seq<char>>)>
    decreases rl.len(),
{
    if rl.len() == 0 {
        Seq::empty()
    } else {
        request_record_list(rl.drop_last()) + scope_record_list(
            rl.last().scope_logs@,
            resource_map(rl.last().resource),
        )
    }
}

/// The first fault among listed records.
pub open spec fn records_fault(list: Seq<(ProtoLogRecord, Map<Seq<char>, Seq<char>>)>) -> Option<IdFault> {
    first_some(list.map_values(|p: (ProtoLogRecord, Map<Seq<char>, Seq<char>>)| record_fault(p.0)))
}

/// `out` extends `before` with the translation of each listed record.
pub open spec fn records_appended(
    before: Seq<LogRecord>,
    out: Seq<LogRecord>,
    list: Seq<(ProtoLogRecord, Map<Seq<char>, Seq<char>>)>,
) -> bool {
    &&& out.len() == before.len() + list.len()
    &&& forall|i: int| 0 <= i < before.len() ==> #[trigger] out[i] == before[i]
    &&& forall|i: int|
        0 <= i < list.len() ==> record_matches(list[i].0, list[i].1, #[trigger] out[before.len() + i])
}

proof fn lemma_records_fault_concat(
    a: Seq<(ProtoLogRecord, Map<Seq<char>, Seq<char>>)>,
    b: Seq<(ProtoLogRecord, Map<Seq<char>, Seq<char>>)>,
)
    ensures
        records_fault(a + b) == first_fault(records_fault(a), records_fault(b)),
{
    let f = |p: (ProtoLogRecord, Map<Seq<char>, Seq<char>>)| record_fault(p.0);
    assert((a + b).map_values(f) =~= a.map_values(f) + b.map_values(f));
    lemma_first_some_concat(a.map_values(f), b.map_values(f));
}

proof fn lemma_records_appended_trans(
    a: Seq<LogRecord>,
    b: Seq<LogRecord>,
    c: Seq<LogRecord>,
    l1: Seq<(ProtoLogRecord, Map<Seq<char>, Seq<char>>)>,
    l2: Seq<(ProtoLogRecord, Map<Seq<char>, Seq<char>>)>,
)
    requires
        records_appended(a, b, l1),
        records_appended(b, c, l2),
    ensures
        records_appended(a, c, l1 + l2),
{
    assert forall|i: int| 0 <= i < (l1 + l2).len() implies record_matches(
        (l1 + l2)[i].0,
        (l1 + l2)[i].1,
        #[trigger] c[a.len() + i],
    ) by {
        if i < l1.len() {
            assert(c[a.len() + i] == b[a.len() + i]);
        } else {
            assert(c[b.len() + (i - l1.len())] == c[a.len() + i]);
        }
    }
    assert forall|i: int| 0 <= i < a.len() implies #[trigger] c[i] == a[i] by {
        assert(c[i] == b[i]);
    }
}

/// Translate the records of one scope and append them to `out`.
fn translate_scope_logs(
    records: &Vec<ProtoLogRecord>,
    resource_attributes: &AttributeMap,
    out: &mut Vec<LogRecord>,
) -> (r: Result<(), TranslationError>)
    ensures
        match r {
            Ok(()) => records_fault(records@.map_values(|p: ProtoLogRecord| (p, resource_attributes@)))
                is None && records_appended(
                old(out)@,
                final(out)@,
                records@.map_values(|p: ProtoLogRecord| (p, resource_attributes@)),
            ),
            Err(e) => records_fault(records@.map_values(|p: ProtoLogRecord| (p, resource_attributes@)))
                == Some(fault_of(e)),
        },
{
    let ghost list = records@.map_values(|p: ProtoLogRecord| (p, resource_attributes@));
    let ghost before = out@;
    let mut i: usize = 0;
    while i < records.len()
        invariant
            i <= records@.len(),
            list == records@.map_values(|p: ProtoLogRecord| (p, resource_attributes@)),
            records_fault(list.subrange(0, i as int)) is None,
            records_appended(before, out@, list.subrange(0, i as int)),
        decreases records@.len() - i,
    {
        proof {
            assert(list.subrange(0, (i + 1) as int) =~= list.subrange(0, i as int) + seq![list[i as int]]);
            lemma_records_fault_concat(list.subrange(0, i as int), seq![list[i as int]]);
            assert(seq![list[i as int]].map_values(
                |p: (ProtoLogRecord, Map<Seq<char>, Seq<char>>)| record_fault(p.0),
            ) =~= seq![record_fault(records@[i as int])]);
            let single = seq![record_fault(records@[i as int])];
            assert(single.drop_last() =~= Seq::<Option<IdFault>>::empty());
            assert(first_some(single.drop_last()) is None);
            assert(single.last() == record_fault(records@[i as int]));
            assert(first_some(single) == record_fault(records@[i as int]));
        }
        match translate_record(&records[i], resource_attributes) {
            Ok(rec) => {
                let ghost prev = out@;
                out.push(rec);
                assert(records_appended(before, out@, list.subrange(0, (i + 1) as int))) by {
                    assert forall|j: int| 0 <= j < (i + 1) as int implies record_matches(
                        list.subrange(0, (i + 1) as int)[j].0,
                        list.subrange(0, (i + 1) as int)[j].1,
                        #[trigger] out@[before.len() + j],
                    ) by {
                        if j < i {
                            assert(out@[before.len() + j] == prev[before.len() + j]);
                        }
                    }
                }
            },
            Err(e) => {
                proof {
                    lemma_records_fault_concat(
                        list.subrange(0, (i + 1) as int),
                        list.subrange((i + 1) as int, list.len() as int),
                    );
                    assert(list =~= list.subrange(0, (i + 1) as int) + list.subrange(
                        (i + 1) as int,
                        list.len() as int,
                    ));
                }
                return Err(e);
            },
        }
        i = i + 1;
    }
    assert(list.subrange(0, list.len() as int) =~= list);
    Ok(())
}

proof fn lemma_scope_record_list_concat(a: Seq<ScopeLogs>, b: Seq<ScopeLogs>, res: Map<Seq<char>, Seq<char>>)
    ensures
        scope_record_list(a + b, res) == scope_record_list(a, res) + scope_record_list(b, res),
    decreases b.len(),
{
    if b.len() == 0 {
        assert(a + b =~= a);
        assert(scope_record_list(a, res) + scope_record_list(b, res) =~= scope_record_list(a, res));
    } else {
        assert((a + b).drop_last() =~= a + b.drop_last());
        lemma_scope_record_list_concat(a, b.drop_last(), res);
        assert(scope_record_list(a + b, res) =~= scope_record_list(a, res) + scope_record_list(b, res));
    }
}

proof fn lemma_request_record_list_concat(a: Seq<ResourceLogs>, b: Seq<ResourceLogs>)
    ensures
        request_record_list(a + b) == request_record_list(a) + request_record_list(b),
    decreases b.len(),
{
    if b.len() == 0 {
        assert(a + b =~= a);
        assert(request_record_list(a) + request_record_list(b) =~= request_record_list(a));
    } else {
        assert((a + b).drop_last() =~= a + b.drop_last());
        lemma_request_record_list_concat(a, b.drop_last());
        assert(request_record_list(a + b) =~= request_record_list(a) + request_record_list(b));
    }
}

/// Translate every record of one resource and append them to `out`.
fn translate_resource_logs(rl: &ResourceLogs, out: &mut Vec<LogRecord>) -> (r: Result<(), TranslationError>)
    ensures
        match r {
            Ok(()) => records_fault(scope_record_list(rl.scope_logs@, resource_map(rl.resource))) is None
                && records_appended(
                old(out)@,
                final(out)@,
                scope_record_list(rl.scope_logs@, resource_map(rl.resource)),
            ),
            Err(e) => records_fault(scope_record_list(rl.scope_logs@, resource_map(rl.resource)))
                == Some(fault_of(e)),
        },
{
    let resource_attributes = fold_resource_attributes(&rl.resource);
    let ghost res = resource_map(rl.resource);
    let ghost scopes = rl.scope_logs@;
    let ghost before = out@;
    let mut k: usize = 0;
    assert(scope_record_list(scopes.subrange(0, 0), res) =~= Seq::empty());
    assert(records_fault(Seq::empty()) is None) by {
        assert(Seq::<(ProtoLogRecord, Map<Seq<char>, Seq<char>>)>::empty().map_values(
            |p: (ProtoLogRecord, Map<Seq<char>, Seq<char>>)| record_fault(p.0),
        ) =~= Seq::empty());
    }
    while k < rl.scope_logs.len()
        invariant
            k <= scopes.len(),
            scopes == rl.scope_logs@,
            res == resource_map(rl.resource),
            resource_attributes@ == res,
            records_fault(scope_record_list(scopes.subrange(0, k as int), res)) is None,
            records_appended(before, out@, scope_record_list(scopes.subrange(0, k as int), res)),
        decreases scopes.len() - k,
    {
        let ghost done = scope_record_list(scopes.subrange(0, k as int), res);
        let ghost mid = out@;
        let ghost here = scopes[k as int].log_records@.map_values(|p: ProtoLogRecord| (p, res));
        assert(scopes.subrange(0, (k + 1) as int).drop_last() =~= scopes.subrange(0, k as int));
        assert(scope_record_list(scopes.subrange(0, (k + 1) as int), res) == done + here);
        proof {
            lemma_records_fault_concat(done, here);
        }
        match translate_scope_logs(&rl.scope_logs[k].log_records, &resource_attributes, out) {
            Ok(()) => {
                proof {
                    lemma_records_appended_trans(before, mid, out@, done, here);
                }
            },
            Err(e) => {
                proof {
                    let tail = scopes.subrange(k as int + 1, scopes.len() as int);
                    assert(scopes =~= scopes.subrange(0, k as int + 1) + tail);
                    lemma_scope_record_list_concat(scopes.subrange(0, k as int + 1), tail, res);
                    lemma_records_fault_concat(done + here, scope_record_list(tail, res));
                }
                return Err(e);
            },
        }
        k = k + 1;
    }
    assert(scopes.subrange(0, scopes.len() as int) =~= scopes);
    Ok(())
}

/// Translate a whole logs request: every record of every scope of every
/// resource, in order, each with its resource's attributes. The first
/// malformed identifier anywhere refuses the whole request and no record
/// is returned.
pub fn translate_logs(request: &ExportLogsServiceRequest) -> (r: Result<Vec<LogRecord>, TranslationError>)
    ensures
        match r {
            Ok(records) => records_fault(request_record_list(request.resource_logs@)) is None
                && records_appended(Seq::empty(), records@, request_record_list(request.resource_logs@)),
            Err(e) => records_fault(request_record_list(request.resource_logs@)) == Some(fault_of(e)),
        },
{
    let ghost rl = request.resource_logs@;
    let mut records: Vec<LogRecord> = Vec::new();
    let mut k: usize = 0;
    assert(request_record_list(rl.subrange(0, 0)) =~= Seq::empty());
    assert(records_fault(Seq::empty()) is None) by {
        assert(Seq::<(ProtoLogRecord, Map<Seq<char>, Seq<char>>)>::empty().map_values(
            |p: (ProtoLogRecord, Map<Seq<char>, Seq<char>>)| record_fault(p.0),
        ) =~= Seq::empty());
    }
    while k < request.resource_logs.len()
        invariant
            k <= rl.len(),
            rl == request.resource_logs@,
            records_fault(request_record_list(rl.subrange(0, k as int))) is None,
            records_appended(Seq::empty(), records@, request_record_list(rl.subrange(0, k as int))),
        decreases rl.len() - k,
    {
        let ghost done = request_record_list(rl.subrange(0, k as int));
        let ghost mid = records@;
        let ghost here = scope_record_list(rl[k as int].scope_logs@, resource_map(rl[k as int].resource));
        assert(rl.subrange(0, (k + 1) as int).drop_last() =~= rl.subrange(0, k as int));
        assert(request_record_list(rl.subrange(0, (k + 1) as int)) == done + here);
        proof {
            lemma_records_fault_concat(done, here);
        }
        match translate_resource_logs(&request.resource_logs[k], &mut records) {
            Ok(()) => {
                proof {
                    lemma_records_appended_trans(Seq::empty(), mid, records@, done, here);
                }
            },
            Err(e) => {
                proof {
                    let tail = rl.subrange(k as int + 1, rl.len() as int);
                    assert(rl =~= rl.subrange(0, k as int + 1) + tail);
                    lemma_request_record_list_concat(rl.subrange(0, k as int + 1), tail);
                    lemma_records_fault_concat(done + here, request_record_list(tail));
                }
                return Err(e);
            },
        }
        k = k + 1;
    }
    assert(rl.subrange(0, rl.len() as int) =~= rl);
    Ok(records)
}

/// A fault anywhere in a list is a fault of the list.
proof fn lemma_first_some_finds(s: Seq<Option<IdFault>>, i: int)
    requires
        0 <= i < s.len(),
        s[i] is Some,
    ensures
        first_some(s) is Some,
    decreases s.len(),
{
    if i < s.len() - 1 {
        lemma_first_some_finds(s.drop_last(), i);
    }
}

/// Atomicity of logs translation: one malformed identifier on any record
/// of a request refuses the whole request, so no record of it is returned.
pub proof fn lemma_malformed_record_refuses_request(request: ExportLogsServiceRequest, i: int)
    requires
        0 <= i < request_record_list(request.resource_logs@).len(),
        record_fault(request_record_list(request.resource_logs@)[i].0) is Some,
    ensures
        records_fault(request_record_list(request.resource_logs@)) is Some,
{
    let list = request_record_list(request.resource_logs@);
    let f = |p: (ProtoLogRecord, Map<Seq<char>, Seq<char>>)| record_fault(p.0);
    assert(list.map_values(f)[i] is Some);
    lemma_first_some_finds(list.map_values(f), i);
}

/// Atomicity of traces translation: one malformed identifier on any span
/// (or any of its links) refuses the whole request.
pub proof fn lemma_malformed_span_refuses_request(request: ExportTraceServiceRequest, i: int)
    requires
        0 <= i < request_span_list(request.resource_spans@).len(),
        span_fault(request_span_list(request.resource_spans@)[i].0) is Some,
    ensures
        spans_fault(request_span_list(request.resource_spans@)) is Some,
{
    let list = request_span_list(request.resource_spans@);
    let f = |p: (ProtoSpan, Map<Seq<char>, Seq<char>>)| span_fault(p.0);
    assert(list.map_values(f)[i] is Some);
    lemma_first_some_finds(list.map_values(f), i);
}

/// Folding attributes: the last entry for a key decides its value.
pub proof fn lemma_fold_last_wins(attrs: Seq<KeyValue>, kv: KeyValue)
    ensures
        fold_spec(attrs.push(kv)).contains_key(kv.key@),
        fold_spec(attrs.push(kv))[kv.key@] == opt_value_text(kv.value),
{
    assert(attrs.push(kv).drop_last() =~= attrs);
}

/// An identifier of the required length is carried over unchanged, and an
/// empty optional one is absent: byte ids round-trip.
pub proof fn lemma_exact_length_ids_are_accepted(bytes: Seq<u8>, field: Seq<char>, n: nat)
    requires
        bytes.len() == n,
        n > 0,
    ensures
        id_fault(bytes, field, n, true) is None,
        id_fault(bytes, field, n, false) is None,
        id_fault(Seq::empty(), field, n, false) is None,
        id_fault(Seq::empty(), field, n, true) == Some((field, n, 0nat)),
{
}

} // verus!
