//! The OTLP request data the gateway reads, as plain values.
//!
//! These mirror the `opentelemetry-proto` request trees field for field,
//! keeping what the library's logic reads. A `double` attribute value is
//! held as its shortest round-trip decimal text; a metric keeps, per
//! data kind, how many data points it carries.

use vstd::prelude::*;
use crate::text::{dec_int, hex_lower, hex_lower_spec, push_dec_i64};

verus! {

/// An OTLP `AnyValue`: a value, or nothing set.
#[derive(Debug)]
pub struct AnyValue {
    pub value: Option<Value>,
}

/// The kinds of an OTLP `AnyValue`.
#[derive(Debug)]
pub enum Value {
    StringValue(String),
    BoolValue(bool),
    IntValue(i64),
    /// A double, as its shortest round-trip decimal text.
    DoubleValue(String),
    BytesValue(Vec<u8>),
    ArrayValue(Vec<AnyValue>),
    KvlistValue(Vec<KeyValue>),
}

/// An OTLP `KeyValue`.
#[derive(Debug)]
pub struct KeyValue {
    pub key: String,
    pub value: Option<AnyValue>,
}

/// An OTLP `Resource`.
#[derive(Debug)]
pub struct Resource {
    pub attributes: Vec<KeyValue>,
}

/// An OTLP log record.
#[derive(Debug)]
pub struct LogRecord {
    pub time_unix_nano: u64,
    pub observed_time_unix_nano: u64,
    pub severity_number: i32,
    pub severity_text: String,
    pub body: Option<AnyValue>,
    pub attributes: Vec<KeyValue>,
    pub trace_id: Vec<u8>,
    pub span_id: Vec<u8>,
}

/// The log records of one instrumentation scope.
#[derive(Debug)]
pub struct ScopeLogs {
    pub log_records: Vec<LogRecord>,
}

/// The log records of one resource.
#[derive(Debug)]
pub struct ResourceLogs {
    pub resource: Option<Resource>,
    pub scope_logs: Vec<ScopeLogs>,
}

/// An OTLP logs export request.
#[derive(Debug)]
pub struct ExportLogsServiceRequest {
    pub resource_logs: Vec<ResourceLogs>,
}

/// An OTLP span status.
#[derive(Debug)]
pub struct Status {
    pub code: i32,
    pub message: String,
}

/// An OTLP span event.
#[derive(Debug)]
pub struct Event {
    pub time_unix_nano: u64,
    pub name: String,
    pub attributes: Vec<KeyValue>,
}

/// An OTLP span link.
#[derive(Debug)]
pub struct Link {
    pub trace_id: Vec<u8>,
    pub span_id: Vec<u8>,
    pub attributes: Vec<KeyValue>,
}

/// An OTLP span.
#[derive(Debug)]
pub struct Span {
    pub trace_id: Vec<u8>,
    pub span_id: Vec<u8>,
    pub parent_span_id: Vec<u8>,
    pub name: String,
    pub kind: i32,
    pub start_time_unix_nano: u64,
    pub end_time_unix_nano: u64,
    pub attributes: Vec<KeyValue>,
    pub events: Vec<Event>,
    pub links: Vec<Link>,
    pub status: Option<Status>,
}

/// The spans of one instrumentation scope.
#[derive(Debug)]
pub struct ScopeSpans {
    pub spans: Vec<Span>,
}

/// The spans of one resource.
#[derive(Debug)]
pub struct ResourceSpans {
    pub resource: Option<Resource>,
    pub scope_spans: Vec<ScopeSpans>,
}

/// An OTLP traces export request.
#[derive(Debug)]
pub struct ExportTraceServiceRequest {
    pub resource_spans: Vec<ResourceSpans>,
}

/// The data of a metric, by kind, with the number of data points it holds.
#[derive(Debug, Clone, Copy, PartialEq, Eq, Structural)]
pub enum MetricData {
    Gauge { data_points: usize },
    Sum { data_points: usize },
    Histogram { data_points: usize },
    ExponentialHistogram { data_points: usize },
    Summary { data_points: usize },
}

/// An OTLP metric.
#[derive(Debug)]
pub struct Metric {
    pub name: String,
    pub data: Option<MetricData>,
}

/// The metrics of one instrumentation scope.
#[derive(Debug)]
pub struct ScopeMetrics {
    pub metrics: Vec<Metric>,
}

/// The metrics of one resource.
#[derive(Debug)]
pub struct ResourceMetrics {
    pub resource: Option<Resource>,
    pub scope_metrics: Vec<ScopeMetrics>,
}

/// An OTLP metrics export request.
#[derive(Debug)]
pub struct ExportMetricsServiceRequest {
    pub resource_metrics: Vec<ResourceMetrics>,
}

// ---------------------------------------------------------------------
// AnyValue rendering
// ---------------------------------------------------------------------

/// The text of a value: strings verbatim, booleans as `true`/`false`,
/// integers in decimal, doubles as their text, bytes in lowercase hex,
/// arrays as `[a,b]` and key-value lists as `{k=v}` of their rendered
/// children; an unset value renders empty.
pub open spec fn value_text(v: AnyValue) -> Seq<char>
    decreases v,
{
    match v.value {
        None => Seq::empty(),
        Some(Value::StringValue(s)) => s@,
        Some(Value::BoolValue(b)) => if b {
            "true"@
        } else {
            "false"@
        },
        Some(Value::IntValue(i)) => dec_int(i as int),
        Some(Value::DoubleValue(d)) => d@,
        Some(Value::BytesValue(b)) => hex_lower_spec(b@),
        Some(Value::ArrayValue(vals)) => "["@ + values_text(vals@) + "]"@,
        Some(Value::KvlistValue(kvs)) => "{"@ + kvs_text(kvs@) + "}"@,
    }
}

/// The rendered children of an array, joined by `,`.
pub open spec fn values_text(vals: Seq<AnyValue>) -> Seq<char>
    decreases vals,
{
    if vals.len() == 0 {
        Seq::empty()
    } else if vals.len() == 1 {
        value_text(vals[0])
    } else {
        values_text(vals.drop_last()) + ","@ + value_text(vals.last())
    }
}

/// One `k=v` entry of a key-value list.
pub open spec fn kv_text(kv: KeyValue) -> Seq<char>
    decreases kv,
{
    kv.key@ + "="@ + match kv.value {
        Some(v) => value_text(v),
        None => Seq::empty(),
    }
}

/// The entries of a key-value list, joined by `,`.
pub open spec fn kvs_text(kvs: Seq<KeyValue>) -> Seq<char>
    decreases kvs,
{
    if kvs.len() == 0 {
        Seq::empty()
    } else if kvs.len() == 1 {
        kv_text(kvs[0])
    } else {
        kvs_text(kvs.drop_last()) + ","@ + kv_text(kvs.last())
    }
}

/// The text of an optional value: empty when absent.
pub open spec fn opt_value_text(v: Option<AnyValue>) -> Seq<char> {
    match v {
        Some(v) => value_text(v),
        None => Seq::empty(),
    }
}

/// Render an `AnyValue` to text: `None` and an unset value render empty.
pub fn any_value_to_string(value: Option<&AnyValue>) -> (s: String)
    ensures
        s@ == opt_value_text(match value {
            Some(v) => Some(*v),
            None => None,
        }),
{
    match value {
        Some(v) => render_value(v),
        None => String::new(),
    }
}

fn render_value(v: &AnyValue) -> (s: String)
    ensures
        s@ == value_text(*v),
    decreases v,
{
    proof {
        reveal_strlit("true");
        reveal_strlit("false");
    }
    match &v.value {
        None => String::new(),
        Some(Value::StringValue(s)) => s.clone(),
        Some(Value::BoolValue(b)) => if *b {
            String::from_str("true")
        } else {
            String::from_str("false")
        },
        Some(Value::IntValue(i)) => {
            let mut s = String::new();
            push_dec_i64(&mut s, *i);
            s
        },
        Some(Value::DoubleValue(d)) => d.clone(),
        Some(Value::BytesValue(b)) => hex_lower(b.as_slice()),
        Some(Value::ArrayValue(vals)) => render_array(vals),
        Some(Value::KvlistValue(kvs)) => render_kvlist(kvs),
    }
}

/// Compact `[a,b,c]` rendering of an array's children.
pub fn render_array(values: &Vec<AnyValue>) -> (s: String)
    ensures
        s@ == "["@ + values_text(values@) + "]"@,
    decreases values@,
{
    let mut out = String::from_str("[");
    let mut i: usize = 0;
    proof {
        reveal_strlit("[");
    }
    while i < values.len()
        invariant
            i <= values@.len(),
            out@ == "["@ + values_text(values@.subrange(0, i as int)),
        decreases values@.len() - i,
    {
        let ghost prev = values@.subrange(0, i as int);
        let ghost next = values@.subrange(0, (i + 1) as int);
        assert(next.drop_last() =~= prev);
        if i > 0 {
            out.append(",");
        }
        let child = render_value(&values[i]);
        out.append(child.as_str());
        assert(out@ =~= "["@ + values_text(next));
        i = i + 1;
    }
    assert(values@.subrange(0, values@.len() as int) =~= values@);
    out.append("]");
    out
}

/// Compact `{k=v,k2=v2}` rendering of a key-value list.
pub fn render_kvlist(values: &Vec<KeyValue>) -> (s: String)
    ensures
        s@ == "{"@ + kvs_text(values@) + "}"@,
    decreases values@,
{
    let mut out = String::from_str("{");
    let mut i: usize = 0;
    proof {
        reveal_strlit("{");
    }
    while i < values.len()
        invariant
            i <= values@.len(),
            out@ == "{"@ + kvs_text(values@.subrange(0, i as int)),
        decreases values@.len() - i,
    {
        let ghost prev = values@.subrange(0, i as int);
        let ghost next = values@.subrange(0, (i + 1) as int);
        assert(next.drop_last() =~= prev);
        if i > 0 {
            out.append(",");
        }
        let kv = &values[i];
        out.append(kv.key.as_str());
        out.append("=");
        match &kv.value {
            Some(v) => {
                let child = render_value(v);
                out.append(child.as_str());
            },
            None => {},
        }
        assert(next.last() == values@[i as int]);
        assert(kv_text(values@[i as int]) == kv.key@ + "="@ + opt_value_text(kv.value));
        assert(out@ =~= "{"@ + kvs_text(next));
        i = i + 1;
    }
    assert(values@.subrange(0, values@.len() as int) =~= values@);
    out.append("}");
    out
}

/// A one-element array renders as its only child, with no separator.
pub proof fn lemma_values_text_single(v: AnyValue)
    ensures
        values_text(seq![v]) == value_text(v),
        values_text(Seq::<AnyValue>::empty()) == Seq::<char>::empty(),
{
}

/// Joining arrays: the rendering of two non-empty runs of children, one
/// after the other, is the first run's text, one `,`, and the second's.
/// So every pair of adjacent children is separated by exactly one `,`.
pub proof fn lemma_values_text_concat(a: Seq<AnyValue>, b: Seq<AnyValue>)
    requires
        a.len() > 0,
        b.len() > 0,
    ensures
        values_text(a + b) == values_text(a) + ","@ + values_text(b),
    decreases b.len(),
{
    if b.len() == 1 {
        assert((a + b).drop_last() =~= a);
        assert((a + b).last() == b[0]);
    } else {
        assert((a + b).drop_last() =~= a + b.drop_last());
        assert((a + b).last() == b.last());
        lemma_values_text_concat(a, b.drop_last());
        assert(values_text(a + b) =~= values_text(a) + ","@ + (values_text(b.drop_last()) + ","@
            + value_text(b.last())));
    }
}

/// An array value renders as `[`, its children's texts joined by `,`, and
/// `]`.
pub proof fn lemma_array_value_text(vals: Vec<AnyValue>)
    ensures
        value_text(AnyValue { value: Some(Value::ArrayValue(vals)) }) == "["@ + values_text(vals@)
            + "]"@,
{
}

/// A one-entry key-value list renders as its only entry.
pub proof fn lemma_kvs_text_single(kv: KeyValue)
    ensures
        kvs_text(seq![kv]) == kv_text(kv),
        kvs_text(Seq::<KeyValue>::empty()) == Seq::<char>::empty(),
{
}

/// Joining key-value lists: two non-empty runs of entries render as the
/// first run's text, one `,`, and the second's.
pub proof fn lemma_kvs_text_concat(a: Seq<KeyValue>, b: Seq<KeyValue>)
    requires
        a.len() > 0,
        b.len() > 0,
    ensures
        kvs_text(a + b) == kvs_text(a) + ","@ + kvs_text(b),
    decreases b.len(),
{
    if b.len() == 1 {
        assert((a + b).drop_last() =~= a);
        assert((a + b).last() == b[0]);
    } else {
        assert((a + b).drop_last() =~= a + b.drop_last());
        assert((a + b).last() == b.last());
        lemma_kvs_text_concat(a, b.drop_last());
        assert(kvs_text(a + b) =~= kvs_text(a) + ","@ + (kvs_text(b.drop_last()) + ","@ + kv_text(
            b.last(),
        )));
    }
}

} // verus!
