//! Pure helpers of the application core: which framing a transport
//! carries, and the per-record summary of an accepted record (signal,
//! resource `service.name`, headline count).

use vstd::prelude::*;
use crate::otlp::{
    KeyValue, Metric, MetricData, ResourceLogs, ResourceMetrics, ResourceSpans, ScopeLogs,
    ScopeMetrics, ScopeSpans, Value,
};
use crate::ports::SinkRecord;
use crate::text::str_eq;

verus! {

/// Which on-the-wire transport carried a body.
#[derive(Debug, Clone, Copy, PartialEq, Eq, Structural)]
pub enum Transport {
    Grpc,
    HttpProtobuf,
}

/// The framing a body is validated against.
#[derive(Debug, Clone, Copy, PartialEq, Eq, Structural)]
pub enum Framing {
    GrpcProtobuf,
    HttpProtobuf,
}

/// The framing each transport carries: gRPC bodies are gRPC protobuf,
/// HTTP bodies are HTTP protobuf.
pub fn framing_for_transport(transport: Transport) -> (f: Framing)
    ensures
        f == match transport {
            Transport::Grpc => Framing::GrpcProtobuf,
            Transport::HttpProtobuf => Framing::HttpProtobuf,
        },
{
    match transport {
        Transport::Grpc => Framing::GrpcProtobuf,
        Transport::HttpProtobuf => Framing::HttpProtobuf,
    }
}

/// The summary of an accepted record.
#[derive(Debug)]
pub struct RecordSummary<'a> {
    pub signal: &'static str,
    pub resource_service_name: Option<&'a str>,
    pub count: usize,
}

/// The text of an optional string slice.
pub open spec fn opt_str(o: Option<&str>) -> Option<Seq<char>> {
    match o {
        Some(s) => Some(s@),
        None => None,
    }
}

/// The first attribute with key `key`, if any.
pub open spec fn first_kv(attrs: Seq<KeyValue>, key: Seq<char>) -> Option<KeyValue>
    decreases attrs.len(),
{
    if attrs.len() == 0 {
        None
    } else if attrs[0].key@ == key {
        Some(attrs[0])
    } else {
        first_kv(attrs.drop_first(), key)
    }
}

/// The service name a resource's attributes carry: the string value of
/// the first `service.name` attribute; any other kind of value names none.
pub open spec fn service_name_spec(attrs: Seq<KeyValue>) -> Option<Seq<char>> {
    match first_kv(attrs, "service.name"@) {
        Some(kv) => match kv.value {
            Some(av) => match av.value {
                Some(Value::StringValue(s)) => Some(s@),
                _ => None,
            },
            None => None,
        },
        None => None,
    }
}

/// The service name of the first resource, if the list has one with
/// attributes naming it.
pub open spec fn first_service_name(first: Option<Option<crate::otlp::Resource>>) -> Option<Seq<char>> {
    match first {
        Some(Some(r)) => service_name_spec(r.attributes@),
        _ => None,
    }
}

/// The string value of the first `service.name` attribute.
pub fn service_name_from_attributes(attributes: &Vec<KeyValue>) -> (r: Option<&str>)
    ensures
        opt_str(r) == service_name_spec(attributes@),
{
    proof {
        reveal_strlit("service.name");
    }
    let mut i: usize = 0;
    assert(attributes@.subrange(0, attributes@.len() as int) =~= attributes@);
    while i < attributes.len()
        invariant
            i <= attributes@.len(),
            first_kv(attributes@.subrange(i as int, attributes@.len() as int), "service.name"@)
                == first_kv(attributes@, "service.name"@),
        decreases attributes@.len() - i,
    {
        let ghost rest = attributes@.subrange(i as int, attributes@.len() as int);
        assert(rest.drop_first() =~= attributes@.subrange(i + 1, attributes@.len() as int));
        let kv = &attributes[i];
        if str_eq(kv.key.as_str(), "service.name") {
            return match &kv.value {
                Some(av) => match &av.value {
                    Some(Value::StringValue(s)) => Some(s.as_str()),
                    _ => None,
                },
                None => None,
            };
        }
        i = i + 1;
    }
    None
}

/// Log records across a list of scopes.
pub open spec fn scope_logs_count(s: Seq<ScopeLogs>) -> nat
    decreases s.len(),
{
    if s.len() == 0 {
        0
    } else {
        scope_logs_count(s.drop_last()) + s.last().log_records@.len()
    }
}

/// Log records across every resource and scope.
pub open spec fn log_count(rl: Seq<ResourceLogs>) -> nat
    decreases rl.len(),
{
    if rl.len() == 0 {
        0
    } else {
        log_count(rl.drop_last()) + scope_logs_count(rl.last().scope_logs@)
    }
}

/// Spans across a list of scopes.
pub open spec fn scope_spans_count(s: Seq<ScopeSpans>) -> nat
    decreases s.len(),
{
    if s.len() == 0 {
        0
    } else {
        scope_spans_count(s.drop_last()) + s.last().spans@.len()
    }
}

/// Spans across every resource and scope: leaf spans only.
pub open spec fn span_count(rs: Seq<ResourceSpans>) -> nat
    decreases rs.len(),
{
    if rs.len() == 0 {
        0
    } else {
        span_count(rs.drop_last()) + scope_spans_count(rs.last().scope_spans@)
    }
}

/// The data points of one metric: those of its data, whatever its kind
/// (a histogram counts its data points, not its buckets); none without data.
pub open spec fn metric_points(m: Metric) -> nat {
    match m.data {
        Some(MetricData::Gauge { data_points }) => data_points as nat,
        Some(MetricData::Sum { data_points }) => data_points as nat,
        Some(MetricData::Histogram { data_points }) => data_points as nat,
        Some(MetricData::ExponentialHistogram { data_points }) => data_points as nat,
        Some(MetricData::Summary { data_points }) => data_points as nat,
        None => 0,
    }
}

/// Data points across a list of metrics.
pub open spec fn metrics_points(ms: Seq<Metric>) -> nat
    decreases ms.len(),
{
    if ms.len() == 0 {
        0
    } else {
        metrics_points(ms.drop_last()) + metric_points(ms.last())
    }
}

/// Data points across a list of scopes.
pub open spec fn scope_metrics_points(s: Seq<ScopeMetrics>) -> nat
    decreases s.len(),
{
    if s.len() == 0 {
        0
    } else {
        scope_metrics_points(s.drop_last()) + metrics_points(s.last().metrics@)
    }
}

/// Data points across every resource, scope and metric.
pub open spec fn point_count(rm: Seq<ResourceMetrics>) -> nat
    decreases rm.len(),
{
    if rm.len() == 0 {
        0
    } else {
        point_count(rm.drop_last()) + scope_metrics_points(rm.last().scope_metrics@)
    }
}

/// The headline count of a record: log records, spans, or data points.
pub open spec fn record_count(record: SinkRecord) -> nat {
    match record {
        SinkRecord::Logs(req) => log_count(req.inner.resource_logs@),
        SinkRecord::Traces(req) => span_count(req.inner.resource_spans@),
        SinkRecord::Metrics(req) => point_count(req.inner.resource_metrics@),
    }
}

/// The service name of a record's first resource.
pub open spec fn record_service_name(record: SinkRecord) -> Option<Seq<char>> {
    match record {
        SinkRecord::Logs(req) => first_service_name(
            if req.inner.resource_logs@.len() == 0 {
                None
            } else {
                Some(req.inner.resource_logs@[0].resource)
            },
        ),
        SinkRecord::Traces(req) => first_service_name(
            if req.inner.resource_spans@.len() == 0 {
                None
            } else {
                Some(req.inner.resource_spans@[0].resource)
            },
        ),
        SinkRecord::Metrics(req) => first_service_name(
            if req.inner.resource_metrics@.len() == 0 {
                None
            } else {
                Some(req.inner.resource_metrics@[0].resource)
            },
        ),
    }
}

/// The signal name of a record.
pub open spec fn record_signal(record: SinkRecord) -> Seq<char> {
    match record {
        SinkRecord::Logs(_) => "logs"@,
        SinkRecord::Traces(_) => "traces"@,
        SinkRecord::Metrics(_) => "metrics"@,
    }
}

fn count_log_records(rl: &Vec<ResourceLogs>) -> (n: usize)
    requires
        log_count(rl@) <= usize::MAX,
    ensures
        n == log_count(rl@),
{
    let mut total: usize = 0;
    let mut r: usize = 0;
    while r < rl.len()
        invariant
            r <= rl@.len(),
            log_count(rl@) <= usize::MAX,
            total == log_count(rl@.subrange(0, r as int)),
        decreases rl@.len() - r,
    {
        assert(rl@.subrange(0, (r + 1) as int).drop_last() =~= rl@.subrange(0, r as int));
        proof {
            lemma_log_count_prefix(rl@, r as int + 1);
        }
        let scopes = &rl[r].scope_logs;
        let mut s: usize = 0;
        let ghost base = total;
        while s < scopes.len()
            invariant
                s <= scopes@.len(),
                base + scope_logs_count(scopes@) <= usize::MAX,
                total == base + scope_logs_count(scopes@.subrange(0, s as int)),
            decreases scopes@.len() - s,
        {
            assert(scopes@.subrange(0, (s + 1) as int).drop_last() =~= scopes@.subrange(0, s as int));
            proof {
                lemma_scope_logs_count_prefix(scopes@, s as int + 1);
            }
            total = total + scopes[s].log_records.len();
            s = s + 1;
        }
        assert(scopes@.subrange(0, scopes@.len() as int) =~= scopes@);
        r = r + 1;
    }
    assert(rl@.subrange(0, rl@.len() as int) =~= rl@);
    total
}

proof fn lemma_scope_logs_count_prefix(s: Seq<ScopeLogs>, k: int)
    requires
        0 <= k <= s.len(),
    ensures
        scope_logs_count(s.subrange(0, k)) <= scope_logs_count(s),
    decreases s.len() - k,
{
    if k < s.len() {
        assert(s.subrange(0, k + 1).drop_last() =~= s.subrange(0, k));
        lemma_scope_logs_count_prefix(s, k + 1);
    } else {
        assert(s.subrange(0, k) =~= s);
    }
}

proof fn lemma_log_count_prefix(rl: Seq<ResourceLogs>, k: int)
    requires
        0 <= k <= rl.len(),
    ensures
        log_count(rl.subrange(0, k)) <= log_count(rl),
    decreases rl.len() - k,
{
    if k < rl.len() {
        assert(rl.subrange(0, k + 1).drop_last() =~= rl.subrange(0, k));
        lemma_log_count_prefix(rl, k + 1);
    } else {
        assert(rl.subrange(0, k) =~= rl);
    }
}

fn count_spans(rs: &Vec<ResourceSpans>) -> (n: usize)
    requires
        span_count(rs@) <= usize::MAX,
    ensures
        n == span_count(rs@),
{
    let mut total: usize = 0;
    let mut r: usize = 0;
    while r < rs.len()
        invariant
            r <= rs@.len(),
            span_count(rs@) <= usize::MAX,
            total == span_count(rs@.subrange(0, r as int)),
        decreases rs@.len() - r,
    {
        assert(rs@.subrange(0, (r + 1) as int).drop_last() =~= rs@.subrange(0, r as int));
        proof {
            lemma_span_count_prefix(rs@, r as int + 1);
        }
        let scopes = &rs[r].scope_spans;
        let mut s: usize = 0;
        let ghost base = total;
        while s < scopes.len()
            invariant
                s <= scopes@.len(),
                base + scope_spans_count(scopes@) <= usize::MAX,
                total == base + scope_spans_count(scopes@.subrange(0, s as int)),
            decreases scopes@.len() - s,
        {
            assert(scopes@.subrange(0, (s + 1) as int).drop_last() =~= scopes@.subrange(0, s as int));
            proof {
                lemma_scope_spans_count_prefix(scopes@, s as int + 1);
            }
            total = total + scopes[s].spans.len();
            s = s + 1;
        }
        assert(scopes@.subrange(0, scopes@.len() as int) =~= scopes@);
        r = r + 1;
    }
    assert(rs@.subrange(0, rs@.len() as int) =~= rs@);
    total
}

proof fn lemma_scope_spans_count_prefix(s: Seq<ScopeSpans>, k: int)
    requires
        0 <= k <= s.len(),
    ensures
        scope_spans_count(s.subrange(0, k)) <= scope_spans_count(s),
    decreases s.len() - k,
{
    if k < s.len() {
        assert(s.subrange(0, k + 1).drop_last() =~= s.subrange(0, k));
        lemma_scope_spans_count_prefix(s, k + 1);
    } else {
        assert(s.subrange(0, k) =~= s);
    }
}

proof fn lemma_span_count_prefix(rs: Seq<ResourceSpans>, k: int)
    requires
        0 <= k <= rs.len(),
    ensures
        span_count(rs.subrange(0, k)) <= span_count(rs),
    decreases rs.len() - k,
{
    if k < rs.len() {
        assert(rs.subrange(0, k + 1).drop_last() =~= rs.subrange(0, k));
        lemma_span_count_prefix(rs, k + 1);
    } else {
        assert(rs.subrange(0, k) =~= rs);
    }
}

fn count_metric_points(m: &Metric) -> (n: usize)
    ensures
        n == metric_points(*m),
{
    match &m.data {
        Some(MetricData::Gauge { data_points }) => *data_points,
        Some(MetricData::Sum { data_points }) => *data_points,
        Some(MetricData::Histogram { data_points }) => *data_points,
        Some(MetricData::ExponentialHistogram { data_points }) => *data_points,
        Some(MetricData::Summary { data_points }) => *data_points,
        None => 0,
    }
}

proof fn lemma_metrics_points_prefix(s: Seq<Metric>, k: int)
    requires
        0 <= k <= s.len(),
    ensures
        metrics_points(s.subrange(0, k)) <= metrics_points(s),
    decreases s.len() - k,
{
    if k < s.len() {
        assert(s.subrange(0, k + 1).drop_last() =~= s.subrange(0, k));
        lemma_metrics_points_prefix(s, k + 1);
    } else {
        assert(s.subrange(0, k) =~= s);
    }
}

proof fn lemma_scope_metrics_points_prefix(s: Seq<ScopeMetrics>, k: int)
    requires
        0 <= k <= s.len(),
    ensures
        scope_metrics_points(s.subrange(0, k)) <= scope_metrics_points(s),
    decreases s.len() - k,
{
    if k < s.len() {
        assert(s.subrange(0, k + 1).drop_last() =~= s.subrange(0, k));
        lemma_scope_metrics_points_prefix(s, k + 1);
    } else {
        assert(s.subrange(0, k) =~= s);
    }
}

proof fn lemma_point_count_prefix(rm: Seq<ResourceMetrics>, k: int)
    requires
        0 <= k <= rm.len(),
    ensures
        point_count(rm.subrange(0, k)) <= point_count(rm),
    decreases rm.len() - k,
{
    if k < rm.len() {
        assert(rm.subrange(0, k + 1).drop_last() =~= rm.subrange(0, k));
        lemma_point_count_prefix(rm, k + 1);
    } else {
        assert(rm.subrange(0, k) =~= rm);
    }
}

fn count_scope_metric_points(metrics: &Vec<Metric>, base: usize) -> (n: usize)
    requires
        base + metrics_points(metrics@) <= usize::MAX,
    ensures
        n == base + metrics_points(metrics@),
{
    let mut total: usize = base;
    let mut i: usize = 0;
    while i < metrics.len()
        invariant
            i <= metrics@.len(),
            base + metrics_points(metrics@) <= usize::MAX,
            total == base + metrics_points(metrics@.subrange(0, i as int)),
        decreases metrics@.len() - i,
    {
        assert(metrics@.subrange(0, (i + 1) as int).drop_last() =~= metrics@.subrange(0, i as int));
        proof {
            lemma_metrics_points_prefix(metrics@, i as int + 1);
        }
        total = total + count_metric_points(&metrics[i]);
        i = i + 1;
    }
    assert(metrics@.subrange(0, metrics@.len() as int) =~= metrics@);
    total
}

fn count_data_points(rm: &Vec<ResourceMetrics>) -> (n: usize)
    requires
        point_count(rm@) <= usize::MAX,
    ensures
        n == point_count(rm@),
{
    let mut total: usize = 0;
    let mut r: usize = 0;
    while r < rm.len()
        invariant
            r <= rm@.len(),
            point_count(rm@) <= usize::MAX,
            total == point_count(rm@.subrange(0, r as int)),
        decreases rm@.len() - r,
    {
        assert(rm@.subrange(0, (r + 1) as int).drop_last() =~= rm@.subrange(0, r as int));
        proof {
            lemma_point_count_prefix(rm@, r as int + 1);
        }
        let scopes = &rm[r].scope_metrics;
        let mut s: usize = 0;
        let ghost base = total;
        while s < scopes.len()
            invariant
                s <= scopes@.len(),
                base + scope_metrics_points(scopes@) <= usize::MAX,
                total == base + scope_metrics_points(scopes@.subrange(0, s as int)),
            decreases scopes@.len() - s,
        {
            assert(scopes@.subrange(0, (s + 1) as int).drop_last() =~= scopes@.subrange(0, s as int));
            proof {
                lemma_scope_metrics_points_prefix(scopes@, s as int + 1);
            }
            total = count_scope_metric_points(&scopes[s].metrics, total);
            s = s + 1;
        }
        assert(scopes@.subrange(0, scopes@.len() as int) =~= scopes@);
        r = r + 1;
    }
    assert(rm@.subrange(0, rm@.len() as int) =~= rm@);
    total
}

/// Summarise a record for the `sink_accepted` event: its signal, the
/// `service.name` of its first resource, and its headline count (log
/// records, leaf spans, or metric data points).
pub fn summarise_record(record: &SinkRecord) -> (s: RecordSummary<'_>)
    requires
        record_count(*record) <= usize::MAX,
    ensures
        s.signal@ == record_signal(*record),
        opt_str(s.resource_service_name) == record_service_name(*record),
        s.count == record_count(*record),
{
    proof {
        reveal_strlit("logs");
        reveal_strlit("traces");
        reveal_strlit("metrics");
    }
    match record {
        SinkRecord::Logs(req) => {
            let rl = &req.inner.resource_logs;
            let name = if rl.len() == 0 {
                None
            } else {
                match &rl[0].resource {
                    Some(r) => service_name_from_attributes(&r.attributes),
                    None => None,
                }
            };
            RecordSummary { signal: "logs", resource_service_name: name, count: count_log_records(rl) }
        },
        SinkRecord::Traces(req) => {
            let rs = &req.inner.resource_spans;
            let name = if rs.len() == 0 {
                None
            } else {
                match &rs[0].resource {
                    Some(r) => service_name_from_attributes(&r.attributes),
                    None => None,
                }
            };
            RecordSummary { signal: "traces", resource_service_name: name, count: count_spans(rs) }
        },
        SinkRecord::Metrics(req) => {
            let rm = &req.inner.resource_metrics;
            let name = if rm.len() == 0 {
                None
            } else {
                match &rm[0].resource {
                    Some(r) => service_name_from_attributes(&r.attributes),
                    None => None,
                }
            };
            RecordSummary {
                signal: "metrics",
                resource_service_name: name,
                count: count_data_points(rm),
            }
        },
    }
}

/// The log count of a concatenation of resource lists is the sum of
/// their counts.
pub proof fn lemma_log_count_concat(a: Seq<ResourceLogs>, b: Seq<ResourceLogs>)
    ensures
        log_count(a + b) == log_count(a) + log_count(b),
    decreases b.len(),
{
    if b.len() == 0 {
        assert(a + b =~= a);
    } else {
        assert((a + b).drop_last() =~= a + b.drop_last());
        lemma_log_count_concat(a, b.drop_last());
    }
}

/// The span count of a concatenation of resource lists is the sum of
/// their counts.
pub proof fn lemma_span_count_concat(a: Seq<ResourceSpans>, b: Seq<ResourceSpans>)
    ensures
        span_count(a + b) == span_count(a) + span_count(b),
    decreases b.len(),
{
    if b.len() == 0 {
        assert(a + b =~= a);
    } else {
        assert((a + b).drop_last() =~= a + b.drop_last());
        lemma_span_count_concat(a, b.drop_last());
    }
}

/// The data-point count of a concatenation of resource lists is the sum
/// of their counts.
pub proof fn lemma_point_count_concat(a: Seq<ResourceMetrics>, b: Seq<ResourceMetrics>)
    ensures
        point_count(a + b) == point_count(a) + point_count(b),
    decreases b.len(),
{
    if b.len() == 0 {
        assert(a + b =~= a);
    } else {
        assert((a + b).drop_last() =~= a + b.drop_last());
        lemma_point_count_concat(a, b.drop_last());
    }
}

/// A metric counts the data points it carries, whatever its kind, and
/// none without data.
pub proof fn lemma_metric_points_any_kind(name: String, n: usize)
    ensures
        metric_points(Metric { name, data: Some(MetricData::Gauge { data_points: n }) }) == n,
        metric_points(Metric { name, data: Some(MetricData::Sum { data_points: n }) }) == n,
        metric_points(Metric { name, data: Some(MetricData::Histogram { data_points: n }) }) == n,
        metric_points(
            Metric { name, data: Some(MetricData::ExponentialHistogram { data_points: n }) },
        ) == n,
        metric_points(Metric { name, data: Some(MetricData::Summary { data_points: n }) }) == n,
        metric_points(Metric { name, data: None }) == 0,
{
}

/// The data points of a list of metrics are the sum over its parts.
pub proof fn lemma_metrics_points_concat(a: Seq<Metric>, b: Seq<Metric>)
    ensures
        metrics_points(a + b) == metrics_points(a) + metrics_points(b),
    decreases b.len(),
{
    if b.len() == 0 {
        assert(a + b =~= a);
    } else {
        assert((a + b).drop_last() =~= a + b.drop_last());
        lemma_metrics_points_concat(a, b.drop_last());
    }
}

/// A request holding one resource with one scope with one metric counts
/// exactly that metric's data points.
pub proof fn lemma_single_metric_count(rm: Seq<ResourceMetrics>)
    requires
        rm.len() == 1,
        rm[0].scope_metrics@.len() == 1,
        rm[0].scope_metrics@[0].metrics@.len() == 1,
    ensures
        point_count(rm) == metric_points(rm[0].scope_metrics@[0].metrics@[0]),
{
    let sm = rm[0].scope_metrics@;
    let ms = sm[0].metrics@;
    assert(rm.drop_last() =~= Seq::<ResourceMetrics>::empty());
    assert(sm.drop_last() =~= Seq::<ScopeMetrics>::empty());
    assert(ms.drop_last() =~= Seq::<Metric>::empty());
    assert(rm.last() == rm[0]);
    assert(sm.last() == sm[0]);
    assert(ms.last() == ms[0]);
    assert(metrics_points(Seq::<Metric>::empty()) == 0);
    assert(scope_metrics_points(Seq::<ScopeMetrics>::empty()) == 0);
    assert(point_count(Seq::<ResourceMetrics>::empty()) == 0);
    assert(metrics_points(ms) == metric_points(ms[0]));
    assert(scope_metrics_points(sm) == metrics_points(ms));
}

} // verus!
