//! The storage sink's decisions: which tenant an accept is filed under,
//! what is handed to a pillar store, how failures are reported, and the
//! sentinel records its probe writes.
//!
//! A request is translated in full before anything is persisted; the
//! tenant is the first resource's `tenant.id`, else the configured default,
//! else the accept is refused.

use vstd::prelude::*;
use crate::otlp::{ExportLogsServiceRequest, ExportTraceServiceRequest};
use crate::pillar::{AttributeMap, LogRecord, SeverityNumber, Span, SpanId, SpanKind, SpanStatus, StatusCode, TraceId};
use crate::ports::{ProbeError, SinkError};
use crate::tenancy::TenantId;
use crate::text::opt_view;
use crate::translate::{
    fault_text, first_log_resource, first_span_resource, records_appended,
    records_fault, request_record_list, request_span_list, resolve_tenant_id, resolve_trace_tenant_id,
    spans_appended, spans_fault, tenant_of, translate_logs, translate_traces,
};

verus! {

/// The reserved tenant the probe writes its sentinel records under.
pub open spec fn probe_tenant_text() -> Seq<char> {
    "__aperture_storage_sink_probe__"@
}

/// The body (and span name) of the probe's sentinel records.
pub open spec fn probe_body_text() -> Seq<char> {
    "aperture-storage-sink probe write check"@
}

/// The refusal when no tenant can be resolved.
pub open spec fn no_tenant_text() -> Seq<char> {
    "no tenant: record carries no tenant.id resource attribute and no default_tenant is configured; refusing"@
}

/// Configuration of a storage sink: the tenant a record is filed under
/// when it names none (`None` refuses such records).
#[derive(Debug, Clone)]
pub struct StorageSinkConfig {
    default_tenant: Option<String>,
}

impl StorageSinkConfig {
    /// The configured default tenant.
    pub closed spec fn default_tenant_spec(&self) -> Option<Seq<char>> {
        opt_view(self.default_tenant)
    }

    /// File records that name no tenant under `tenant`.
    pub fn with_default_tenant(tenant: String) -> (c: StorageSinkConfig)
        ensures
            c.default_tenant_spec() == Some(tenant@),
    {
        StorageSinkConfig { default_tenant: Some(tenant) }
    }

    /// Refuse records that name no tenant.
    pub fn no_default_tenant() -> (c: StorageSinkConfig)
        ensures
            c.default_tenant_spec() is None,
    {
        StorageSinkConfig { default_tenant: None }
    }

    /// The default tenant, if any.
    pub fn default_tenant(&self) -> (t: Option<&str>)
        ensures
            match t {
                Some(s) => self.default_tenant_spec() == Some(s@),
                None => self.default_tenant_spec() is None,
            },
    {
        match &self.default_tenant {
            Some(s) => Some(s.as_str()),
            None => None,
        }
    }
}

/// The tenant an accept is filed under: the one the request names, else
/// the default; `None` when neither exists.
pub open spec fn resolved_tenant(named: Option<Seq<char>>, default: Option<Seq<char>>) -> Option<Seq<char>> {
    match named {
        Some(t) => Some(t),
        None => default,
    }
}

/// A storage sink over a log store handle `L` and a trace store handle `T`;
/// either may be absent.
#[derive(Debug)]
pub struct StorageSink<L, T> {
    config: StorageSinkConfig,
    log_store: Option<L>,
    trace_store: Option<T>,
}

impl<L, T> StorageSink<L, T> {
    pub closed spec fn config_spec(&self) -> StorageSinkConfig {
        self.config
    }

    pub closed spec fn log_store_spec(&self) -> Option<L> {
        self.log_store
    }

    pub closed spec fn trace_store_spec(&self) -> Option<T> {
        self.trace_store
    }

    /// A logs-only sink.
    pub fn with_log_store(log_store: L, config: StorageSinkConfig) -> (s: StorageSink<L, T>)
        ensures
            s.config_spec() == config,
            s.log_store_spec() == Some(log_store),
            s.trace_store_spec() is None,
    {
        StorageSink { config, log_store: Some(log_store), trace_store: None }
    }

    /// A traces-only sink.
    pub fn with_trace_store(trace_store: T, config: StorageSinkConfig) -> (s: StorageSink<L, T>)
        ensures
            s.config_spec() == config,
            s.log_store_spec() is None,
            s.trace_store_spec() == Some(trace_store),
    {
        StorageSink { config, log_store: None, trace_store: Some(trace_store) }
    }

    /// A sink wired with both stores.
    pub fn with_log_and_trace_stores(log_store: L, trace_store: T, config: StorageSinkConfig) -> (s:
        StorageSink<L, T>)
        ensures
            s.config_spec() == config,
            s.log_store_spec() == Some(log_store),
            s.trace_store_spec() == Some(trace_store),
    {
        StorageSink { config, log_store: Some(log_store), trace_store: Some(trace_store) }
    }

    /// The wired log store, if any.
    pub fn log_store(&self) -> (s: Option<&L>)
        ensures
            match s {
                Some(l) => self.log_store_spec() == Some(*l),
                None => self.log_store_spec() is None,
            },
    {
        match &self.log_store {
            Some(l) => Some(l),
            None => None,
        }
    }

    /// The wired trace store, if any.
    pub fn trace_store(&self) -> (s: Option<&T>)
        ensures
            match s {
                Some(t) => self.trace_store_spec() == Some(*t),
                None => self.trace_store_spec() is None,
            },
    {
        match &self.trace_store {
            Some(t) => Some(t),
            None => None,
        }
    }

    /// Resolve the tenant for an accept: the tenant the request names,
    /// else the configured default, else a refusal naming the rule.
    pub fn resolve_tenant(&self, named: Option<String>) -> (r: Result<TenantId, SinkError>)
        ensures
            match r {
                Ok(t) => resolved_tenant(opt_view(named), self.config_spec().default_tenant_spec())
                    == Some(t@),
                Err(e) => resolved_tenant(opt_view(named), self.config_spec().default_tenant_spec())
                    is None && e == (SinkError::Internal { message: e->message }) && e->message@
                    == no_tenant_text(),
            },
    {
        if let Some(explicit) = named {
            return Ok(TenantId(explicit));
        }
        match &self.config.default_tenant {
            Some(d) => Ok(TenantId(d.clone())),
            None => Err(
                SinkError::Internal {
                    message: String::from_str(
                        "no tenant: record carries no tenant.id resource attribute and no default_tenant is configured; refusing",
                    ),
                },
            ),
        }
    }

    /// Everything a logs accept persists, decided before any write: the log
    /// store (refused when none is wired), the tenant, and the translated
    /// records (the first malformed identifier refuses the whole request).
    pub fn prepare_logs(&self, request: &ExportLogsServiceRequest) -> (r: Result<
        (&L, TenantId, Vec<LogRecord>),
        SinkError,
    >)
        ensures
            match r {
                Ok((store, tenant, records)) => {
                    &&& self.log_store_spec() == Some(*store)
                    &&& resolved_tenant(
                        tenant_of(first_log_resource(request.resource_logs@)),
                        self.config_spec().default_tenant_spec(),
                    ) == Some(tenant@)
                    &&& records_fault(request_record_list(request.resource_logs@)) is None
                    &&& records_appended(
                        Seq::empty(),
                        records@,
                        request_record_list(request.resource_logs@),
                    )
                },
                Err(e) => e is Internal && (if self.log_store_spec() is None {
                    e->message@ == "no log store wired into this StorageSink"@
                } else if resolved_tenant(
                    tenant_of(first_log_resource(request.resource_logs@)),
                    self.config_spec().default_tenant_spec(),
                ) is None {
                    e->message@ == no_tenant_text()
                } else {
                    records_fault(request_record_list(request.resource_logs@)) matches Some(f)
                        && e->message@ == "log translation refused: "@ + fault_text(f)
                }),
            },
    {
        let store = match &self.log_store {
            Some(s) => s,
            None => {
                return Err(
                    SinkError::Internal {
                        message: String::from_str("no log store wired into this StorageSink"),
                    },
                );
            },
        };
        let tenant = match self.resolve_tenant(resolve_tenant_id(request)) {
            Ok(t) => t,
            Err(e) => return Err(e),
        };
        match translate_logs(request) {
            Ok(records) => Ok((store, tenant, records)),
            Err(e) => {
                let mut message = String::from_str("log translation refused: ");
                let text = e.message();
                message.append(text.as_str());
                Err(SinkError::Internal { message })
            },
        }
    }

    /// Everything a traces accept persists, decided before any write: the
    /// trace store (refused when none is wired), the tenant, and the
    /// translated spans (the first malformed identifier anywhere refuses
    /// the whole request).
    pub fn prepare_traces(&self, request: &ExportTraceServiceRequest) -> (r: Result<
        (&T, TenantId, Vec<Span>),
        SinkError,
    >)
        ensures
            match r {
                Ok((store, tenant, spans)) => {
                    &&& self.trace_store_spec() == Some(*store)
                    &&& resolved_tenant(
                        tenant_of(first_span_resource(request.resource_spans@)),
                        self.config_spec().default_tenant_spec(),
                    ) == Some(tenant@)
                    &&& spans_fault(request_span_list(request.resource_spans@)) is None
                    &&& spans_appended(Seq::empty(), spans@, request_span_list(request.resource_spans@))
                },
                Err(e) => e is Internal && (if self.trace_store_spec() is None {
                    e->message@ == "no trace store wired into this StorageSink"@
                } else if resolved_tenant(
                    tenant_of(first_span_resource(request.resource_spans@)),
                    self.config_spec().default_tenant_spec(),
                ) is None {
                    e->message@ == no_tenant_text()
                } else {
                    spans_fault(request_span_list(request.resource_spans@)) matches Some(f)
                        && e->message@ == "trace translation refused: "@ + fault_text(f)
                }),
            },
    {
        let store = match &self.trace_store {
            Some(s) => s,
            None => {
                return Err(
                    SinkError::Internal {
                        message: String::from_str("no trace store wired into this StorageSink"),
                    },
                );
            },
        };
        let tenant = match self.resolve_tenant(resolve_trace_tenant_id(request)) {
            Ok(t) => t,
            Err(e) => return Err(e),
        };
        match translate_traces(request) {
            Ok(spans) => Ok((store, tenant, spans)),
            Err(e) => {
                let mut message = String::from_str("trace translation refused: ");
                let text = e.message();
                message.append(text.as_str());
                Err(SinkError::Internal { message })
            },
        }
    }
}

/// The refusal for a failed pillar write: `{pillar} ingest failed: {error}`.
pub fn ingest_failure(pillar: &str, error: &str) -> (e: SinkError)
    ensures
        e is Internal,
        e->message@ == pillar@ + " ingest failed: "@ + error@,
{
    let mut message = String::from_str(pillar);
    message.append(" ingest failed: ");
    message.append(error);
    SinkError::Internal { message }
}

/// The probe failure for a pillar whose root is not writable.
pub fn probe_unreachable(endpoint: &str, reason: String) -> (e: ProbeError)
    ensures
        e is Unreachable,
        e->Unreachable_endpoint@ == endpoint@,
        e->Unreachable_reason@ == reason@,
{
    ProbeError::Unreachable { endpoint: String::from_str(endpoint), reason }
}

/// The probe failure for a failed write or snapshot check:
/// `probe {step} check failed: {error}` against the pillar.
pub fn probe_check_failed(endpoint: &str, step: &str, error: &str) -> (e: ProbeError)
    ensures
        e is Unreachable,
        e->Unreachable_endpoint@ == endpoint@,
        e->Unreachable_reason@ == "probe "@ + step@ + " check failed: "@ + error@,
{
    let mut reason = String::from_str("probe ");
    reason.append(step);
    reason.append(" check failed: ");
    reason.append(error);
    probe_unreachable(endpoint, reason)
}

/// The reserved tenant the probe writes under.
pub fn probe_tenant() -> (t: TenantId)
    ensures
        t@ == probe_tenant_text(),
{
    TenantId(String::from_str("__aperture_storage_sink_probe__"))
}

/// The sentinel log record the probe writes: the recognisable body and
/// nothing else.
pub fn probe_record() -> (r: LogRecord)
    ensures
        r.observed_time_unix_nano == 0,
        r.severity_number == SeverityNumber(0),
        r.severity_text@ == Seq::<char>::empty(),
        r.body@ == probe_body_text(),
        r.attributes@ == Map::<Seq<char>, Seq<char>>::empty(),
        r.resource_attributes@ == Map::<Seq<char>, Seq<char>>::empty(),
        r.trace_id is None,
        r.span_id is None,
{
    LogRecord {
        observed_time_unix_nano: 0,
        severity_number: SeverityNumber(0),
        severity_text: String::new(),
        body: String::from_str("aperture-storage-sink probe write check"),
        attributes: AttributeMap::new(),
        resource_attributes: AttributeMap::new(),
        trace_id: None,
        span_id: None,
    }
}

fn zero_bytes(n: usize) -> (v: Vec<u8>)
    ensures
        v@.len() == n,
        forall|i: int| 0 <= i < n ==> v@[i] == 0,
{
    let mut v: Vec<u8> = Vec::new();
    let mut i: usize = 0;
    while i < n
        invariant
            i <= n,
            v@.len() == i,
            forall|j: int| 0 <= j < i ==> v@[j] == 0,
        decreases n - i,
    {
        v.push(0);
        i = i + 1;
    }
    v
}

/// The sentinel span the probe writes: all-zero ids, no parent, an
/// internal span named for the probe, with nothing else set.
pub fn probe_span() -> (s: Span)
    ensures
        s.trace_id.0@ == Seq::new(16, |i: int| 0u8),
        s.span_id.0@ == Seq::new(8, |i: int| 0u8),
        s.parent_span_id is None,
        s.name@ == probe_body_text(),
        s.kind == SpanKind::Internal,
        s.start_time_unix_nano == 0,
        s.end_time_unix_nano == 0,
        s.status.code == StatusCode::Unset,
        s.status.message@ == Seq::<char>::empty(),
        s.attributes@ == Map::<Seq<char>, Seq<char>>::empty(),
        s.resource_attributes@ == Map::<Seq<char>, Seq<char>>::empty(),
        s.events@.len() == 0,
        s.links@.len() == 0,
{
    let trace = zero_bytes(16);
    let span = zero_bytes(8);
    assert(trace@ =~= Seq::new(16, |i: int| 0u8));
    assert(span@ =~= Seq::new(8, |i: int| 0u8));
    Span {
        trace_id: TraceId(trace),
        span_id: SpanId(span),
        parent_span_id: None,
        name: String::from_str("aperture-storage-sink probe write check"),
        kind: SpanKind::Internal,
        start_time_unix_nano: 0,
        end_time_unix_nano: 0,
        status: SpanStatus { code: StatusCode::Unset, message: String::new() },
        attributes: AttributeMap::new(),
        resource_attributes: AttributeMap::new(),
        events: Vec::new(),
        links: Vec::new(),
    }
}

} // verus!
