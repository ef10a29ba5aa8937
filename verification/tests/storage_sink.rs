use aperture::otlp::{
    AnyValue, ExportLogsServiceRequest, ExportTraceServiceRequest, KeyValue, LogRecord, Resource,
    ResourceLogs, ResourceSpans, ScopeLogs, ScopeSpans, Span, Value,
};
use aperture::pillar::{SpanKind, StatusCode};
use aperture::ports::{ProbeError, SinkError};
use aperture::storage_sink::{
    ingest_failure, probe_check_failed, probe_record, probe_span, probe_tenant, probe_unreachable,
    StorageSink, StorageSinkConfig,
};

fn tenant_attr(t: &str) -> KeyValue {
    KeyValue {
        key: "tenant.id".to_string(),
        value: Some(AnyValue { value: Some(Value::StringValue(t.to_string())) }),
    }
}

fn log_record(trace_id: Vec<u8>) -> LogRecord {
    LogRecord {
        time_unix_nano: 1,
        observed_time_unix_nano: 0,
        severity_number: 9,
        severity_text: "INFO".to_string(),
        body: Some(AnyValue { value: Some(Value::StringValue("hello".to_string())) }),
        attributes: vec![],
        trace_id,
        span_id: vec![],
    }
}

fn logs_request(resource: Option<Resource>, records: Vec<LogRecord>) -> ExportLogsServiceRequest {
    ExportLogsServiceRequest {
        resource_logs: vec![ResourceLogs { resource, scope_logs: vec![ScopeLogs { log_records: records }] }],
    }
}

fn internal_message(e: SinkError) -> String {
    match e {
        SinkError::Internal { message } => message,
        other => panic!("expected an internal refusal, got {other:?}"),
    }
}

#[test]
fn with_default_tenant_carries_the_tenant() {
    let config = StorageSinkConfig::with_default_tenant("acme".to_string());
    assert_eq!(config.default_tenant(), Some("acme"));
}

#[test]
fn no_default_tenant_carries_none() {
    let config = StorageSinkConfig::no_default_tenant();
    assert_eq!(config.default_tenant(), None);
}

#[test]
fn probe_record_carries_a_recognisable_body() {
    let record = probe_record();
    assert_eq!(record.body, "aperture-storage-sink probe write check");
    assert!(record.trace_id.is_none() && record.span_id.is_none());
    assert!(record.attributes.is_empty());
}

#[test]
fn probe_span_is_a_zeroed_internal_span() {
    let span = probe_span();
    assert_eq!(span.trace_id.0, vec![0u8; 16]);
    assert_eq!(span.span_id.0, vec![0u8; 8]);
    assert_eq!(span.name, "aperture-storage-sink probe write check");
    assert_eq!(span.kind, SpanKind::Internal);
    assert_eq!(span.status.code, StatusCode::Unset);
    assert!(span.parent_span_id.is_none() && span.events.is_empty() && span.links.is_empty());
    assert_eq!(probe_tenant().0, "__aperture_storage_sink_probe__");
}

#[test]
fn probe_failures_name_the_pillar() {
    match probe_check_failed("lumen", "snapshot", "read-only file system") {
        ProbeError::Unreachable { endpoint, reason } => {
            assert_eq!(endpoint, "lumen");
            assert_eq!(reason, "probe snapshot check failed: read-only file system");
        }
        other => panic!("unexpected {other:?}"),
    }
    match probe_unreachable("ray", "no trace store".to_string()) {
        ProbeError::Unreachable { endpoint, reason } => {
            assert_eq!((endpoint.as_str(), reason.as_str()), ("ray", "no trace store"));
        }
        other => panic!("unexpected {other:?}"),
    }
}

#[test]
fn ingest_failure_names_the_pillar_and_error() {
    assert_eq!(internal_message(ingest_failure("lumen", "disk full")), "lumen ingest failed: disk full");
}

#[test]
fn logs_are_filed_under_the_named_tenant() {
    let sink: StorageSink<&str, &str> =
        StorageSink::with_log_store("logs", StorageSinkConfig::with_default_tenant("fallback".to_string()));
    let request = logs_request(Some(Resource { attributes: vec![tenant_attr("globex")] }), vec![log_record(vec![])]);
    let (store, tenant, records) = sink.prepare_logs(&request).expect("accepted");
    assert_eq!(*store, "logs");
    assert_eq!(tenant.0, "globex");
    assert_eq!(records.len(), 1);
    assert_eq!(records[0].body, "hello");
    assert_eq!(records[0].resource_attributes.get("tenant.id"), Some("globex"));
}

#[test]
fn logs_fall_back_to_the_default_tenant() {
    let sink: StorageSink<&str, &str> =
        StorageSink::with_log_store("logs", StorageSinkConfig::with_default_tenant("fallback".to_string()));
    let request = logs_request(None, vec![log_record(vec![])]);
    let (_, tenant, _) = sink.prepare_logs(&request).expect("accepted");
    assert_eq!(tenant.0, "fallback");
}

#[test]
fn logs_without_any_tenant_are_refused() {
    let sink: StorageSink<&str, &str> = StorageSink::with_log_store("logs", StorageSinkConfig::no_default_tenant());
    let request = logs_request(None, vec![log_record(vec![])]);
    let message = internal_message(sink.prepare_logs(&request).err().expect("refused"));
    assert!(message.starts_with("no tenant:"), "got: {message}");
}

#[test]
fn a_malformed_log_id_refuses_the_whole_accept() {
    let sink: StorageSink<&str, &str> =
        StorageSink::with_log_store("logs", StorageSinkConfig::with_default_tenant("t".to_string()));
    let request = logs_request(None, vec![log_record(vec![]), log_record(vec![0x11; 7])]);
    let message = internal_message(sink.prepare_logs(&request).err().expect("refused"));
    assert_eq!(message, "log translation refused: malformed trace_id: expected 16 bytes, got 7");
}

#[test]
fn a_sink_without_the_pillar_refuses_its_signal() {
    let sink: StorageSink<&str, &str> =
        StorageSink::with_trace_store("traces", StorageSinkConfig::with_default_tenant("t".to_string()));
    let message = internal_message(sink.prepare_logs(&logs_request(None, vec![])).err().expect("refused"));
    assert_eq!(message, "no log store wired into this StorageSink");
    let logs_only: StorageSink<&str, &str> =
        StorageSink::with_log_store("logs", StorageSinkConfig::with_default_tenant("t".to_string()));
    let empty = ExportTraceServiceRequest { resource_spans: vec![] };
    let message = internal_message(logs_only.prepare_traces(&empty).err().expect("refused"));
    assert_eq!(message, "no trace store wired into this StorageSink");
}

#[test]
fn traces_are_translated_for_the_trace_store() {
    let sink: StorageSink<&str, &str> =
        StorageSink::with_log_and_trace_stores("logs", "traces", StorageSinkConfig::no_default_tenant());
    assert_eq!(sink.log_store(), Some(&"logs"));
    let span = Span {
        trace_id: vec![0xAB; 16],
        span_id: vec![0x01; 8],
        parent_span_id: vec![],
        name: "checkout".to_string(),
        kind: 2,
        start_time_unix_nano: 1,
        end_time_unix_nano: 2,
        attributes: vec![],
        events: vec![],
        links: vec![],
        status: None,
    };
    let request = ExportTraceServiceRequest {
        resource_spans: vec![ResourceSpans {
            resource: Some(Resource { attributes: vec![tenant_attr("acme")] }),
            scope_spans: vec![ScopeSpans { spans: vec![span] }],
        }],
    };
    let (store, tenant, spans) = sink.prepare_traces(&request).expect("accepted");
    assert_eq!((*store, tenant.0.as_str(), spans.len()), ("traces", "acme", 1));
    assert_eq!(spans[0].kind, SpanKind::Server);
}
