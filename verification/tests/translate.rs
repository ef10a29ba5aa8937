use aperture::otlp::{
    any_value_to_string, AnyValue, Event, ExportLogsServiceRequest, ExportTraceServiceRequest,
    KeyValue, Link, LogRecord, Resource, ResourceLogs, ResourceSpans, ScopeLogs, ScopeSpans, Span,
    Status, Value,
};
use aperture::pillar::{AttributeMap, SpanId, SpanKind, StatusCode, TraceId};
use aperture::translate::{
    byte_id_16, byte_id_8, fold_attributes, observed_time, require_span_id, require_trace_id,
    resolve_tenant_id, resolve_trace_tenant_id, span_kind_from_i32, span_status,
    status_code_from_i32, translate_events, translate_links, translate_logs, translate_span,
    translate_traces, TranslationError,
};

fn any(value: Value) -> AnyValue {
    AnyValue { value: Some(value) }
}

fn kv(key: &str, value: Value) -> KeyValue {
    KeyValue { key: key.to_string(), value: Some(any(value)) }
}

fn text(s: &str) -> Value {
    Value::StringValue(s.to_string())
}

fn log_record() -> LogRecord {
    LogRecord {
        time_unix_nano: 0,
        observed_time_unix_nano: 0,
        severity_number: 0,
        severity_text: String::new(),
        body: None,
        attributes: vec![],
        trace_id: vec![],
        span_id: vec![],
    }
}

fn request_with_resource(attributes: Vec<KeyValue>) -> ExportLogsServiceRequest {
    ExportLogsServiceRequest {
        resource_logs: vec![ResourceLogs {
            resource: Some(Resource { attributes }),
            scope_logs: vec![ScopeLogs { log_records: vec![] }],
        }],
    }
}

fn proto_span_min(trace_id: Vec<u8>, span_id: Vec<u8>, parent_span_id: Vec<u8>) -> Span {
    Span {
        trace_id,
        span_id,
        parent_span_id,
        name: "s".to_string(),
        kind: 0,
        start_time_unix_nano: 1,
        end_time_unix_nano: 2,
        attributes: vec![],
        events: vec![],
        links: vec![],
        status: None,
    }
}

fn traces_request_with(resource_attrs: Vec<KeyValue>, spans: Vec<Span>) -> ExportTraceServiceRequest {
    ExportTraceServiceRequest {
        resource_spans: vec![ResourceSpans {
            resource: Some(Resource { attributes: resource_attrs }),
            scope_spans: vec![ScopeSpans { spans }],
        }],
    }
}

#[test]
fn any_value_none_renders_empty_string() {
    assert_eq!(any_value_to_string(None), "");
}

#[test]
fn any_value_empty_anyvalue_renders_empty_string() {
    assert_eq!(any_value_to_string(Some(&AnyValue { value: None })), "");
}

#[test]
fn any_value_string_renders_verbatim() {
    let v = any(text("order 1001 placed"));
    assert_eq!(any_value_to_string(Some(&v)), "order 1001 placed");
}

#[test]
fn any_value_bool_renders_true_or_false() {
    assert_eq!(any_value_to_string(Some(&any(Value::BoolValue(true)))), "true");
    assert_eq!(any_value_to_string(Some(&any(Value::BoolValue(false)))), "false");
}

#[test]
fn any_value_int_renders_decimal() {
    let v = any(Value::IntValue(-42));
    assert_eq!(any_value_to_string(Some(&v)), "-42");
    assert_eq!(any_value_to_string(Some(&any(Value::IntValue(i64::MIN)))), "-9223372036854775808");
}

#[test]
fn any_value_double_renders_round_trip() {
    let v = any(Value::DoubleValue(1.5f64.to_string()));
    assert_eq!(any_value_to_string(Some(&v)), "1.5");
}

#[test]
fn any_value_bytes_renders_lowercase_hex() {
    let v = any(Value::BytesValue(vec![0x0a, 0xff, 0x10]));
    assert_eq!(any_value_to_string(Some(&v)), "0aff10");
}

#[test]
fn any_value_array_renders_bracketed_children() {
    let v = any(Value::ArrayValue(vec![any(Value::IntValue(1)), any(text("two"))]));
    assert_eq!(any_value_to_string(Some(&v)), "[1,two]");
}

#[test]
fn any_value_kvlist_renders_braced_entries() {
    let v = any(Value::KvlistValue(vec![kv("k", Value::IntValue(7))]));
    assert_eq!(any_value_to_string(Some(&v)), "{k=7}");
}

#[test]
fn any_value_nested_composites_render_recursively() {
    let v = any(Value::KvlistValue(vec![
        kv("a", Value::ArrayValue(vec![any(Value::BoolValue(true)), AnyValue { value: None }])),
        KeyValue { key: "b".to_string(), value: None },
    ]));
    assert_eq!(any_value_to_string(Some(&v)), "{a=[true,],b=}");
    assert_eq!(any_value_to_string(Some(&any(Value::ArrayValue(vec![])))), "[]");
}

#[test]
fn byte_id_16_empty_is_none() {
    assert_eq!(byte_id_16(&[], "trace_id"), Ok(None));
}

#[test]
fn byte_id_16_exact_is_some() {
    assert_eq!(byte_id_16(&[0xAB; 16], "trace_id"), Ok(Some(vec![0xAB; 16])));
}

#[test]
fn byte_id_16_wrong_length_refuses_naming_the_field() {
    assert_eq!(
        byte_id_16(&[0x11; 7], "trace_id"),
        Err(TranslationError::MalformedByteId { field: "trace_id", expected: 16, actual: 7 })
    );
}

#[test]
fn byte_id_8_wrong_length_refuses_naming_the_field() {
    assert_eq!(
        byte_id_8(&[0x11; 3], "span_id"),
        Err(TranslationError::MalformedByteId { field: "span_id", expected: 8, actual: 3 })
    );
}

#[test]
fn translation_error_display_names_field_and_lengths() {
    let err = TranslationError::MalformedByteId { field: "trace_id", expected: 16, actual: 7 };
    let rendered = err.message();
    assert!(rendered.contains("trace_id"), "got: {rendered}");
    assert!(rendered.contains("16"), "got: {rendered}");
    assert!(rendered.contains("7"), "got: {rendered}");
    assert_eq!(rendered, "malformed trace_id: expected 16 bytes, got 7");
}

#[test]
fn observed_time_prefers_observed_when_non_zero() {
    let proto = LogRecord { time_unix_nano: 100, observed_time_unix_nano: 200, ..log_record() };
    assert_eq!(observed_time(&proto), 200);
}

#[test]
fn observed_time_falls_back_to_event_time_when_observed_is_zero() {
    let proto = LogRecord { time_unix_nano: 100, observed_time_unix_nano: 0, ..log_record() };
    assert_eq!(observed_time(&proto), 100);
}

#[test]
fn resolve_tenant_id_returns_explicit_attribute() {
    let request = request_with_resource(vec![kv("tenant.id", text("globex"))]);
    assert_eq!(resolve_tenant_id(&request), Some("globex".to_string()));
}

#[test]
fn resolve_tenant_id_returns_none_when_attribute_absent() {
    let request = request_with_resource(vec![kv("service.name", text("checkout"))]);
    assert_eq!(resolve_tenant_id(&request), None);
}

#[test]
fn resolve_tenant_id_returns_none_when_no_resource_logs() {
    let request = ExportLogsServiceRequest { resource_logs: vec![] };
    assert_eq!(resolve_tenant_id(&request), None);
}

#[test]
fn resolve_tenant_id_takes_the_first_matching_attribute() {
    let request = request_with_resource(vec![
        kv("tenant.id", text("first")),
        kv("tenant.id", text("second")),
    ]);
    assert_eq!(resolve_tenant_id(&request), Some("first".to_string()));
}

#[test]
fn span_kind_maps_each_known_discriminant() {
    assert_eq!(span_kind_from_i32(1), SpanKind::Internal);
    assert_eq!(span_kind_from_i32(2), SpanKind::Server);
    assert_eq!(span_kind_from_i32(3), SpanKind::Client);
    assert_eq!(span_kind_from_i32(4), SpanKind::Producer);
    assert_eq!(span_kind_from_i32(5), SpanKind::Consumer);
}

#[test]
fn span_kind_unspecified_and_unknown_map_to_unspecified() {
    assert_eq!(span_kind_from_i32(0), SpanKind::Unspecified);
    assert_eq!(span_kind_from_i32(9999), SpanKind::Unspecified);
}

#[test]
fn status_code_maps_known_and_unknown() {
    assert_eq!(status_code_from_i32(1), StatusCode::Success);
    assert_eq!(status_code_from_i32(2), StatusCode::Error);
    assert_eq!(status_code_from_i32(0), StatusCode::Unset);
    assert_eq!(status_code_from_i32(9999), StatusCode::Unset);
}

#[test]
fn span_status_none_is_unset_with_empty_message() {
    let status = span_status(None);
    assert_eq!(status.code, StatusCode::Unset);
    assert_eq!(status.message, "");
}

#[test]
fn span_status_carries_code_and_message() {
    let proto = Status { code: 2, message: "boom".to_string() };
    let status = span_status(Some(&proto));
    assert_eq!(status.code, StatusCode::Error);
    assert_eq!(status.message, "boom");
}

#[test]
fn require_trace_id_rejects_empty() {
    assert!(require_trace_id(&[], "trace_id").is_err());
}

#[test]
fn require_trace_id_accepts_exactly_16() {
    assert_eq!(require_trace_id(&[0xAB; 16], "trace_id").ok(), Some(TraceId(vec![0xAB; 16])));
}

#[test]
fn require_span_id_rejects_empty_and_accepts_exactly_8() {
    assert!(require_span_id(&[], "span_id").is_err());
    assert_eq!(require_span_id(&[0x01; 8], "span_id").ok(), Some(SpanId(vec![0x01; 8])));
}

#[test]
fn required_ids_report_an_empty_id_as_length_zero() {
    assert_eq!(
        require_trace_id(&[], "trace_id").err(),
        Some(TranslationError::MalformedByteId { field: "trace_id", expected: 16, actual: 0 })
    );
}

#[test]
fn translate_events_maps_name_time_and_attributes() {
    let events = vec![
        Event { time_unix_nano: 10, name: "first".to_string(), attributes: vec![kv("k", text("v"))] },
        Event { time_unix_nano: 20, name: "second".to_string(), attributes: vec![] },
    ];
    let translated = translate_events(&events);
    assert_eq!(translated.len(), 2);
    assert_eq!(translated[0].name, "first");
    assert_eq!(translated[0].time_unix_nano, 10);
    assert_eq!(translated[0].attributes.get("k"), Some("v"));
    assert_eq!(translated[1].name, "second");
    assert!(translated[1].attributes.is_empty());
}

#[test]
fn translate_events_on_empty_yields_empty() {
    assert!(translate_events(&vec![]).is_empty());
}

#[test]
fn translate_links_maps_ids_and_attributes() {
    let link = Link {
        trace_id: vec![0xCD; 16],
        span_id: vec![0xEF; 8],
        attributes: vec![kv("link.kind", text("follows_from"))],
    };
    let translated = translate_links(&vec![link]).expect("well-formed link translates");
    assert_eq!(translated.len(), 1);
    assert_eq!(translated[0].trace_id, TraceId(vec![0xCD; 16]));
    assert_eq!(translated[0].span_id, SpanId(vec![0xEF; 8]));
    assert_eq!(translated[0].attributes.get("link.kind"), Some("follows_from"));
}

#[test]
fn translate_links_refuses_a_wrong_length_link_trace_id() {
    let link = Link { trace_id: vec![0xCD; 15], span_id: vec![0xEF; 8], attributes: vec![] };
    assert!(translate_links(&vec![link]).is_err());
}

#[test]
fn translate_links_refuses_a_wrong_length_link_span_id() {
    let link = Link { trace_id: vec![0xCD; 16], span_id: vec![0xEF; 9], attributes: vec![] };
    assert_eq!(
        translate_links(&vec![link]).err(),
        Some(TranslationError::MalformedByteId { field: "link.span_id", expected: 8, actual: 9 })
    );
}

#[test]
fn translate_span_empty_parent_is_root() {
    let span = translate_span(&proto_span_min(vec![0xAB; 16], vec![0x01; 8], vec![]), &AttributeMap::new())
        .expect("root span translates");
    assert_eq!(span.parent_span_id, None);
}

#[test]
fn translate_span_populated_parent_is_some() {
    let span = translate_span(
        &proto_span_min(vec![0xAB; 16], vec![0x02; 8], vec![0x01; 8]),
        &AttributeMap::new(),
    )
    .expect("child span translates");
    assert_eq!(span.parent_span_id, Some(SpanId(vec![0x01; 8])));
}

#[test]
fn translate_span_wrong_length_parent_refuses() {
    assert!(translate_span(
        &proto_span_min(vec![0xAB; 16], vec![0x02; 8], vec![0x01; 3]),
        &AttributeMap::new(),
    )
    .is_err());
}

#[test]
fn translate_traces_folds_resource_attributes_onto_every_span() {
    let request = traces_request_with(
        vec![kv("service.name", text("checkout"))],
        vec![proto_span_min(vec![0xAB; 16], vec![0x01; 8], vec![])],
    );
    let spans = translate_traces(&request).expect("translate");
    assert_eq!(spans.len(), 1);
    assert_eq!(spans[0].resource_attributes.get("service.name"), Some("checkout"));
}

#[test]
fn translate_traces_refuses_whole_request_on_a_malformed_sibling() {
    let good = proto_span_min(vec![0xAB; 16], vec![0x01; 8], vec![]);
    let bad = proto_span_min(vec![0x11; 7], vec![0x02; 8], vec![]);
    let request = traces_request_with(vec![], vec![good, bad]);
    assert!(translate_traces(&request).is_err());
}

#[test]
fn resolve_trace_tenant_id_present_absent_and_no_resource() {
    let present = traces_request_with(vec![kv("tenant.id", text("globex"))], vec![]);
    assert_eq!(resolve_trace_tenant_id(&present), Some("globex".to_string()));
    let absent = traces_request_with(vec![kv("service.name", text("checkout"))], vec![]);
    assert_eq!(resolve_trace_tenant_id(&absent), None);
    let empty = ExportTraceServiceRequest { resource_spans: vec![] };
    assert_eq!(resolve_trace_tenant_id(&empty), None);
}

#[test]
fn translate_logs_refuses_whole_request_on_a_malformed_id() {
    let good = LogRecord { body: Some(any(text("ok"))), ..log_record() };
    let bad = LogRecord { trace_id: vec![0x11; 7], ..log_record() };
    let request = ExportLogsServiceRequest {
        resource_logs: vec![ResourceLogs {
            resource: None,
            scope_logs: vec![ScopeLogs { log_records: vec![good, bad] }],
        }],
    };
    assert!(translate_logs(&request).is_err());
}

#[test]
fn translate_logs_maps_every_record_in_order() {
    let first = LogRecord {
        observed_time_unix_nano: 5,
        severity_number: 9,
        severity_text: "INFO".to_string(),
        body: Some(any(text("hello"))),
        attributes: vec![kv("k", Value::IntValue(1)), kv("k", Value::IntValue(2))],
        trace_id: vec![0x01; 16],
        span_id: vec![0x02; 8],
        ..log_record()
    };
    let second = LogRecord { time_unix_nano: 7, ..log_record() };
    let request = ExportLogsServiceRequest {
        resource_logs: vec![
            ResourceLogs {
                resource: Some(Resource { attributes: vec![kv("service.name", text("api"))] }),
                scope_logs: vec![ScopeLogs { log_records: vec![first] }],
            },
            ResourceLogs { resource: None, scope_logs: vec![ScopeLogs { log_records: vec![second] }] },
        ],
    };
    let records = translate_logs(&request).expect("well-formed request translates");
    assert_eq!(records.len(), 2);
    assert_eq!(records[0].observed_time_unix_nano, 5);
    assert_eq!(records[0].severity_number.0, 9);
    assert_eq!(records[0].severity_text, "INFO");
    assert_eq!(records[0].body, "hello");
    assert_eq!(records[0].attributes.get("k"), Some("2"));
    assert_eq!(records[0].resource_attributes.get("service.name"), Some("api"));
    assert_eq!(records[0].trace_id, Some(vec![0x01; 16]));
    assert_eq!(records[0].span_id, Some(vec![0x02; 8]));
    assert_eq!(records[1].observed_time_unix_nano, 7);
    assert!(records[1].resource_attributes.is_empty());
    assert_eq!(records[1].trace_id, None);
}

#[test]
fn fold_attributes_lets_a_later_duplicate_win() {
    let folded = fold_attributes(&vec![kv("a", text("1")), kv("b", text("2")), kv("a", text("3"))]);
    assert_eq!(folded.get("a"), Some("3"));
    assert_eq!(folded.get("b"), Some("2"));
    assert_eq!(folded.get("c"), None);
}
