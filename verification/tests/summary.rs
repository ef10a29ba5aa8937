use aperture::otlp::{
    AnyValue, ExportLogsServiceRequest, ExportMetricsServiceRequest, ExportTraceServiceRequest,
    KeyValue, LogRecord, Metric, MetricData, Resource, ResourceLogs, ResourceMetrics,
    ResourceSpans, ScopeLogs, ScopeMetrics, ScopeSpans, Span, Value,
};
use aperture::ports::{SinkRecord, TenantScoped};
use aperture::sinks::count_field;
use aperture::summary::{framing_for_transport, summarise_record, Framing, Transport};
use aperture::tenancy::TenantId;

fn tenant() -> TenantId {
    TenantId("acme-prod".to_string())
}

fn service(name: &str) -> Resource {
    Resource {
        attributes: vec![KeyValue {
            key: "service.name".to_string(),
            value: Some(AnyValue { value: Some(Value::StringValue(name.to_string())) }),
        }],
    }
}

fn log_record() -> LogRecord {
    LogRecord {
        time_unix_nano: 0,
        observed_time_unix_nano: 0,
        severity_number: 0,
        severity_text: String::new(),
        body: None,
        attributes: vec![],
        trace_id: vec![],
        span_id: vec![],
    }
}

fn span_with_index(i: u8) -> Span {
    Span {
        trace_id: vec![1; 16],
        span_id: vec![i; 8],
        parent_span_id: vec![],
        name: format!("span-{i}"),
        kind: 1,
        start_time_unix_nano: 1_700_000_000_000_000_000,
        end_time_unix_nano: 1_700_000_000_000_000_010,
        attributes: vec![],
        events: vec![],
        links: vec![],
        status: None,
    }
}

fn metric(name: &str, data: Option<MetricData>) -> Metric {
    Metric { name: name.to_string(), data }
}

fn logs(req: ExportLogsServiceRequest) -> SinkRecord {
    SinkRecord::Logs(TenantScoped::new(tenant(), req))
}

fn traces(req: ExportTraceServiceRequest) -> SinkRecord {
    SinkRecord::Traces(TenantScoped::new(tenant(), req))
}

fn metrics(req: ExportMetricsServiceRequest) -> SinkRecord {
    SinkRecord::Metrics(TenantScoped::new(tenant(), req))
}

#[test]
fn framing_for_grpc_transport_is_grpc_protobuf() {
    assert!(matches!(framing_for_transport(Transport::Grpc), Framing::GrpcProtobuf));
}

#[test]
fn framing_for_http_protobuf_transport_is_http_protobuf() {
    assert!(matches!(framing_for_transport(Transport::HttpProtobuf), Framing::HttpProtobuf));
}

#[test]
fn summarise_logs_extracts_service_name_and_record_count() {
    let record = logs(ExportLogsServiceRequest {
        resource_logs: vec![ResourceLogs {
            resource: Some(service("payments-api")),
            scope_logs: vec![ScopeLogs { log_records: vec![log_record(), log_record(), log_record()] }],
        }],
    });
    let s = summarise_record(&record);
    assert_eq!(s.signal, "logs");
    assert_eq!(s.resource_service_name, Some("payments-api"));
    assert_eq!(s.count, 3);
    assert_eq!(count_field(&record), "record_count");
}

#[test]
fn summarise_logs_returns_none_service_name_when_attribute_missing() {
    let record = logs(ExportLogsServiceRequest {
        resource_logs: vec![ResourceLogs { resource: Some(Resource { attributes: vec![] }), scope_logs: vec![] }],
    });
    let s = summarise_record(&record);
    assert_eq!(s.resource_service_name, None);
    assert_eq!(s.count, 0);
}

#[test]
fn summarise_traces_extracts_service_name_and_span_count() {
    let record = traces(ExportTraceServiceRequest {
        resource_spans: vec![ResourceSpans {
            resource: Some(service("checkout-api")),
            scope_spans: vec![ScopeSpans {
                spans: vec![span_with_index(0), span_with_index(1), span_with_index(2)],
            }],
        }],
    });
    let s = summarise_record(&record);
    assert_eq!(s.signal, "traces");
    assert_eq!(s.resource_service_name, Some("checkout-api"));
    assert_eq!(s.count, 3);
    assert_eq!(count_field(&record), "span_count");
}

#[test]
fn summarise_traces_sums_spans_across_multiple_scope_spans() {
    let record = traces(ExportTraceServiceRequest {
        resource_spans: vec![ResourceSpans {
            resource: None,
            scope_spans: vec![
                ScopeSpans { spans: vec![span_with_index(0), span_with_index(1)] },
                ScopeSpans { spans: vec![span_with_index(2), span_with_index(3)] },
            ],
        }],
    });
    assert_eq!(summarise_record(&record).count, 4);
}

#[test]
fn summarise_traces_returns_none_service_name_when_resource_missing() {
    let record = traces(ExportTraceServiceRequest {
        resource_spans: vec![ResourceSpans { resource: None, scope_spans: vec![] }],
    });
    let s = summarise_record(&record);
    assert_eq!(s.resource_service_name, None);
    assert_eq!(s.count, 0);
}

#[test]
fn summarise_metrics_extracts_service_name_and_data_point_count() {
    let record = metrics(ExportMetricsServiceRequest {
        resource_metrics: vec![ResourceMetrics {
            resource: Some(service("payments-api")),
            scope_metrics: vec![ScopeMetrics {
                metrics: vec![
                    metric("requests", Some(MetricData::Sum { data_points: 1 })),
                    metric("temperature", Some(MetricData::Gauge { data_points: 1 })),
                ],
            }],
        }],
    });
    let s = summarise_record(&record);
    assert_eq!(s.signal, "metrics");
    assert_eq!(s.resource_service_name, Some("payments-api"));
    assert_eq!(s.count, 2);
    assert_eq!(count_field(&record), "data_point_count");
}

#[test]
fn summarise_metrics_counts_one_data_point_per_histogram_data_point_not_per_bucket() {
    let record = metrics(ExportMetricsServiceRequest {
        resource_metrics: vec![ResourceMetrics {
            resource: None,
            scope_metrics: vec![ScopeMetrics {
                metrics: vec![metric("latency", Some(MetricData::Histogram { data_points: 1 }))],
            }],
        }],
    });
    assert_eq!(summarise_record(&record).count, 1);
}

#[test]
fn summarise_metrics_sums_data_points_across_multiple_scope_metrics() {
    let record = metrics(ExportMetricsServiceRequest {
        resource_metrics: vec![ResourceMetrics {
            resource: None,
            scope_metrics: vec![
                ScopeMetrics { metrics: vec![metric("a", Some(MetricData::Sum { data_points: 2 }))] },
                ScopeMetrics { metrics: vec![metric("b", Some(MetricData::Sum { data_points: 2 }))] },
            ],
        }],
    });
    assert_eq!(summarise_record(&record).count, 4);
}

#[test]
fn summarise_metrics_counts_zero_when_metric_data_oneof_is_none() {
    let record = metrics(ExportMetricsServiceRequest {
        resource_metrics: vec![ResourceMetrics {
            resource: None,
            scope_metrics: vec![ScopeMetrics { metrics: vec![metric("no-data", None)] }],
        }],
    });
    assert_eq!(summarise_record(&record).count, 0);
}

#[test]
fn summarise_metrics_counts_exponential_histogram_and_summary_data_points() {
    let record = metrics(ExportMetricsServiceRequest {
        resource_metrics: vec![ResourceMetrics {
            resource: None,
            scope_metrics: vec![ScopeMetrics {
                metrics: vec![
                    metric("exp-hist", Some(MetricData::ExponentialHistogram { data_points: 1 })),
                    metric("summary", Some(MetricData::Summary { data_points: 1 })),
                ],
            }],
        }],
    });
    assert_eq!(summarise_record(&record).count, 2);
}

#[test]
fn summarise_metrics_returns_none_service_name_when_resource_missing() {
    let record = metrics(ExportMetricsServiceRequest {
        resource_metrics: vec![ResourceMetrics { resource: None, scope_metrics: vec![] }],
    });
    let s = summarise_record(&record);
    assert_eq!(s.resource_service_name, None);
    assert_eq!(s.count, 0);
}

#[test]
fn summarise_counts_across_resources_and_ignores_non_string_service_names() {
    let record = logs(ExportLogsServiceRequest {
        resource_logs: vec![
            ResourceLogs {
                resource: Some(Resource {
                    attributes: vec![
                        KeyValue {
                            key: "service.name".to_string(),
                            value: Some(AnyValue { value: Some(Value::IntValue(3)) }),
                        },
                        KeyValue {
                            key: "service.name".to_string(),
                            value: Some(AnyValue { value: Some(Value::StringValue("later".to_string())) }),
                        },
                    ],
                }),
                scope_logs: vec![ScopeLogs { log_records: vec![log_record()] }],
            },
            ResourceLogs {
                resource: Some(service("second")),
                scope_logs: vec![ScopeLogs { log_records: vec![log_record(), log_record()] }],
            },
        ],
    });
    let s = summarise_record(&record);
    assert_eq!(s.resource_service_name, None);
    assert_eq!(s.count, 3);
}
