use aperture::pillar::AttributeMap;
use aperture::sinks::{forwarding_url, RecordingSink};

#[test]
fn forwarding_url_appends_the_signal_path() {
    assert_eq!(forwarding_url("http://otel-collector:4318", "logs"), "http://otel-collector:4318/v1/logs");
}

#[test]
fn forwarding_url_tolerates_trailing_slashes() {
    assert_eq!(forwarding_url("http://host/", "traces"), "http://host/v1/traces");
    assert_eq!(forwarding_url("http://host///", "metrics"), "http://host/v1/metrics");
    assert_eq!(forwarding_url("", "logs"), "/v1/logs");
}

#[test]
fn recording_sink_drains_in_arrival_order() {
    let mut sink: RecordingSink<u32> = RecordingSink::new();
    assert!(sink.is_empty());
    sink.accept(1);
    sink.accept(2);
    assert_eq!(sink.len(), 2);
    assert_eq!(sink.drain(), vec![1, 2]);
    assert!(sink.is_empty());
    assert!(sink.drain().is_empty());
}

#[test]
fn attribute_map_replaces_on_insert() {
    let mut map = AttributeMap::new();
    assert!(map.is_empty());
    map.insert("k".to_string(), "1".to_string());
    map.insert("k".to_string(), "2".to_string());
    assert_eq!(map.get("k"), Some("2"));
    assert_eq!(map.get("missing"), None);
    let copy = map.duplicate();
    assert_eq!(copy.get("k"), Some("2"));
    assert!(!copy.is_empty());
}
