use aperture::backpressure::{in_flight_from, refusal_message, CapTransport, ConcurrencyLimiter};

#[test]
fn cap_transport_grpc_renders_as_grpc() {
    assert_eq!(CapTransport::Grpc.as_str(), "grpc");
}

#[test]
fn cap_transport_http_protobuf_renders_as_http_protobuf() {
    assert_eq!(CapTransport::HttpProtobuf.as_str(), "http_protobuf");
}

#[test]
fn refusal_message_for_grpc_names_the_cap_and_transport() {
    let s = refusal_message(CapTransport::Grpc, 4);
    assert!(s.contains("cap of 4"), "got: {s}");
    assert!(s.contains("transport=grpc"), "got: {s}");
}

#[test]
fn refusal_message_for_http_protobuf_names_the_cap_and_transport() {
    let s = refusal_message(CapTransport::HttpProtobuf, 4);
    assert!(s.contains("cap of 4"), "got: {s}");
    assert!(s.contains("transport=http_protobuf"), "got: {s}");
}

#[test]
fn limiter_with_cap_two_permits_first_two_acquires() {
    let limiter = ConcurrencyLimiter::new(2, CapTransport::Grpc);
    let _p1 = limiter.try_acquire().expect("first acquire");
    let _p2 = limiter.try_acquire().expect("second acquire");
}

#[test]
fn limiter_refuses_third_acquire_when_cap_is_two() {
    let limiter = ConcurrencyLimiter::new(2, CapTransport::Grpc);
    let _p1 = limiter.try_acquire().expect("first acquire");
    let _p2 = limiter.try_acquire().expect("second acquire");
    assert!(limiter.try_acquire().is_err());
}

#[test]
fn limiter_recovers_capacity_when_a_permit_is_dropped() {
    let limiter = ConcurrencyLimiter::new(1, CapTransport::Grpc);
    {
        let _p = limiter.try_acquire().expect("first acquire");
        assert!(limiter.try_acquire().is_err());
    }
    let _p = limiter.try_acquire().expect("acquire after drop");
}

#[test]
fn limiter_cap_reports_the_configured_value() {
    let limiter = ConcurrencyLimiter::new(7, CapTransport::HttpProtobuf);
    assert_eq!(limiter.cap(), 7);
}

#[test]
fn refusal_message_is_exact() {
    assert_eq!(
        refusal_message(CapTransport::Grpc, 4),
        "aperture: gRPC concurrency cap of 4 reached on transport=grpc"
    );
    assert_eq!(
        refusal_message(CapTransport::HttpProtobuf, 12),
        "aperture: HTTP concurrency cap of 12 reached on transport=http_protobuf"
    );
}

#[test]
fn refused_acquire_names_transport_cap_and_in_flight() {
    let limiter = ConcurrencyLimiter::new(1, CapTransport::HttpProtobuf);
    let _p = limiter.try_acquire().expect("first acquire");
    let refusal = limiter.try_acquire().err().expect("second acquire refused");
    assert_eq!(refusal.transport, CapTransport::HttpProtobuf);
    assert_eq!(refusal.cap, 1);
    assert_eq!(refusal.in_flight_at_refusal, 1);
}

#[test]
fn in_flight_counts_outstanding_permits() {
    let limiter = ConcurrencyLimiter::new(3, CapTransport::Grpc);
    assert_eq!(limiter.in_flight(), 0);
    let _p1 = limiter.try_acquire().expect("acquire");
    let _p2 = limiter.try_acquire().expect("acquire");
    assert_eq!(limiter.in_flight(), 2);
    assert_eq!(in_flight_from(3, 1), 2);
    assert_eq!(in_flight_from(3, 5), 0);
}

#[test]
fn shared_limiters_count_the_same_permits() {
    let limiter = ConcurrencyLimiter::new(1, CapTransport::Grpc);
    let other = limiter.share();
    let _p = limiter.try_acquire().expect("acquire");
    assert!(other.try_acquire().is_err());
    assert_eq!(other.cap(), 1);
    assert_eq!(other.transport(), CapTransport::Grpc);
}
