use aperture::config::{Config, SinkKind};
use aperture::config_schema::{
    require_field, unimplemented_security_knob_reason, unknown_sink_kind_message,
    validate_jwt_auth, JwtFileChecks, RawConfig, RawJwt,
};
use aperture::net::BindAddr;

fn loopback(port: u16) -> BindAddr {
    BindAddr::v4(127, 0, 0, 1, port)
}

fn jwt_block() -> RawJwt {
    RawJwt {
        issuer: Some("acme-observability".to_string()),
        audience: Some("kaleidoscope-ingest".to_string()),
        secret_file: Some("/run/secrets/hs256.key".to_string()),
        catalogue_path: Some("/etc/aperture/tenants.toml".to_string()),
    }
}

fn all_readable() -> JwtFileChecks {
    JwtFileChecks { secret_file: Ok(()), catalogue: Ok(()) }
}

fn raw(grpc: BindAddr, http: BindAddr) -> RawConfig {
    RawConfig {
        grpc_bind_addr: grpc,
        http_bind_addr: http,
        grpc_max_concurrent_requests: None,
        sink_kind: None,
        forwarding_endpoint: None,
        forwarding_timeout_ms: None,
        drain_deadline_ms: None,
        tls_enabled: false,
        spiffe_enabled: false,
        jwt: Some(jwt_block()),
    }
}

#[test]
fn build_accepts_two_ephemeral_addresses_with_port_zero() {
    let cfg = Config::builder().grpc_bind_addr(loopback(0)).http_bind_addr(loopback(0)).build();
    assert!(cfg.is_ok(), "two `127.0.0.1:0` must build OK: {cfg:?}");
}

#[test]
fn build_rejects_identical_addresses() {
    let cfg = Config::builder().grpc_bind_addr(loopback(4317)).http_bind_addr(loopback(4317)).build();
    assert!(cfg.is_err());
}

#[test]
fn build_accepts_distinct_addresses() {
    let cfg = Config::builder().grpc_bind_addr(loopback(4317)).http_bind_addr(loopback(4318)).build();
    assert!(cfg.is_ok());
}

#[test]
fn build_accepts_when_only_grpc_port_is_ephemeral() {
    let cfg = Config::builder().grpc_bind_addr(loopback(0)).http_bind_addr(loopback(4318)).build();
    assert!(cfg.is_ok());
}

#[test]
fn build_accepts_when_only_http_port_is_ephemeral() {
    let cfg = Config::builder().grpc_bind_addr(loopback(4317)).http_bind_addr(loopback(0)).build();
    assert!(cfg.is_ok());
}

#[test]
fn max_concurrent_requests_setter_round_trips_to_built_config() {
    let cfg = Config::builder()
        .grpc_bind_addr(loopback(0))
        .http_bind_addr(loopback(0))
        .max_concurrent_requests(7)
        .build()
        .expect("config builds");
    assert_eq!(cfg.max_concurrent_requests(), 7);
}

#[test]
fn drain_deadline_setter_round_trips_to_built_config() {
    let cfg = Config::builder()
        .grpc_bind_addr(loopback(0))
        .http_bind_addr(loopback(0))
        .drain_deadline(7777)
        .build()
        .expect("config builds");
    assert_eq!(cfg.drain_deadline_ms(), 7777);
}

#[test]
fn default_drain_deadline_is_thirty_seconds() {
    let cfg = Config::builder()
        .grpc_bind_addr(loopback(0))
        .http_bind_addr(loopback(0))
        .build()
        .expect("config builds");
    assert_eq!(cfg.drain_deadline_ms(), 30_000);
}

#[test]
fn default_max_concurrent_requests_is_one_thousand_twenty_four() {
    let cfg = Config::builder()
        .grpc_bind_addr(loopback(0))
        .http_bind_addr(loopback(0))
        .build()
        .expect("config builds");
    assert_eq!(cfg.max_concurrent_requests(), 1024);
}

#[test]
fn builder_defaults_match_the_design() {
    let cfg = Config::builder().build().expect("defaults build");
    assert_eq!(cfg.grpc_bind_addr().to_text(), "0.0.0.0:4317");
    assert_eq!(cfg.http_bind_addr().to_text(), "0.0.0.0:4318");
    assert_eq!(cfg.sink_kind(), SinkKind::Stub);
    assert_eq!(cfg.forwarding_endpoint(), "");
    assert_eq!(cfg.forwarding_timeout_ms(), 5000);
    assert_eq!(cfg.max_recv_msg_size(), None);
    assert!(!cfg.tls_enabled());
    assert!(!cfg.spiffe_enabled());
    assert!(cfg.jwt_auth().is_none());
}

#[test]
fn identical_addresses_refusal_names_the_address() {
    let err = Config::builder()
        .grpc_bind_addr(loopback(4317))
        .http_bind_addr(loopback(4317))
        .build()
        .err()
        .expect("refused");
    assert_eq!(err.message(), "grpc and http bind addresses must differ; both set to 127.0.0.1:4317");
}

#[test]
fn setters_carry_over_to_the_built_config() {
    let cfg = Config::builder()
        .grpc_bind_addr(loopback(0))
        .http_bind_addr(loopback(0))
        .forwarding_sink("http://downstream:4318".to_string())
        .forwarding_timeout(1500)
        .max_recv_msg_size(4096)
        .jwt_auth(
            "iss".to_string(),
            "aud".to_string(),
            "/k".to_string(),
            "/c".to_string(),
        )
        .build()
        .expect("builds");
    assert_eq!(cfg.sink_kind(), SinkKind::Forwarding);
    assert_eq!(cfg.forwarding_endpoint(), "http://downstream:4318");
    assert_eq!(cfg.forwarding_timeout_ms(), 1500);
    assert_eq!(cfg.max_recv_msg_size(), Some(4096));
    let jwt = cfg.jwt_auth().expect("jwt set");
    assert_eq!(
        (jwt.issuer(), jwt.audience(), jwt.secret_file(), jwt.catalogue_path()),
        ("iss", "aud", "/k", "/c")
    );
}

#[test]
fn into_config_applies_defaults_and_overrides() {
    let mut r = raw(loopback(0), loopback(0));
    r.grpc_max_concurrent_requests = Some(42);
    r.drain_deadline_ms = Some(1234);
    let cfg = r.into_config(&all_readable()).expect("valid config");
    assert_eq!(cfg.max_concurrent_requests(), 42);
    assert_eq!(cfg.drain_deadline_ms(), 1234);
    assert_eq!(cfg.sink_kind(), SinkKind::Stub);
    assert_eq!(cfg.jwt_auth().expect("auth").issuer(), "acme-observability");
}

#[test]
fn into_config_selects_the_forwarding_sink() {
    let mut r = raw(loopback(0), loopback(0));
    r.sink_kind = Some("forwarding".to_string());
    r.forwarding_endpoint = Some("http://downstream:4318".to_string());
    r.forwarding_timeout_ms = Some(900);
    let cfg = r.into_config(&all_readable()).expect("valid config");
    assert_eq!(cfg.sink_kind(), SinkKind::Forwarding);
    assert_eq!(cfg.forwarding_endpoint(), "http://downstream:4318");
    assert_eq!(cfg.forwarding_timeout_ms(), 900);

    let mut stub = raw(loopback(0), loopback(0));
    stub.sink_kind = Some("stub".to_string());
    stub.forwarding_endpoint = Some("http://ignored".to_string());
    let cfg = stub.into_config(&all_readable()).expect("valid config");
    assert_eq!(cfg.sink_kind(), SinkKind::Stub);
    assert_eq!(cfg.forwarding_endpoint(), "");
}

#[test]
fn into_config_refuses_an_unknown_sink_kind() {
    let mut r = raw(loopback(0), loopback(0));
    r.sink_kind = Some("kafka".to_string());
    let err = r.into_config(&all_readable()).err().expect("refused");
    assert_eq!(err.message(), "unknown sink kind \"kafka\"; expected \"stub\" or \"forwarding\"");
    assert_eq!(unknown_sink_kind_message("\"x\""), "unknown sink kind \"x\"; expected \"stub\" or \"forwarding\"");
}

#[test]
fn into_config_refuses_unimplemented_security_knobs() {
    let mut r = raw(loopback(0), loopback(0));
    r.tls_enabled = true;
    let err = r.into_config(&all_readable()).err().expect("refused");
    assert!(err.message().contains("tls.enabled=true is not implemented in v0"));
    assert_eq!(unimplemented_security_knob_reason(false, false), None);
    assert_eq!(
        unimplemented_security_knob_reason(false, true),
        Some("aperture v0 implements neither transport encryption nor SPIFFE auth; refusing to start: auth.spiffe.enabled=true is not implemented in v0".to_string())
    );
    let both = unimplemented_security_knob_reason(true, true).expect("both named");
    assert!(both.contains("tls.enabled=true and auth.spiffe.enabled=true"));
}

#[test]
fn into_config_refuses_a_missing_or_incomplete_auth_block() {
    let mut absent = raw(loopback(0), loopback(0));
    absent.jwt = None;
    let err = absent.into_config(&all_readable()).err().expect("refused");
    assert!(err.message().starts_with("missing [aperture.security.auth.jwt] block"));

    let mut incomplete = raw(loopback(0), loopback(0));
    let mut block = jwt_block();
    block.audience = None;
    incomplete.jwt = Some(block);
    let err = incomplete.into_config(&all_readable()).err().expect("refused");
    assert_eq!(err.message(), "[aperture.security.auth.jwt] is missing the required field audience");
}

#[test]
fn into_config_refuses_unreadable_auth_files_naming_the_path() {
    let r = raw(loopback(0), loopback(0));
    let checks = JwtFileChecks {
        secret_file: Err("entity not found".to_string()),
        catalogue: Err("bad catalogue".to_string()),
    };
    let err = r.into_config(&checks).err().expect("refused");
    assert_eq!(err.message(), "secret_file /run/secrets/hs256.key is unreadable: entity not found");

    let r = raw(loopback(0), loopback(0));
    let checks = JwtFileChecks { secret_file: Ok(()), catalogue: Err("bad catalogue".to_string()) };
    let err = r.into_config(&checks).err().expect("refused");
    assert_eq!(err.message(), "catalogue_path /etc/aperture/tenants.toml could not be loaded: bad catalogue");
}

#[test]
fn into_config_checks_bind_addresses_last() {
    let mut r = raw(loopback(4317), loopback(4317));
    r.sink_kind = Some("kafka".to_string());
    let err = r.into_config(&all_readable()).err().expect("refused");
    assert!(err.message().starts_with("unknown sink kind"));
    let r = raw(loopback(4317), loopback(4317));
    let err = r.into_config(&all_readable()).err().expect("refused");
    assert!(err.message().starts_with("grpc and http bind addresses must differ"));
}

#[test]
fn require_field_names_the_missing_field() {
    assert_eq!(require_field(Some("v".to_string()), "issuer").ok(), Some("v".to_string()));
    assert_eq!(
        require_field(None, "issuer").err().expect("missing").message(),
        "[aperture.security.auth.jwt] is missing the required field issuer"
    );
    assert!(validate_jwt_auth(Some(jwt_block()), &all_readable()).is_ok());
}

#[test]
fn ingest_auth_files_are_consulted_only_after_the_earlier_checks_pass() {
    let mut r = raw(loopback(4317), loopback(4318));
    assert!(r.needs_file_checks());
    r.tls_enabled = true;
    assert!(!r.needs_file_checks());
    let mut r = raw(loopback(4317), loopback(4318));
    r.sink_kind = Some("kafka".to_string());
    assert!(!r.needs_file_checks());
    let mut r = raw(loopback(4317), loopback(4318));
    r.jwt.as_mut().unwrap().catalogue_path = None;
    assert!(!r.needs_file_checks());
    let mut r = raw(loopback(4317), loopback(4318));
    r.jwt = None;
    assert!(!r.needs_file_checks());
}
