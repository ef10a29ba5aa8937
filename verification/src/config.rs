//! Aperture configuration: the typed builder with its defaults, and the
//! validation that folds a parsed TOML schema into a [`Config`].
//!
//! Durations are held in milliseconds. Validation refuses, in this order:
//! an unknown sink kind, a requested security knob that v0 does not
//! implement, an absent/incomplete/unreadable ingest-auth block, and two
//! identical pinned bind addresses.

use vstd::prelude::*;
use crate::net::{addr_text, BindAddr};

verus! {

/// Which sink the composition root wires up.
#[derive(Debug, Clone, Copy, PartialEq, Eq, Structural)]
pub enum SinkKind {
    Stub,
    Forwarding,
}

/// The HS256 ingest-auth configuration: the exact-match issuer and
/// audience, and the paths of the secret and of the tenant catalogue.
#[derive(Debug, Clone)]
pub struct JwtAuthConfig {
    pub issuer: String,
    pub audience: String,
    pub secret_file: String,
    pub catalogue_path: String,
}

impl JwtAuthConfig {
    /// The exact-match JWT `iss` claim.
    pub fn issuer(&self) -> (s: &str)
        ensures
            s@ == self.issuer@,
    {
        self.issuer.as_str()
    }

    /// The exact-match JWT `aud` claim.
    pub fn audience(&self) -> (s: &str)
        ensures
            s@ == self.audience@,
    {
        self.audience.as_str()
    }

    /// The path of the HS256 secret.
    pub fn secret_file(&self) -> (s: &str)
        ensures
            s@ == self.secret_file@,
    {
        self.secret_file.as_str()
    }

    /// The path of the tenant catalogue.
    pub fn catalogue_path(&self) -> (s: &str)
        ensures
            s@ == self.catalogue_path@,
    {
        self.catalogue_path.as_str()
    }
}

/// A configuration error, as text.
#[derive(Debug)]
pub struct ConfigError(pub String);

impl ConfigError {
    /// The error's text.
    pub fn message(&self) -> (s: &str)
        ensures
            s@ == self.0@,
    {
        self.0.as_str()
    }
}

/// Every setting a configuration carries.
#[derive(Debug, Clone)]
pub struct ConfigValues {
    pub grpc_bind_addr: BindAddr,
    pub http_bind_addr: BindAddr,
    pub sink_kind: SinkKind,
    pub forwarding_endpoint: String,
    pub forwarding_timeout_ms: u64,
    pub max_concurrent_requests: u32,
    pub max_recv_msg_size: Option<u32>,
    pub drain_deadline_ms: u64,
    pub tls_enabled: bool,
    pub spiffe_enabled: bool,
    pub jwt_auth: Option<JwtAuthConfig>,
}

/// Default gRPC bind address: `0.0.0.0:4317`.
pub open spec fn default_grpc_addr() -> BindAddr {
    BindAddr::V4 { ip: 0, port: 4317 }
}

/// Default HTTP bind address: `0.0.0.0:4318`.
pub open spec fn default_http_addr() -> BindAddr {
    BindAddr::V4 { ip: 0, port: 4318 }
}

/// The design defaults: stub sink, 5 s forwarding timeout, a cap of 1024
/// concurrent requests per transport, no body cap, a 30 s drain deadline,
/// TLS and SPIFFE off, no ingest auth.
pub open spec fn is_default(v: ConfigValues) -> bool {
    &&& v.grpc_bind_addr == default_grpc_addr()
    &&& v.http_bind_addr == default_http_addr()
    &&& v.sink_kind == SinkKind::Stub
    &&& v.forwarding_endpoint@ == Seq::<char>::empty()
    &&& v.forwarding_timeout_ms == 5000
    &&& v.max_concurrent_requests == 1024
    &&& v.max_recv_msg_size is None
    &&& v.drain_deadline_ms == 30000
    &&& !v.tls_enabled
    &&& !v.spiffe_enabled
    &&& v.jwt_auth is None
}

/// Two bind addresses that cannot both be bound: equal, with a pinned
/// (non-zero) port. Port 0 asks the OS for distinct ephemeral ports.
pub open spec fn addrs_conflict(grpc: BindAddr, http: BindAddr) -> bool {
    grpc.port_spec() != 0 && grpc == http
}

impl BindAddr {
    /// The port, in specifications.
    pub open spec fn port_spec(self) -> u16 {
        match self {
            BindAddr::V4 { port, .. } => port,
            BindAddr::V6 { port, .. } => port,
        }
    }
}

/// The refusal for conflicting bind addresses.
pub open spec fn conflict_text(addr: BindAddr) -> Seq<char> {
    "grpc and http bind addresses must differ; both set to "@ + addr_text(addr)
}

/// A validated configuration.
#[derive(Debug)]
pub struct Config {
    values: ConfigValues,
}

impl Config {
    /// The settings.
    pub closed spec fn values(&self) -> ConfigValues {
        self.values
    }

    #[verifier::type_invariant]
    closed spec fn bind_addrs_compatible(&self) -> bool {
        !addrs_conflict(self.values.grpc_bind_addr, self.values.http_bind_addr)
    }

    /// A builder pre-loaded with the defaults.
    pub fn builder() -> (b: ConfigBuilder)
        ensures
            is_default(b.values()),
    {
        ConfigBuilder::new()
    }

    pub fn grpc_bind_addr(&self) -> (a: BindAddr)
        ensures
            a == self.values().grpc_bind_addr,
    {
        self.values.grpc_bind_addr
    }

    /// The HTTP bind address, which never conflicts with the gRPC one.
    pub fn http_bind_addr(&self) -> (a: BindAddr)
        ensures
            a == self.values().http_bind_addr,
            !addrs_conflict(self.values().grpc_bind_addr, a),
    {
        proof {
            use_type_invariant(self);
        }
        self.values.http_bind_addr
    }

    pub fn sink_kind(&self) -> (k: SinkKind)
        ensures
            k == self.values().sink_kind,
    {
        self.values.sink_kind
    }

    /// The forwarding sink's downstream endpoint; empty for the stub sink.
    pub fn forwarding_endpoint(&self) -> (s: &str)
        ensures
            s@ == self.values().forwarding_endpoint@,
    {
        self.values.forwarding_endpoint.as_str()
    }

    /// The forwarding sink's per-request timeout, in milliseconds.
    pub fn forwarding_timeout_ms(&self) -> (ms: u64)
        ensures
            ms == self.values().forwarding_timeout_ms,
    {
        self.values.forwarding_timeout_ms
    }

    /// The per-transport concurrency cap.
    pub fn max_concurrent_requests(&self) -> (n: u32)
        ensures
            n == self.values().max_concurrent_requests,
    {
        self.values.max_concurrent_requests
    }

    /// The receive-body-size cap, if any.
    pub fn max_recv_msg_size(&self) -> (n: Option<u32>)
        ensures
            n == self.values().max_recv_msg_size,
    {
        self.values.max_recv_msg_size
    }

    /// The drain deadline, in milliseconds.
    pub fn drain_deadline_ms(&self) -> (ms: u64)
        ensures
            ms == self.values().drain_deadline_ms,
    {
        self.values.drain_deadline_ms
    }

    pub fn tls_enabled(&self) -> (b: bool)
        ensures
            b == self.values().tls_enabled,
    {
        self.values.tls_enabled
    }

    pub fn spiffe_enabled(&self) -> (b: bool)
        ensures
            b == self.values().spiffe_enabled,
    {
        self.values.spiffe_enabled
    }

    /// The ingest-auth configuration, if any.
    pub fn jwt_auth(&self) -> (j: Option<&JwtAuthConfig>)
        ensures
            j == match self.values().jwt_auth {
                Some(a) => Some(&a),
                None => None,
            },
    {
        match &self.values.jwt_auth {
            Some(a) => Some(a),
            None => None,
        }
    }
}

/// Builder for [`Config`].
#[derive(Debug, Clone)]
pub struct ConfigBuilder {
    values: ConfigValues,
}

impl ConfigBuilder {
    /// The settings so far.
    pub closed spec fn values(&self) -> ConfigValues {
        self.values
    }

    /// A builder pre-loaded with the defaults.
    pub fn new() -> (b: ConfigBuilder)
        ensures
            is_default(b.values()),
    {
        ConfigBuilder {
            values: ConfigValues {
                grpc_bind_addr: BindAddr::V4 { ip: 0, port: 4317 },
                http_bind_addr: BindAddr::V4 { ip: 0, port: 4318 },
                sink_kind: SinkKind::Stub,
                forwarding_endpoint: String::new(),
                forwarding_timeout_ms: 5000,
                max_concurrent_requests: 1024,
                max_recv_msg_size: None,
                drain_deadline_ms: 30000,
                tls_enabled: false,
                spiffe_enabled: false,
                jwt_auth: None,
            },
        }
    }

    /// Pin the gRPC bind address.
    pub fn grpc_bind_addr(self, addr: BindAddr) -> (b: ConfigBuilder)
        ensures
            b.values() == (ConfigValues { grpc_bind_addr: addr, ..self.values() }),
    {
        let mut values = self.values;
        values.grpc_bind_addr = addr;
        ConfigBuilder { values }
    }

    /// Pin the HTTP bind address.
    pub fn http_bind_addr(self, addr: BindAddr) -> (b: ConfigBuilder)
        ensures
            b.values() == (ConfigValues { http_bind_addr: addr, ..self.values() }),
    {
        let mut values = self.values;
        values.http_bind_addr = addr;
        ConfigBuilder { values }
    }

    /// Pin the per-transport concurrency cap.
    pub fn max_concurrent_requests(self, cap: u32) -> (b: ConfigBuilder)
        ensures
            b.values() == (ConfigValues { max_concurrent_requests: cap, ..self.values() }),
    {
        let mut values = self.values;
        values.max_concurrent_requests = cap;
        ConfigBuilder { values }
    }

    /// Pin the receive-body-size cap (inclusive maximum body size).
    pub fn max_recv_msg_size(self, limit: u32) -> (b: ConfigBuilder)
        ensures
            b.values() == (ConfigValues { max_recv_msg_size: Some(limit), ..self.values() }),
    {
        let mut values = self.values;
        values.max_recv_msg_size = Some(limit);
        ConfigBuilder { values }
    }

    /// Pin the drain deadline, in milliseconds.
    pub fn drain_deadline(self, deadline_ms: u64) -> (b: ConfigBuilder)
        ensures
            b.values() == (ConfigValues { drain_deadline_ms: deadline_ms, ..self.values() }),
    {
        let mut values = self.values;
        values.drain_deadline_ms = deadline_ms;
        ConfigBuilder { values }
    }

    /// Select the forwarding sink and pin its downstream endpoint.
    pub fn forwarding_sink(self, endpoint: String) -> (b: ConfigBuilder)
        ensures
            b.values() == (ConfigValues {
                sink_kind: SinkKind::Forwarding,
                forwarding_endpoint: endpoint,
                ..self.values()
            }),
    {
        let mut values = self.values;
        values.sink_kind = SinkKind::Forwarding;
        values.forwarding_endpoint = endpoint;
        ConfigBuilder { values }
    }

    /// Pin the forwarding sink's request timeout, in milliseconds.
    pub fn forwarding_timeout(self, timeout_ms: u64) -> (b: ConfigBuilder)
        ensures
            b.values() == (ConfigValues { forwarding_timeout_ms: timeout_ms, ..self.values() }),
    {
        let mut values = self.values;
        values.forwarding_timeout_ms = timeout_ms;
        ConfigBuilder { values }
    }

    /// Set the `tls.enabled` knob.
    pub fn tls_enabled(self, enabled: bool) -> (b: ConfigBuilder)
        ensures
            b.values() == (ConfigValues { tls_enabled: enabled, ..self.values() }),
    {
        let mut values = self.values;
        values.tls_enabled = enabled;
        ConfigBuilder { values }
    }

    /// Set the `auth.spiffe.enabled` knob.
    pub fn spiffe_enabled(self, enabled: bool) -> (b: ConfigBuilder)
        ensures
            b.values() == (ConfigValues { spiffe_enabled: enabled, ..self.values() }),
    {
        let mut values = self.values;
        values.spiffe_enabled = enabled;
        ConfigBuilder { values }
    }

    /// Configure HS256 ingest authentication.
    pub fn jwt_auth(self, issuer: String, audience: String, secret_file: String, catalogue_path: String) -> (b:
        ConfigBuilder)
        ensures
            b.values() == (ConfigValues {
                jwt_auth: Some(JwtAuthConfig { issuer, audience, secret_file, catalogue_path }),
                ..self.values()
            }),
    {
        self.jwt_auth_config(JwtAuthConfig { issuer, audience, secret_file, catalogue_path })
    }

    /// Set a fully formed ingest-auth configuration.
    pub fn jwt_auth_config(self, jwt_auth: JwtAuthConfig) -> (b: ConfigBuilder)
        ensures
            b.values() == (ConfigValues { jwt_auth: Some(jwt_auth), ..self.values() }),
    {
        let mut values = self.values;
        values.jwt_auth = Some(jwt_auth);
        ConfigBuilder { values }
    }

    /// Build the configuration: refused only when both bind addresses are
    /// the same pinned address; otherwise every setting carries over.
    pub fn build(self) -> (r: Result<Config, ConfigError>)
        ensures
            match r {
                Ok(c) => !addrs_conflict(self.values().grpc_bind_addr, self.values().http_bind_addr)
                    && c.values() == self.values(),
                Err(e) => addrs_conflict(self.values().grpc_bind_addr, self.values().http_bind_addr)
                    && e.0@ == conflict_text(self.values().grpc_bind_addr),
            },
    {
        let grpc = self.values.grpc_bind_addr;
        if grpc.port() != 0 && grpc == self.values.http_bind_addr {
            let mut message = String::from_str("grpc and http bind addresses must differ; both set to ");
            let text = grpc.to_text();
            message.append(text.as_str());
            return Err(ConfigError(message));
        }
        Ok(Config { values: self.values })
    }
}

/// An OS-assigned (port 0) gRPC address never conflicts with the HTTP one,
/// even when the two are written identically.
pub proof fn lemma_ephemeral_grpc_port_never_conflicts(grpc: BindAddr, http: BindAddr)
    requires
        grpc.port_spec() == 0,
    ensures
        !addrs_conflict(grpc, http),
{
}

/// Conflict is sameness of a pinned address, in every address family: an
/// address with a non-zero port conflicts with itself, whether IPv4 or
/// IPv6, and two different addresses never conflict.
pub proof fn lemma_conflict_is_same_pinned_address(grpc: BindAddr, http: BindAddr)
    ensures
        grpc.port_spec() != 0 ==> addrs_conflict(grpc, grpc),
        grpc != http ==> !addrs_conflict(grpc, http),
        (grpc is V6 && grpc.port_spec() != 0 && grpc == http) ==> addrs_conflict(grpc, http),
        (grpc is V4 && grpc.port_spec() != 0 && grpc == http) ==> addrs_conflict(grpc, http),
{
}

} // verus!
