//! Validation of the parsed TOML configuration schema.
//!
//! [`RawConfig`] holds what the `[aperture]` table says (every optional key
//! as an `Option`); [`RawConfig::into_config`] folds it into a [`Config`]
//! through the builder, refusing to start on an unknown sink kind, on a
//! security knob v0 does not implement, on an absent, incomplete or
//! unreadable ingest-auth block, and on identical pinned bind addresses.

use vstd::prelude::*;
use crate::config::{
    addrs_conflict, conflict_text, Config, ConfigError, ConfigValues, JwtAuthConfig, SinkKind,
};
use crate::net::BindAddr;
use crate::text::{opt_view, str_eq};

verus! {

/// The `[aperture.security.auth.jwt]` table as parsed.
#[derive(Debug, Clone)]
pub struct RawJwt {
    pub issuer: Option<String>,
    pub audience: Option<String>,
    pub secret_file: Option<String>,
    pub catalogue_path: Option<String>,
}

/// The `[aperture]` table as parsed, reduced to the keys validation reads.
#[derive(Debug, Clone)]
pub struct RawConfig {
    pub grpc_bind_addr: BindAddr,
    pub http_bind_addr: BindAddr,
    pub grpc_max_concurrent_requests: Option<u32>,
    pub sink_kind: Option<String>,
    pub forwarding_endpoint: Option<String>,
    pub forwarding_timeout_ms: Option<u64>,
    pub drain_deadline_ms: Option<u64>,
    pub tls_enabled: bool,
    pub spiffe_enabled: bool,
    pub jwt: Option<RawJwt>,
}

/// What checking the files an ingest-auth block names came to: `Ok`, or the
/// reason (the I/O error kind for the secret, the load error for the
/// catalogue).
#[derive(Debug)]
pub struct JwtFileChecks {
    pub secret_file: Result<(), String>,
    pub catalogue: Result<(), String>,
}

/// The `Debug` text of a string: quoted and escaped.
pub uninterp spec fn str_debug(s: Seq<char>) -> Seq<char>;

/// `<str as Debug>::fmt`, via `format!("{:?}")`: the string in double
/// quotes with `"`, `\` and non-printable characters escaped. Claimed:
/// the result is `str_debug` of the text, a function of the text alone.
#[verifier::external_body]
fn debug_quoted(s: &str) -> (r: String)
    ensures
        r@ == str_debug(s@),
{
    format!("{:?}", s)
}

/// The refusal for an unknown sink kind, given the kind's quoted text.
pub open spec fn unknown_sink_kind_text(quoted: Seq<char>) -> Seq<char> {
    "unknown sink kind "@ + quoted + "; expected \"stub\" or \"forwarding\""@
}

/// The refusal for an unknown sink kind, given its quoted text.
pub fn unknown_sink_kind_message(quoted: &str) -> (m: String)
    ensures
        m@ == unknown_sink_kind_text(quoted@),
{
    let mut m = String::from_str("unknown sink kind ");
    m.append(quoted);
    m.append("; expected \"stub\" or \"forwarding\"");
    m
}

/// A sink kind other than `stub` and `forwarding`.
pub open spec fn sink_kind_refused(kind: Option<Seq<char>>) -> bool {
    kind matches Some(k) && k != "stub"@ && k != "forwarding"@
}

/// The opening of the refusal for an unimplemented security knob.
pub open spec fn knob_prefix() -> Seq<char> {
    "aperture v0 implements neither transport encryption nor SPIFFE auth; refusing to start:"@
}

/// The refusal when a security knob v0 does not implement is requested,
/// naming each requested knob; `None` when both are off.
pub open spec fn security_reason_spec(tls_enabled: bool, spiffe_enabled: bool) -> Option<Seq<char>> {
    if tls_enabled && spiffe_enabled {
        Some(knob_prefix() + " tls.enabled=true and auth.spiffe.enabled=true are not implemented in v0"@)
    } else if tls_enabled {
        Some(knob_prefix() + " tls.enabled=true is not implemented in v0"@)
    } else if spiffe_enabled {
        Some(knob_prefix() + " auth.spiffe.enabled=true is not implemented in v0"@)
    } else {
        None
    }
}

/// The refusal when `tls.enabled` or `auth.spiffe.enabled` is requested
/// (v0 implements neither), or `None` when both are off.
pub fn unimplemented_security_knob_reason(tls_enabled: bool, spiffe_enabled: bool) -> (r: Option<String>)
    ensures
        opt_view(r) == security_reason_spec(tls_enabled, spiffe_enabled),
{
    let mut reason = String::from_str(
        "aperture v0 implements neither transport encryption nor SPIFFE auth; refusing to start:",
    );
    if tls_enabled && spiffe_enabled {
        reason.append(" tls.enabled=true and auth.spiffe.enabled=true are not implemented in v0");
    } else if tls_enabled {
        reason.append(" tls.enabled=true is not implemented in v0");
    } else if spiffe_enabled {
        reason.append(" auth.spiffe.enabled=true is not implemented in v0");
    } else {
        return None;
    }
    Some(reason)
}

/// The refusal for an absent ingest-auth block.
pub open spec fn missing_jwt_text() -> Seq<char> {
    "missing [aperture.security.auth.jwt] block: ingest auth is mandatory (no off switch); configure issuer/audience/secret_file/catalogue_path"@
}

/// The refusal for a missing ingest-auth field.
pub open spec fn missing_field_text(name: Seq<char>) -> Seq<char> {
    "[aperture.security.auth.jwt] is missing the required field "@ + name
}

/// Require an ingest-auth field, or refuse naming it.
pub fn require_field(value: Option<String>, name: &str) -> (r: Result<String, ConfigError>)
    ensures
        match value {
            Some(v) => r matches Ok(s) && s@ == v@,
            None => r matches Err(e) && e.0@ == missing_field_text(name@),
        },
{
    match value {
        Some(v) => Ok(v),
        None => {
            let mut m = String::from_str("[aperture.security.auth.jwt] is missing the required field ");
            m.append(name);
            Err(ConfigError(m))
        },
    }
}

/// The refusal for an unreadable secret, naming its path and the error kind.
pub open spec fn unreadable_secret_text(path: Seq<char>, kind: Seq<char>) -> Seq<char> {
    "secret_file "@ + path + " is unreadable: "@ + kind
}

/// The refusal for an unloadable catalogue, naming its path and the error.
pub open spec fn unloadable_catalogue_text(path: Seq<char>, error: Seq<char>) -> Seq<char> {
    "catalogue_path "@ + path + " could not be loaded: "@ + error
}

/// The first refusal an ingest-auth block earns, if any: an absent block,
/// then each missing field in order, then an unreadable secret, then an
/// unloadable catalogue.
pub open spec fn jwt_error_spec(jwt: Option<RawJwt>, checks: JwtFileChecks) -> Option<Seq<char>> {
    match jwt {
        None => Some(missing_jwt_text()),
        Some(j) => if j.issuer is None {
            Some(missing_field_text("issuer"@))
        } else if j.audience is None {
            Some(missing_field_text("audience"@))
        } else if j.secret_file is None {
            Some(missing_field_text("secret_file"@))
        } else if j.catalogue_path is None {
            Some(missing_field_text("catalogue_path"@))
        } else {
            match checks.secret_file {
                Err(kind) => Some(unreadable_secret_text(j.secret_file->0@, kind@)),
                Ok(()) => match checks.catalogue {
                    Err(e) => Some(unloadable_catalogue_text(j.catalogue_path->0@, e@)),
                    Ok(()) => None,
                },
            }
        },
    }
}

/// The ingest-auth configuration a complete block yields.
pub open spec fn jwt_config_matches(j: RawJwt, a: JwtAuthConfig) -> bool {
    &&& opt_view(j.issuer) == Some(a.issuer@)
    &&& opt_view(j.audience) == Some(a.audience@)
    &&& opt_view(j.secret_file) == Some(a.secret_file@)
    &&& opt_view(j.catalogue_path) == Some(a.catalogue_path@)
}

/// Validate the ingest-auth block against the outcome of checking the files
/// it names: the first refusal, or the configuration it describes.
pub fn validate_jwt_auth(jwt: Option<RawJwt>, checks: &JwtFileChecks) -> (r: Result<
    JwtAuthConfig,
    ConfigError,
>)
    ensures
        match r {
            Ok(a) => jwt_error_spec(jwt, *checks) is None && (jwt matches Some(j)
                && jwt_config_matches(j, a)),
            Err(e) => jwt_error_spec(jwt, *checks) == Some(e.0@),
        },
{
    let j = match jwt {
        Some(j) => j,
        None => {
            return Err(
                ConfigError(
                    String::from_str(
                        "missing [aperture.security.auth.jwt] block: ingest auth is mandatory (no off switch); configure issuer/audience/secret_file/catalogue_path",
                    ),
                ),
            );
        },
    };
    let ghost j0 = j;
    proof {
        reveal_strlit("issuer");
        reveal_strlit("audience");
        reveal_strlit("secret_file");
        reveal_strlit("catalogue_path");
    }
    let issuer = match require_field(j.issuer, "issuer") {
        Ok(v) => v,
        Err(e) => return Err(e),
    };
    let audience = match require_field(j.audience, "audience") {
        Ok(v) => v,
        Err(e) => return Err(e),
    };
    let secret_file = match require_field(j.secret_file, "secret_file") {
        Ok(v) => v,
        Err(e) => return Err(e),
    };
    let catalogue_path = match require_field(j.catalogue_path, "catalogue_path") {
        Ok(v) => v,
        Err(e) => return Err(e),
    };
    match &checks.secret_file {
        Err(kind) => {
            let mut m = String::from_str("secret_file ");
            m.append(secret_file.as_str());
            m.append(" is unreadable: ");
            m.append(kind.as_str());
            return Err(ConfigError(m));
        },
        Ok(()) => {},
    }
    match &checks.catalogue {
        Err(e) => {
            let mut m = String::from_str("catalogue_path ");
            m.append(catalogue_path.as_str());
            m.append(" could not be loaded: ");
            m.append(e.as_str());
            return Err(ConfigError(m));
        },
        Ok(()) => {},
    }
    Ok(JwtAuthConfig { issuer, audience, secret_file, catalogue_path })
}

/// The first refusal a parsed configuration earns, if any.
pub open spec fn into_config_error(raw: RawConfig, checks: JwtFileChecks) -> Option<Seq<char>> {
    if sink_kind_refused(opt_view(raw.sink_kind)) {
        Some(unknown_sink_kind_text(str_debug(raw.sink_kind->0@)))
    } else if security_reason_spec(raw.tls_enabled, raw.spiffe_enabled) is Some {
        security_reason_spec(raw.tls_enabled, raw.spiffe_enabled)
    } else if jwt_error_spec(raw.jwt, checks) is Some {
        jwt_error_spec(raw.jwt, checks)
    } else if addrs_conflict(raw.grpc_bind_addr, raw.http_bind_addr) {
        Some(conflict_text(raw.grpc_bind_addr))
    } else {
        None
    }
}

/// The settings an accepted parsed configuration yields: its bind
/// addresses; the gRPC concurrency cap when given, else 1024; the
/// forwarding sink with its endpoint (empty when absent) and timeout (5 s
/// when absent) for `kind = "forwarding"`, else the stub sink; the drain
/// deadline when given, else 30 s; no body cap; TLS and SPIFFE off; and
/// the ingest-auth block.
pub open spec fn values_from_raw(raw: RawConfig, v: ConfigValues) -> bool {
    let forwarding = opt_view(raw.sink_kind) == Some("forwarding"@);
    &&& v.grpc_bind_addr == raw.grpc_bind_addr
    &&& v.http_bind_addr == raw.http_bind_addr
    &&& v.max_concurrent_requests == match raw.grpc_max_concurrent_requests {
        Some(n) => n,
        None => 1024,
    }
    &&& v.sink_kind == if forwarding {
        SinkKind::Forwarding
    } else {
        SinkKind::Stub
    }
    &&& v.forwarding_endpoint@ == if forwarding {
        match opt_view(raw.forwarding_endpoint) {
            Some(e) => e,
            None => Seq::empty(),
        }
    } else {
        Seq::empty()
    }
    &&& v.forwarding_timeout_ms == if forwarding {
        match raw.forwarding_timeout_ms {
            Some(ms) => ms,
            None => 5000,
        }
    } else {
        5000
    }
    &&& v.drain_deadline_ms == match raw.drain_deadline_ms {
        Some(ms) => ms,
        None => 30000,
    }
    &&& v.max_recv_msg_size is None
    &&& !v.tls_enabled
    &&& !v.spiffe_enabled
    &&& (raw.jwt matches Some(j) && v.jwt_auth matches Some(a) && jwt_config_matches(j, a))
}

/// Validation gets as far as the ingest-auth files: the sink kind and the
/// security knobs pass and the block names every field. The catalogue is
/// consulted only when, in addition, the secret is readable.
pub open spec fn reaches_file_checks(raw: RawConfig) -> bool {
    &&& !sink_kind_refused(opt_view(raw.sink_kind))
    &&& security_reason_spec(raw.tls_enabled, raw.spiffe_enabled) is None
    &&& raw.jwt matches Some(j) && j.issuer is Some && j.audience is Some && j.secret_file is Some
        && j.catalogue_path is Some
}

/// The outcome of the file checks matters only where validation reaches
/// them, and the catalogue's only once the secret is readable: outside
/// those cases any two outcomes give the same verdict.
pub proof fn lemma_file_checks_only_when_reached(raw: RawConfig, a: JwtFileChecks, b: JwtFileChecks)
    ensures
        !reaches_file_checks(raw) ==> into_config_error(raw, a) == into_config_error(raw, b),
        (a.secret_file is Err && a.secret_file == b.secret_file) ==> into_config_error(raw, a)
            == into_config_error(raw, b),
{
}

impl RawConfig {
    /// Whether validation will consult the ingest-auth files, so that they
    /// are read only then.
    pub fn needs_file_checks(&self) -> (b: bool)
        ensures
            b == reaches_file_checks(*self),
    {
        proof {
            reveal_strlit("stub");
            reveal_strlit("forwarding");
        }
        let sink_ok = match &self.sink_kind {
            None => true,
            Some(k) => str_eq(k.as_str(), "stub") || str_eq(k.as_str(), "forwarding"),
        };
        if !sink_ok || self.tls_enabled || self.spiffe_enabled {
            return false;
        }
        match &self.jwt {
            None => false,
            Some(j) => j.issuer.is_some() && j.audience.is_some() && j.secret_file.is_some()
                && j.catalogue_path.is_some(),
        }
    }
}

impl RawConfig {
    /// Fold the parsed schema into a [`Config`], given the outcome of
    /// checking the ingest-auth files: the first refusal in order (sink
    /// kind, security knobs, ingest auth, bind addresses), or the settings
    /// it describes.
    pub fn into_config(self, checks: &JwtFileChecks) -> (r: Result<Config, ConfigError>)
        ensures
            match r {
                Ok(c) => into_config_error(self, *checks) is None && values_from_raw(self, c.values()),
                Err(e) => into_config_error(self, *checks) == Some(e.0@),
            },
    {
        let raw = self;
        let mut builder = Config::builder().grpc_bind_addr(raw.grpc_bind_addr).http_bind_addr(
            raw.http_bind_addr,
        );
        if let Some(cap) = raw.grpc_max_concurrent_requests {
            builder = builder.max_concurrent_requests(cap);
        }
        proof {
            reveal_strlit("stub");
            reveal_strlit("forwarding");
        }
        match &raw.sink_kind {
            None => {},
            Some(kind) => {
                if str_eq(kind.as_str(), "stub") {
                    assert("stub"@.len() != "forwarding"@.len());
                } else if str_eq(kind.as_str(), "forwarding") {
                    let endpoint = match &raw.forwarding_endpoint {
                        Some(e) => e.clone(),
                        None => String::new(),
                    };
                    builder = builder.forwarding_sink(endpoint);
                    if let Some(ms) = raw.forwarding_timeout_ms {
                        builder = builder.forwarding_timeout(ms);
                    }
                } else {
                    let quoted = debug_quoted(kind.as_str());
                    return Err(ConfigError(unknown_sink_kind_message(quoted.as_str())));
                }
            },
        }
        if let Some(ms) = raw.drain_deadline_ms {
            builder = builder.drain_deadline(ms);
        }
        if let Some(reason) = unimplemented_security_knob_reason(raw.tls_enabled, raw.spiffe_enabled) {
            return Err(ConfigError(reason));
        }
        builder = builder.tls_enabled(raw.tls_enabled).spiffe_enabled(raw.spiffe_enabled);
        let jwt_auth = match validate_jwt_auth(raw.jwt, checks) {
            Ok(a) => a,
            Err(e) => return Err(e),
        };
        builder = builder.jwt_auth_config(jwt_auth);
        builder.build()
    }
}

} // verus!
