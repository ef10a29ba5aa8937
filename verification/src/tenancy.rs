//! Tenancy and token-claim validation: tenant ids, roles, the typed
//! failure modes, and the claim checks a decoded token must pass.
//!
//! The token library checks the HS256 signature and decodes the claims;
//! every decision taken on the decoded claims is verified here.

use jsonwebtoken::errors::ErrorKind;
use jsonwebtoken::{decode, Algorithm, DecodingKey, Validation};
use serde_json::{from_value, Value};
use vstd::prelude::*;
use crate::catalogue::TenantCatalogue;
use crate::text::opt_view;

verus! {

/// Stable identifier for a tenant.
#[derive(Debug, Clone, Hash)]
pub struct TenantId(pub String);

impl View for TenantId {
    type V = Seq<char>;

    open spec fn view(&self) -> Seq<char> {
        self.0@
    }
}

impl PartialEq for TenantId {
    fn eq(&self, other: &Self) -> (r: bool) {
        self.0 == other.0
    }
}

impl Eq for TenantId {}

impl vstd::std_specs::cmp::PartialEqSpecImpl for TenantId {
    open spec fn obeys_eq_spec() -> bool {
        true
    }

    open spec fn eq_spec(&self, other: &Self) -> bool {
        self.0@ == other.0@
    }
}

impl TenantId {
    /// A copy of this id with the same text.
    pub fn duplicate(&self) -> (r: TenantId)
        ensures
            r@ == self@,
    {
        TenantId(self.0.clone())
    }

    /// The id rendered as text (what `Display` shows).
    pub fn to_text(&self) -> (r: String)
        ensures
            r@ == self@,
    {
        self.0.clone()
    }
}

/// Two-level RBAC.
#[derive(Debug, Clone, Copy, PartialEq, Eq, Structural)]
pub enum Role {
    Viewer,
    Operator,
}

impl Role {
    /// The canonical claim string of a role.
    pub open spec fn claim_text(self) -> Seq<char> {
        match self {
            Role::Viewer => "viewer"@,
            Role::Operator => "operator"@,
        }
    }

    /// Render as the canonical claim string.
    pub fn as_str(self) -> (s: &'static str)
        ensures
            s@ == self.claim_text(),
    {
        match self {
            Role::Viewer => "viewer",
            Role::Operator => "operator",
        }
    }
}

/// What a successful validation yields.
#[derive(Debug, Clone)]
pub struct TenantContext {
    pub tenant_id: TenantId,
    pub role: Role,
}

impl PartialEq for TenantContext {
    fn eq(&self, other: &Self) -> (r: bool) {
        self.tenant_id == other.tenant_id && self.role == other.role
    }
}

impl Eq for TenantContext {}

impl vstd::std_specs::cmp::PartialEqSpecImpl for TenantContext {
    open spec fn obeys_eq_spec() -> bool {
        true
    }

    open spec fn eq_spec(&self, other: &Self) -> bool {
        self.tenant_id@ == other.tenant_id@ && self.role == other.role
    }
}

/// Typed failure modes; each maps to a stable audit `reason`.
#[derive(Debug, Clone, Copy)]
pub enum ValidationError {
    /// Token signature did not verify against the configured key.
    InvalidSignature,
    /// Token's `exp` claim is not after `now`.
    Expired,
    /// Token's `iss` claim does not match the configured issuer.
    WrongIssuer,
    /// Token's `aud` claim does not match the configured audience.
    WrongAudience,
    /// A required claim is absent; carries the claim name.
    MissingClaim(&'static str),
    /// `tenant_id` claim is not in the tenant catalogue.
    UnknownTenant,
    /// `kaleidoscope_role` claim is neither `viewer` nor `operator`.
    UnknownRole,
    /// Token is malformed.
    Malformed,
}

impl PartialEq for ValidationError {
    fn eq(&self, other: &Self) -> (r: bool) {
        match (self, other) {
            (ValidationError::InvalidSignature, ValidationError::InvalidSignature) => true,
            (ValidationError::Expired, ValidationError::Expired) => true,
            (ValidationError::WrongIssuer, ValidationError::WrongIssuer) => true,
            (ValidationError::WrongAudience, ValidationError::WrongAudience) => true,
            (ValidationError::MissingClaim(a), ValidationError::MissingClaim(b)) => {
                crate::text::str_eq(a, b)
            },
            (ValidationError::UnknownTenant, ValidationError::UnknownTenant) => true,
            (ValidationError::UnknownRole, ValidationError::UnknownRole) => true,
            (ValidationError::Malformed, ValidationError::Malformed) => true,
            _ => false,
        }
    }
}

impl Eq for ValidationError {}

impl vstd::std_specs::cmp::PartialEqSpecImpl for ValidationError {
    open spec fn obeys_eq_spec() -> bool {
        true
    }

    open spec fn eq_spec(&self, other: &Self) -> bool {
        match (self, other) {
            (ValidationError::MissingClaim(a), ValidationError::MissingClaim(b)) => a@ == b@,
            (ValidationError::MissingClaim(_), _) => false,
            (_, ValidationError::MissingClaim(_)) => false,
            _ => *self == *other,
        }
    }
}

impl ValidationError {
    /// The stable audit reason of each failure mode.
    pub open spec fn reason_text(self) -> Seq<char> {
        match self {
            ValidationError::InvalidSignature => "invalid_signature"@,
            ValidationError::Expired => "expired"@,
            ValidationError::WrongIssuer => "wrong_issuer"@,
            ValidationError::WrongAudience => "wrong_audience"@,
            ValidationError::MissingClaim(_) => "missing_claim"@,
            ValidationError::UnknownTenant => "unknown_tenant"@,
            ValidationError::UnknownRole => "unknown_role"@,
            ValidationError::Malformed => "malformed"@,
        }
    }

    /// Stable `reason` string for audit logs.
    pub fn reason(&self) -> (s: &'static str)
        ensures
            s@ == self.reason_text(),
    {
        match self {
            ValidationError::InvalidSignature => "invalid_signature",
            ValidationError::Expired => "expired",
            ValidationError::WrongIssuer => "wrong_issuer",
            ValidationError::WrongAudience => "wrong_audience",
            ValidationError::MissingClaim(_) => "missing_claim",
            ValidationError::UnknownTenant => "unknown_tenant",
            ValidationError::UnknownRole => "unknown_role",
            ValidationError::Malformed => "malformed",
        }
    }

    /// The operator-facing message of each failure mode.
    pub open spec fn message_text(self) -> Seq<char> {
        match self {
            ValidationError::InvalidSignature => "invalid signature"@,
            ValidationError::Expired => "token expired"@,
            ValidationError::WrongIssuer => "issuer mismatch"@,
            ValidationError::WrongAudience => "audience mismatch"@,
            ValidationError::MissingClaim(name) => "missing required claim: "@ + name@,
            ValidationError::UnknownTenant => "tenant not in catalogue"@,
            ValidationError::UnknownRole => "unknown role"@,
            ValidationError::Malformed => "malformed JWT"@,
        }
    }

    /// Render the operator-facing message.
    pub fn message(&self) -> (s: String)
        ensures
            s@ == self.message_text(),
    {
        match self {
            ValidationError::InvalidSignature => String::from_str("invalid signature"),
            ValidationError::Expired => String::from_str("token expired"),
            ValidationError::WrongIssuer => String::from_str("issuer mismatch"),
            ValidationError::WrongAudience => String::from_str("audience mismatch"),
            ValidationError::MissingClaim(name) => {
                let mut s = String::from_str("missing required claim: ");
                s.append(name);
                s
            },
            ValidationError::UnknownTenant => String::from_str("tenant not in catalogue"),
            ValidationError::UnknownRole => String::from_str("unknown role"),
            ValidationError::Malformed => String::from_str("malformed JWT"),
        }
    }
}

/// Configuration for a [`Validator`].
pub struct ValidatorConfig {
    pub issuer: String,
    pub audience: String,
    /// Pre-shared HS256 signing key bytes.
    pub hs256_key: Vec<u8>,
    pub catalogue: TenantCatalogue,
}

/// Pre-loaded validator: issuer, audience, signing key, tenant catalogue.
pub struct Validator {
    issuer: String,
    audience: String,
    hs256_key: Vec<u8>,
    catalogue: TenantCatalogue,
}

/// The claims a decoded token carries; every claim is optional on the
/// wire.
pub struct RawClaims {
    pub iss: Option<String>,
    pub aud: Option<String>,
    pub exp: Option<i64>,
    pub tenant_id: Option<String>,
    pub kaleidoscope_role: Option<String>,
}

/// Why decoding a token failed, as the token library classifies it.
#[derive(Debug, Clone, Copy, PartialEq, Eq, Structural)]
pub enum JwtErrorKind {
    InvalidSignature,
    InvalidToken,
    InvalidKeyFormat,
    Base64,
    Json,
    Utf8,
    Other,
}

/// The claims of a decoded token as plain values.
pub struct ClaimsView {
    pub iss: Option<Seq<char>>,
    pub aud: Option<Seq<char>>,
    pub exp: Option<i64>,
    pub tenant_id: Option<Seq<char>>,
    pub kaleidoscope_role: Option<Seq<char>>,
}

/// The plain values of decoded claims.
pub open spec fn claims_view_of(c: RawClaims) -> ClaimsView {
    ClaimsView {
        iss: opt_view(c.iss),
        aud: opt_view(c.aud),
        exp: c.exp,
        tenant_id: opt_view(c.tenant_id),
        kaleidoscope_role: opt_view(c.kaleidoscope_role),
    }
}

/// The plain values of a decoding outcome.
pub open spec fn decoded_view(r: Result<RawClaims, JwtErrorKind>) -> Result<ClaimsView, JwtErrorKind> {
    match r {
        Ok(c) => Ok(claims_view_of(c)),
        Err(k) => Err(k),
    }
}

/// What HS256 decoding of `token` under `key` gives: the five claims, or
/// why the token was refused.
pub uninterp spec fn hs256_claims(token: Seq<char>, key: Seq<u8>) -> Result<ClaimsView, JwtErrorKind>;

/// Calls `jsonwebtoken::decode` with HS256, expiry, `nbf` and audience
/// checks off and no required claims, so no clock is read and the result
/// depends on the token and the key alone; claimed: the result is
/// `hs256_claims` of the two. The payload is decoded as a JSON object and
/// each claim is converted with `serde_json::from_value` (absent counts as
/// null, so absent or null is `None`; a key given twice keeps its last
/// value); a claim of the wrong JSON type is `Json`. A bad signature is `InvalidSignature`, any other failure of the
/// call is `Other`.
#[verifier::external_body]
fn decode_claims(token: &str, key: &[u8]) -> (r: Result<RawClaims, JwtErrorKind>)
    ensures
        decoded_view(r) == hs256_claims(token@, key@),
{
    let mut v = Validation::new(Algorithm::HS256);
    v.validate_exp = false;
    v.validate_aud = false;
    v.required_spec_claims.clear();
    let mut m: serde_json::Map<String, Value> = decode(token, &DecodingKey::from_secret(key), &v)
        .map_err(|e| match e.kind() { ErrorKind::InvalidSignature => JwtErrorKind::InvalidSignature, _ => JwtErrorKind::Other })?
        .claims;
    let exp = from_value(m.remove("exp").unwrap_or_default()).map_err(|_| JwtErrorKind::Json)?;
    let mut text = |k: &str| from_value(m.remove(k).unwrap_or_default()).map_err(|_| JwtErrorKind::Json);
    Ok(RawClaims { iss: text("iss")?, aud: text("aud")?, exp, tenant_id: text("tenant_id")?, kaleidoscope_role: text("kaleidoscope_role")? })
}

/// Map a token-library failure to a validation error: a bad signature is
/// named, every structural failure is `Malformed`.
pub fn map_err(kind: JwtErrorKind) -> (e: ValidationError)
    ensures
        e == (if kind == JwtErrorKind::InvalidSignature {
            ValidationError::InvalidSignature
        } else {
            ValidationError::Malformed
        }),
{
    match kind {
        JwtErrorKind::InvalidSignature => ValidationError::InvalidSignature,
        JwtErrorKind::InvalidToken | JwtErrorKind::InvalidKeyFormat | JwtErrorKind::Base64
        | JwtErrorKind::Json | JwtErrorKind::Utf8 => ValidationError::Malformed,
        _ => ValidationError::Malformed,
    }
}

/// Seconds since the epoch as the validator reads the clock: the seconds
/// truncated to `i64`, or 0 for a time before the epoch.
pub open spec fn now_secs_spec(since_epoch: Option<u64>) -> i64 {
    match since_epoch {
        Some(s) => s as i64,
        None => 0,
    }
}

/// The role a claim string names, if any.
pub open spec fn role_of(text: Seq<char>) -> Option<Role> {
    if text == "viewer"@ {
        Some(Role::Viewer)
    } else if text == "operator"@ {
        Some(Role::Operator)
    } else {
        None
    }
}

impl Validator {
    pub closed spec fn issuer_spec(self) -> Seq<char> {
        self.issuer@
    }

    pub closed spec fn audience_spec(self) -> Seq<char> {
        self.audience@
    }

    pub closed spec fn key_spec(self) -> Seq<u8> {
        self.hs256_key@
    }

    pub closed spec fn catalogue_spec(self) -> Map<Seq<char>, crate::catalogue::TenantRecord> {
        self.catalogue@
    }

    /// The verdict on decoded claims at time `now`, checked in this order:
    /// issuer, audience, `exp` present, not expired, `tenant_id` present,
    /// tenant known, role present, role known.
    pub open spec fn claims_verdict(self, claims: ClaimsView, now: i64) -> Result<
        (Seq<char>, Role),
        ValidationError,
    > {
        if claims.iss != Some(self.issuer_spec()) {
            Err(ValidationError::WrongIssuer)
        } else if claims.aud != Some(self.audience_spec()) {
            Err(ValidationError::WrongAudience)
        } else if claims.exp is None {
            Err(ValidationError::MissingClaim("exp"))
        } else if now >= claims.exp.unwrap() {
            Err(ValidationError::Expired)
        } else if claims.tenant_id is None {
            Err(ValidationError::MissingClaim("tenant_id"))
        } else if !self.catalogue_spec().contains_key(claims.tenant_id.unwrap()) {
            Err(ValidationError::UnknownTenant)
        } else if claims.kaleidoscope_role is None {
            Err(ValidationError::MissingClaim("kaleidoscope_role"))
        } else if role_of(claims.kaleidoscope_role.unwrap()) is None {
            Err(ValidationError::UnknownRole)
        } else {
            Ok((claims.tenant_id.unwrap(), role_of(claims.kaleidoscope_role.unwrap()).unwrap()))
        }
    }

    /// The verdict on a decoding outcome at time `now`: a decoding failure
    /// maps through [`map_err`], decoded claims go through the claim checks.
    pub open spec fn token_verdict(self, decoded: Result<ClaimsView, JwtErrorKind>, now: i64) -> Result<
        (Seq<char>, Role),
        ValidationError,
    > {
        match decoded {
            Err(kind) => Err(map_err_spec(kind)),
            Ok(claims) => self.claims_verdict(claims, now),
        }
    }

    /// Build a validator from configuration.
    pub fn new(config: ValidatorConfig) -> (v: Validator)
        ensures
            v.issuer_spec() == config.issuer@,
            v.audience_spec() == config.audience@,
            v.key_spec() == config.hs256_key@,
            v.catalogue_spec() == config.catalogue@,
    {
        Validator {
            issuer: config.issuer,
            audience: config.audience,
            hs256_key: config.hs256_key,
            catalogue: config.catalogue,
        }
    }

    /// The HS256 key bytes the token signature is checked against.
    pub fn hs256_key(&self) -> (k: &[u8])
        ensures
            k@ == self.key_spec(),
    {
        self.hs256_key.as_slice()
    }

    /// The configured issuer.
    pub fn issuer(&self) -> (s: &str)
        ensures
            s@ == self.issuer_spec(),
    {
        self.issuer.as_str()
    }

    /// The configured audience.
    pub fn audience(&self) -> (s: &str)
        ensures
            s@ == self.audience_spec(),
    {
        self.audience.as_str()
    }

    /// Number of tenants in the catalogue.
    pub fn catalogue_len(&self) -> (n: usize)
        ensures
            n == self.catalogue_spec().len(),
    {
        self.catalogue.len()
    }

    /// Check decoded claims at time `now_secs`.
    pub fn validate_claims(&self, claims: RawClaims, now_secs: i64) -> (r: Result<
        TenantContext,
        ValidationError,
    >)
        ensures
            verdict_matches(r, self.claims_verdict(claims_view_of(claims), now_secs)),
    {
        let ghost g = claims;
        let RawClaims { iss, aud, exp, tenant_id, kaleidoscope_role } = claims;
        let iss_ok = match &iss {
            Some(s) => *s == self.issuer,
            None => false,
        };
        if !iss_ok {
            return Err(ValidationError::WrongIssuer);
        }
        let aud_ok = match &aud {
            Some(s) => *s == self.audience,
            None => false,
        };
        if !aud_ok {
            return Err(ValidationError::WrongAudience);
        }
        let exp = match exp {
            Some(e) => e,
            None => return Err(ValidationError::MissingClaim("exp")),
        };
        if now_secs >= exp {
            return Err(ValidationError::Expired);
        }
        let tenant_str = match tenant_id {
            Some(t) => t,
            None => return Err(ValidationError::MissingClaim("tenant_id")),
        };
        let tenant = TenantId(tenant_str);
        if !self.catalogue.contains(&tenant) {
            return Err(ValidationError::UnknownTenant);
        }
        let role_str = match kaleidoscope_role {
            Some(r) => r,
            None => return Err(ValidationError::MissingClaim("kaleidoscope_role")),
        };
        let viewer = String::from_str("viewer");
        let operator = String::from_str("operator");
        let role = if role_str == viewer {
            Role::Viewer
        } else if role_str == operator {
            Role::Operator
        } else {
            return Err(ValidationError::UnknownRole);
        };
        Ok(TenantContext { tenant_id: tenant, role })
    }

    /// The full decision on one token: a decoding failure maps through
    /// [`map_err`], decoded claims go through [`Validator::validate_claims`].
    /// `since_epoch` is the clock reading in whole seconds (`None` before
    /// the epoch).
    pub fn validate_decoded(
        &self,
        decoded: Result<RawClaims, JwtErrorKind>,
        since_epoch: Option<u64>,
    ) -> (r: Result<TenantContext, ValidationError>)
        ensures
            verdict_matches(r, self.token_verdict(decoded_view(decoded), now_secs_spec(since_epoch))),
    {
        let now_secs: i64 = match since_epoch {
            Some(s) => s as i64,
            None => 0,
        };
        match decoded {
            Err(kind) => Err(map_err(kind)),
            Ok(claims) => self.validate_claims(claims, now_secs),
        }
    }

    /// Validate one token at the clock reading `since_epoch` (whole seconds
    /// since the epoch, `None` before it): decode it under the validator's
    /// key, then check its claims.
    pub fn validate(&self, token: &str, since_epoch: Option<u64>) -> (r: Result<
        TenantContext,
        ValidationError,
    >)
        ensures
            verdict_matches(
                r,
                self.token_verdict(hs256_claims(token@, self.key_spec()), now_secs_spec(since_epoch)),
            ),
    {
        let decoded = decode_claims(token, self.hs256_key.as_slice());
        self.validate_decoded(decoded, since_epoch)
    }

    /// [`Validator::validate`], together with the fields of the audit event
    /// the decision is recorded under, carrying the caller's `subject`.
    pub fn validate_with_subject(&self, token: &str, since_epoch: Option<u64>, subject: &str) -> (r: (
        Result<TenantContext, ValidationError>,
        AuthzDecision,
    ))
        ensures
            verdict_matches(
                r.0,
                self.token_verdict(hs256_claims(token@, self.key_spec()), now_secs_spec(since_epoch)),
            ),
            decision_matches(r.1, r.0, subject@),
    {
        let result = self.validate(token, since_epoch);
        let decision = authz_decision(&result, subject);
        (result, decision)
    }
}

/// `r` is the outcome the verdict `v` describes.
pub open spec fn verdict_matches(
    r: Result<TenantContext, ValidationError>,
    v: Result<(Seq<char>, Role), ValidationError>,
) -> bool {
    match (r, v) {
        (Ok(ctx), Ok((t, role))) => ctx.tenant_id@ == t && ctx.role == role,
        (Err(e), Err(f)) => e == f,
        _ => false,
    }
}

/// The validation error a token-library failure maps to.
pub open spec fn map_err_spec(kind: JwtErrorKind) -> ValidationError {
    if kind == JwtErrorKind::InvalidSignature {
        ValidationError::InvalidSignature
    } else {
        ValidationError::Malformed
    }
}

/// The fields of the `aegis authz decision` audit event for one validation.
#[derive(Debug)]
pub struct AuthzDecision {
    pub subject: String,
    pub tenant_id: String,
    pub role: &'static str,
    pub decision: &'static str,
    pub reason: &'static str,
}

/// `d` holds the audit fields of the outcome `result` for `subject`.
pub open spec fn decision_matches(
    d: AuthzDecision,
    result: Result<TenantContext, ValidationError>,
    subject: Seq<char>,
) -> bool {
    &&& d.subject@ == subject
    &&& match result {
        Ok(ctx) => d.tenant_id@ == ctx.tenant_id@ && d.role@ == ctx.role.claim_text() && d.decision@
            == "allow"@ && d.reason@ == "allow"@,
        Err(e) => d.tenant_id@ == Seq::<char>::empty() && d.role@ == Seq::<char>::empty()
            && d.decision@ == "deny"@ && d.reason@ == e.reason_text(),
    }
}

/// The audit fields of a validation: an allow names the tenant and role
/// with reason `allow`; a deny names no tenant or role and the failure's
/// stable reason.
pub fn authz_decision(result: &Result<TenantContext, ValidationError>, subject: &str) -> (d:
    AuthzDecision)
    ensures
        decision_matches(d, *result, subject@),
{
    let subject = String::from_str(subject);
    match result {
        Ok(ctx) => AuthzDecision {
            subject,
            tenant_id: ctx.tenant_id.to_text(),
            role: ctx.role.as_str(),
            decision: "allow",
            reason: "allow",
        },
        Err(e) => {
            proof {
                reveal_strlit("");
            }
            let d = AuthzDecision {
                subject,
                tenant_id: String::new(),
                role: "",
                decision: "deny",
                reason: e.reason(),
            };
            assert(d.tenant_id@ == Seq::<char>::empty());
            assert(d.role@ == Seq::<char>::empty());
            d
        },
    }
}

} // verus!
