use std::time::{SystemTime, UNIX_EPOCH};

use aperture::catalogue::{TenantCatalogue, TenantRecord};
use aperture::tenancy::{
    Role, TenantContext, TenantId, ValidationError, Validator, ValidatorConfig,
};
use jsonwebtoken::{encode, EncodingKey, Header};
use serde_json::Value;

const ISSUER: &str = "https://idp.acme.internal/";
const AUDIENCE: &str = "kaleidoscope-cluster-prod";
const SECRET: &[u8] = b"slice-01-test-secret-do-not-use-in-production";

struct Claims<'a> {
    iss: &'a str,
    aud: &'a str,
    exp: Option<i64>,
    tenant_id: Option<&'a str>,
    kaleidoscope_role: &'a str,
}

fn payload(claims: &Claims<'_>) -> Value {
    let mut m = serde_json::Map::new();
    m.insert("iss".to_string(), Value::String(claims.iss.to_string()));
    m.insert("aud".to_string(), Value::String(claims.aud.to_string()));
    if let Some(exp) = claims.exp {
        m.insert("exp".to_string(), Value::from(exp));
    }
    if let Some(t) = claims.tenant_id {
        m.insert("tenant_id".to_string(), Value::String(t.to_string()));
    }
    m.insert("kaleidoscope_role".to_string(), Value::String(claims.kaleidoscope_role.to_string()));
    Value::Object(m)
}

fn now_secs() -> i64 {
    SystemTime::now().duration_since(UNIX_EPOCH).map(|d| d.as_secs() as i64).unwrap_or(0)
}

fn now() -> Option<u64> {
    Some(now_secs() as u64)
}

fn make_jwt_with_secret(claims: &Claims<'_>, secret: &[u8]) -> String {
    let header = Header::new(jsonwebtoken::Algorithm::HS256);
    encode(&header, &payload(claims), &EncodingKey::from_secret(secret)).expect("encode")
}

fn make_jwt(claims: &Claims<'_>) -> String {
    make_jwt_with_secret(claims, SECRET)
}

fn current(tenant: &str, role: &str) -> Claims<'static> {
    Claims {
        iss: ISSUER,
        aud: AUDIENCE,
        exp: Some(now_secs() + 3600),
        tenant_id: Some(Box::leak(tenant.to_string().into_boxed_str())),
        kaleidoscope_role: Box::leak(role.to_string().into_boxed_str()),
    }
}

fn make_validator(tenants: &[&str]) -> Validator {
    let records: Vec<TenantRecord> = tenants
        .iter()
        .map(|id| TenantRecord { id: TenantId((*id).to_string()), display_name: None, notes: None })
        .collect();
    Validator::new(ValidatorConfig {
        issuer: ISSUER.to_string(),
        audience: AUDIENCE.to_string(),
        hs256_key: SECRET.to_vec(),
        catalogue: TenantCatalogue::from_records(records).expect("catalogue"),
    })
}

#[test]
fn signed_current_known_tenant_known_role_returns_tenant_context() {
    let validator = make_validator(&["acme-prod"]);
    let token = make_jwt(&current("acme-prod", "operator"));
    let ctx = validator.validate(&token, now()).expect("ok");
    assert_eq!(ctx, TenantContext { tenant_id: TenantId("acme-prod".to_string()), role: Role::Operator });
}

#[test]
fn viewer_role_is_accepted() {
    let validator = make_validator(&["acme-prod"]);
    let token = make_jwt(&current("acme-prod", "viewer"));
    let ctx = validator.validate(&token, now()).expect("ok");
    assert_eq!(ctx.role, Role::Viewer);
}

#[test]
fn invalid_signature_returns_invalid_signature_error() {
    let validator = make_validator(&["acme-prod"]);
    let token = make_jwt_with_secret(&current("acme-prod", "operator"), b"a different secret");
    let err = validator.validate(&token, now()).unwrap_err();
    assert_eq!(err, ValidationError::InvalidSignature);
}

#[test]
fn expired_token_returns_expired_error() {
    let validator = make_validator(&["acme-prod"]);
    let token = make_jwt(&Claims { exp: Some(now_secs() - 60), ..current("acme-prod", "operator") });
    let err = validator.validate(&token, now()).unwrap_err();
    assert_eq!(err, ValidationError::Expired);
}

#[test]
fn token_at_exact_exp_returns_expired_error() {
    let validator = make_validator(&["acme-prod"]);
    let exp = now_secs() + 10;
    let token = make_jwt(&Claims { exp: Some(exp), ..current("acme-prod", "operator") });
    let err = validator.validate(&token, Some(exp as u64)).unwrap_err();
    assert_eq!(err, ValidationError::Expired);
}

#[test]
fn wrong_issuer_returns_wrong_issuer_error() {
    let validator = make_validator(&["acme-prod"]);
    let token = make_jwt(&Claims { iss: "https://other-idp.example.com/", ..current("acme-prod", "operator") });
    let err = validator.validate(&token, now()).unwrap_err();
    assert_eq!(err, ValidationError::WrongIssuer);
}

#[test]
fn wrong_audience_returns_wrong_audience_error() {
    let validator = make_validator(&["acme-prod"]);
    let token = make_jwt(&Claims { aud: "different-cluster", ..current("acme-prod", "operator") });
    let err = validator.validate(&token, now()).unwrap_err();
    assert_eq!(err, ValidationError::WrongAudience);
}

#[test]
fn unknown_tenant_returns_unknown_tenant_error() {
    let validator = make_validator(&["acme-prod"]);
    let token = make_jwt(&current("shut-off-customer", "operator"));
    let err = validator.validate(&token, now()).unwrap_err();
    assert_eq!(err, ValidationError::UnknownTenant);
}

#[test]
fn unknown_role_returns_unknown_role_error() {
    let validator = make_validator(&["acme-prod"]);
    let token = make_jwt(&current("acme-prod", "admin"));
    let err = validator.validate(&token, now()).unwrap_err();
    assert_eq!(err, ValidationError::UnknownRole);
}

#[test]
fn missing_tenant_id_returns_missing_claim_tenant_id() {
    let validator = make_validator(&["acme-prod"]);
    let token = make_jwt(&Claims { tenant_id: None, ..current("acme-prod", "operator") });
    let err = validator.validate(&token, now()).unwrap_err();
    assert_eq!(err, ValidationError::MissingClaim("tenant_id"));
}

#[test]
fn missing_exp_returns_missing_claim_exp() {
    let validator = make_validator(&["acme-prod"]);
    let token = make_jwt(&Claims { exp: None, ..current("acme-prod", "operator") });
    let err = validator.validate(&token, now()).unwrap_err();
    assert_eq!(err, ValidationError::MissingClaim("exp"));
}

#[test]
fn malformed_token_returns_malformed_error() {
    let validator = make_validator(&["acme-prod"]);
    let err = validator.validate("not.a.jwt", now()).unwrap_err();
    assert_eq!(err, ValidationError::Malformed);
}

#[test]
fn a_claim_of_the_wrong_type_is_malformed() {
    let validator = make_validator(&["acme-prod"]);
    let mut m = serde_json::Map::new();
    m.insert("iss".to_string(), Value::from(7));
    let header = Header::new(jsonwebtoken::Algorithm::HS256);
    let token = encode(&header, &Value::Object(m), &EncodingKey::from_secret(SECRET)).expect("encode");
    assert_eq!(validator.validate(&token, now()).unwrap_err(), ValidationError::Malformed);
}

#[test]
fn allow_path_emits_info_event_with_stable_fields() {
    let validator = make_validator(&["acme-prod"]);
    let token = make_jwt(&current("acme-prod", "operator"));
    let (result, d) = validator.validate_with_subject(&token, now(), "validate");
    assert!(result.is_ok());
    assert_eq!(d.decision, "allow");
    assert_eq!(d.role, "operator");
    assert_eq!(d.tenant_id, "acme-prod");
    assert_eq!(d.subject, "validate");
    assert_eq!(d.reason, "allow");
}

#[test]
fn deny_path_emits_warn_event_with_reason() {
    let validator = make_validator(&["acme-prod"]);
    let token = make_jwt(&Claims { exp: Some(now_secs() - 60), ..current("acme-prod", "operator") });
    let (result, d) = validator.validate_with_subject(&token, now(), "validate");
    assert!(result.is_err());
    assert_eq!(d.decision, "deny");
    assert_eq!(d.reason, "expired");
}

#[test]
fn unknown_tenant_deny_carries_unknown_tenant_reason() {
    let validator = make_validator(&["acme-prod"]);
    let token = make_jwt(&current("ghost", "operator"));
    let (_, d) = validator.validate_with_subject(&token, now(), "validate");
    assert_eq!(d.reason, "unknown_tenant");
}

#[test]
fn validate_with_subject_records_subject_in_audit_event() {
    let validator = make_validator(&["acme-prod"]);
    let token = make_jwt(&current("acme-prod", "operator"));
    let (_, d) = validator.validate_with_subject(&token, now(), "query_range");
    assert_eq!(d.subject, "query_range");
}

#[test]
fn one_hundred_validations_mix_produce_one_hundred_audit_events() {
    let validator = make_validator(&["acme-prod"]);
    let ok = make_jwt(&current("acme-prod", "operator"));
    let expired = make_jwt(&Claims { exp: Some(now_secs() - 1), ..current("acme-prod", "operator") });
    let mut decisions = Vec::new();
    for i in 0..100 {
        let token = if i % 2 == 0 { &ok } else { &expired };
        decisions.push(validator.validate_with_subject(token, now(), "validate").1);
    }
    assert_eq!(decisions.len(), 100, "KPI 3: every validation must emit exactly one audit event");
    assert_eq!(decisions.iter().filter(|d| d.decision == "allow").count(), 50);
    assert_eq!(decisions.iter().filter(|d| d.decision == "deny").count(), 50);
}
