use aperture::catalogue::{CatalogueError, TenantCatalogue, TenantRecord};
use aperture::tenancy::{
    authz_decision, map_err, JwtErrorKind, RawClaims, Role, TenantContext, TenantId,
    ValidationError, Validator, ValidatorConfig,
};

const NOW: u64 = 1_700_000_000;

fn record(id: &str) -> TenantRecord {
    TenantRecord { id: TenantId(id.to_string()), display_name: None, notes: None }
}

fn validator() -> Validator {
    let catalogue =
        TenantCatalogue::from_records(vec![record("acme-prod"), record("globex")]).expect("distinct ids");
    Validator::new(ValidatorConfig {
        issuer: "acme-observability".to_string(),
        audience: "kaleidoscope-ingest".to_string(),
        hs256_key: b"test-secret".to_vec(),
        catalogue,
    })
}

fn claims() -> RawClaims {
    RawClaims {
        iss: Some("acme-observability".to_string()),
        aud: Some("kaleidoscope-ingest".to_string()),
        exp: Some(NOW as i64 + 3600),
        tenant_id: Some("acme-prod".to_string()),
        kaleidoscope_role: Some("operator".to_string()),
    }
}

fn verdict(c: RawClaims) -> Result<TenantContext, ValidationError> {
    validator().validate_decoded(Ok(c), Some(NOW))
}

#[test]
fn current_claims_for_a_known_tenant_and_role_yield_a_context() {
    assert_eq!(
        verdict(claims()),
        Ok(TenantContext { tenant_id: TenantId("acme-prod".to_string()), role: Role::Operator })
    );
    let viewer = RawClaims { kaleidoscope_role: Some("viewer".to_string()), ..claims() };
    assert_eq!(verdict(viewer).map(|c| c.role), Ok(Role::Viewer));
}

#[test]
fn claims_are_checked_in_order() {
    assert_eq!(verdict(RawClaims { iss: Some("other".to_string()), ..claims() }), Err(ValidationError::WrongIssuer));
    assert_eq!(verdict(RawClaims { iss: None, aud: None, ..claims() }), Err(ValidationError::WrongIssuer));
    assert_eq!(verdict(RawClaims { aud: Some("other".to_string()), ..claims() }), Err(ValidationError::WrongAudience));
    assert_eq!(verdict(RawClaims { exp: None, ..claims() }), Err(ValidationError::MissingClaim("exp")));
    assert_eq!(verdict(RawClaims { exp: Some(NOW as i64 - 1), ..claims() }), Err(ValidationError::Expired));
    assert_eq!(verdict(RawClaims { tenant_id: None, ..claims() }), Err(ValidationError::MissingClaim("tenant_id")));
    assert_eq!(verdict(RawClaims { tenant_id: Some("initech".to_string()), ..claims() }), Err(ValidationError::UnknownTenant));
    assert_eq!(
        verdict(RawClaims { kaleidoscope_role: None, ..claims() }),
        Err(ValidationError::MissingClaim("kaleidoscope_role"))
    );
    assert_eq!(
        verdict(RawClaims { kaleidoscope_role: Some("admin".to_string()), ..claims() }),
        Err(ValidationError::UnknownRole)
    );
}

#[test]
fn a_token_at_its_exact_exp_is_expired() {
    assert_eq!(verdict(RawClaims { exp: Some(NOW as i64), ..claims() }), Err(ValidationError::Expired));
    assert!(verdict(RawClaims { exp: Some(NOW as i64 + 1), ..claims() }).is_ok());
}

#[test]
fn a_clock_before_the_epoch_reads_as_zero() {
    let v = validator();
    assert!(v.validate_decoded(Ok(RawClaims { exp: Some(1), ..claims() }), None).is_ok());
    assert_eq!(
        v.validate_decoded(Ok(RawClaims { exp: Some(0), ..claims() }), None),
        Err(ValidationError::Expired)
    );
}

#[test]
fn decoding_failures_map_to_signature_or_malformed() {
    let v = validator();
    assert_eq!(v.validate_decoded(Err(JwtErrorKind::InvalidSignature), Some(NOW)), Err(ValidationError::InvalidSignature));
    assert_eq!(v.validate_decoded(Err(JwtErrorKind::Json), Some(NOW)), Err(ValidationError::Malformed));
    assert_eq!(map_err(JwtErrorKind::Base64), ValidationError::Malformed);
    assert_eq!(map_err(JwtErrorKind::Other), ValidationError::Malformed);
}

#[test]
fn validator_exposes_its_configuration() {
    let v = validator();
    assert_eq!(v.issuer(), "acme-observability");
    assert_eq!(v.audience(), "kaleidoscope-ingest");
    assert_eq!(v.hs256_key(), b"test-secret");
    assert_eq!(v.catalogue_len(), 2);
}

#[test]
fn reasons_and_messages_are_stable() {
    assert_eq!(ValidationError::InvalidSignature.reason(), "invalid_signature");
    assert_eq!(ValidationError::MissingClaim("exp").reason(), "missing_claim");
    assert_eq!(ValidationError::UnknownTenant.reason(), "unknown_tenant");
    assert_eq!(ValidationError::MissingClaim("tenant_id").message(), "missing required claim: tenant_id");
    assert_eq!(ValidationError::Expired.message(), "token expired");
    assert_eq!(Role::Viewer.as_str(), "viewer");
    assert_eq!(Role::Operator.as_str(), "operator");
}

#[test]
fn audit_decisions_name_allow_and_deny() {
    let allow = authz_decision(&verdict(claims()), "validate");
    assert_eq!(
        (allow.subject.as_str(), allow.tenant_id.as_str(), allow.role, allow.decision, allow.reason),
        ("validate", "acme-prod", "operator", "allow", "allow")
    );
    let deny = authz_decision(&Err(ValidationError::UnknownTenant), "query_range");
    assert_eq!(
        (deny.subject.as_str(), deny.tenant_id.as_str(), deny.role, deny.decision, deny.reason),
        ("query_range", "", "", "deny", "unknown_tenant")
    );
}

#[test]
fn duplicate_id_is_rejected() {
    let err = TenantCatalogue::from_records(vec![record("a"), record("b"), record("a"), record("b")])
        .err()
        .expect("duplicate refused");
    match &err {
        CatalogueError::DuplicateTenant(id) => assert_eq!(id.0, "a"),
        other => panic!("unexpected {other:?}"),
    }
    assert_eq!(err.message(), "duplicate tenant id: a");
}

#[test]
fn contains_returns_false_for_unregistered_tenant() {
    let catalogue = TenantCatalogue::from_records(vec![record("acme-prod")]).expect("ok");
    assert!(catalogue.contains(&TenantId("acme-prod".to_string())));
    assert!(!catalogue.contains(&TenantId("ghost-tenant".to_string())));
    assert_eq!(catalogue.len(), 1);
    assert!(!catalogue.is_empty());
}

#[test]
fn get_returns_the_full_record() {
    let catalogue = TenantCatalogue::from_records(vec![TenantRecord {
        id: TenantId("acme-prod".to_string()),
        display_name: Some("ACME Production".to_string()),
        notes: Some("primary".to_string()),
    }])
    .expect("ok");
    let found = catalogue.get(&TenantId("acme-prod".to_string())).expect("present");
    assert_eq!(found.display_name.as_deref(), Some("ACME Production"));
    assert_eq!(found.notes.as_deref(), Some("primary"));
    assert!(catalogue.get(&TenantId("x".to_string())).is_none());
}

#[test]
fn an_empty_catalogue_is_empty() {
    let catalogue = TenantCatalogue::from_records(vec![]).expect("ok");
    assert!(catalogue.is_empty());
    assert_eq!(catalogue.len(), 0);
    assert!(TenantCatalogue::empty().is_empty());
}

#[test]
fn catalogue_error_messages_name_the_path() {
    let read = CatalogueError::Read { path: "/etc/t.toml".to_string(), message: "no such file".to_string() };
    assert_eq!(read.message(), "cannot read tenant catalogue /etc/t.toml: no such file");
    let parse = CatalogueError::Parse { path: "/etc/t.toml".to_string(), message: "bad".to_string() };
    assert_eq!(parse.message(), "/etc/t.toml: bad");
}

#[test]
fn default_catalogue_is_empty() {
    let catalogue = TenantCatalogue::default();
    assert!(catalogue.is_empty());
    assert_eq!(catalogue.len(), 0);
    assert!(!catalogue.contains(&TenantId("acme-prod".to_string())));
}
