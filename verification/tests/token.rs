use jsonwebtoken::{decode, encode, Algorithm, DecodingKey, EncodingKey, Header, Validation};
use pokedex_rncp_backend::config::AuthConfig;
use pokedex_rncp_backend::token::{
    generate_access_token, generate_refresh_token, generate_reset_token, issue, verify,
    verify_access, verify_refresh, verify_reset, Claims, TokenError, TokenKind, UserId,
};

const NOW: i64 = 1_750_000_000;

fn config() -> AuthConfig {
    AuthConfig::from_options(
        Some("access-secret".to_string()),
        Some("refresh-secret".to_string()),
        None,
        None,
        None,
    )
    .unwrap()
}

fn shared_secret_config() -> AuthConfig {
    AuthConfig::from_options(Some("one-secret".to_string()), None, None, None, None).unwrap()
}

fn alice() -> UserId {
    UserId { value: 0x550e8400_e29b_41d4_a716_446655440000 }
}

fn payload_of(token: &str, secret: &str) -> serde_json::Value {
    let mut validation = Validation::new(Algorithm::HS256);
    validation.validate_exp = false;
    validation.required_spec_claims.clear();
    decode::<serde_json::Value>(token, &DecodingKey::from_secret(secret.as_bytes()), &validation)
        .unwrap()
        .claims
}

fn forged(secret: &str, members: &[(&str, serde_json::Value)]) -> String {
    let mut object = serde_json::Map::new();
    for (key, value) in members {
        object.insert(key.to_string(), value.clone());
    }
    encode(&Header::default(), &object, &EncodingKey::from_secret(secret.as_bytes())).unwrap()
}

fn string(s: &str) -> serde_json::Value {
    serde_json::Value::String(s.to_string())
}

fn number(n: i64) -> serde_json::Value {
    serde_json::Value::from(n)
}

#[test]
fn access_token_verifies_right_after_it_is_issued() {
    let config = config();
    let token = generate_access_token(&config, alice(), NOW).unwrap();
    let claims = verify_access(&config, &token, NOW).unwrap();
    assert_eq!(claims, Claims { sub: alice(), iat: NOW, exp: NOW + 900 });
}

#[test]
fn refresh_token_verifies_right_after_it_is_issued() {
    let config = config();
    let token = generate_refresh_token(&config, alice(), NOW).unwrap();
    let claims = verify_refresh(&config, &token, NOW).unwrap();
    assert_eq!(claims, Claims { sub: alice(), iat: NOW, exp: NOW + 2_592_000 });
}

#[test]
fn reset_token_verifies_right_after_it_is_issued() {
    let config = config();
    let token = generate_reset_token(&config, alice(), NOW).unwrap();
    let claims = verify_reset(&config, &token, NOW).unwrap();
    assert_eq!(claims.sub, alice());
    assert_eq!(claims.iat, NOW);
    assert_eq!(claims.exp, NOW + 900);
    assert_eq!(claims.scope, "password_reset");
}

#[test]
fn token_carries_the_claims_on_the_wire() {
    let config = config();
    let access = generate_access_token(&config, alice(), NOW).unwrap();
    let payload = payload_of(&access, "access-secret");
    assert_eq!(payload["sub"], string("550e8400-e29b-41d4-a716-446655440000"));
    assert_eq!(payload["iat"], number(NOW));
    assert_eq!(payload["exp"], number(NOW + 900));
    assert_eq!(payload.as_object().unwrap().len(), 3);
    let reset = generate_reset_token(&config, alice(), NOW).unwrap();
    let payload = payload_of(&reset, "access-secret");
    assert_eq!(payload["scope"], string("password_reset"));
    assert_eq!(payload.as_object().unwrap().len(), 4);
}

#[test]
fn token_expires_at_its_expiry_and_not_before() {
    let config = config();
    let token = generate_access_token(&config, alice(), NOW).unwrap();
    assert!(verify_access(&config, &token, NOW + 899).is_ok());
    assert_eq!(verify_access(&config, &token, NOW + 900), Err(TokenError::Rejected));
    assert_eq!(verify_access(&config, &token, NOW + 901), Err(TokenError::Rejected));
    assert_eq!(verify_access(&config, &token, i64::MAX), Err(TokenError::Rejected));
    assert!(verify_access(&config, &token, NOW - 5).is_ok());
}

#[test]
fn refresh_token_is_no_access_token_and_the_reverse() {
    let config = config();
    let access = generate_access_token(&config, alice(), NOW).unwrap();
    let refresh = generate_refresh_token(&config, alice(), NOW).unwrap();
    assert_eq!(verify_access(&config, &refresh, NOW), Err(TokenError::Rejected));
    assert_eq!(verify_refresh(&config, &access, NOW), Err(TokenError::Rejected));
}

#[test]
fn reset_token_is_no_login_token() {
    for config in [config(), shared_secret_config()] {
        let reset = generate_reset_token(&config, alice(), NOW).unwrap();
        assert_eq!(verify_access(&config, &reset, NOW), Err(TokenError::Rejected));
        assert_eq!(verify_refresh(&config, &reset, NOW), Err(TokenError::Rejected));
        assert!(verify_reset(&config, &reset, NOW).is_ok());
    }
}

#[test]
fn login_token_is_no_reset_token() {
    for config in [config(), shared_secret_config()] {
        let access = generate_access_token(&config, alice(), NOW).unwrap();
        let refresh = generate_refresh_token(&config, alice(), NOW).unwrap();
        assert_eq!(verify_reset(&config, &access, NOW).err(), Some(TokenError::Rejected));
        assert_eq!(verify_reset(&config, &refresh, NOW).err(), Some(TokenError::Rejected));
    }
}

#[test]
fn garbage_is_rejected() {
    let config = config();
    for token in ["", "invalid.token", "a.b.c", "....", "é", "eyJhbGciOiJIUzI1NiJ9.e30.AAAA"] {
        assert_eq!(verify_access(&config, token, NOW), Err(TokenError::Rejected));
        assert_eq!(verify_refresh(&config, token, NOW), Err(TokenError::Rejected));
        assert_eq!(verify_reset(&config, token, NOW).err(), Some(TokenError::Rejected));
    }
}

#[test]
fn tampered_token_is_rejected() {
    let config = config();
    let token = generate_access_token(&config, alice(), NOW).unwrap();
    let mut tampered = token.clone();
    let last = tampered.pop().unwrap();
    tampered.push(if last == 'A' { 'B' } else { 'A' });
    assert_eq!(verify_access(&config, &tampered, NOW), Err(TokenError::Rejected));
    assert_eq!(verify(TokenKind::Access, "other-secret", &token, NOW), Err(TokenError::Rejected));
}

#[test]
fn lifetime_has_to_be_positive_and_to_fit() {
    assert_eq!(issue(TokenKind::Access, "s", 0, alice(), NOW), Err(TokenError::InvalidLifetime));
    assert_eq!(issue(TokenKind::Access, "s", -1, alice(), NOW), Err(TokenError::InvalidLifetime));
    assert_eq!(
        issue(TokenKind::Refresh, "s", 1, alice(), i64::MAX),
        Err(TokenError::InvalidLifetime)
    );
    assert_eq!(
        issue(TokenKind::Reset, "s", i64::MAX, alice(), 1),
        Err(TokenError::InvalidLifetime)
    );
    assert!(issue(TokenKind::Access, "s", 1, alice(), i64::MAX - 1).is_ok());
    assert!(issue(TokenKind::Access, "s", 1, alice(), i64::MIN).is_ok());
}

#[test]
fn token_issued_before_the_epoch_verifies() {
    let token = issue(TokenKind::Access, "s", 10, alice(), -100).unwrap();
    assert_eq!(
        verify(TokenKind::Access, "s", &token, -95),
        Ok(Claims { sub: alice(), iat: -100, exp: -90 })
    );
    assert_eq!(verify(TokenKind::Access, "s", &token, -90), Err(TokenError::Rejected));
}

#[test]
fn claims_have_to_be_complete_and_of_the_right_shape() {
    let sub = string("550e8400-e29b-41d4-a716-446655440000");
    let good = forged("s", &[("sub", sub.clone()), ("iat", number(10)), ("exp", number(20))]);
    assert_eq!(
        verify(TokenKind::Access, "s", &good, 15),
        Ok(Claims { sub: alice(), iat: 10, exp: 20 })
    );
    let no_sub = forged("s", &[("iat", number(10)), ("exp", number(20))]);
    let no_iat = forged("s", &[("sub", sub.clone()), ("exp", number(20))]);
    let no_exp = forged("s", &[("sub", sub.clone()), ("iat", number(10))]);
    let bad_sub = forged("s", &[("sub", string("alice")), ("iat", number(10)), ("exp", number(20))]);
    let int_sub = forged("s", &[("sub", number(7)), ("iat", number(10)), ("exp", number(20))]);
    let text_exp = forged("s", &[("sub", sub.clone()), ("iat", number(10)), ("exp", string("20"))]);
    let backwards = forged("s", &[("sub", sub.clone()), ("iat", number(20)), ("exp", number(20))]);
    for token in [no_sub, no_iat, no_exp, bad_sub, int_sub, text_exp, backwards] {
        assert_eq!(verify(TokenKind::Access, "s", &token, 15), Err(TokenError::Rejected));
    }
}

#[test]
fn scope_has_to_be_that_of_the_kind() {
    let sub = string("550e8400-e29b-41d4-a716-446655440000");
    let other = forged(
        "s",
        &[("sub", sub.clone()), ("iat", number(10)), ("exp", number(20)), ("scope", string("admin"))],
    );
    let reset = forged(
        "s",
        &[("sub", sub.clone()), ("iat", number(10)), ("exp", number(20)), ("scope", string("password_reset"))],
    );
    for kind in [TokenKind::Access, TokenKind::Refresh, TokenKind::Reset] {
        assert_eq!(verify(kind, "s", &other, 15), Err(TokenError::Rejected));
    }
    assert_eq!(verify(TokenKind::Access, "s", &reset, 15), Err(TokenError::Rejected));
    assert_eq!(verify(TokenKind::Refresh, "s", &reset, 15), Err(TokenError::Rejected));
    assert_eq!(
        verify(TokenKind::Reset, "s", &reset, 15),
        Ok(Claims { sub: alice(), iat: 10, exp: 20 })
    );
}

#[test]
fn subject_is_read_in_any_form_the_parser_knows() {
    let simple = forged(
        "s",
        &[("sub", string("550E8400E29B41D4A716446655440000")), ("iat", number(10)), ("exp", number(20))],
    );
    assert_eq!(
        verify(TokenKind::Access, "s", &simple, 15),
        Ok(Claims { sub: alice(), iat: 10, exp: 20 })
    );
}

#[test]
fn every_subject_comes_back() {
    for value in [0u128, 1, u128::MAX, 0x0123456789abcdef_fedcba9876543210, 1 << 127] {
        let subject = UserId { value };
        let token = issue(TokenKind::Access, "s", 60, subject, NOW).unwrap();
        assert_eq!(verify(TokenKind::Access, "s", &token, NOW).unwrap().sub, subject);
    }
}

#[test]
fn signing_fault_is_reported_as_such() {
    let fault = jsonwebtoken::errors::Error::from(jsonwebtoken::errors::ErrorKind::InvalidKeyFormat);
    assert_eq!(
        pokedex_rncp_backend::token::token_from(Err(fault)),
        Err(TokenError::Signing)
    );
    assert_eq!(
        pokedex_rncp_backend::token::token_from(Ok("a.b.c".to_string())),
        Ok("a.b.c".to_string())
    );
}

#[test]
fn claims_are_judged_from_the_decoded_object() {
    let mut object = serde_json::Map::new();
    object.insert("sub".to_string(), string("550e8400-e29b-41d4-a716-446655440000"));
    object.insert("iat".to_string(), number(10));
    object.insert("exp".to_string(), number(20));
    let judge = pokedex_rncp_backend::token::claims_from;
    assert_eq!(judge(TokenKind::Access, &object, 19), Ok(Claims { sub: alice(), iat: 10, exp: 20 }));
    assert_eq!(judge(TokenKind::Refresh, &object, 10), Ok(Claims { sub: alice(), iat: 10, exp: 20 }));
    assert_eq!(judge(TokenKind::Access, &object, 20), Err(TokenError::Rejected));
    assert_eq!(judge(TokenKind::Reset, &object, 15), Err(TokenError::Rejected));
    object.insert("scope".to_string(), string("password_reset"));
    assert_eq!(judge(TokenKind::Reset, &object, 15), Ok(Claims { sub: alice(), iat: 10, exp: 20 }));
    assert_eq!(judge(TokenKind::Access, &object, 15), Err(TokenError::Rejected));
    object.insert("exp".to_string(), serde_json::Value::from(20.5));
    assert_eq!(judge(TokenKind::Reset, &object, 15), Err(TokenError::Rejected));
}

#[test]
fn under_one_secret_login_kinds_are_told_apart_by_nothing() {
    let config = shared_secret_config();
    assert_eq!(config.access_secret, config.refresh_secret);
    let access = generate_access_token(&config, alice(), NOW).unwrap();
    let refresh = generate_refresh_token(&config, alice(), NOW).unwrap();
    assert_eq!(
        verify_access(&config, &refresh, NOW),
        Ok(Claims { sub: alice(), iat: NOW, exp: NOW + 2_592_000 })
    );
    assert_eq!(
        verify_refresh(&config, &access, NOW),
        Ok(Claims { sub: alice(), iat: NOW, exp: NOW + 900 })
    );
    assert_eq!(verify_refresh(&config, &access, NOW + 900), Err(TokenError::Rejected));
    assert!(verify_access(&config, &refresh, NOW + 900).is_ok());
}

#[test]
fn issuing_succeeds_whatever_the_secret() {
    let long = "k".repeat(10_000);
    for secret in ["", "s", "é❌ \u{0}\n", long.as_str()] {
        for kind in [TokenKind::Access, TokenKind::Refresh, TokenKind::Reset] {
            let token = issue(kind, secret, 60, alice(), NOW).unwrap();
            assert_eq!(token.matches('.').count(), 2);
            assert!(token
                .chars()
                .all(|c| c.is_ascii_alphanumeric() || c == '-' || c == '_' || c == '.'));
            assert_eq!(
                verify(kind, secret, &token, NOW),
                Ok(Claims { sub: alice(), iat: NOW, exp: NOW + 60 })
            );
        }
    }
}
