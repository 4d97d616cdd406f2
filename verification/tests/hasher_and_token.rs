use study_auth::{
    hash_password, issue_token, validate_token, verify_password, AppError, AuthConfig,
    TOKEN_TTL_SECONDS,
};

fn test_config() -> AuthConfig {
    AuthConfig { secret: Some(b"a-test-signing-secret".to_vec()) }
}

#[test]
fn hashing_is_salted_but_both_hashes_verify() {
    let plain = "correct horse".to_string();
    let h1 = hash_password(&plain).expect("hashing must succeed");
    let h2 = hash_password(&plain).expect("hashing must succeed");
    assert_ne!(h1, h2, "a fresh salt must make two hashes of one plaintext differ");
    assert!(verify_password(&plain, &h1).expect("a produced hash must parse"));
    assert!(verify_password(&plain, &h2).expect("a produced hash must parse"));
}

#[test]
fn hash_is_not_the_plaintext_and_has_the_fixed_shape() {
    let plain = "secret1".to_string();
    let h = hash_password(&plain).expect("hashing must succeed");
    assert_ne!(h, plain);
    assert_eq!(h.len(), 60);
    assert!(h.starts_with("$2b$12$"), "default cost and version prefix expected");
}

#[test]
fn wrong_plaintext_does_not_verify() {
    let pairs = [("secret1", "secret2"), ("password", "passwore"), ("a_b_c_d", "abcd_ef")];
    for (p, q) in pairs {
        let h = hash_password(&q.to_string()).expect("hashing must succeed");
        assert!(!verify_password(&p.to_string(), &h).expect("a produced hash must parse"));
    }
}

#[test]
fn malformed_hash_is_a_hashing_fault() {
    let r = verify_password(&"secret1".to_string(), &"not a bcrypt hash".to_string());
    let err = r.expect_err("a malformed hash string must be a fault, not a mismatch");
    assert!(matches!(err, AppError::HashingError(_)));
    assert_eq!(err.status_code(), 500);
    assert_eq!(err.public_message(), "Password processing failed");
}

#[test]
fn token_carries_subject_and_expiry_window() {
    let config = test_config();
    let issued_at: u64 = 1_700_000_000;
    let subject = "some-account-id".to_string();
    let token = issue_token(&subject, issued_at, &config).expect("issuance must succeed");
    assert_eq!(token.matches('.').count(), 2, "three dot-separated parts expected");

    // Valid at issuance and one minute before the window closes.
    assert_eq!(validate_token(&token, issued_at, &config).expect("valid at issuance"), subject);
    let just_before = issued_at + TOKEN_TTL_SECONDS - 60;
    assert_eq!(validate_token(&token, just_before, &config).expect("valid before expiry"), subject);

    // Invalid from the window's end on, in particular one minute after.
    let at_expiry = issued_at + TOKEN_TTL_SECONDS;
    assert!(validate_token(&token, at_expiry, &config).is_err());
    let just_after = issued_at + TOKEN_TTL_SECONDS + 60;
    let err = validate_token(&token, just_after, &config).expect_err("expired");
    assert_eq!(err.status_code(), 401);
    assert_eq!(err.public_message(), "Invalid token");
}

#[test]
fn token_signed_with_another_secret_is_rejected() {
    let config = test_config();
    let other = AuthConfig { secret: Some(b"another-secret-entirely".to_vec()) };
    let token = issue_token(&"subject".to_string(), 1_700_000_000, &config).expect("issuance");
    let err = validate_token(&token, 1_700_000_000, &other).expect_err("wrong key must fail");
    assert!(matches!(err, AppError::AuthenticationError(_)));
    assert_eq!(err.public_message(), "Invalid token");
}

#[test]
fn garbage_token_is_rejected() {
    let config = test_config();
    for t in ["", "abc", "a.b.c", "e30.e30.e30"] {
        let err = validate_token(&t.to_string(), 0, &config).expect_err("garbage must fail");
        assert_eq!(err.public_message(), "Invalid token");
    }
}

#[test]
fn decoded_claims_match_what_was_issued() {
    let config = test_config();
    let issued_at: u64 = 1_700_000_000;
    let token = issue_token(&"the-subject".to_string(), issued_at, &config).expect("issuance");

    let mut validation = jsonwebtoken::Validation::new(jsonwebtoken::Algorithm::HS256);
    validation.validate_exp = false;
    validation.required_spec_claims = std::collections::HashSet::new();
    let key = jsonwebtoken::DecodingKey::from_secret(b"a-test-signing-secret");
    let data = jsonwebtoken::decode::<serde_json::Value>(&token, &key, &validation)
        .expect("the issued token must decode under the same secret");
    assert_eq!(data.claims.get("sub").and_then(|v| v.as_str()), Some("the-subject"));
    assert_eq!(data.claims.get("exp").and_then(|v| v.as_u64()), Some(issued_at + TOKEN_TTL_SECONDS));
}

#[test]
fn issuance_without_secret_fails() {
    let no_secret = AuthConfig { secret: None };
    let err = issue_token(&"subject".to_string(), 0, &no_secret).expect_err("no secret");
    assert_eq!(err.public_message(), "JWT_SECRET not set");
    let err = validate_token(&"whatever".to_string(), 0, &no_secret).expect_err("no secret");
    assert_eq!(err.public_message(), "JWT_SECRET not set");
}

#[test]
fn expiry_overflow_fails_the_request() {
    let config = test_config();
    let err = issue_token(&"subject".to_string(), u64::MAX - 10, &config)
        .expect_err("unrepresentable expiration must fail");
    assert_eq!(err.status_code(), 401);
    assert_eq!(err.public_message(), "Invalid expiration time");
}
