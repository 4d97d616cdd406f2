use study_auth::{
    login_user, register_user, AppError, AuthConfig, LoginPayload, RegisterPayload, UserStore,
};

fn test_config() -> AuthConfig {
    AuthConfig { secret: Some(b"a-test-signing-secret".to_vec()) }
}

fn register_payload(username: &str, email: &str, password: &str) -> RegisterPayload {
    RegisterPayload {
        username: username.to_string(),
        email: email.to_string(),
        password: password.to_string(),
    }
}

fn login_payload(username: &str, password: &str) -> LoginPayload {
    LoginPayload { username: username.to_string(), password: password.to_string() }
}

#[test]
fn register_then_login_scenario() {
    let mut store = UserStore::new();
    let config = test_config();

    let resp = register_user(&mut store, &register_payload("alice", "alice@x.com", "secret1"), &config)
        .expect("fresh registration must succeed");
    assert!(!resp.id.is_empty());
    assert_eq!(resp.id.len(), 36);
    assert!(!resp.token.is_empty());
    assert_eq!(resp.username, "alice");
    assert_eq!(resp.email, "alice@x.com");
    assert!(chrono::DateTime::parse_from_rfc3339(&resp.created_at).is_ok());
    assert!(resp.created_at.len() >= 25);
    assert!(resp.created_at.ends_with("+00:00"));
    assert_eq!(store.len(), 1);

    let err = register_user(&mut store, &register_payload("alice", "bob@x.com", "secret2"), &config)
        .expect_err("reused username must be rejected");
    assert_eq!(err.status_code(), 400);
    assert_eq!(err.error_body(), "{\"error\":\"Username or email already exists.\"}");
    assert_eq!(store.len(), 1);

    let err = login_user(&store, &login_payload("alice", "wrongpass"), &config)
        .expect_err("wrong password must be rejected");
    assert_eq!(err.status_code(), 401);
    assert_eq!(err.error_body(), "{\"error\":\"Invalid username or password\"}");

    let resp = login_user(&store, &login_payload("alice", "secret1"), &config)
        .expect("correct credentials must log in");
    assert!(!resp.token.is_empty());
}

#[test]
fn duplicate_email_rejected() {
    let mut store = UserStore::new();
    let config = test_config();
    register_user(&mut store, &register_payload("carol", "carol@x.com", "secret1"), &config)
        .expect("fresh registration must succeed");
    let err = register_user(&mut store, &register_payload("carola", "carol@x.com", "secret2"), &config)
        .expect_err("reused email must be rejected");
    assert!(matches!(err, AppError::ValidationError(_)));
    assert_eq!(err.public_message(), "Username or email already exists.");
    assert_eq!(store.len(), 1);
}

#[test]
fn unknown_user_and_wrong_password_are_indistinguishable() {
    let mut store = UserStore::new();
    let config = test_config();
    register_user(&mut store, &register_payload("alice", "alice@x.com", "secret1"), &config)
        .expect("fresh registration must succeed");

    let unknown = login_user(&store, &login_payload("nobody", "whatever1"), &config)
        .expect_err("unknown username must be rejected");
    let wrong = login_user(&store, &login_payload("alice", "wrongpass"), &config)
        .expect_err("wrong password must be rejected");
    assert_eq!(unknown.status_code(), wrong.status_code());
    assert_eq!(unknown.error_body(), wrong.error_body());
    assert_eq!(unknown.error_body().into_bytes(), wrong.error_body().into_bytes());
}

#[test]
fn short_username_rejected() {
    let mut store = UserStore::new();
    let config = test_config();
    let err = register_user(&mut store, &register_payload("al", "al@x.com", "secret1"), &config)
        .expect_err("two-character username must be rejected");
    assert_eq!(err.status_code(), 400);
    assert_eq!(err.public_message(), "Username must be at least 3 characters long");
    assert_eq!(store.len(), 0);
}

#[test]
fn malformed_email_rejected() {
    let mut store = UserStore::new();
    let config = test_config();
    for email in ["", "no-at-sign", "a@", "@x.com", "a b@x.com"] {
        let err = register_user(&mut store, &register_payload("dave", email, "secret1"), &config)
            .expect_err("malformed email must be rejected");
        assert_eq!(err.status_code(), 400);
        assert_eq!(err.public_message(), "Invalid email address");
    }
    assert_eq!(store.len(), 0);
}

#[test]
fn short_password_rejected() {
    let mut store = UserStore::new();
    let config = test_config();
    let err = register_user(&mut store, &register_payload("erin", "erin@x.com", "five5"), &config)
        .expect_err("five-character password must be rejected");
    assert_eq!(err.status_code(), 400);
    assert_eq!(err.public_message(), "Password must be at least 6 characters long");
    assert_eq!(store.len(), 0);

    let err = login_user(&store, &login_payload("erin", "five5"), &config)
        .expect_err("five-character password must be rejected at login too");
    assert_eq!(err.public_message(), "Password must be at least 6 characters long");
}

#[test]
fn minimum_lengths_accepted() {
    let mut store = UserStore::new();
    let config = test_config();
    register_user(&mut store, &register_payload("bob", "b@x.com", "sixsix"), &config)
        .expect("three-character username and six-character password must pass");
    assert_eq!(store.len(), 1);
    login_user(&store, &login_payload("bob", "sixsix"), &config)
        .expect("the same credentials must log in");
}

#[test]
fn missing_secret_fails_the_request_only() {
    let mut store = UserStore::new();
    let no_secret = AuthConfig { secret: None };
    let err = register_user(&mut store, &register_payload("fred", "fred@x.com", "secret1"), &no_secret)
        .expect_err("registration cannot issue a token without a secret");
    assert_eq!(err.status_code(), 401);
    assert_eq!(err.public_message(), "JWT_SECRET not set");
    // The token-issuance failure comes after the insert: the account exists.
    assert_eq!(store.len(), 1);

    let err = login_user(&store, &login_payload("fred", "secret1"), &no_secret)
        .expect_err("login cannot issue a token without a secret");
    assert_eq!(err.status_code(), 401);
    assert_eq!(err.public_message(), "JWT_SECRET not set");
}

#[test]
fn registration_token_belongs_to_the_new_account() {
    let mut store = UserStore::new();
    let config = test_config();
    let resp = register_user(&mut store, &register_payload("gina", "gina@x.com", "secret1"), &config)
        .expect("fresh registration must succeed");
    let now = chrono::Utc::now().timestamp() as u64;
    let subject = study_auth::validate_token(&resp.token, now, &config)
        .expect("a freshly issued token must validate");
    assert_eq!(subject, resp.id);
}

#[test]
fn login_token_belongs_to_the_account() {
    let mut store = UserStore::new();
    let config = test_config();
    let resp = register_user(&mut store, &register_payload("hugo", "hugo@x.com", "secret1"), &config)
        .expect("fresh registration must succeed");
    let login = login_user(&store, &login_payload("hugo", "secret1"), &config)
        .expect("correct credentials must log in");
    let now = chrono::Utc::now().timestamp() as u64;
    let subject = study_auth::validate_token(&login.token, now, &config)
        .expect("a freshly issued token must validate");
    assert_eq!(subject, resp.id);
}
