//! The registration and authentication flows. Each is a linear sequence of
//! steps that can short-circuit to a classified failure: validate the input,
//! consult the account repository, hash or verify the credential, and issue a
//! signed token. The variants that take the identifier and the time as
//! arguments carry the exact contracts; the variants without them draw a
//! fresh identifier and the current time and inherit every clause that does
//! not depend on those values.

use vstd::prelude::*;

use crate::errors::{
    AppError, MSG_BAD_EXPIRY, MSG_DUPLICATE, MSG_INVALID_CREDENTIALS, MSG_INVALID_EMAIL,
    MSG_PASSWORD_TOO_SHORT, MSG_SECRET_MISSING, MSG_USERNAME_TOO_SHORT,
};
use crate::hasher::{bcrypt_matches, bcrypt_valid_hash, hash_password, verify_password};
use crate::store::{has_email, has_id, has_username, user_with_username, User, UserStore};
use crate::token::{issue_token, jwt_claims, jwt_of, AuthConfig, TOKEN_TTL_SECONDS};
use crate::validation::{
    email_valid, login_input_valid, register_input_valid, valid_password, valid_username,
    validate_login, validate_register, LoginPayload, RegisterPayload,
};

verus! {

/// The body of a successful registration response. The password hash is
/// deliberately absent: it is never returned.
#[derive(Debug, Clone)]
pub struct RegisterResponse {
    pub id: String,
    pub username: String,
    pub email: String,
    pub token: String,
    pub created_at: String,
}

/// The body of a successful login response.
#[derive(Debug, Clone)]
pub struct LoginResponse {
    pub token: String,
}

/// Whether `r` is a `ValidationError` carrying exactly `msg`.
pub open spec fn is_validation_error<T>(r: Result<T, AppError>, msg: Seq<char>) -> bool {
    r matches Err(AppError::ValidationError(m)) && m@ == msg
}

/// Whether `r` is an `AuthenticationError` carrying exactly `msg`.
pub open spec fn is_auth_error<T>(r: Result<T, AppError>, msg: Seq<char>) -> bool {
    r matches Err(AppError::AuthenticationError(m)) && m@ == msg
}

/// Whether `after` is `before` with exactly one new account appended, whose
/// fields are the given ones and whose stored hash is a well-formed hash
/// matching the given plaintext. The plaintext itself is not stored.
pub open spec fn stored_new_account(
    before: Seq<User>,
    after: Seq<User>,
    id: Seq<char>,
    username: Seq<char>,
    email: Seq<char>,
    password: Seq<char>,
    created_at: Seq<char>,
) -> bool {
    &&& after.len() == before.len() + 1
    &&& after =~= before.push(after.last())
    &&& after.last().id@ == id
    &&& after.last().username@ == username
    &&& after.last().email@ == email
    &&& after.last().created_at@ == created_at
    &&& bcrypt_valid_hash(after.last().password_hash@)
    &&& bcrypt_matches(password, after.last().password_hash@)
}

/// The registration flow with the generated identifier and the clock passed
/// in. Steps, each able to short-circuit: validate the input shape; check
/// uniqueness of username and email; hash the password; insert the account
/// (the repository is the authoritative uniqueness enforcer); issue a token
/// for the new id. A failure of token issuance comes after the insert, so on
/// that path alone the account exists even though the request failed.
pub fn register_at(
    store: &mut UserStore,
    payload: &RegisterPayload,
    config: &AuthConfig,
    user_id: String,
    now: u64,
    created_at: String,
) -> (r: Result<RegisterResponse, AppError>)
    requires
        old(store).wf(),
    ensures
        final(store).wf(),
        !valid_username(payload.username@) ==> is_validation_error(r, MSG_USERNAME_TOO_SHORT@)
            && final(store)@ == old(store)@,
        valid_username(payload.username@) && !email_valid(payload.email@) ==> is_validation_error(
            r,
            MSG_INVALID_EMAIL@,
        ) && final(store)@ == old(store)@,
        valid_username(payload.username@) && email_valid(payload.email@) && !valid_password(
            payload.password@,
        ) ==> is_validation_error(r, MSG_PASSWORD_TOO_SHORT@) && final(store)@ == old(store)@,
        register_input_valid(*payload) && (has_username(old(store)@, payload.username@)
            || has_email(old(store)@, payload.email@)) ==> is_validation_error(r, MSG_DUPLICATE@)
            && final(store)@ == old(store)@,
        register_input_valid(*payload) && !has_username(old(store)@, payload.username@)
            && !has_email(old(store)@, payload.email@) ==> match r {
            Ok(resp) => {
                &&& !has_id(old(store)@, user_id@)
                &&& now + TOKEN_TTL_SECONDS <= u64::MAX
                &&& stored_new_account(
                    old(store)@,
                    final(store)@,
                    user_id@,
                    payload.username@,
                    payload.email@,
                    payload.password@,
                    created_at@,
                )
                &&& resp.id@ == user_id@
                &&& resp.username@ == payload.username@
                &&& resp.email@ == payload.email@
                &&& resp.created_at@ == created_at@
                &&& config.secret is Some
                &&& resp.token@.len() > 0
                &&& (config.secret matches Some(s) ==> resp.token@ == jwt_of(
                    user_id@,
                    (now + TOKEN_TTL_SECONDS) as u64,
                    s@,
                ) && jwt_claims(resp.token@, s@) == Some(
                    (user_id@, (now + TOKEN_TTL_SECONDS) as u64),
                ))
            },
            Err(e) => {
                ||| (e matches AppError::HashingError(_) && final(store)@ == old(store)@)
                ||| (e matches AppError::DatabaseError(_) && final(store)@ == old(store)@
                    && has_id(old(store)@, user_id@))
                ||| ((is_auth_error(r, MSG_BAD_EXPIRY@) && now + TOKEN_TTL_SECONDS > u64::MAX || (
                is_auth_error(r, MSG_SECRET_MISSING@) && now + TOKEN_TTL_SECONDS <= u64::MAX
                    && config.secret is None)) && stored_new_account(
                    old(store)@,
                    final(store)@,
                    user_id@,
                    payload.username@,
                    payload.email@,
                    payload.password@,
                    created_at@,
                ))
            },
        },
        register_input_valid(*payload) && !has_username(old(store)@, payload.username@)
            && !has_email(old(store)@, payload.email@) && !has_id(old(store)@, user_id@)
            && config.secret is Some && now + TOKEN_TTL_SECONDS <= u64::MAX ==> (r is Ok
            || r matches Err(AppError::HashingError(_))),
{
    if let Err(e) = validate_register(payload) {
        return Err(e);
    }
    if store.has_conflict(&payload.username, &payload.email) {
        return Err(AppError::ValidationError(MSG_DUPLICATE.to_owned()));
    }
    let password_hash = match hash_password(&payload.password) {
        Ok(h) => h,
        Err(e) => {
            return Err(e);
        },
    };
    let user = User {
        id: user_id.clone(),
        username: payload.username.clone(),
        email: payload.email.clone(),
        password_hash,
        created_at: created_at.clone(),
    };
    if let Err(e) = store.insert(user) {
        return Err(e);
    }
    let token = match issue_token(&user_id, now, config) {
        Ok(t) => t,
        Err(e) => {
            return Err(e);
        },
    };
    Ok(
        RegisterResponse {
            id: user_id,
            username: payload.username.clone(),
            email: payload.email.clone(),
            token,
            created_at,
        },
    )
}

/// The authentication flow with the clock passed in. Steps: validate the
/// input shape; look the account up by username; verify the password against
/// the stored hash; issue a token for the account's id. An unknown username
/// and a wrong password are deliberately indistinguishable: both produce the
/// same generic failure. Only a structurally invalid stored hash surfaces as
/// a hashing fault.
pub fn login_at(store: &UserStore, payload: &LoginPayload, config: &AuthConfig, now: u64) -> (r:
    Result<LoginResponse, AppError>)
    requires
        store.wf(),
    ensures
        !valid_username(payload.username@) ==> is_validation_error(r, MSG_USERNAME_TOO_SHORT@),
        valid_username(payload.username@) && !valid_password(payload.password@)
            ==> is_validation_error(r, MSG_PASSWORD_TOO_SHORT@),
        login_input_valid(*payload) && !has_username(store@, payload.username@) ==> is_auth_error(
            r,
            MSG_INVALID_CREDENTIALS@,
        ),
        login_input_valid(*payload) && has_username(store@, payload.username@) ==> ({
            let u = user_with_username(store@, payload.username@);
            &&& !bcrypt_valid_hash(u.password_hash@) ==> (r matches Err(e) && e matches
                AppError::HashingError(_))
            &&& bcrypt_valid_hash(u.password_hash@) && !bcrypt_matches(
                payload.password@,
                u.password_hash@,
            ) ==> is_auth_error(r, MSG_INVALID_CREDENTIALS@)
            &&& bcrypt_valid_hash(u.password_hash@) && bcrypt_matches(
                payload.password@,
                u.password_hash@,
            ) ==> {
                &&& now + TOKEN_TTL_SECONDS > u64::MAX ==> is_auth_error(r, MSG_BAD_EXPIRY@)
                &&& now + TOKEN_TTL_SECONDS <= u64::MAX && config.secret is None ==> is_auth_error(
                    r,
                    MSG_SECRET_MISSING@,
                )
                &&& now + TOKEN_TTL_SECONDS <= u64::MAX ==> (config.secret matches Some(s) ==> (
                r matches Ok(resp) && resp.token@.len() > 0 && resp.token@ == jwt_of(
                    u.id@,
                    (now + TOKEN_TTL_SECONDS) as u64,
                    s@,
                ) && jwt_claims(resp.token@, s@) == Some(
                    (u.id@, (now + TOKEN_TTL_SECONDS) as u64),
                )))
            }
        }),
{
    if let Err(e) = validate_login(payload) {
        return Err(e);
    }
    let user = match store.find_by_username(&payload.username) {
        Some(u) => u,
        None => {
            return Err(AppError::AuthenticationError(MSG_INVALID_CREDENTIALS.to_owned()));
        },
    };
    let credentials_match = match verify_password(&payload.password, &user.password_hash) {
        Ok(b) => b,
        Err(e) => {
            return Err(e);
        },
    };
    if !credentials_match {
        return Err(AppError::AuthenticationError(MSG_INVALID_CREDENTIALS.to_owned()));
    }
    match issue_token(&user.id, now, config) {
        Ok(t) => Ok(LoginResponse { token: t }),
        Err(e) => Err(e),
    }
}

/// Relies on uuid::Uuid::new_v4 and its hyphenated rendering: a fresh random
/// identifier of exactly 36 characters. Nothing relates two calls: the value
/// depends on randomness.
#[verifier::external_body]
fn fresh_uuid() -> (r: String)
    ensures
        r@.len() == 36,
{
    uuid::Uuid::new_v4().to_string()
}

/// Relies on chrono::Utc::now and its `timestamp`: the current time in
/// seconds since the Unix epoch. `Utc::now` refuses a system clock set before
/// the epoch, so the reading is never negative; beyond that the value depends
/// on the clock.
#[verifier::external_body]
fn clock_unix_seconds() -> (r: i64)
    ensures
        0 <= r,
{
    chrono::Utc::now().timestamp()
}

/// Relies on chrono::Utc::now and its `to_rfc3339`: the current time as an
/// RFC 3339 timestamp — date, `T`, time, then the fixed `+00:00` offset, at
/// least 25 characters in all. Which instant it names depends on the clock.
#[verifier::external_body]
fn clock_rfc3339() -> (r: String)
    ensures
        r@.len() >= 25,
        r@.subrange(r@.len() - 6, r@.len() as int) == "+00:00"@,
{
    chrono::Utc::now().to_rfc3339()
}

/// The registration flow against the real clock and a freshly generated
/// identifier. On a shape-valid payload whose username and email are unused,
/// the work is owed: the only failures left open are a fault of the hasher's
/// randomness, an identifier collision rejected by the store, and a missing
/// signing secret.
pub fn register_user(store: &mut UserStore, payload: &RegisterPayload, config: &AuthConfig) -> (r:
    Result<RegisterResponse, AppError>)
    requires
        old(store).wf(),
    ensures
        final(store).wf(),
        !valid_username(payload.username@) ==> is_validation_error(r, MSG_USERNAME_TOO_SHORT@)
            && final(store)@ == old(store)@,
        valid_username(payload.username@) && !email_valid(payload.email@) ==> is_validation_error(
            r,
            MSG_INVALID_EMAIL@,
        ) && final(store)@ == old(store)@,
        valid_username(payload.username@) && email_valid(payload.email@) && !valid_password(
            payload.password@,
        ) ==> is_validation_error(r, MSG_PASSWORD_TOO_SHORT@) && final(store)@ == old(store)@,
        register_input_valid(*payload) && (has_username(old(store)@, payload.username@)
            || has_email(old(store)@, payload.email@)) ==> is_validation_error(r, MSG_DUPLICATE@)
            && final(store)@ == old(store)@,
        register_input_valid(*payload) && !has_username(old(store)@, payload.username@)
            && !has_email(old(store)@, payload.email@) ==> (r is Ok || r matches Err(
            AppError::HashingError(_),
        ) || r matches Err(AppError::DatabaseError(_)) || (is_auth_error(r, MSG_SECRET_MISSING@)
            && config.secret is None)),
        r matches Err(e) ==> (e matches AppError::AuthenticationError(_) ==> final(store)@.len()
            == old(store)@.len() + 1),
        r matches Ok(resp) ==> {
            &&& register_input_valid(*payload)
            &&& !has_username(old(store)@, payload.username@)
            &&& !has_email(old(store)@, payload.email@)
            &&& resp.id@.len() == 36
            &&& resp.username@ == payload.username@
            &&& resp.email@ == payload.email@
            &&& resp.created_at@.len() >= 25
            &&& resp.created_at@.subrange(resp.created_at@.len() - 6, resp.created_at@.len() as int)
                == "+00:00"@
            &&& stored_new_account(
                old(store)@,
                final(store)@,
                resp.id@,
                payload.username@,
                payload.email@,
                payload.password@,
                resp.created_at@,
            )
            &&& config.secret is Some
            &&& resp.token@.len() > 0
            &&& (config.secret matches Some(s) ==> (jwt_claims(resp.token@, s@) matches Some(c)
                && c.0 == resp.id@))
        },
        r matches Err(e) ==> !(e matches AppError::AuthenticationError(_)) ==> final(store)@ == old(
            store,
        )@,
{
    let user_id = fresh_uuid();
    let now: u64 = clock_unix_seconds() as u64;
    let created_at = clock_rfc3339();
    register_at(store, payload, config, user_id, now, created_at)
}

/// The authentication flow against the real clock. Every failure clause of
/// `login_at` that does not depend on the clock holds here word for word, and
/// on correct credentials with a configured secret, success is owed.
pub fn login_user(store: &UserStore, payload: &LoginPayload, config: &AuthConfig) -> (r: Result<
    LoginResponse,
    AppError,
>)
    requires
        store.wf(),
    ensures
        !valid_username(payload.username@) ==> is_validation_error(r, MSG_USERNAME_TOO_SHORT@),
        valid_username(payload.username@) && !valid_password(payload.password@)
            ==> is_validation_error(r, MSG_PASSWORD_TOO_SHORT@),
        login_input_valid(*payload) && !has_username(store@, payload.username@) ==> is_auth_error(
            r,
            MSG_INVALID_CREDENTIALS@,
        ),
        login_input_valid(*payload) && has_username(store@, payload.username@) ==> ({
            let u = user_with_username(store@, payload.username@);
            &&& !bcrypt_valid_hash(u.password_hash@) ==> (r matches Err(e) && e matches
                AppError::HashingError(_))
            &&& bcrypt_valid_hash(u.password_hash@) && !bcrypt_matches(
                payload.password@,
                u.password_hash@,
            ) ==> is_auth_error(r, MSG_INVALID_CREDENTIALS@)
            &&& bcrypt_valid_hash(u.password_hash@) && bcrypt_matches(
                payload.password@,
                u.password_hash@,
            ) ==> {
                &&& config.secret is None ==> is_auth_error(r, MSG_SECRET_MISSING@)
                &&& (config.secret matches Some(s) ==> (r matches Ok(resp) && resp.token@.len() > 0
                    && (jwt_claims(resp.token@, s@) matches Some(c) && c.0 == u.id@)))
            }
        }),
{
    let now: u64 = clock_unix_seconds() as u64;
    login_at(store, payload, config, now)
}

} // verus!
