//! The input-validation rules shared by registration and login: a username of
//! at least three characters, a structurally valid email address, a password
//! of at least six characters. Any violation is reported as a
//! `ValidationError` with a fixed human-readable reason, before any side
//! effect is performed.

use vstd::prelude::*;

use crate::errors::{AppError, MSG_INVALID_EMAIL, MSG_PASSWORD_TOO_SHORT, MSG_USERNAME_TOO_SHORT};

verus! {

/// The body of a registration request.
#[derive(Debug, Clone)]
pub struct RegisterPayload {
    pub username: String,
    pub email: String,
    pub password: String,
}

/// The body of a login request.
#[derive(Debug, Clone)]
pub struct LoginPayload {
    pub username: String,
    pub password: String,
}

/// A username is acceptable when it has at least three characters.
pub open spec fn valid_username(s: Seq<char>) -> bool {
    s.len() >= 3
}

/// A password is acceptable when it has at least six characters.
pub open spec fn valid_password(s: Seq<char>) -> bool {
    s.len() >= 6
}

/// Whether `s` passes the structural email-address check: a deterministic
/// function of the characters alone.
pub uninterp spec fn email_valid(s: Seq<char>) -> bool;

/// Relies on validator's `ValidateEmail` for `String`: the HTML5 structural
/// email check. An empty string, or one without an `@`, is always rejected.
#[verifier::external_body]
fn check_email(s: &String) -> (r: bool)
    ensures
        r == email_valid(s@),
        s@.len() == 0 ==> !r,
{
    validator::ValidateEmail::validate_email(s)
}

/// Whether all three fields of a registration request are acceptable.
pub open spec fn register_input_valid(p: RegisterPayload) -> bool {
    valid_username(p.username@) && email_valid(p.email@) && valid_password(p.password@)
}

/// Whether both fields of a login request are acceptable.
pub open spec fn login_input_valid(p: LoginPayload) -> bool {
    valid_username(p.username@) && valid_password(p.password@)
}

/// Checks the shape of a registration request. Exactly the invalid requests
/// are rejected, with the reason for the first rule broken, in the order
/// username, email, password.
pub fn validate_register(payload: &RegisterPayload) -> (r: Result<(), AppError>)
    ensures
        r is Ok <==> register_input_valid(*payload),
        !valid_username(payload.username@) ==> (r matches Err(AppError::ValidationError(m))
            && m@ == MSG_USERNAME_TOO_SHORT@),
        valid_username(payload.username@) && !email_valid(payload.email@) ==> (r matches Err(
            AppError::ValidationError(m),
        ) && m@ == MSG_INVALID_EMAIL@),
        valid_username(payload.username@) && email_valid(payload.email@) && !valid_password(
            payload.password@,
        ) ==> (r matches Err(AppError::ValidationError(m)) && m@ == MSG_PASSWORD_TOO_SHORT@),
{
    if payload.username.as_str().unicode_len() < 3 {
        return Err(AppError::ValidationError(MSG_USERNAME_TOO_SHORT.to_owned()));
    }
    if !check_email(&payload.email) {
        return Err(AppError::ValidationError(MSG_INVALID_EMAIL.to_owned()));
    }
    if payload.password.as_str().unicode_len() < 6 {
        return Err(AppError::ValidationError(MSG_PASSWORD_TOO_SHORT.to_owned()));
    }
    Ok(())
}

/// Checks the shape of a login request: the same username and password rules
/// as registration.
pub fn validate_login(payload: &LoginPayload) -> (r: Result<(), AppError>)
    ensures
        r is Ok <==> login_input_valid(*payload),
        !valid_username(payload.username@) ==> (r matches Err(AppError::ValidationError(m))
            && m@ == MSG_USERNAME_TOO_SHORT@),
        valid_username(payload.username@) && !valid_password(payload.password@) ==> (r matches Err(
            AppError::ValidationError(m),
        ) && m@ == MSG_PASSWORD_TOO_SHORT@),
{
    if payload.username.as_str().unicode_len() < 3 {
        return Err(AppError::ValidationError(MSG_USERNAME_TOO_SHORT.to_owned()));
    }
    if payload.password.as_str().unicode_len() < 6 {
        return Err(AppError::ValidationError(MSG_PASSWORD_TOO_SHORT.to_owned()));
    }
    Ok(())
}

} // verus!
