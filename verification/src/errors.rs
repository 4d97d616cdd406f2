//! The error taxonomy of the authentication core, and its mapping to the
//! transport boundary: each error kind carries a message, and pure functions
//! give the status code and the (sometimes redacted) outward message.

use vstd::prelude::*;

verus! {

/// Message for an input whose username is shorter than three characters.
pub const MSG_USERNAME_TOO_SHORT: &'static str = "Username must be at least 3 characters long";

/// Message for an input whose email fails the structural check.
pub const MSG_INVALID_EMAIL: &'static str = "Invalid email address";

/// Message for an input whose password is shorter than six characters.
pub const MSG_PASSWORD_TOO_SHORT: &'static str = "Password must be at least 6 characters long";

/// Message for a registration whose username or email is already taken.
pub const MSG_DUPLICATE: &'static str = "Username or email already exists.";

/// The single message for a failed login, whether the username is unknown or
/// the password is wrong: the caller must not be able to tell the two apart.
pub const MSG_INVALID_CREDENTIALS: &'static str = "Invalid username or password";

/// Message when the signing secret is not configured.
pub const MSG_SECRET_MISSING: &'static str = "JWT_SECRET not set";

/// Message when the expiration time cannot be represented.
pub const MSG_BAD_EXPIRY: &'static str = "Invalid expiration time";

/// Message for a token that is malformed, wrongly signed or expired.
pub const MSG_INVALID_TOKEN: &'static str = "Invalid token";

/// Outward message for any storage fault: deliberately generic, so that no
/// storage detail leaks across the boundary.
pub const MSG_INTERNAL: &'static str = "Internal server error";

/// Outward message for any fault of the hashing subsystem: only the category
/// is reported, never the underlying detail.
pub const MSG_HASHING_FAILED: &'static str = "Password processing failed";

/// A request-scoped failure of the authentication core.
///
/// Exactly four kinds: a storage fault, bad input or a uniqueness conflict,
/// a fault of the hashing subsystem, and a credential or token-issuance
/// failure. Each carries a human-readable message.
#[derive(Debug, Clone, PartialEq)]
pub enum AppError {
    DatabaseError(String),
    ValidationError(String),
    HashingError(String),
    AuthenticationError(String),
}

/// The HTTP status code the transport reports for an error: user-correctable
/// input problems are 400, credential problems 401, server-side faults 500.
pub open spec fn status_of(e: AppError) -> u16 {
    match e {
        AppError::DatabaseError(_) => 500u16,
        AppError::ValidationError(_) => 400u16,
        AppError::HashingError(_) => 500u16,
        AppError::AuthenticationError(_) => 401u16,
    }
}

/// The message the transport may show for an error. Storage and hashing
/// faults are redacted to a fixed category; the other kinds carry messages
/// meant for the caller and surface them unchanged.
pub open spec fn outward_message_of(e: AppError) -> Seq<char> {
    match e {
        AppError::DatabaseError(_) => MSG_INTERNAL@,
        AppError::ValidationError(m) => m@,
        AppError::HashingError(_) => MSG_HASHING_FAILED@,
        AppError::AuthenticationError(m) => m@,
    }
}

/// The JSON body of a failure response. No message of this core contains a
/// character that JSON would require escaping.
pub open spec fn body_of(e: AppError) -> Seq<char> {
    "{\"error\":\""@ + outward_message_of(e) + "\"}"@
}

impl AppError {
    /// The HTTP status code for this error.
    pub fn status_code(&self) -> (code: u16)
        ensures
            code == status_of(*self),
    {
        match self {
            AppError::DatabaseError(_) => 500,
            AppError::ValidationError(_) => 400,
            AppError::HashingError(_) => 500,
            AppError::AuthenticationError(_) => 401,
        }
    }

    /// The outward message for this error, redacted for server-side faults.
    pub fn public_message(&self) -> (m: String)
        ensures
            m@ == outward_message_of(*self),
    {
        match self {
            AppError::DatabaseError(_) => MSG_INTERNAL.to_owned(),
            AppError::ValidationError(m) => m.clone(),
            AppError::HashingError(_) => MSG_HASHING_FAILED.to_owned(),
            AppError::AuthenticationError(m) => m.clone(),
        }
    }

    /// The JSON body of the failure response for this error.
    pub fn error_body(&self) -> (b: String)
        ensures
            b@ == body_of(*self),
    {
        let mut b = String::from_str("{\"error\":\"");
        let m = self.public_message();
        b.append(m.as_str());
        b.append("\"}");
        b
    }
}

} // verus!
