//! Issuance and validation of time-bounded signed identity tokens. A token
//! carries a subject (the account id) and an expiration time, a fixed 24
//! hours after issuance, and is signed with a server-held secret. Validity is
//! determined purely by the signature and the expiry check.

use vstd::prelude::*;

use crate::errors::{AppError, MSG_BAD_EXPIRY, MSG_INVALID_TOKEN, MSG_SECRET_MISSING};

verus! {

/// How long an issued token stays valid, in seconds: 24 hours.
pub const TOKEN_TTL_SECONDS: u64 = 24 * 60 * 60;

/// The configuration of the authentication core, built once at startup and
/// passed into the flows: the token-signing secret, absent when the process
/// environment did not provide one. An absent secret fails each affected
/// request, never the process.
pub struct AuthConfig {
    pub secret: Option<Vec<u8>>,
}

/// The signed token that carries subject `sub` and expiration `exp` under
/// `secret`: a deterministic function of the three.
pub uninterp spec fn jwt_of(sub: Seq<char>, exp: u64, secret: Seq<u8>) -> Seq<char>;

/// The claims that decoding recovers from `token` under `secret`: `None`
/// whenever decoding rejects the token (malformed, wrongly signed, or
/// carrying claims the fixed validation settings refuse), otherwise the
/// subject and the expiration time. A deterministic function of the two.
pub uninterp spec fn jwt_claims(token: Seq<char>, secret: Seq<u8>) -> Option<(Seq<char>, u64)>;

/// Whether `token` is to be accepted at time `now`: its signature verifies
/// under `secret` and its expiration lies strictly in the future.
pub open spec fn token_accepted(token: Seq<char>, now: u64, secret: Seq<u8>) -> bool {
    match jwt_claims(token, secret) {
        Some(c) => now < c.1,
        None => false,
    }
}

/// The subject a well-signed token carries; the empty sequence otherwise.
pub open spec fn token_subject(token: Seq<char>, secret: Seq<u8>) -> Seq<char> {
    match jwt_claims(token, secret) {
        Some(c) => c.0,
        None => Seq::empty(),
    }
}

/// Relies on jsonwebtoken::encode with the default HS256 header and a plain
/// secret key: the token is a deterministic function of subject, expiration
/// and secret, and jsonwebtoken::decode under the same secret recovers
/// exactly these two claims. For the HMAC family, signing cannot fail.
#[verifier::external_body]
fn encode_token(sub: &String, exp: u64, secret: &Vec<u8>) -> (r: String)
    ensures
        r@ == jwt_of(sub@, exp, secret@),
        jwt_claims(r@, secret@) == Some((sub@, exp)),
        r@.len() > 0,
{
    let mut claims = serde_json::Map::new();
    claims.insert("sub".to_string(), serde_json::Value::String(sub.clone()));
    claims.insert("exp".to_string(), serde_json::Value::from(exp));
    let key = jsonwebtoken::EncodingKey::from_secret(secret);
    jsonwebtoken::encode(
        &jsonwebtoken::Header::default(),
        &serde_json::Value::Object(claims),
        &key,
    ).expect("signing with an HMAC secret cannot fail")
}

/// Relies on jsonwebtoken::decode with HS256 and expiry validation turned
/// off: signature checking and claim extraction are a deterministic function
/// of the token and the secret alone. Whether the token has expired is judged
/// by the caller.
#[verifier::external_body]
fn decode_claims(token: &String, secret: &Vec<u8>) -> (r: Option<(String, u64)>)
    ensures
        r is Some <==> jwt_claims(token@, secret@) is Some,
        r matches Some(c) ==> jwt_claims(token@, secret@) == Some((c.0@, c.1)),
{
    let mut validation = jsonwebtoken::Validation::new(jsonwebtoken::Algorithm::HS256);
    validation.validate_exp = false;
    validation.required_spec_claims = std::collections::HashSet::new();
    let key = jsonwebtoken::DecodingKey::from_secret(secret);
    match jsonwebtoken::decode::<serde_json::Value>(token.as_str(), &key, &validation) {
        Ok(data) => {
            let sub = data.claims.get("sub").and_then(|v| v.as_str());
            let exp = data.claims.get("exp").and_then(|v| v.as_u64());
            match (sub, exp) {
                (Some(s), Some(e)) => Some((s.to_string(), e)),
                _ => None,
            }
        },
        Err(_) => None,
    }
}

/// Issues a token for `subject` at time `now`: the claims are the subject and
/// `now` plus the fixed validity window, signed with the configured secret.
/// Fails when the expiration does not fit the representable range, and when
/// no secret is configured; in that order, as a fault of the request alone.
pub fn issue_token(subject: &String, now: u64, config: &AuthConfig) -> (r: Result<String, AppError>)
    ensures
        now + TOKEN_TTL_SECONDS > u64::MAX ==> (r matches Err(AppError::AuthenticationError(m))
            && m@ == MSG_BAD_EXPIRY@),
        now + TOKEN_TTL_SECONDS <= u64::MAX && config.secret is None ==> (r matches Err(
            AppError::AuthenticationError(m),
        ) && m@ == MSG_SECRET_MISSING@),
        now + TOKEN_TTL_SECONDS <= u64::MAX ==> (config.secret matches Some(s) ==> (r matches Ok(t)
            && t@ == jwt_of(subject@, (now + TOKEN_TTL_SECONDS) as u64, s@)
            && jwt_claims(t@, s@) == Some((subject@, (now + TOKEN_TTL_SECONDS) as u64))
            && t@.len() > 0)),
{
    let exp = match now.checked_add(TOKEN_TTL_SECONDS) {
        Some(e) => e,
        None => {
            return Err(AppError::AuthenticationError(MSG_BAD_EXPIRY.to_owned()));
        },
    };
    match &config.secret {
        Some(secret) => Ok(encode_token(subject, exp, secret)),
        None => Err(AppError::AuthenticationError(MSG_SECRET_MISSING.to_owned())),
    }
}

/// Validates `token` at time `now`: succeeds with the subject exactly when
/// the signature verifies under the configured secret and the expiration
/// lies strictly in the future; any malformed, wrongly signed or expired
/// token is rejected with a single generic message.
pub fn validate_token(token: &String, now: u64, config: &AuthConfig) -> (r: Result<
    String,
    AppError,
>)
    ensures
        config.secret is None ==> (r matches Err(AppError::AuthenticationError(m)) && m@
            == MSG_SECRET_MISSING@),
        config.secret matches Some(s) ==> (r is Ok <==> token_accepted(token@, now, s@)),
        config.secret matches Some(s) ==> (r matches Ok(sub) ==> sub@ == token_subject(
            token@,
            s@,
        )),
        config.secret matches Some(s) ==> (r matches Err(e) ==> (e matches
            AppError::AuthenticationError(m) && m@ == MSG_INVALID_TOKEN@)),
{
    let secret = match &config.secret {
        Some(s) => s,
        None => {
            return Err(AppError::AuthenticationError(MSG_SECRET_MISSING.to_owned()));
        },
    };
    match decode_claims(token, secret) {
        Some((sub, exp)) => {
            if now < exp {
                Ok(sub)
            } else {
                Err(AppError::AuthenticationError(MSG_INVALID_TOKEN.to_owned()))
            }
        },
        None => Err(AppError::AuthenticationError(MSG_INVALID_TOKEN.to_owned())),
    }
}

} // verus!
