//! One-way hashing and verification of plaintext passwords, with a fixed
//! default work factor and a fresh random salt for every hash.

use vstd::prelude::*;

use crate::errors::AppError;

verus! {

/// Whether `h` is a hash string that the verifier accepts as structurally
/// valid: correctly framed, with a known prefix and an allowed cost.
pub uninterp spec fn bcrypt_valid_hash(h: Seq<char>) -> bool;

/// Whether plaintext `p` matches hash string `h`: a deterministic function of
/// the two, recomputed from the salt carried inside `h`.
pub uninterp spec fn bcrypt_matches(p: Seq<char>, h: Seq<char>) -> bool;

/// Relies on bcrypt::hash with DEFAULT_COST: on success the result is a
/// 60-character hash string that bcrypt::verify accepts and that matches the
/// plaintext it was computed from. The cost is fixed and always allowed, so
/// the call fails only when the system randomness source fails.
#[verifier::external_body]
pub fn hash_password(plain: &String) -> (r: Result<String, AppError>)
    ensures
        r matches Ok(h) ==> bcrypt_valid_hash(h@) && bcrypt_matches(plain@, h@) && h@.len() == 60,
        r matches Err(e) ==> e matches AppError::HashingError(_),
{
    match bcrypt::hash(plain, bcrypt::DEFAULT_COST) {
        Ok(h) => Ok(h),
        Err(e) => Err(AppError::HashingError(e.to_string())),
    }
}

/// Relies on bcrypt::verify: a constant-time comparison that is a
/// deterministic function of the plaintext and the hash string. It returns an
/// error exactly when the hash string itself is not structurally valid, and
/// never for a routine mismatch.
#[verifier::external_body]
pub fn verify_password(plain: &String, hashed: &String) -> (r: Result<bool, AppError>)
    ensures
        r is Ok <==> bcrypt_valid_hash(hashed@),
        r matches Ok(b) ==> b == bcrypt_matches(plain@, hashed@),
        r matches Err(e) ==> e matches AppError::HashingError(_),
{
    match bcrypt::verify(plain, hashed.as_str()) {
        Ok(b) => Ok(b),
        Err(e) => Err(AppError::HashingError(e.to_string())),
    }
}

} // verus!
