//! The cross-function guarantees of the authentication core, stated and
//! proved over the same spec functions that the flows' contracts use.

use vstd::prelude::*;

use crate::errors::{
    body_of, outward_message_of, status_of, AppError, MSG_INVALID_CREDENTIALS,
};
use crate::flows::stored_new_account;
use crate::store::{has_email, has_username, User};
use crate::token::{jwt_claims, token_accepted, token_subject, TOKEN_TTL_SECONDS};

verus! {

/// Law: a token issued for a subject at some time carries that subject and
/// stays accepted for strictly less than the full validity window after
/// issuance — in particular at issuance itself and one minute before the
/// window closes — and is rejected at every time from the window's end on.
pub proof fn lemma_token_validity_window(
    token: Seq<char>,
    subject: Seq<char>,
    issued_at: u64,
    secret: Seq<u8>,
)
    requires
        issued_at + TOKEN_TTL_SECONDS <= u64::MAX,
        jwt_claims(token, secret) == Some(
            (subject, (issued_at + TOKEN_TTL_SECONDS) as u64),
        ),
    ensures
        token_subject(token, secret) == subject,
        forall|t: u64| t < issued_at + TOKEN_TTL_SECONDS ==> token_accepted(token, t, secret),
        token_accepted(token, issued_at, secret),
        issued_at + TOKEN_TTL_SECONDS - 60 <= u64::MAX ==> token_accepted(
            token,
            (issued_at + TOKEN_TTL_SECONDS - 60) as u64,
            secret,
        ),
        forall|t: u64| t >= issued_at + TOKEN_TTL_SECONDS ==> !token_accepted(token, t, secret),
{
}

/// Law: once a registration has stored an account, its username and its
/// email are present in the store, so any later registration that reuses
/// either one finds a uniqueness conflict, and the registration flow's
/// contract then pins the outcome: a `ValidationError` carrying the conflict
/// message, with the store left unchanged — no second account.
pub proof fn lemma_second_registration_conflicts(
    before: Seq<User>,
    after: Seq<User>,
    id: Seq<char>,
    username: Seq<char>,
    email: Seq<char>,
    password: Seq<char>,
    created_at: Seq<char>,
)
    requires
        stored_new_account(before, after, id, username, email, password, created_at),
    ensures
        has_username(after, username),
        has_email(after, email),
{
    assert(after[after.len() - 1].username@ == username);
    assert(after[after.len() - 1].email@ == email);
}

/// Law: a login rejected because the username is unknown and a login rejected
/// because the password is wrong carry the same error kind, the same message,
/// the same status code and the same response body: the caller cannot tell
/// the two apart. The flows' contracts pin both rejections to an
/// `AuthenticationError` with this one message.
pub proof fn lemma_login_rejections_indistinguishable(e1: AppError, e2: AppError)
    requires
        e1 matches AppError::AuthenticationError(m1) && m1@ == MSG_INVALID_CREDENTIALS@,
        e2 matches AppError::AuthenticationError(m2) && m2@ == MSG_INVALID_CREDENTIALS@,
    ensures
        status_of(e1) == status_of(e2),
        outward_message_of(e1) == outward_message_of(e2),
        body_of(e1) == body_of(e2),
{
}

} // verus!
