//! The decisions that the user service takes between its database round trips: which
//! texts are kept, which names and addresses are free, and password checks.

use vstd::prelude::*;
use crate::dto::user_dto::UserCheckResponse;
use crate::error::{ApiError, UserError};
use crate::models::User;
use crate::service::UserService;

verus! {

/// Whether bcrypt accepts the password for the stored hash (`bcrypt::verify` giving
/// `Ok(true)`; a hash that does not parse counts as a refusal).
pub uninterp spec fn bcrypt_accepts(password: Seq<char>, hash: Seq<char>) -> bool;

/// Checks a password against a bcrypt hash (`bcrypt::verify`, with an error read as a
/// refusal). The contract claims only that the answer is the one that `bcrypt_accepts`
/// names for the password and the hash.
#[verifier::external_body]
fn bcrypt_verify(password: &str, hash: &str) -> (ok: bool)
    ensures
        ok == bcrypt_accepts(password@, hash@),
{
    bcrypt::verify(password, hash).unwrap_or(false)
}

/// The text where it is not empty.
pub open spec fn non_empty_text(t: Option<String>) -> Option<Seq<char>> {
    match t {
        Some(s) => if s@.len() > 0 {
            Some(s@)
        } else {
            None
        },
        None => None,
    }
}

impl UserService {
    /// Keeps a text only where it is not empty, as wallet addresses and new usernames
    /// are kept.
    pub fn non_empty(t: Option<String>) -> (r: Option<String>)
        ensures
            match non_empty_text(t) {
                Some(s) => r matches Some(v) && v@ == s,
                None => r is None,
            },
    {
        match t {
            Some(s) => {
                if s.unicode_len() > 0 {
                    Some(s)
                } else {
                    None
                }
            },
            None => None,
        }
    }

    /// A username may be taken by a user unless another user holds it.
    pub fn check_username_free(holder: Option<u128>, user_id: u128) -> (r: Result<(), ApiError>)
        ensures
            match holder {
                Some(h) => if h != user_id {
                    r == Err::<(), ApiError>(ApiError::UserError(UserError::UsernameAlreadyExists))
                } else {
                    r is Ok
                },
                None => r is Ok,
            },
    {
        if let Some(h) = holder {
            if h != user_id {
                return Err(ApiError::UserError(UserError::UsernameAlreadyExists));
            }
        }
        Ok(())
    }

    /// An account is opened with an email address only where no account has it yet.
    pub fn check_email_free(taken: bool) -> (r: Result<(), ApiError>)
        ensures
            taken ==> r == Err::<(), ApiError>(ApiError::UserError(UserError::UserAlreadyExists)),
            !taken ==> r is Ok,
    {
        if taken {
            return Err(ApiError::UserError(UserError::UserAlreadyExists));
        }
        Ok(())
    }

    /// Whether a name or an address is available: where no user holds it.
    pub fn availability(found: bool) -> (r: UserCheckResponse)
        ensures
            r.is_available == !found,
    {
        UserCheckResponse { is_available: !found }
    }

    /// Whether the password matches the user's stored bcrypt hash; the user must have one.
    pub fn verify_password(&self, user: &User, password: &str) -> (ok: bool)
        requires
            user.password is Some,
        ensures
            ok == bcrypt_accepts(password@, user.password->0@),
    {
        match &user.password {
            Some(hash) => bcrypt_verify(password, hash.as_str()),
            None => false,
        }
    }
}

} // verus!
