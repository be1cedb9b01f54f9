//! Sign-ups waiting for email verification.

use vstd::prelude::*;

verus! {

/// A sign-up waiting for its email to be verified.
#[derive(Debug, Clone)]
pub struct TempUser {
    pub id: u128,
    pub email: Option<String>,
    pub name: Option<String>,
    pub password: Option<String>,
    pub verify_type: Option<String>,
    pub passkey: Option<String>,
    pub try_limit: Option<i16>,
    pub iat: Option<i64>,
    pub exp: Option<i64>,
    pub created_at: Option<i64>,
    pub updated_at: Option<i64>,
}

} // verus!
