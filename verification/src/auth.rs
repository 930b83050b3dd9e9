//! Authentication: the claims of an access token and the users that
//! requests are made by.
use vstd::prelude::*;

use crate::text::owned;

verus! {

/// The issuer every access token names, and checks for.
pub const TOKEN_ISSUER: &'static str = "randimg";

/// The audience every access token names, and checks for.
pub const TOKEN_AUDIENCE: &'static str = "randimg-api";

/// The claims carried by an access token.
#[derive(Debug)]
pub struct Claims {
    pub sub: String,
    pub exp: usize,
    pub iss: String,
    pub aud: String,
}

impl Claims {
    /// The claims of a token for `username` that expires at `exp` (seconds
    /// since the Unix epoch).
    pub fn for_user(username: &str, exp: usize) -> (r: Claims)
        ensures
            r.sub@ == username@,
            r.exp == exp,
            r.iss@ == TOKEN_ISSUER@,
            r.aud@ == TOKEN_AUDIENCE@,
    {
        Claims { sub: owned(username), exp, iss: owned(TOKEN_ISSUER), aud: owned(TOKEN_AUDIENCE) }
    }
}

/// A login request.
#[derive(Debug)]
pub struct LoginRequest {
    pub username: String,
    pub password: String,
}

/// The user a request must be authenticated as.
#[derive(Debug)]
pub struct AuthUser {
    pub username: String,
}

/// The user a request may be authenticated as.
#[derive(Debug)]
pub struct OptionalAuthUser {
    pub username: Option<String>,
}

impl AuthUser {
    /// The user named by verified token claims.
    pub fn from_claims(claims: Claims) -> (r: AuthUser)
        ensures
            r.username == claims.sub,
    {
        AuthUser { username: claims.sub }
    }
}

impl OptionalAuthUser {
    /// The user named by the token claims, when a token was presented and
    /// verified; nobody otherwise.
    pub fn from_claims(claims: Option<Claims>) -> (r: OptionalAuthUser)
        ensures
            r.username == match claims {
                Some(c) => Some(c.sub),
                None => None::<String>,
            },
    {
        match claims {
            Some(c) => OptionalAuthUser { username: Some(c.sub) },
            None => OptionalAuthUser { username: None },
        }
    }

    /// Whether the request is made by an administrator (any authenticated
    /// user is one).
    pub fn is_admin(&self) -> (r: bool)
        ensures
            r == self.username is Some,
    {
        self.username.is_some()
    }
}

} // verus!
