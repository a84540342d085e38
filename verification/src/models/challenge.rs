//! Logging in: the request, the sign-up form and the one-time challenge.

use vstd::prelude::*;

verus! {

/// A request to log in.
#[derive(Debug, Clone)]
pub struct Login {
    pub email: String,
}

/// A request to sign up.
#[derive(Debug, Clone)]
pub struct Signup {
    pub email: String,
    pub username: String,
}

/// A one-time login challenge, stored under its token.
#[derive(Debug, Clone)]
pub struct Challenge {
    /// The document's handle: the collection's name, `/` and the token.
    pub _id: String,
    /// The token, which is the document's `_key`.
    pub challenge: String,
    pub email: String,
    pub username: Option<String>,
    /// Whether it has not been used yet.
    pub pending: bool,
    /// When it expires, in milliseconds since the Unix epoch.
    pub ttl: i64,
}

} // verus!
