//! The anti-forgery token: how it is derived, and how it is kept in a session.

use vstd::prelude::*;
use vstd::string::*;

use crate::digest::{clock_text, sha256_hex, sha256_hex_of};

verus! {

/// The key under which the token is kept in the session, and under which a
/// client submits it with a state-changing request.
pub const QUERY_KEY: &'static str = "_csrf_token";

/// A per-session anti-forgery token.
#[derive(Debug, PartialEq, Eq)]
pub struct CsrfToken(pub String);

/// The token derived from the server secret and a rendering of an instant.
pub open spec fn derived_token(secret: Seq<char>, instant: Seq<char>) -> Seq<char> {
    sha256_hex_of(secret + instant)
}

/// `token` is what the secret gives together with some instant.
pub open spec fn is_issued_token(secret: Seq<char>, token: Seq<char>) -> bool {
    exists|instant: Seq<char>| #[trigger] derived_token(secret, instant) == token
}

impl CsrfToken {
    /// Derives the token for `secret` at the instant rendered as `instant`.
    pub fn derive(secret: &str, instant: &str) -> (r: CsrfToken)
        ensures
            r.0@ == derived_token(secret@, instant@),
            r.0@.len() == 64,
    {
        let input = secret.to_owned().concat(instant);
        CsrfToken(sha256_hex(input.as_str()))
    }

    /// Issues a fresh token for `secret`, derived at the current instant.
    pub fn new(secret: &str) -> (r: CsrfToken)
        ensures
            is_issued_token(secret@, r.0@),
            r.0@.len() == 64,
    {
        let instant = clock_text();
        let r = CsrfToken::derive(secret, instant.as_str());
        assert(derived_token(secret@, instant@) == r.0@);
        r
    }

    /// The session key under which the token is stored.
    pub fn get_key() -> (r: &'static str)
        ensures
            r@ == QUERY_KEY@,
    {
        QUERY_KEY
    }

    /// The stored form of the token.
    pub fn into_raw(self) -> (r: String)
        ensures
            r@ == self.0@,
    {
        self.0
    }

    /// Reads a stored value back; an empty value means that there is no token.
    pub fn from_raw(value: String) -> (r: Option<CsrfToken>)
        ensures
            value@.len() == 0 ==> r is None,
            value@.len() > 0 ==> r == Some(CsrfToken(value)),
    {
        if value.as_str().is_empty() {
            None
        } else {
            Some(CsrfToken(value))
        }
    }
}

} // verus!
