//! The guard as a whole: one decision per request over the session's stored
//! token, the request's method and what the client submitted.

use vstd::prelude::*;

use crate::guard::{check, check_spec, text_of, GuardError, Method};
use crate::token::{is_issued_token, CsrfToken};

verus! {

/// The token that a session holds, if any: an empty stored value counts as none.
pub open spec fn stored_text(stored: Option<CsrfToken>) -> Option<Seq<char>> {
    match stored {
        Some(t) => if t.0@.len() > 0 {
            Some(t.0@)
        } else {
            None
        },
        None => None,
    }
}

/// `token` is the session token of a request whose session held `stored`, and
/// `issued` tells whether it was newly issued (and must be written back).
pub open spec fn request_token(
    secret: Seq<char>,
    stored: Option<CsrfToken>,
    token: Seq<char>,
    issued: bool,
) -> bool {
    match stored_text(stored) {
        Some(t) => token == t && !issued,
        None => issued && token.len() > 0 && is_issued_token(secret, token),
    }
}

/// What a request is to be answered with once a freshly issued token has, or
/// has not, been written to the session.
pub open spec fn outcome_spec(
    issued: bool,
    verdict: Result<(), GuardError>,
    persisted: bool,
) -> Result<(), GuardError> {
    if issued && !persisted {
        Err(GuardError::SessionStoreFailure)
    } else {
        verdict
    }
}

/// Checks the token of state-changing requests, and issues one to each
/// session that has none.
pub struct CsrfMiddleware {
    secret: String,
}

/// The guard's decision on one request.
pub struct Plan {
    /// The session's token for this request.
    pub token: CsrfToken,
    /// Whether `token` was issued now and must be written to the session.
    pub issued: bool,
    /// Whether the request may proceed, provided the session is written.
    pub verdict: Result<(), GuardError>,
}

impl CsrfMiddleware {
    /// The server secret that tokens are derived from.
    pub closed spec fn secret(&self) -> Seq<char> {
        self.secret@
    }

    /// Creates a new instance with the given secret.
    pub fn new(secret: &str) -> (r: CsrfMiddleware)
        ensures
            r.secret() == secret@,
    {
        CsrfMiddleware { secret: secret.to_owned() }
    }

    /// The session's token: the stored one, or a fresh one where the session
    /// holds none.
    pub fn session_token(&self, stored: Option<CsrfToken>) -> (r: (CsrfToken, bool))
        ensures
            request_token(self.secret(), stored, r.0.0@, r.1),
    {
        match stored {
            Some(t) => {
                if t.0.as_str().is_empty() {
                    (CsrfToken::new(self.secret.as_str()), true)
                } else {
                    (t, false)
                }
            },
            None => (CsrfToken::new(self.secret.as_str()), true),
        }
    }

    /// Decides on a request whose session holds `stored` and whose client
    /// submitted `submitted` under the token's key, as plain text.
    pub fn before(&self, stored: Option<CsrfToken>, method: &Method, submitted: Option<&str>) -> (r:
        Plan)
        ensures
            request_token(self.secret(), stored, r.token.0@, r.issued),
            r.verdict == check_spec(*method, r.token.0@, text_of(submitted)),
    {
        let (token, issued) = self.session_token(stored);
        let verdict = check(method, token.0.as_str(), submitted);
        Plan { token, issued, verdict }
    }
}

impl Plan {
    /// The request's outcome, given whether an issued token was written to
    /// the session: a failed write aborts the request.
    pub fn finish(&self, persisted: bool) -> (r: Result<(), GuardError>)
        ensures
            r == outcome_spec(self.issued, self.verdict, persisted),
    {
        if self.issued && !persisted {
            Err(GuardError::SessionStoreFailure)
        } else {
            self.verdict
        }
    }
}

} // verus!
