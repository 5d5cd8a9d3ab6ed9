//! Properties of the guard that hold of every request.

use vstd::prelude::*;

use crate::guard::{check_spec, is_safe_method, status_of, GuardError, Method, BAD_REQUEST};
use crate::middleware::{request_token, stored_text};
use crate::token::CsrfToken;

verus! {

/// A session without a token gets exactly one on its first request: the
/// request issues it, to be written back, and it is not empty.
pub proof fn lemma_first_request_issues_token(
    secret: Seq<char>,
    stored: Option<CsrfToken>,
    token: Seq<char>,
    issued: bool,
)
    requires
        stored_text(stored) is None,
        request_token(secret, stored, token, issued),
    ensures
        issued,
        token.len() > 0,
{
}

/// A request with a safe method is never refused, whatever it submitted.
pub proof fn lemma_safe_method_allowed(
    method: Method,
    session: Seq<char>,
    submitted: Option<Seq<char>>,
)
    requires
        is_safe_method(method),
    ensures
        check_spec(method, session, submitted) == Ok::<(), GuardError>(()),
{
}

/// A request that submits exactly the session's token is allowed, whatever its
/// method.
pub proof fn lemma_matching_token_allowed(method: Method, session: Seq<char>, submitted: Seq<char>)
    requires
        submitted == session,
    ensures
        check_spec(method, session, Some(submitted)) == Ok::<(), GuardError>(()),
{
}

/// A state-changing request that submits no token, or another token than the
/// session's, is refused as a bad request.
pub proof fn lemma_wrong_or_missing_token_refused(
    method: Method,
    session: Seq<char>,
    submitted: Option<Seq<char>>,
)
    requires
        !is_safe_method(method),
        submitted != Some(session),
    ensures
        check_spec(method, session, submitted) is Err,
        status_of(check_spec(method, session, submitted)->Err_0) == BAD_REQUEST,
{
}

/// Once a session holds a token, whether it was there before or was issued and
/// written back by the previous request, every later request of the session
/// sees that same token and issues none.
pub proof fn lemma_token_stable(
    secret: Seq<char>,
    stored: Option<CsrfToken>,
    token: Seq<char>,
    issued: bool,
    kept: CsrfToken,
    later_token: Seq<char>,
    later_issued: bool,
)
    requires
        request_token(secret, stored, token, issued),
        kept.0@ == token,
        request_token(secret, Some(kept), later_token, later_issued),
    ensures
        later_token == token,
        !later_issued,
{
}

} // verus!
