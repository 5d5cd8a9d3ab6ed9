//! The per-request decision: read or issue the session's token, then, for a
//! state-changing method, compare the submitted token against it.

use vstd::prelude::*;

use crate::digest::fixed_time_eq;
use crate::token::{is_issued_token, CsrfToken};

verus! {

/// The HTTP method of a request.
#[derive(Debug)]
pub enum Method {
    Options,
    Get,
    Post,
    Put,
    Delete,
    Head,
    Trace,
    Connect,
    Patch,
    Extension(String),
}

/// GET is the one method that needs no token; every other method may change
/// server state and must present one.
pub open spec fn is_safe_method(m: Method) -> bool {
    m is Get
}

impl Method {
    /// Whether the method is let through without a token.
    pub fn is_safe(&self) -> (r: bool)
        ensures
            r == is_safe_method(*self),
    {
        match self {
            Method::Get => true,
            _ => false,
        }
    }
}

/// Why a request was refused.
#[derive(Clone, Copy, Debug, PartialEq, Eq, Structural)]
pub enum GuardError {
    /// No token, or none in plain text, was submitted.
    MissingToken,
    /// The submitted token is not the session's.
    TokenMismatch,
    /// A freshly issued token could not be written to the session.
    SessionStoreFailure,
}

/// The status of a request refused for want of a valid token.
pub const BAD_REQUEST: u16 = 400;

/// The status of a request aborted because the session could not be written.
pub const INTERNAL_SERVER_ERROR: u16 = 500;

pub open spec fn status_of(e: GuardError) -> u16 {
    match e {
        GuardError::MissingToken => BAD_REQUEST,
        GuardError::TokenMismatch => BAD_REQUEST,
        GuardError::SessionStoreFailure => INTERNAL_SERVER_ERROR,
    }
}

pub open spec fn reason_of(e: GuardError) -> Seq<char> {
    match e {
        GuardError::MissingToken => "No token"@,
        GuardError::TokenMismatch => "Bad token"@,
        GuardError::SessionStoreFailure => "Session store failure"@,
    }
}

impl GuardError {
    /// The HTTP status that the refusal carries.
    pub fn status(&self) -> (r: u16)
        ensures
            r == status_of(*self),
    {
        match self {
            GuardError::MissingToken => BAD_REQUEST,
            GuardError::TokenMismatch => BAD_REQUEST,
            GuardError::SessionStoreFailure => INTERNAL_SERVER_ERROR,
        }
    }

    /// The short reason shown to the client.
    pub fn reason(&self) -> (r: String)
        ensures
            r@ == reason_of(*self),
    {
        match self {
            GuardError::MissingToken => "No token".to_owned(),
            GuardError::TokenMismatch => "Bad token".to_owned(),
            GuardError::SessionStoreFailure => "Session store failure".to_owned(),
        }
    }
}

pub open spec fn text_of(submitted: Option<&str>) -> Option<Seq<char>> {
    match submitted {
        Some(s) => Some(s@),
        None => None,
    }
}

/// The verdict on a request, given the session's token and the token that the
/// client submitted, if it submitted one as plain text.
pub open spec fn check_spec(
    method: Method,
    session: Seq<char>,
    submitted: Option<Seq<char>>,
) -> Result<(), GuardError> {
    if is_safe_method(method) {
        Ok(())
    } else {
        match submitted {
            None => Err(GuardError::MissingToken),
            Some(s) => if s == session {
                Ok(())
            } else {
                Err(GuardError::TokenMismatch)
            },
        }
    }
}

/// Compares a session token with a submitted one, in a number of steps that
/// does not depend on where they first differ.
pub fn tokens_equal(session: &str, submitted: &str) -> (r: bool)
    ensures
        r == (session@ == submitted@),
{
    if session.is_empty() {
        let r = submitted.is_empty();
        proof {
            if r {
                assert(session@ =~= submitted@);
            }
        }
        r
    } else {
        fixed_time_eq(session, submitted)
    }
}

/// Decides whether a request may proceed.
pub fn check(method: &Method, session_token: &str, submitted: Option<&str>) -> (r: Result<
    (),
    GuardError,
>)
    ensures
        r == check_spec(*method, session_token@, text_of(submitted)),
{
    if method.is_safe() {
        Ok(())
    } else {
        match submitted {
            None => Err(GuardError::MissingToken),
            Some(s) => if tokens_equal(session_token, s) {
                Ok(())
            } else {
                Err(GuardError::TokenMismatch)
            },
        }
    }
}

} // verus!
