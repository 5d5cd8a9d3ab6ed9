use iron_csrf::guard::{check, tokens_equal, GuardError, Method, BAD_REQUEST, INTERNAL_SERVER_ERROR};
use iron_csrf::middleware::CsrfMiddleware;
use iron_csrf::token::{CsrfToken, QUERY_KEY};

fn stored(s: &str) -> Option<CsrfToken> {
    Some(CsrfToken(s.to_owned()))
}

#[test]
fn it_works() {
    assert_eq!(2 + 2, 4);
}

#[test]
fn first_get_issues_token() {
    let guard = CsrfMiddleware::new("secret");
    let plan = guard.before(None, &Method::Get, None);
    assert!(plan.issued);
    assert!(!plan.token.0.is_empty());
    assert_eq!(plan.token.0.len(), 64);
    assert_eq!(plan.verdict, Ok(()));
    assert_eq!(plan.finish(true), Ok(()));
}

#[test]
fn matching_token_allowed() {
    let guard = CsrfMiddleware::new("secret");
    let plan = guard.before(stored("abc123"), &Method::Post, Some("abc123"));
    assert!(!plan.issued);
    assert_eq!(plan.token.0, "abc123");
    assert_eq!(plan.verdict, Ok(()));
}

#[test]
fn wrong_token_refused() {
    let guard = CsrfMiddleware::new("secret");
    let plan = guard.before(stored("abc123"), &Method::Post, Some("wrong"));
    assert_eq!(plan.verdict, Err(GuardError::TokenMismatch));
    let e = plan.verdict.unwrap_err();
    assert_eq!(e.reason(), "Bad token");
    assert_eq!(e.status(), 400);
}

#[test]
fn missing_token_refused() {
    let guard = CsrfMiddleware::new("secret");
    let plan = guard.before(stored("abc123"), &Method::Post, None);
    assert_eq!(plan.verdict, Err(GuardError::MissingToken));
    let e = plan.verdict.unwrap_err();
    assert_eq!(e.reason(), "No token");
    assert_eq!(e.status(), BAD_REQUEST);
}

#[test]
fn safe_method_ignores_submission() {
    assert_eq!(check(&Method::Get, "abc123", Some("wrong")), Ok(()));
    assert_eq!(check(&Method::Get, "abc123", None), Ok(()));
    assert_eq!(check(&Method::Get, "abc123", Some("")), Ok(()));
}

#[test]
fn other_methods_need_token() {
    assert_eq!(check(&Method::Put, "abc123", None), Err(GuardError::MissingToken));
    assert_eq!(check(&Method::Delete, "abc123", Some("abc12")), Err(GuardError::TokenMismatch));
    assert_eq!(check(&Method::Patch, "abc123", Some("abc123")), Ok(()));
    assert_eq!(
        check(&Method::Extension("PURGE".to_owned()), "abc123", Some("abc1234")),
        Err(GuardError::TokenMismatch)
    );
}

#[test]
fn established_token_is_kept() {
    let guard = CsrfMiddleware::new("secret");
    let first = guard.before(None, &Method::Get, None);
    assert!(first.issued);
    let t1 = first.token.0.clone();
    let second = guard.before(Some(first.token), &Method::Post, Some(t1.as_str()));
    assert!(!second.issued);
    assert_eq!(second.token.0, t1);
    assert_eq!(second.verdict, Ok(()));
}

#[test]
fn empty_stored_token_counts_as_none() {
    let guard = CsrfMiddleware::new("secret");
    let plan = guard.before(stored(""), &Method::Post, Some(""));
    assert!(plan.issued);
    assert_eq!(plan.token.0.len(), 64);
    assert_eq!(plan.verdict, Err(GuardError::TokenMismatch));
}

#[test]
fn failed_write_aborts_request() {
    let guard = CsrfMiddleware::new("secret");
    let plan = guard.before(None, &Method::Get, None);
    let e = plan.finish(false).unwrap_err();
    assert_eq!(e, GuardError::SessionStoreFailure);
    assert_eq!(e.status(), INTERNAL_SERVER_ERROR);
    assert_eq!(e.reason(), "Session store failure");
    let kept = guard.before(stored("abc123"), &Method::Get, None);
    assert_eq!(kept.finish(false), Ok(()));
}

#[test]
fn derive_is_sha256_hex_of_secret_and_instant() {
    let t = CsrfToken::derive("ab", "c");
    assert_eq!(t.0, "ba7816bf8f01cfea414140de5dae2223b00361a396177a9cb410ff61f20015ad");
    let e = CsrfToken::derive("", "");
    assert_eq!(e.0, "e3b0c44298fc1c149afbf4c8996fb92427ae41e4649b934ca495991b7852b855");
}

#[test]
fn new_tokens_are_digests() {
    let t = CsrfToken::new("secret");
    assert_eq!(t.0.len(), 64);
    assert!(t.0.chars().all(|c| c.is_ascii_hexdigit()));
}

#[test]
fn raw_round_trip() {
    assert_eq!(CsrfToken::get_key(), "_csrf_token");
    assert_eq!(QUERY_KEY, "_csrf_token");
    assert_eq!(CsrfToken::from_raw(String::new()), None);
    let t = CsrfToken::from_raw("abc123".to_owned()).unwrap();
    assert_eq!(t, CsrfToken("abc123".to_owned()));
    assert_eq!(t.into_raw(), "abc123");
}

#[test]
fn token_comparison() {
    assert!(tokens_equal("abc123", "abc123"));
    assert!(!tokens_equal("abc123", "abc124"));
    assert!(!tokens_equal("abc123", "abc"));
    assert!(!tokens_equal("abc", "abc123"));
    assert!(!tokens_equal("", "a"));
    assert!(!tokens_equal("a", ""));
    assert!(tokens_equal("", ""));
}

#[test]
fn method_safety() {
    assert!(Method::Get.is_safe());
    assert!(!Method::Post.is_safe());
    assert!(!Method::Head.is_safe());
}
