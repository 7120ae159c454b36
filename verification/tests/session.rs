use tgtg_client::error::{QueryError, TgtgError};
use tgtg_client::query::classify_search_response;
use tgtg_client::refresh::{
    apply_refresh_response, check_validity, decode_refresh_response, ensure_valid_step, Validity,
};
use tgtg_client::session::{Session, DEFAULT_ACCESS_TOKEN_LIFETIME_SECS, POLL_BACKOFF_SECS};

fn authenticated_session(issued_at: u64) -> Session {
    let mut s = Session::new(
        "user@example.com".to_string(),
        "ANDROID".to_string(),
        "en-GB".to_string(),
    );
    s.access_token = Some("acc-old".to_string());
    s.refresh_token = Some("ref-old".to_string());
    s.user_id = Some("u-77".to_string());
    s.token_issued_at = Some(issued_at);
    s
}

#[test]
fn new_session_has_only_identity_fields() {
    let s = Session::new(
        "user@example.com".to_string(),
        "ANDROID".to_string(),
        "en-GB".to_string(),
    );
    assert_eq!(s.email, "user@example.com");
    assert_eq!(s.device_type, "ANDROID");
    assert_eq!(s.language, "en-GB");
    assert_eq!(s.access_token, None);
    assert_eq!(s.refresh_token, None);
    assert_eq!(s.user_id, None);
    assert_eq!(s.datadome_cookie, None);
    assert_eq!(s.token_issued_at, None);
    assert_eq!(s.access_token_lifetime, DEFAULT_ACCESS_TOKEN_LIFETIME_SECS);
    assert_eq!(DEFAULT_ACCESS_TOKEN_LIFETIME_SECS, 86_400);
    assert_eq!(POLL_BACKOFF_SECS, 5);
}

#[test]
fn ensure_valid_before_handshake_is_not_authenticated() {
    let s = Session::new(
        "user@example.com".to_string(),
        "ANDROID".to_string(),
        "en-GB".to_string(),
    );
    assert_eq!(check_validity(&s, 0), Validity::NotAuthenticated);
    assert_eq!(ensure_valid_step(&s, 0), Err(TgtgError::NotAuthenticated));
}

#[test]
fn fresh_token_needs_no_refresh() {
    let s = authenticated_session(1_000);
    let now = 1_000 + DEFAULT_ACCESS_TOKEN_LIFETIME_SECS - 1;
    assert_eq!(check_validity(&s, now), Validity::Valid);
    assert_eq!(ensure_valid_step(&s, now), Ok(None));
}

#[test]
fn expired_token_demands_one_refresh_then_none() {
    let mut s = authenticated_session(1_000);
    let now = 1_000 + DEFAULT_ACCESS_TOKEN_LIFETIME_SECS;
    assert_eq!(check_validity(&s, now), Validity::NeedsRefresh);
    assert_eq!(ensure_valid_step(&s, now), Ok(Some("ref-old".to_string())));

    let answer = decode_refresh_response(200, r#"{"access_token":"acc-new"}"#.to_string());
    assert_eq!(apply_refresh_response(&mut s, &answer, now), Ok(()));
    assert_eq!(s.access_token.as_deref(), Some("acc-new"));
    assert_eq!(s.refresh_token.as_deref(), Some("ref-old"));
    assert_eq!(s.token_issued_at, Some(now));

    assert_eq!(check_validity(&s, now), Validity::Valid);
    assert_eq!(ensure_valid_step(&s, now), Ok(None));
}

#[test]
fn accepted_refresh_rotates_refresh_token_when_sent() {
    let mut s = authenticated_session(0);
    let answer = decode_refresh_response(
        200,
        r#"{"access_token":"acc-new","refresh_token":"ref-new"}"#.to_string(),
    );
    assert_eq!(apply_refresh_response(&mut s, &answer, 5), Ok(()));
    assert_eq!(s.access_token.as_deref(), Some("acc-new"));
    assert_eq!(s.refresh_token.as_deref(), Some("ref-new"));
    assert_eq!(s.token_issued_at, Some(5));
}

#[test]
fn rejected_refresh_clears_tokens_and_expires_session() {
    let mut s = authenticated_session(0);
    let answer = decode_refresh_response(401, "revoked".to_string());
    let now = DEFAULT_ACCESS_TOKEN_LIFETIME_SECS;
    assert_eq!(
        apply_refresh_response(&mut s, &answer, now),
        Err(TgtgError::SessionExpired)
    );
    assert_eq!(s.access_token, None);
    assert_eq!(s.refresh_token, None);
    assert_eq!(s.token_issued_at, None);
    assert_eq!(s.user_id.as_deref(), Some("u-77"));
}

#[test]
fn accepted_status_without_token_changes_nothing() {
    let mut s = authenticated_session(0);
    let answer = decode_refresh_response(204, String::new());
    assert_eq!(
        apply_refresh_response(&mut s, &answer, 5),
        Err(TgtgError::ServerError {
            status: 204,
            body: String::new()
        })
    );
    assert_eq!(s.access_token.as_deref(), Some("acc-old"));
    assert_eq!(s.refresh_token.as_deref(), Some("ref-old"));
    assert_eq!(s.token_issued_at, Some(0));
}

#[test]
fn search_success_hands_back_the_page() {
    let out = classify_search_response(200, r#"{"items":[]}"#.to_string());
    assert_eq!(out, Ok(r#"{"items":[]}"#.to_string()));
}

#[test]
fn search_failure_carries_status_and_body() {
    let out = classify_search_response(429, "slow down".to_string());
    assert_eq!(
        out,
        Err(QueryError::Server {
            status: 429,
            body: "slow down".to_string()
        })
    );
}

#[test]
fn query_error_propagates_auth_failure_unchanged() {
    let q = QueryError::from_auth(TgtgError::SessionExpired);
    assert_eq!(
        q,
        QueryError::Auth {
            err: TgtgError::SessionExpired
        }
    );
}
