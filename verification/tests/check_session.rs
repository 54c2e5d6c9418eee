use axum::http::{header::COOKIE, HeaderMap, HeaderValue};
use axum_extra::extract::cookie::CookieJar;
use rtp_bff::oidc::check_session::{answer_session_check, check_session, SessionAnswer, SessionCheck};
use rtp_bff::session::store::SessionStore;
use rtp_bff::session::{new_session_id, session_cookie_name, AuthenticatedSession};
use rtp_bff::status::StatusCode;

fn request_cookie_jar(name: &str, value: &str) -> CookieJar {
    let mut headers = HeaderMap::new();
    headers.insert(
        COOKIE,
        HeaderValue::from_str(&format!("{name}={value}")).expect("cookie header must be valid"),
    );
    CookieJar::from_headers(&headers)
}

fn check(store: &mut SessionStore, jar: &CookieJar) -> SessionAnswer {
    match check_session(jar, false) {
        SessionCheck::LookUp { session_id } => answer_session_check(store.get(&session_id, 1)),
        SessionCheck::Answer(answer) => answer,
    }
}

fn put(store: &mut SessionStore, session_id: &str) {
    store
        .put(
            session_id,
            &AuthenticatedSession {
                access_token: "access".to_owned(),
                refresh_token: Some("refresh".to_owned()),
                access_token_expires_at: Some(1_800_000_300),
            },
            0,
        )
        .expect("test session store write must succeed");
}

#[test]
fn check_session_without_cookie_is_unauthorized() {
    let mut store = SessionStore::for_tests();
    let answer = check(&mut store, &CookieJar::new());

    assert_eq!(answer.status, StatusCode::Unauthorized);
    assert_eq!(answer.cache_control, "no-store");
}

#[test]
fn check_session_with_active_session_returns_no_content() {
    let mut store = SessionStore::for_tests();
    let session_id = new_session_id();
    put(&mut store, &session_id);
    let jar = request_cookie_jar(session_cookie_name(false), &session_id);

    let answer = check(&mut store, &jar);

    assert_eq!(answer.status, StatusCode::NoContent);
    assert_eq!(answer.cache_control, "no-store");
}

#[test]
fn check_session_with_stale_cookie_is_unauthorized() {
    let mut store = SessionStore::for_tests();
    let jar = request_cookie_jar(session_cookie_name(false), &new_session_id());

    let answer = check(&mut store, &jar);

    assert_eq!(answer.status, StatusCode::Unauthorized);
    assert_eq!(answer.cache_control, "no-store");
}

#[test]
fn check_session_store_failure_returns_service_unavailable() {
    let mut store = SessionStore::for_tests_failing_reads();
    let jar = request_cookie_jar(session_cookie_name(false), &new_session_id());

    let answer = check(&mut store, &jar);

    assert_eq!(answer.status, StatusCode::ServiceUnavailable);
    assert_eq!(answer.cache_control, "no-store");
}

#[test]
fn cookie_of_the_other_mode_does_not_count() {
    let mut store = SessionStore::for_tests();
    let session_id = new_session_id();
    put(&mut store, &session_id);
    let jar = request_cookie_jar(session_cookie_name(true), &session_id);

    assert_eq!(check(&mut store, &jar).status, StatusCode::Unauthorized);
}
