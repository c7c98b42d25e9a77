use std::time::{Duration, Instant};

use trading_ig::error::Error;
use trading_ig::session::auth::{
    login_v2_state, login_v3_state, login_v3_state_at, session_kind, session_read_path,
};
use trading_ig::session::tokens::{OAuthPayload, RestAuth, SessionState};
use trading_ig::session::{Credentials, SessionInfo};

fn info() -> SessionInfo {
    SessionInfo {
        account_id: "ACC".into(),
        client_id: "CLI".into(),
        timezone_offset: Some(1),
        lightstreamer_endpoint: "https://ls.example".into(),
        currency_iso_code: None,
        locale: None,
    }
}

fn payload(expires_in: &str) -> OAuthPayload {
    OAuthPayload {
        access_token: "AT".into(),
        refresh_token: "RT".into(),
        token_type: "Bearer".into(),
        expires_in: expires_in.into(),
    }
}

#[test]
fn credentials_password() {
    let Credentials::Password { username, password } = Credentials::password("u", "p");
    assert_eq!(username, "u");
    assert_eq!(password, "p");
}

#[test]
fn login_v2_requires_both_headers() {
    match login_v2_state(None, Some("x".into()), &info()) {
        Err(Error::Auth(m)) => assert_eq!(m, "missing CST header in login response"),
        other => panic!("unexpected {other:?}"),
    }
    match login_v2_state(Some("c".into()), None, &info()) {
        Err(Error::Auth(m)) => assert_eq!(m, "missing X-SECURITY-TOKEN header"),
        other => panic!("unexpected {other:?}"),
    }
    let s = login_v2_state(Some("c".into()), Some("x".into()), &info()).unwrap();
    assert!(s.tokens.has_rest_auth());
    assert!(s.tokens.has_streaming_auth());
    assert!(s.tokens.refresh.is_none());
    assert_eq!(s.account_id.as_deref(), Some("ACC"));
    assert_eq!(session_kind(&s.tokens), "v2");
}

#[test]
fn login_v3_then_read_keeps_refresh() {
    let mut s = login_v3_state(&payload("60"), &info()).unwrap();
    assert!(matches!(s.tokens.rest, Some(RestAuth::OAuth { .. })));
    assert!(s.tokens.streaming.is_none());
    assert_eq!(session_kind(&s.tokens), "v3");
    s.apply_read_tokens(Some("c".into()), Some("x".into()));
    assert!(s.tokens.has_streaming_auth());
    assert!(s.tokens.refresh.is_some());
    assert!(matches!(s.tokens.rest, Some(RestAuth::OAuth { .. })));
    s.apply_read_tokens(Some("c2".into()), None);
    assert_eq!(s.tokens.streaming.as_ref().unwrap().cst, "c");
}

#[test]
fn login_v3_rejects_bad_expiry() {
    match login_v3_state(&payload("soon"), &info()) {
        Err(Error::Auth(m)) => assert!(m.starts_with("invalid expires_in 'soon': ")),
        other => panic!("unexpected {other:?}"),
    }
    assert!(login_v3_state(&payload("+30"), &info()).is_ok());
    assert!(login_v3_state(&payload(" 30"), &info()).is_err());
}

#[test]
fn refresh_keeps_streaming_and_rotates_tokens() {
    let at = Instant::now() + Duration::from_secs(30);
    let mut s = login_v3_state_at(&payload("30"), &info(), at);
    s.apply_read_tokens(Some("c".into()), Some("x".into()));
    assert_eq!(s.refresh_token().unwrap(), "RT");
    let mut p = payload("120");
    p.refresh_token = "RT2".into();
    p.access_token = "AT2".into();
    s.apply_refresh(&p).unwrap();
    assert_eq!(s.refresh_token().unwrap(), "RT2");
    assert!(s.tokens.has_streaming_auth());
    match &s.tokens.rest {
        Some(RestAuth::OAuth { access_token, .. }) => assert_eq!(access_token, "AT2"),
        other => panic!("unexpected {other:?}"),
    }
    let before = s.refresh_token().unwrap();
    assert!(s.apply_refresh(&payload("x")).is_err());
    assert_eq!(s.refresh_token().unwrap(), before);
}

#[test]
fn switch_and_logout() {
    let mut s = login_v2_state(Some("c".into()), Some("x".into()), &info()).unwrap();
    s.switch_account("OTHER");
    assert_eq!(s.account_id.as_deref(), Some("OTHER"));
    assert!(s.tokens.has_rest_auth());
    assert!(s.require_authenticated().is_ok());
    s.clear();
    assert!(!s.tokens.has_rest_auth());
    assert!(s.account_id.is_none());
    match s.require_authenticated() {
        Err(Error::Auth(m)) => assert_eq!(m, "no active session — call session().login() first"),
        other => panic!("unexpected {other:?}"),
    }
    match SessionState::default().refresh_token() {
        Err(Error::Auth(m)) => assert_eq!(m, "no refresh token available"),
        other => panic!("unexpected {other:?}"),
    }
}

#[test]
fn read_path() {
    assert_eq!(session_read_path(true), "session?fetchSessionTokens=true");
    assert_eq!(session_read_path(false), "session");
}
