use std::time::{Duration, Instant};

use trading_ig::session::tokens::{refresh_due, AuthTokens, RefreshState, RestAuth, StreamingAuth};

#[test]
fn needs_refresh_false_when_no_refresh_state() {
    let t = AuthTokens {
        rest: Some(RestAuth::Cst {
            cst: "c".into(),
            x_security_token: "x".into(),
        }),
        streaming: None,
        refresh: None,
    };
    assert!(!t.needs_refresh(Duration::from_secs(10)));
}

#[test]
fn needs_refresh_true_when_within_skew() {
    let t = AuthTokens {
        rest: None,
        streaming: None,
        refresh: Some(RefreshState {
            refresh_token: "r".into(),
            expires_at: Instant::now() + Duration::from_secs(5),
        }),
    };
    assert!(t.needs_refresh(Duration::from_secs(10)));
}

#[test]
fn needs_refresh_false_when_outside_skew() {
    let t = AuthTokens {
        rest: None,
        streaming: None,
        refresh: Some(RefreshState {
            refresh_token: "r".into(),
            expires_at: Instant::now() + Duration::from_secs(60),
        }),
    };
    assert!(!t.needs_refresh(Duration::from_secs(10)));
}

#[test]
fn three_surfaces_independent() {
    let t = AuthTokens {
        rest: Some(RestAuth::OAuth {
            access_token: "a".into(),
            token_type: "Bearer".into(),
        }),
        streaming: Some(StreamingAuth {
            cst: "c".into(),
            x_security_token: "x".into(),
        }),
        refresh: Some(RefreshState {
            refresh_token: "r".into(),
            expires_at: Instant::now() + Duration::from_secs(60),
        }),
    };
    assert!(t.has_rest_auth());
    assert!(t.has_streaming_auth());
    assert!(!t.needs_refresh(Duration::from_secs(10)));
}

#[test]
fn needs_refresh_true_once_expired() {
    let t = AuthTokens {
        rest: None,
        streaming: None,
        refresh: Some(RefreshState {
            refresh_token: "r".into(),
            expires_at: Instant::now(),
        }),
    };
    assert!(t.needs_refresh(Duration::from_secs(0)));
}

#[test]
fn refresh_due_is_a_skew_comparison() {
    assert!(refresh_due(5, 10));
    assert!(refresh_due(10, 10));
    assert!(!refresh_due(11, 10));
}

#[test]
fn empty_tokens_have_no_surface() {
    let t = AuthTokens::default();
    assert!(!t.has_rest_auth());
    assert!(!t.has_streaming_auth());
    assert!(!t.needs_refresh(Duration::from_secs(10)));
}

#[test]
fn lightstreamer_password_format() {
    let s = StreamingAuth {
        cst: "abc".into(),
        x_security_token: "xyz".into(),
    };
    assert_eq!(s.lightstreamer_password(), "CST-abc|XST-xyz");
}

#[test]
fn refresh_still_needed_only_when_expiry_unchanged() {
    let at = Instant::now() + Duration::from_secs(60);
    let with = |expires_at: Instant| AuthTokens {
        rest: None,
        streaming: None,
        refresh: Some(RefreshState { refresh_token: "r".into(), expires_at }),
    };
    let none = AuthTokens { rest: None, streaming: None, refresh: None };
    assert!(AuthTokens::refresh_still_needed(&with(at), &with(at)));
    assert!(!AuthTokens::refresh_still_needed(&with(at), &with(at + Duration::from_secs(1))));
    assert!(AuthTokens::refresh_still_needed(&none, &none));
    assert!(!AuthTokens::refresh_still_needed(&none, &with(at)));
    assert!(!AuthTokens::refresh_still_needed(&with(at), &none));
}
