use trading_ig::error::Error;
use trading_ig::session::tokens::{AuthTokens, RestAuth, SessionState, StreamingAuth};
use trading_ig::streaming::connection::{
    after_bind_failure, after_drain, bind_failure_action, classify_control_body,
    create_session_form, create_session_url, drain_outcome, find_control_address, handle_frame,
    streaming_login, BindFailureAction, DrainOutcome, FrameAction, LineBuffer, LoopStep,
    LsSession, OkBlockReader,
};
use trading_ig::streaming::protocol::{FieldValue, Frame};
use trading_ig::streaming::subscription::{Registry, SubscriptionKind};

// --- control.txt body classification ---

#[test]
fn control_body_error_returns_streaming_err() {
    let err = classify_control_body("ERROR\n22\nunknown session")
        .expect_err("ERROR body must be an error");
    assert!(matches!(err, Error::Streaming(_)));
    assert!(!err.is_auth(), "control ERROR must not be is_auth()");
    assert!(!err.is_rate_limited());
}

#[test]
fn control_body_sync_error_returns_streaming_err() {
    let err = classify_control_body("SYNC ERROR").expect_err("SYNC ERROR is fatal");
    assert!(matches!(err, Error::Streaming(_)));
    assert!(!err.is_auth());
}

#[test]
fn control_body_ok_returns_ok() {
    assert!(classify_control_body("OK").is_ok());
}

#[test]
fn control_body_numeric_table_ok_returns_ok() {
    assert!(classify_control_body("1,1|...").is_ok());
}

#[test]
fn control_body_empty_returns_ok() {
    assert!(classify_control_body("").is_ok());
}

#[test]
fn control_body_error_message_is_trimmed_body() {
    match classify_control_body("  ERROR 22 unknown session \n") {
        Err(Error::Streaming(m)) => {
            assert_eq!(m, "Lightstreamer control returned ERROR: ERROR 22 unknown session")
        }
        other => panic!("unexpected {other:?}"),
    }
    assert!(classify_control_body("ERRORS").is_ok());
    assert!(classify_control_body("\t SYNC ERROR later").is_err());
}

// --- session addressing ---

fn test_session(session_id: &str, control_address: Option<&str>) -> LsSession {
    LsSession {
        endpoint: "https://demo.example".to_owned(),
        username: "acct".to_owned(),
        password: "CST-a|XST-b".to_owned(),
        session_id: session_id.to_owned(),
        control_address: control_address.map(str::to_owned),
    }
}

#[test]
fn request_snapshot_reads_current_session_after_swap() {
    let mut conn = test_session("S-OLD", Some("ctrl-old"));
    assert_eq!(conn.session_id, "S-OLD");
    assert_eq!(
        conn.control_url(),
        "https://ctrl-old/lightstreamer/control.txt"
    );
    conn = test_session("S-NEW", Some("ctrl-new"));
    assert_eq!(conn.session_id, "S-NEW");
    assert_eq!(
        conn.control_url(),
        "https://ctrl-new/lightstreamer/control.txt"
    );
}

#[test]
fn request_snapshot_falls_back_to_endpoint_without_control_address() {
    let conn = test_session("S1", None);
    assert_eq!(
        conn.control_url(),
        "https://demo.example/lightstreamer/control.txt"
    );
}

#[test]
fn control_address_with_scheme_is_kept() {
    let conn = test_session("S1", Some("http://ctrl.example"));
    assert_eq!(conn.control_base_url(), "http://ctrl.example");
    assert_eq!(
        conn.bind_session_url(),
        "https://demo.example/lightstreamer/bind_session.txt"
    );
    assert_eq!(
        create_session_url("https://ls.example"),
        "https://ls.example/lightstreamer/create_session.txt"
    );
}

#[test]
fn request_forms() {
    let conn = test_session("S9", None);
    let f = conn.control_form("add", 12, "MARKET:X", "BID OFFER", "MERGE");
    assert_eq!(
        f,
        vec![
            ("LS_session", "S9".to_owned()),
            ("LS_op", "add".to_owned()),
            ("LS_table", "12".to_owned()),
            ("LS_id", "MARKET:X".to_owned()),
            ("LS_schema", "BID OFFER".to_owned()),
            ("LS_mode", "MERGE".to_owned()),
        ]
    );
    assert_eq!(
        conn.unsubscribe_form(3),
        vec![
            ("LS_session", "S9".to_owned()),
            ("LS_op", "delete".to_owned()),
            ("LS_table", "3".to_owned()),
        ]
    );
    assert_eq!(
        conn.bind_form(),
        vec![("LS_session", "S9".to_owned()), ("LS_polling", "false".to_owned())]
    );
    let c = create_session_form("acct", "pw");
    assert_eq!(c.len(), 6);
    assert_eq!(c[1], ("LS_cid", "mgQkwtwdysogQz2BJ4Ji kOj2Bg".to_owned()));
    assert_eq!(c[3], ("LS_user", "acct".to_owned()));
    assert_eq!(c[4], ("LS_password", "pw".to_owned()));
}

// --- bind-failure routing ---

#[test]
fn bind_failure_routes_to_reconnect_when_policy_enabled() {
    assert_eq!(bind_failure_action(true), BindFailureAction::Reconnect);
}

#[test]
fn bind_failure_emits_disconnected_when_policy_disabled() {
    assert_eq!(bind_failure_action(false), BindFailureAction::Disconnect);
}

#[test]
fn bind_failure_never_stops_silently() {
    match after_bind_failure("timeout", true) {
        LoopStep::Reconnect { reason: Some(r) } => assert_eq!(r, "bind_session failed: timeout"),
        other => panic!("unexpected {other:?}"),
    }
    match after_bind_failure("timeout", false) {
        LoopStep::Disconnect { reason: Some(r) } => assert_eq!(r, "bind_session failed: timeout"),
        other => panic!("unexpected {other:?}"),
    }
}

#[test]
fn drain_routing() {
    assert!(matches!(after_drain(DrainOutcome::Rebind, false), LoopStep::Bind));
    assert!(matches!(after_drain(DrainOutcome::Terminate, true), LoopStep::Stop));
    assert!(matches!(
        after_drain(DrainOutcome::SessionEnded { reason: Some("x".into()) }, true),
        LoopStep::Reconnect { reason: Some(_) }
    ));
    assert!(matches!(
        after_drain(DrainOutcome::SessionEnded { reason: None }, false),
        LoopStep::Disconnect { reason: None }
    ));
    assert!(drain_outcome(FrameAction::Continue).is_none());
    assert!(matches!(drain_outcome(FrameAction::Rebind), Some(DrainOutcome::Rebind)));
}

// --- line framing ---

#[test]
fn line_buffer_reassembles_lines() {
    let mut b = LineBuffer::new();
    b.push_chunk(b"PRO");
    assert_eq!(b.next_line(), None);
    b.push_chunk(b"BE\r\nLOOP\n1|2");
    assert_eq!(b.next_line(), Some("PROBE".to_owned()));
    assert_eq!(b.next_line(), Some("LOOP".to_owned()));
    assert_eq!(b.next_line(), None);
    b.push_text("\n");
    assert_eq!(b.next_line(), Some("1|2".to_owned()));
    b.push_chunk(b"\xff\n");
    assert_eq!(b.next_line(), Some("\u{fffd}".to_owned()));
}

// --- OK block ---

#[test]
fn ok_block_reader_collects_header() {
    let mut r = OkBlockReader::new();
    assert!(!r.push_line("OK".into()));
    assert!(!r.push_line("SessionId:S42".into()));
    assert!(!r.push_line("ControlAddress:push.example".into()));
    assert!(r.push_line(String::new()));
    let (sid, ca) = r.finish().unwrap();
    assert_eq!(sid, "S42");
    assert_eq!(ca.as_deref(), Some("push.example"));
}

#[test]
fn ok_block_reader_errors() {
    let mut r = OkBlockReader::new();
    r.push_line("OK".into());
    match r.finish() {
        Err(Error::Auth(m)) => assert_eq!(m, "Lightstreamer OK block not received"),
        other => panic!("unexpected {other:?}"),
    }
    let mut r = OkBlockReader::new();
    r.push_line("ERROR".into());
    r.push_line("2".into());
    r.push_line(String::new());
    match r.finish() {
        Err(Error::Auth(m)) => assert_eq!(m, "Lightstreamer session error: ERROR, 2"),
        other => panic!("unexpected {other:?}"),
    }
}

#[test]
fn first_control_address_wins() {
    let extras = vec![
        ("KeepaliveMillis".to_owned(), "5000".to_owned()),
        ("ControlAddress".to_owned(), "a".to_owned()),
        ("ControlAddress".to_owned(), "b".to_owned()),
    ];
    assert_eq!(find_control_address(&extras), Some("a".to_owned()));
    assert_eq!(find_control_address(&Vec::new()), None);
}

// --- frame dispatch ---

#[test]
fn handle_frame_routes_updates_and_commands() {
    let mut reg = Registry::new();
    let idx = reg.register(SubscriptionKind::Market { epic: "E".into() });
    let mut sess = test_session("S1", None);
    let a = handle_frame(
        Frame::Update { item_index: idx, fields: vec![FieldValue::Value("1.0".into())] },
        &mut reg,
        &mut sess,
    );
    match a {
        FrameAction::Deliver { item_index, state } => {
            assert_eq!(item_index, idx);
            assert_eq!(state[0], Some("1.0".to_owned()));
        }
        other => panic!("unexpected {other:?}"),
    }
    let a = handle_frame(
        Frame::Update { item_index: 99, fields: vec![FieldValue::Null] },
        &mut reg,
        &mut sess,
    );
    assert!(matches!(a, FrameAction::Continue));
    assert!(matches!(handle_frame(Frame::Loop, &mut reg, &mut sess), FrameAction::Rebind));
    assert!(matches!(handle_frame(Frame::SyncError, &mut reg, &mut sess), FrameAction::Rebind));
    assert!(matches!(
        handle_frame(Frame::Error { code: "1".into(), message: "m".into() }, &mut reg, &mut sess),
        FrameAction::Terminate
    ));
    assert!(matches!(
        handle_frame(Frame::End { cause: Some("c".into()) }, &mut reg, &mut sess),
        FrameAction::SessionEnded { reason: Some(_) }
    ));
    handle_frame(Frame::SessionOk { session_id: String::new() }, &mut reg, &mut sess);
    assert_eq!(sess.session_id, "S1");
    handle_frame(Frame::SessionOk { session_id: "S2".into() }, &mut reg, &mut sess);
    assert_eq!(sess.session_id, "S2");
}

// --- connect parameters ---

#[test]
fn streaming_login_requires_streaming_tokens() {
    let mut s = SessionState::default();
    match streaming_login(&s) {
        Err(Error::Auth(m)) => assert_eq!(m, "no active session — call session().login() first"),
        other => panic!("unexpected {other:?}"),
    }
    s.tokens = AuthTokens {
        rest: Some(RestAuth::OAuth { access_token: "a".into(), token_type: "Bearer".into() }),
        streaming: None,
        refresh: None,
    };
    s.account_id = Some("ACC".into());
    s.lightstreamer_endpoint = Some("https://ls".into());
    match streaming_login(&s) {
        Err(Error::Auth(m)) => assert!(m.starts_with("OAuth session cannot be used directly")),
        other => panic!("unexpected {other:?}"),
    }
    s.tokens.streaming = Some(StreamingAuth { cst: "c".into(), x_security_token: "x".into() });
    let (endpoint, user, pw) = streaming_login(&s).unwrap();
    assert_eq!(endpoint, "https://ls");
    assert_eq!(user, "ACC");
    assert_eq!(pw, "CST-c|XST-x");
}
