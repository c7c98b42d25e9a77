use trading_ig::streaming::reconnect::{give_up_event, ReconnectState, ReconnectStep, StreamingEvent};

#[test]
fn attempts_up_to_limit_then_give_up() {
    let mut st = ReconnectState::new(None);
    for n in 1..=3u32 {
        match st.next(Some(3)) {
            ReconnectStep::Attempt { attempt } => assert_eq!(attempt, n),
            other => panic!("unexpected {other:?}"),
        }
        st.create_failed("boom");
    }
    match st.next(Some(3)) {
        ReconnectStep::GiveUp { attempts, error } => {
            assert_eq!(attempts, 3);
            assert_eq!(error, "create_session failed: boom");
        }
        other => panic!("unexpected {other:?}"),
    }
}

#[test]
fn unlimited_never_gives_up() {
    let mut st = ReconnectState::new(Some("END".into()));
    for _ in 0..100 {
        assert!(matches!(st.next(None), ReconnectStep::Attempt { .. }));
    }
    assert_eq!(st.last_error(), "END");
}

#[test]
fn failure_messages() {
    let mut st = ReconnectState::new(None);
    assert_eq!(st.last_error(), "session ended");
    st.refresh_failed("v3", "401");
    assert_eq!(st.last_error(), "session refresh failed (v3): 401");
    st.no_streaming_tokens("v2");
    assert_eq!(st.last_error(), "no streaming tokens after v2 refresh");
    let _ = st.next(Some(5));
    match st.succeeded() {
        StreamingEvent::Reconnected { attempt } => assert_eq!(attempt, 1),
        other => panic!("unexpected {other:?}"),
    }
    let e = give_up_event(ReconnectStep::GiveUp { attempts: 5, error: "e".into() });
    assert!(matches!(e, Some(StreamingEvent::ReconnectFailed { attempts: 5, .. })));
    assert!(give_up_event(ReconnectStep::Attempt { attempt: 1 }).is_none());
}

#[test]
fn zero_limit_gives_up_at_once() {
    let mut st = ReconnectState::new(None);
    match st.next(Some(0)) {
        ReconnectStep::GiveUp { attempts, error } => {
            assert_eq!(attempts, 0);
            assert_eq!(error, "session ended");
        }
        other => panic!("unexpected {other:?}"),
    }
}
