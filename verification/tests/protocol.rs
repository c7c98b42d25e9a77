use trading_ig::streaming::protocol::{
    decode_field, merge_fields, parse_line, parse_ok_block, FieldValue, Frame,
};

// ------------------------------------------------------------------
// parse_line – server commands
// ------------------------------------------------------------------

#[test]
fn test_probe() {
    assert_eq!(parse_line(b"PROBE"), Frame::Probe);
}

#[test]
fn test_loop() {
    assert_eq!(parse_line(b"LOOP"), Frame::Loop);
}

#[test]
fn test_sync_error() {
    assert_eq!(parse_line(b"SYNC ERROR"), Frame::SyncError);
}

#[test]
fn test_ok_bare() {
    assert_eq!(
        parse_line(b"OK"),
        Frame::SessionOk {
            session_id: String::new()
        }
    );
}

#[test]
fn test_session_id_line() {
    assert_eq!(
        parse_line(b"SessionId:Sabc123"),
        Frame::SessionOk {
            session_id: "Sabc123".into()
        }
    );
}

#[test]
fn test_error_bare() {
    let f = parse_line(b"ERROR42 bad connection");
    assert!(matches!(f, Frame::Error { .. }));
}

#[test]
fn test_end_no_cause() {
    assert_eq!(parse_line(b"END"), Frame::End { cause: None });
}

#[test]
fn test_end_with_cause() {
    assert_eq!(
        parse_line(b"END session expired"),
        Frame::End {
            cause: Some("session expired".into())
        }
    );
}

// ------------------------------------------------------------------
// parse_line – update frames
// ------------------------------------------------------------------

#[test]
fn test_simple_update() {
    let f = parse_line(b"1|100.5|101.0");
    assert_eq!(
        f,
        Frame::Update {
            item_index: 1,
            fields: vec![
                FieldValue::Value("100.5".into()),
                FieldValue::Value("101.0".into()),
            ]
        }
    );
}

#[test]
fn test_table_item_update_key() {
    let f = parse_line(b"1,1|100.5|101.0");
    assert_eq!(
        f,
        Frame::Update {
            item_index: 1,
            fields: vec![
                FieldValue::Value("100.5".into()),
                FieldValue::Value("101.0".into()),
            ]
        }
    );
    let real = parse_line(b"2,1|1.16458|1.16468|#|1|#|1779709103150");
    assert!(matches!(real, Frame::Update { item_index: 2, .. }));
}

#[test]
fn test_empty_string_dollar() {
    let f = parse_line(b"1|$|101.0");
    assert_eq!(
        f,
        Frame::Update {
            item_index: 1,
            fields: vec![
                FieldValue::Value(String::new()),
                FieldValue::Value("101.0".into()),
            ]
        }
    );
}

#[test]
fn test_null_hash() {
    let f = parse_line(b"1|#|101.0");
    assert_eq!(
        f,
        Frame::Update {
            item_index: 1,
            fields: vec![FieldValue::Null, FieldValue::Value("101.0".into()),]
        }
    );
}

#[test]
fn test_unchanged_trailing_fields() {
    let f = parse_line(b"2|BID_VALUE|OFR_VALUE");
    assert_eq!(
        f,
        Frame::Update {
            item_index: 2,
            fields: vec![
                FieldValue::Value("BID_VALUE".into()),
                FieldValue::Value("OFR_VALUE".into()),
            ]
        }
    );
}

#[test]
fn test_update_with_empty_middle_field() {
    let f = parse_line(b"1|100||200");
    assert_eq!(
        f,
        Frame::Update {
            item_index: 1,
            fields: vec![
                FieldValue::Value("100".into()),
                FieldValue::Unchanged,
                FieldValue::Value("200".into()),
            ]
        }
    );
}

#[test]
fn test_update_all_special() {
    let f = parse_line(b"3|$|#|$");
    assert_eq!(
        f,
        Frame::Update {
            item_index: 3,
            fields: vec![
                FieldValue::Value(String::new()),
                FieldValue::Null,
                FieldValue::Value(String::new()),
            ]
        }
    );
}

#[test]
fn test_high_item_index() {
    let f = parse_line(b"42|val");
    assert_eq!(
        f,
        Frame::Update {
            item_index: 42,
            fields: vec![FieldValue::Value("val".into())]
        }
    );
}

#[test]
fn test_crlf_stripped() {
    let f = parse_line(b"PROBE\r");
    assert_eq!(f, Frame::Probe);
}

#[test]
fn test_unknown_line() {
    let f = parse_line(b"SOMETHING_WEIRD");
    assert!(matches!(f, Frame::Unknown(_)));
}

// ------------------------------------------------------------------
// parse_ok_block
// ------------------------------------------------------------------

#[test]
fn test_parse_ok_block_basic() {
    let block = "OK\r\nSessionId:Sabc\r\nControlAddress:push.lightstreamer.com\r\n\r\n";
    let (sid, extras) = parse_ok_block(block).unwrap();
    assert_eq!(sid, "Sabc");
    assert!(extras.iter().any(|(k, _)| k == "ControlAddress"));
}

#[test]
fn test_parse_ok_block_missing_ok() {
    assert!(parse_ok_block("ERROR\r\nSomething\r\n").is_none());
}

#[test]
fn test_parse_ok_block_no_session_id() {
    let block = "OK\r\nControlAddress:push.ls.com\r\n\r\n";
    let (sid, _) = parse_ok_block(block).unwrap();
    assert_eq!(sid, "");
}

// ------------------------------------------------------------------
// merge_fields
// ------------------------------------------------------------------

#[test]
fn test_merge_fields_all_new() {
    let mut state: Vec<Option<String>> = vec![];
    merge_fields(
        &mut state,
        &[
            FieldValue::Value("100.0".into()),
            FieldValue::Value("101.0".into()),
        ],
    );
    assert_eq!(state, vec![Some("100.0".into()), Some("101.0".into())]);
}

#[test]
fn test_merge_fields_unchanged_preserved() {
    let mut state = vec![Some("100.0".into()), Some("101.0".into())];
    merge_fields(
        &mut state,
        &[FieldValue::Unchanged, FieldValue::Value("102.0".into())],
    );
    assert_eq!(state, vec![Some("100.0".into()), Some("102.0".into())]);
}

#[test]
fn test_merge_fields_null_clears() {
    let mut state = vec![Some("100.0".into()), Some("101.0".into())];
    merge_fields(&mut state, &[FieldValue::Null, FieldValue::Unchanged]);
    assert_eq!(state, vec![None, Some("101.0".into())]);
}

#[test]
fn test_merge_fields_extends_state() {
    let mut state: Vec<Option<String>> = vec![Some("a".into())];
    merge_fields(
        &mut state,
        &[
            FieldValue::Unchanged,
            FieldValue::Value("b".into()),
            FieldValue::Value("c".into()),
        ],
    );
    assert_eq!(
        state,
        vec![Some("a".into()), Some("b".into()), Some("c".into())]
    );
}

// ------------------------------------------------------------------
// FieldValue helpers
// ------------------------------------------------------------------

#[test]
fn test_field_value_parse_i64() {
    assert_eq!(FieldValue::Value("42".into()).parse_i64(), Some(42));
}

#[test]
fn test_field_value_parse_bool() {
    assert_eq!(FieldValue::Value("true".into()).parse_bool(), Some(true));
    assert_eq!(FieldValue::Value("false".into()).parse_bool(), Some(false));
    assert_eq!(FieldValue::Value("yes".into()).parse_bool(), None);
}

// ------------------------------------------------------------------
// Further cases
// ------------------------------------------------------------------

#[test]
fn invalid_utf8_line_is_unknown_lossy_text() {
    let f = parse_line(b"ab\xffcd");
    assert_eq!(f, Frame::Unknown("ab\u{fffd}cd".into()));
}

#[test]
fn update_with_bad_index_is_unknown() {
    assert!(matches!(parse_line(b"x|1|2"), Frame::Unknown(_)));
}

#[test]
fn merge_is_idempotent_on_values() {
    let fields = [FieldValue::Value("1".into()), FieldValue::Null, FieldValue::Unchanged];
    let mut once: Vec<Option<String>> = vec![Some("a".into()), Some("b".into()), Some("c".into())];
    merge_fields(&mut once, &fields);
    let mut twice = once.clone();
    merge_fields(&mut twice, &fields);
    assert_eq!(once, twice);
    assert_eq!(once, vec![Some("1".into()), None, Some("c".into())]);
}

#[test]
fn field_value_as_str() {
    assert_eq!(FieldValue::Value("x".into()).as_str(), Some("x"));
    assert_eq!(FieldValue::Null.as_str(), None);
    assert_eq!(FieldValue::Unchanged.as_str(), None);
    assert_eq!(FieldValue::Value("-7".into()).parse_i64(), Some(-7));
    assert_eq!(FieldValue::Value("7x".into()).parse_i64(), None);
}

#[test]
fn decode_field_tokens() {
    assert_eq!(decode_field("$"), FieldValue::Value(String::new()));
    assert_eq!(decode_field("#"), FieldValue::Null);
    assert_eq!(decode_field(""), FieldValue::Unchanged);
    assert_eq!(decode_field("1.5"), FieldValue::Value("1.5".into()));
}

#[test]
fn any_number_of_trailing_crs_is_ignored() {
    assert_eq!(parse_line(b"PROBE\r\r\r"), Frame::Probe);
    assert_eq!(parse_line(b"LOOP\r\r"), parse_line(b"LOOP"));
    assert_eq!(parse_line(b"END 41 done\r\r"), parse_line(b"END 41 done"));
}

#[test]
fn ok_block_reads_like_str_lines() {
    let with_crlf = parse_ok_block("OK\r\nSessionId:S1\r\nControlAddress:srv\r\n").unwrap();
    let with_lf = parse_ok_block("OK\nSessionId:S1\nControlAddress:srv").unwrap();
    assert_eq!(with_crlf, with_lf);
    assert_eq!(with_crlf.0, "S1");
    assert_eq!(with_crlf.1, vec![("ControlAddress".to_string(), "srv".to_string())]);
    assert!(parse_ok_block("").is_none());
    assert!(parse_ok_block("\nOK").is_none());
}
