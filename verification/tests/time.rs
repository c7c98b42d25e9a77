use trading_ig::error::Error;
use trading_ig::time::{parse, parse_optional_utc, ApiVersion, DateTime};

fn dt() -> DateTime {
    DateTime::new(2014, 12, 15, 9, 30, 45).unwrap()
}

#[test]
fn formats_per_version() {
    assert_eq!(trading_ig::time::format(&dt(), ApiVersion::V1), "2014:12:15-09:30:45");
    assert_eq!(trading_ig::time::format(&dt(), ApiVersion::V2), "2014/12/15 09:30:45");
    assert_eq!(trading_ig::time::format(&dt(), ApiVersion::V3), "2014-12-15T09:30:45");
}

#[test]
fn parses_each_format() {
    assert_eq!(parse("2014:12:15-09:30:45", ApiVersion::V1).unwrap(), dt());
    assert_eq!(parse("2014/12/15 09:30:45", ApiVersion::V2).unwrap(), dt());
    assert_eq!(parse("2014-12-15T09:30:45", ApiVersion::V3).unwrap(), dt());
}

#[test]
fn parse_falls_back_to_iso() {
    assert_eq!(parse("2014-12-15T09:30:45", ApiVersion::V1).unwrap(), dt());
}

#[test]
fn parse_error_names_the_text() {
    match parse("yesterday", ApiVersion::V2) {
        Err(Error::InvalidInput(m)) => assert!(m.starts_with("could not parse 'yesterday': ")),
        other => panic!("unexpected {other:?}"),
    }
}

#[test]
fn datetime_validation() {
    assert!(DateTime::new(2024, 2, 29, 0, 0, 0).is_some());
    assert!(DateTime::new(2023, 2, 29, 0, 0, 0).is_none());
    assert!(DateTime::new(1900, 2, 29, 0, 0, 0).is_none());
    assert!(DateTime::new(2000, 2, 29, 0, 0, 0).is_some());
    assert!(DateTime::new(2023, 4, 31, 0, 0, 0).is_none());
    assert!(DateTime::new(2023, 12, 31, 24, 0, 0).is_none());
    assert!(DateTime::new(2023, 13, 1, 0, 0, 0).is_none());
}

#[test]
fn optional_utc_accepts_fractional_seconds() {
    assert_eq!(parse_optional_utc("2014-12-15T09:30:45"), Some(dt()));
    let frac = parse_optional_utc("2014-12-15T09:30:45.250").unwrap();
    assert_eq!(frac.second, 45);
    assert_eq!(frac.nanosecond, 250_000_000);
    assert_eq!(parse_optional_utc("15/12/2014"), None);
    assert_eq!(parse_optional_utc(""), None);
}

#[test]
fn format_pads_every_field() {
    let early = DateTime::new(5, 1, 2, 3, 4, 5).unwrap();
    assert_eq!(trading_ig::time::format(&early, ApiVersion::V1), "0005:01:02-03:04:05");
    assert_eq!(parse("0005:01:02-03:04:05", ApiVersion::V1).unwrap(), early);
    let before_zero = DateTime::new(-5, 1, 2, 3, 4, 5).unwrap();
    assert_eq!(trading_ig::time::format(&before_zero, ApiVersion::V3), "-0005-01-02T03:04:05");
    let far = DateTime::new(12345, 6, 7, 8, 9, 10).unwrap();
    assert_eq!(trading_ig::time::format(&far, ApiVersion::V2), "+12345/06/07 08:09:10");
    let mut leap = DateTime::new(2016, 12, 31, 23, 59, 59).unwrap();
    leap.nanosecond = 1_500_000_000;
    assert_eq!(trading_ig::time::format(&leap, ApiVersion::V3), "2016-12-31T23:59:60");
}

#[test]
fn formatted_text_parses_back() {
    for v in [ApiVersion::V1, ApiVersion::V2, ApiVersion::V3] {
        let text = trading_ig::time::format(&dt(), v);
        assert_eq!(parse(&text, v).unwrap(), dt());
    }
}
