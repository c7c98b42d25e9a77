use trading_ig::models::common::Epic;
use trading_ig::prices::{
    build_query_path, date_range_v1_path, num_points_path, percent_encode, prices_params,
    next_price_page, snapshot_utc, HistoricalPricesRequest, Resolution,
};
use trading_ig::time::DateTime;

#[test]
fn resolution_serialises_numbered_with_underscore() {
    let cases = [
        (Resolution::Second, "SECOND"),
        (Resolution::Minute, "MINUTE"),
        (Resolution::Minute2, "MINUTE_2"),
        (Resolution::Minute5, "MINUTE_5"),
        (Resolution::Minute10, "MINUTE_10"),
        (Resolution::Minute15, "MINUTE_15"),
        (Resolution::Minute30, "MINUTE_30"),
        (Resolution::Hour, "HOUR"),
        (Resolution::Hour2, "HOUR_2"),
        (Resolution::Hour4, "HOUR_4"),
        (Resolution::Day, "DAY"),
    ];
    for (res, wire) in cases {
        assert_eq!(res.as_str(), wire, "wire for {res:?}");
        assert_eq!(Resolution::parse(wire), Some(res));
    }
}

#[test]
fn resolution_roundtrips_from_ig_wire() {
    let wire: String = serde_json::from_str("\"MINUTE_15\"").unwrap();
    let r = Resolution::parse(&wire).unwrap();
    assert_eq!(r, Resolution::Minute15);
    assert_eq!(Resolution::parse("MINUTE15"), None);
}

#[test]
fn prices_percent_encode() {
    assert_eq!(percent_encode("a b+c/d"), "a%20b%2Bc/d");
}

#[test]
fn prices_query_path() {
    let p = build_query_path("prices/X", &[("from", "2024-01-01T00:00:00".to_owned()), ("max", "a b".to_owned())]);
    assert_eq!(p, "prices/X?from=2024-01-01T00:00:00&max=a%20b");
    assert_eq!(build_query_path("prices/X", &[]), "prices/X");
}

#[test]
fn prices_request_params() {
    let req = HistoricalPricesRequest {
        resolution: Some(Resolution::Hour),
        from: DateTime::new(2024, 6, 3, 14, 0, 0),
        page_number: Some(2),
        ..HistoricalPricesRequest::default()
    };
    let p = prices_params(&req);
    assert_eq!(
        p,
        vec![
            ("resolution", "HOUR".to_owned()),
            ("from", "2024-06-03T14:00:00".to_owned()),
            ("pageNumber", "2".to_owned()),
        ]
    );
}

#[test]
fn prices_paths() {
    let e = Epic::new("CS.D.EURUSD.MINI.IP");
    assert_eq!(num_points_path(&e, Resolution::Minute5, 10), "prices/CS.D.EURUSD.MINI.IP/MINUTE_5/10");
    let f = DateTime::new(2024, 1, 2, 3, 4, 5).unwrap();
    let t = DateTime::new(2024, 1, 3, 3, 4, 5).unwrap();
    assert_eq!(
        date_range_v1_path(&e, Resolution::Day, &f, &t),
        "prices/CS.D.EURUSD.MINI.IP/DAY?startdate=2024:01:02-03:04:05&enddate=2024:01:03-03:04:05"
    );
}

#[test]
fn snapshot_time_falls_back_to_v2_text() {
    let utc = DateTime::new(2024, 6, 3, 14, 0, 0).unwrap();
    assert_eq!(snapshot_utc(Some(utc), "garbage").unwrap(), utc);
    assert_eq!(snapshot_utc(None, "2024/06/03 14:00:00").unwrap(), utc);
    assert!(snapshot_utc(None, "2024-06-03T14:00:00").is_err());
}

#[test]
fn price_pages_follow_in_order() {
    assert_eq!(next_price_page(1, 1), None);
    assert_eq!(next_price_page(1, 3), Some(2));
    assert_eq!(next_price_page(3, 3), None);
}
