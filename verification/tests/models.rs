use trading_ig::error::Error;
use trading_ig::models::common::{
    default_market_status, instrument_type_str, InstrumentType, market_status_from_wire, market_status_str, order_type_str,
    time_in_force_str, Currency, Direction, Epic, MarketStatus, OrderType, TimeInForce,
};

#[test]
fn direction_serialises_uppercase() {
    let s = format!("\"{}\"", Direction::Buy.as_str());
    assert_eq!(s, "\"BUY\"");
    let wire: String = serde_json::from_str("\"SELL\"").unwrap();
    let d = Direction::parse(&wire).unwrap();
    assert_eq!(d, Direction::Sell);
}

#[test]
fn epic_round_trips() {
    let wire: String = serde_json::from_str("\"CS.D.GBPUSD.TODAY.IP\"").unwrap();
    let e = Epic::new(&wire);
    assert_eq!(e.as_str(), "CS.D.GBPUSD.TODAY.IP");
    assert_eq!(serde_json::to_string(e.as_str()).unwrap(), "\"CS.D.GBPUSD.TODAY.IP\"");
}

#[test]
fn direction_parse_ignores_case() {
    assert_eq!(Direction::parse("buy").unwrap(), Direction::Buy);
    assert_eq!("sElL".parse::<Direction>().unwrap(), Direction::Sell);
    match Direction::parse("hold") {
        Err(Error::InvalidInput(m)) => assert_eq!(m, "unknown direction 'HOLD'"),
        other => panic!("unexpected {other:?}"),
    }
}

#[test]
fn direction_opposite_twice_is_identity() {
    for d in [Direction::Buy, Direction::Sell] {
        assert_ne!(d.opposite(), d);
        assert_eq!(d.opposite().opposite(), d);
    }
}

#[test]
fn currency_newtype() {
    let c = Currency::new("GBP");
    assert_eq!(c.as_str(), "GBP");
}

#[test]
fn wire_names() {
    assert_eq!(order_type_str(OrderType::Limit), "LIMIT");
    assert_eq!(order_type_str(OrderType::Quote), "QUOTE");
    assert_eq!(time_in_force_str(TimeInForce::GoodTillDate), "GOOD_TILL_DATE");
    assert_eq!(time_in_force_str(TimeInForce::FillOrKill), "FILL_OR_KILL");
    assert_eq!(market_status_str(MarketStatus::OnAuctionNoEdits), "ON_AUCTION_NO_EDITS");
    assert_eq!(default_market_status(), MarketStatus::Unknown);
    assert_eq!(market_status_from_wire("EDITS_ONLY"), MarketStatus::EditsOnly);
    assert_eq!(market_status_from_wire("SOMETHING_NEW"), MarketStatus::Unknown);
}

#[test]
fn instrument_type_wire_names() {
    assert_eq!(instrument_type_str(InstrumentType::SprintMarkets), "SPRINT_MARKETS");
    assert_eq!(instrument_type_str(InstrumentType::Unknown), "UNKNOWN");
}
