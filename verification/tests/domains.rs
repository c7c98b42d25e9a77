use trading_ig::accounts::{AccountType, UpdatePreferences};
use trading_ig::dealing::{confirm_again, confirm_path, position_otc_path, working_order_path, DealStatus};
use trading_ig::models::common::{DealId, DealReference, Epic};
use trading_ig::operations::ApplicationStatus;
use trading_ig::paths::with_trailing_slash;
use trading_ig::sentiment::{repeat_dealing_window_path, sentiments_path, window_retry};
use trading_ig::streaming::events::{parse_cons_end, parse_market_delay, CandleScale};
use trading_ig::watchlists::{watchlist_market_path, watchlist_path};

#[test]
fn update_preferences_wire() {
    assert_eq!(UpdatePreferences { trailing_stops_enabled: true }.to_wire().trailing_stops_enabled, "true");
    assert_eq!(UpdatePreferences { trailing_stops_enabled: false }.to_wire().trailing_stops_enabled, "false");
    assert_eq!(AccountType::Spreadbet.as_str(), "SPREADBET");
    assert_eq!(ApplicationStatus::Revoked.as_str(), "REVOKED");
    assert_eq!(DealStatus::Accepted.as_str(), "ACCEPTED");
}

#[test]
fn dealing_paths_and_retries() {
    assert_eq!(confirm_path(&DealReference::new("REF")), "confirms/REF");
    assert_eq!(position_otc_path(&DealId::new("D")), "positions/otc/D");
    assert_eq!(working_order_path(&DealId::new("W")), "workingorders/otc/W");
    assert!(confirm_again(0));
    assert!(confirm_again(3));
    assert!(!confirm_again(4));
    assert!(window_retry(4));
    assert!(!window_retry(5));
}

#[test]
fn other_paths() {
    assert_eq!(sentiments_path(&["A", "B"]), "clientsentiment?marketIds=A,B");
    assert_eq!(repeat_dealing_window_path(&Epic::new("E")), "repeat-dealing-window?epic=E");
    assert_eq!(watchlist_path("W1"), "watchlists/W1");
    assert_eq!(watchlist_market_path("W1", &Epic::new("E")), "watchlists/W1/E");
}

#[test]
fn candle_scale_and_flags() {
    assert_eq!(CandleScale::FiveMinute.as_str(), "5MINUTE");
    assert_eq!(parse_market_delay("1"), Some(true));
    assert_eq!(parse_cons_end("0"), Some(false));
}

#[test]
fn base_path_gets_one_trailing_slash() {
    assert_eq!(with_trailing_slash("/gateway/deal"), "/gateway/deal/");
    assert_eq!(with_trailing_slash("/gateway/deal/"), "/gateway/deal/");
    assert_eq!(with_trailing_slash(""), "/");
    assert_eq!(with_trailing_slash("/"), "/");
}
