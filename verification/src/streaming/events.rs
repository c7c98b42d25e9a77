//! Subscription kinds' wire schemas and the non-numeric field decoders of
//! the typed streaming updates.
//!
//! The typed update structs themselves (`MarketUpdate`, `ChartTickUpdate`,
//! …) carry floating-point prices; the library supplies the field schemas
//! and the decoding of every non-floating field.

use vstd::prelude::*;

use crate::text::{chars_of, eq_chars, strs_model};

verus! {

/// Candle scale for `CHART:<epic>:<scale>` subscriptions.
#[derive(Debug, Clone, Copy, PartialEq, Eq)]
pub enum CandleScale {
    /// One-minute candle.
    OneMinute,
    /// Five-minute candle.
    FiveMinute,
    /// One-hour candle.
    Hour,
}

/// Wire-level scale string used in the Lightstreamer item name.
pub open spec fn scale_str(s: CandleScale) -> Seq<char> {
    match s {
        CandleScale::OneMinute => "1MINUTE"@,
        CandleScale::FiveMinute => "5MINUTE"@,
        CandleScale::Hour => "HOUR"@,
    }
}

impl CandleScale {
    /// Return the wire-level scale string used in the Lightstreamer item name.
    pub fn as_str(self) -> (r: &'static str)
        ensures
            r@ == scale_str(self),
    {
        match self {
            CandleScale::OneMinute => "1MINUTE",
            CandleScale::FiveMinute => "5MINUTE",
            CandleScale::Hour => "HOUR",
        }
    }
}

/// Field names of `MARKET:<epic>`, in schema order.
pub open spec fn market_fields_spec() -> Seq<Seq<char>> {
    seq![
        "BID"@,
        "OFFER"@,
        "HIGH"@,
        "LOW"@,
        "MID_OPEN"@,
        "CHANGE"@,
        "CHANGE_PCT"@,
        "UPDATE_TIME"@,
        "MARKET_DELAY"@,
        "MARKET_STATE"@,
    ]
}

/// Field names of `CHART:<epic>:TICK`, in schema order.
pub open spec fn chart_tick_fields_spec() -> Seq<Seq<char>> {
    seq![
        "BID"@,
        "OFR"@,
        "LTP"@,
        "LTV"@,
        "TTV"@,
        "UTM"@,
        "DAY_OPEN_MID"@,
        "DAY_NET_CHG_MID"@,
        "DAY_PERC_CHG_MID"@,
        "DAY_HIGH"@,
        "DAY_LOW"@,
    ]
}

/// Field names of `CHART:<epic>:<scale>`, in schema order.
pub open spec fn chart_candle_fields_spec() -> Seq<Seq<char>> {
    seq![
        "OFR_OPEN"@,
        "OFR_HIGH"@,
        "OFR_LOW"@,
        "OFR_CLOSE"@,
        "BID_OPEN"@,
        "BID_HIGH"@,
        "BID_LOW"@,
        "BID_CLOSE"@,
        "LTP_OPEN"@,
        "LTP_HIGH"@,
        "LTP_LOW"@,
        "LTP_CLOSE"@,
        "CONS_END"@,
        "CONS_TICK_COUNT"@,
        "UTM"@,
    ]
}

/// Field names of `ACCOUNT:<accountId>`, in schema order.
pub open spec fn account_fields_spec() -> Seq<Seq<char>> {
    seq![
        "PNL"@,
        "DEPOSIT"@,
        "AVAILABLE_CASH"@,
        "FUNDS"@,
        "MARGIN"@,
        "MARGIN_LR"@,
        "MARGIN_NLR"@,
        "AVAILABLE_TO_DEAL"@,
        "EQUITY"@,
        "EQUITY_USED"@,
    ]
}

/// Field names of `TRADE:<accountId>`, in schema order.
pub open spec fn trade_fields_spec() -> Seq<Seq<char>> {
    seq!["CONFIRMS"@, "OPU"@, "WOU"@]
}

/// Field names of `MARKET:<epic>`.
pub fn market_fields() -> (r: Vec<&'static str>)
    ensures
        strs_model(r@) == market_fields_spec(),
{
    let r = vec![
        "BID",
        "OFFER",
        "HIGH",
        "LOW",
        "MID_OPEN",
        "CHANGE",
        "CHANGE_PCT",
        "UPDATE_TIME",
        "MARKET_DELAY",
        "MARKET_STATE",
    ];
    assert(strs_model(r@) =~= market_fields_spec());
    r
}

/// Field names of `CHART:<epic>:TICK`.
pub fn chart_tick_fields() -> (r: Vec<&'static str>)
    ensures
        strs_model(r@) == chart_tick_fields_spec(),
{
    let r = vec![
        "BID",
        "OFR",
        "LTP",
        "LTV",
        "TTV",
        "UTM",
        "DAY_OPEN_MID",
        "DAY_NET_CHG_MID",
        "DAY_PERC_CHG_MID",
        "DAY_HIGH",
        "DAY_LOW",
    ];
    assert(strs_model(r@) =~= chart_tick_fields_spec());
    r
}

/// Field names of `CHART:<epic>:<scale>`.
pub fn chart_candle_fields() -> (r: Vec<&'static str>)
    ensures
        strs_model(r@) == chart_candle_fields_spec(),
{
    let r = vec![
        "OFR_OPEN",
        "OFR_HIGH",
        "OFR_LOW",
        "OFR_CLOSE",
        "BID_OPEN",
        "BID_HIGH",
        "BID_LOW",
        "BID_CLOSE",
        "LTP_OPEN",
        "LTP_HIGH",
        "LTP_LOW",
        "LTP_CLOSE",
        "CONS_END",
        "CONS_TICK_COUNT",
        "UTM",
    ];
    assert(strs_model(r@) =~= chart_candle_fields_spec());
    r
}

/// Field names of `ACCOUNT:<accountId>`.
pub fn account_fields() -> (r: Vec<&'static str>)
    ensures
        strs_model(r@) == account_fields_spec(),
{
    let r = vec![
        "PNL",
        "DEPOSIT",
        "AVAILABLE_CASH",
        "FUNDS",
        "MARGIN",
        "MARGIN_LR",
        "MARGIN_NLR",
        "AVAILABLE_TO_DEAL",
        "EQUITY",
        "EQUITY_USED",
    ];
    assert(strs_model(r@) =~= account_fields_spec());
    r
}

/// Field names of `TRADE:<accountId>`.
pub fn trade_fields() -> (r: Vec<&'static str>)
    ensures
        strs_model(r@) == trade_fields_spec(),
{
    let r = vec!["CONFIRMS", "OPU", "WOU"];
    assert(strs_model(r@) =~= trade_fields_spec());
    r
}

/// `MARKET_DELAY`: `"0"`/`"false"` is live, `"1"`/`"true"` is delayed.
pub open spec fn market_delay_spec(s: Seq<char>) -> Option<bool> {
    if s == seq!['0'] || s == seq!['f', 'a', 'l', 's', 'e'] {
        Some(false)
    } else if s == seq!['1'] || s == seq!['t', 'r', 'u', 'e'] {
        Some(true)
    } else {
        None
    }
}

/// `CONS_END`: `"1"` is a completed candle, `"0"` one still forming.
pub open spec fn cons_end_spec(s: Seq<char>) -> Option<bool> {
    if s == seq!['1'] {
        Some(true)
    } else if s == seq!['0'] {
        Some(false)
    } else {
        None
    }
}

/// Decode a `MARKET_DELAY` field value.
pub fn parse_market_delay(s: &str) -> (r: Option<bool>)
    ensures
        r == market_delay_spec(s@),
{
    let c = chars_of(s);
    let zero = ['0'];
    let one = ['1'];
    assert(zero@ =~= seq!['0']);
    assert(one@ =~= seq!['1']);
    if eq_chars(&c, &zero) || eq_chars(&c, &['f', 'a', 'l', 's', 'e']) {
        Some(false)
    } else if eq_chars(&c, &one) || eq_chars(&c, &['t', 'r', 'u', 'e']) {
        Some(true)
    } else {
        None
    }
}

/// Decode a `CONS_END` field value.
pub fn parse_cons_end(s: &str) -> (r: Option<bool>)
    ensures
        r == cons_end_spec(s@),
{
    let c = chars_of(s);
    let zero = ['0'];
    let one = ['1'];
    assert(zero@ =~= seq!['0']);
    assert(one@ =~= seq!['1']);
    if eq_chars(&c, &one) {
        Some(true)
    } else if eq_chars(&c, &zero) {
        Some(false)
    } else {
        None
    }
}

} // verus!
