//! Cross-cutting domain primitives.

use vstd::prelude::*;

use crate::error::Error;
use crate::text::{chars_of, concat_chars, eq_chars, string_of};

verus! {

/// IG market identifier (e.g. `"CS.D.GBPUSD.TODAY.IP"`).
#[derive(Debug, Clone, PartialEq, Eq, Hash)]
pub struct Epic(pub String);

/// Opaque deal identifier returned by IG when a position/order is created.
#[derive(Debug, Clone, PartialEq, Eq, Hash)]
pub struct DealId(pub String);

/// Client-side reference for tracking a deal request through the
/// asynchronous confirmation flow.
#[derive(Debug, Clone, PartialEq, Eq, Hash)]
pub struct DealReference(pub String);

/// ISO-4217 currency code.
#[derive(Debug, Clone, PartialEq, Eq, Hash)]
pub struct Currency(pub String);

impl Epic {
    pub fn new(s: &str) -> (r: Epic)
        ensures
            r.0@ == s@,
    {
        Epic(string_of(&chars_of(s)))
    }

    pub fn as_str(&self) -> (r: &str)
        ensures
            r@ == self.0@,
    {
        self.0.as_str()
    }

    pub fn into_inner(self) -> (r: String)
        ensures
            r@ == self.0@,
    {
        self.0
    }
}

impl DealId {
    pub fn new(s: &str) -> (r: DealId)
        ensures
            r.0@ == s@,
    {
        DealId(string_of(&chars_of(s)))
    }

    pub fn as_str(&self) -> (r: &str)
        ensures
            r@ == self.0@,
    {
        self.0.as_str()
    }

    pub fn into_inner(self) -> (r: String)
        ensures
            r@ == self.0@,
    {
        self.0
    }
}

impl DealReference {
    pub fn new(s: &str) -> (r: DealReference)
        ensures
            r.0@ == s@,
    {
        DealReference(string_of(&chars_of(s)))
    }

    pub fn as_str(&self) -> (r: &str)
        ensures
            r@ == self.0@,
    {
        self.0.as_str()
    }

    pub fn into_inner(self) -> (r: String)
        ensures
            r@ == self.0@,
    {
        self.0
    }
}

impl Currency {
    pub fn new(code: &str) -> (r: Currency)
        ensures
            r.0@ == code@,
    {
        Currency(string_of(&chars_of(code)))
    }

    pub fn as_str(&self) -> (r: &str)
        ensures
            r@ == self.0@,
    {
        self.0.as_str()
    }
}

/// Deal direction.
#[derive(Debug, Clone, Copy, PartialEq, Eq, Structural)]
pub enum Direction {
    Buy,
    Sell,
}

/// ASCII upper-casing of one character (`char::to_ascii_uppercase`).
pub open spec fn ascii_upper(c: char) -> char {
    if 'a' <= c && c <= 'z' {
        ((c as u32) - 32) as char
    } else {
        c
    }
}

/// ASCII upper-casing of a text (`str::to_ascii_uppercase`).
pub open spec fn ascii_upper_seq(s: Seq<char>) -> Seq<char> {
    s.map_values(|c: char| ascii_upper(c))
}

fn upper_char(c: char) -> (r: char)
    ensures
        r == ascii_upper(c),
{
    if 'a' <= c && c <= 'z' {
        ((c as u8) - 32) as char
    } else {
        c
    }
}

/// Executable form of [`ascii_upper_seq`].
pub fn to_ascii_upper(v: &[char]) -> (r: Vec<char>)
    ensures
        r@ == ascii_upper_seq(v@),
{
    let mut r: Vec<char> = Vec::new();
    let mut i: usize = 0;
    while i < v.len()
        invariant
            i <= v@.len(),
            r@ == ascii_upper_seq(v@.take(i as int)),
        decreases v.len() - i,
    {
        r.push(upper_char(v[i]));
        i = i + 1;
        assert(r@ =~= ascii_upper_seq(v@.take(i as int)));
    }
    assert(v@.take(v@.len() as int) =~= v@);
    r
}

/// The direction a text names, case-insensitively.
pub open spec fn direction_of(s: Seq<char>) -> Option<Direction> {
    if ascii_upper_seq(s) == "BUY"@ {
        Some(Direction::Buy)
    } else if ascii_upper_seq(s) == "SELL"@ {
        Some(Direction::Sell)
    } else {
        None
    }
}

impl Direction {
    /// The other side.
    pub fn opposite(self) -> (r: Direction)
        ensures
            r == opposite_spec(self),
    {
        match self {
            Direction::Buy => Direction::Sell,
            Direction::Sell => Direction::Buy,
        }
    }

    /// The wire form: `"BUY"` or `"SELL"`.
    pub fn as_str(&self) -> (r: &'static str)
        ensures
            r@ == direction_wire(*self),
    {
        match self {
            Direction::Buy => "BUY",
            Direction::Sell => "SELL",
        }
    }

    /// Parse a direction, ignoring ASCII case; anything else gives
    /// [`Error::InvalidInput`] naming the upper-cased text.
    pub fn parse(s: &str) -> (r: Result<Direction, Error>)
        ensures
            match direction_of(s@) {
                Some(d) => r == Ok::<Direction, Error>(d),
                None => r matches Err(e) && e matches Error::InvalidInput(m) && m@
                    == "unknown direction '"@ + ascii_upper_seq(s@) + "'"@,
            },
    {
        let up = to_ascii_upper(&chars_of(s));
        if eq_chars(&up, &chars_of("BUY")) {
            Ok(Direction::Buy)
        } else if eq_chars(&up, &chars_of("SELL")) {
            Ok(Direction::Sell)
        } else {
            let a = concat_chars(&chars_of("unknown direction '"), &up);
            let m = concat_chars(&a, &chars_of("'"));
            Err(Error::InvalidInput(string_of(&m)))
        }
    }
}

/// The other side of a direction.
pub open spec fn opposite_spec(d: Direction) -> Direction {
    match d {
        Direction::Buy => Direction::Sell,
        Direction::Sell => Direction::Buy,
    }
}

/// Applying `opposite` twice gives the direction back, and the opposite
/// is always the other direction.
pub proof fn lemma_opposite_involutive(d: Direction)
    ensures
        opposite_spec(opposite_spec(d)) == d,
        opposite_spec(d) != d,
{
}

impl std::str::FromStr for Direction {
    type Err = Error;

    fn from_str(s: &str) -> (r: Result<Direction, Error>)
        ensures
            match direction_of(s@) {
                Some(d) => r == Ok::<Direction, Error>(d),
                None => r matches Err(e) && e matches Error::InvalidInput(m) && m@
                    == "unknown direction '"@ + ascii_upper_seq(s@) + "'"@,
            },
    {
        Direction::parse(s)
    }
}

/// Order type.
#[derive(Debug, Clone, Copy, PartialEq, Eq, Structural)]
pub enum OrderType {
    Limit,
    Market,
    Quote,
    Stop,
}

/// Time in force of a working order.
#[derive(Debug, Clone, Copy, PartialEq, Eq, Structural)]
pub enum TimeInForce {
    /// Good till cancelled (default for working orders).
    GoodTillCancelled,
    /// Good till the specified date.
    GoodTillDate,
    /// Execute and eliminate any unfilled remainder.
    ExecuteAndEliminate,
    /// Fill or kill.
    FillOrKill,
}

/// IG instrument classification.
#[derive(Debug, Clone, Copy, PartialEq, Eq, Structural)]
pub enum InstrumentType {
    Currencies,
    Shares,
    Indices,
    Commodities,
    Options,
    Bonds,
    Rates,
    Sectors,
    Funds,
    SprintMarkets,
    Unknown,
}

/// Current trading status of a market.
#[derive(Debug, Clone, Copy, PartialEq, Eq, Structural)]
pub enum MarketStatus {
    /// Market is open and tradeable.
    Tradeable,
    /// Edits (stop / limit moves) are allowed but new deals are not.
    EditsOnly,
    /// Market is closed for trading.
    Closed,
    /// Market is offline (e.g. weekend).
    Offline,
    /// Auction is in progress.
    OnAuction,
    /// Pre-market auction state.
    OnAuctionNoEdits,
    /// Suspended from trading.
    Suspended,
    Unknown,
}

/// The status a snapshot without one is given.
pub fn default_market_status() -> (r: MarketStatus)
    ensures
        r == MarketStatus::Unknown,
{
    MarketStatus::Unknown
}

/// Wire names of the order types.
pub open spec fn order_type_wire(t: OrderType) -> Seq<char> {
    match t {
        OrderType::Limit => "LIMIT"@,
        OrderType::Market => "MARKET"@,
        OrderType::Quote => "QUOTE"@,
        OrderType::Stop => "STOP"@,
    }
}

/// Wire names of the times in force.
pub open spec fn time_in_force_wire(t: TimeInForce) -> Seq<char> {
    match t {
        TimeInForce::GoodTillCancelled => "GOOD_TILL_CANCELLED"@,
        TimeInForce::GoodTillDate => "GOOD_TILL_DATE"@,
        TimeInForce::ExecuteAndEliminate => "EXECUTE_AND_ELIMINATE"@,
        TimeInForce::FillOrKill => "FILL_OR_KILL"@,
    }
}

/// Wire names of the market states.
pub open spec fn market_status_wire(s: MarketStatus) -> Seq<char> {
    match s {
        MarketStatus::Tradeable => "TRADEABLE"@,
        MarketStatus::EditsOnly => "EDITS_ONLY"@,
        MarketStatus::Closed => "CLOSED"@,
        MarketStatus::Offline => "OFFLINE"@,
        MarketStatus::OnAuction => "ON_AUCTION"@,
        MarketStatus::OnAuctionNoEdits => "ON_AUCTION_NO_EDITS"@,
        MarketStatus::Suspended => "SUSPENDED"@,
        MarketStatus::Unknown => "UNKNOWN"@,
    }
}

/// Wire names of the instrument types.
pub open spec fn instrument_type_wire(t: InstrumentType) -> Seq<char> {
    match t {
        InstrumentType::Currencies => "CURRENCIES"@,
        InstrumentType::Shares => "SHARES"@,
        InstrumentType::Indices => "INDICES"@,
        InstrumentType::Commodities => "COMMODITIES"@,
        InstrumentType::Options => "OPTIONS"@,
        InstrumentType::Bonds => "BONDS"@,
        InstrumentType::Rates => "RATES"@,
        InstrumentType::Sectors => "SECTORS"@,
        InstrumentType::Funds => "FUNDS"@,
        InstrumentType::SprintMarkets => "SPRINT_MARKETS"@,
        InstrumentType::Unknown => "UNKNOWN"@,
    }
}

/// The wire name of an order type.
pub fn order_type_str(t: OrderType) -> (r: &'static str)
    ensures
        r@ == order_type_wire(t),
{
    match t {
        OrderType::Limit => "LIMIT",
        OrderType::Market => "MARKET",
        OrderType::Quote => "QUOTE",
        OrderType::Stop => "STOP",
    }
}

/// The wire name of a time in force.
pub fn time_in_force_str(t: TimeInForce) -> (r: &'static str)
    ensures
        r@ == time_in_force_wire(t),
{
    match t {
        TimeInForce::GoodTillCancelled => "GOOD_TILL_CANCELLED",
        TimeInForce::GoodTillDate => "GOOD_TILL_DATE",
        TimeInForce::ExecuteAndEliminate => "EXECUTE_AND_ELIMINATE",
        TimeInForce::FillOrKill => "FILL_OR_KILL",
    }
}

/// The wire name of a market status.
pub fn market_status_str(s: MarketStatus) -> (r: &'static str)
    ensures
        r@ == market_status_wire(s),
{
    match s {
        MarketStatus::Tradeable => "TRADEABLE",
        MarketStatus::EditsOnly => "EDITS_ONLY",
        MarketStatus::Closed => "CLOSED",
        MarketStatus::Offline => "OFFLINE",
        MarketStatus::OnAuction => "ON_AUCTION",
        MarketStatus::OnAuctionNoEdits => "ON_AUCTION_NO_EDITS",
        MarketStatus::Suspended => "SUSPENDED",
        MarketStatus::Unknown => "UNKNOWN",
    }
}

/// The wire name of an instrument type.
pub fn instrument_type_str(t: InstrumentType) -> (r: &'static str)
    ensures
        r@ == instrument_type_wire(t),
{
    match t {
        InstrumentType::Currencies => "CURRENCIES",
        InstrumentType::Shares => "SHARES",
        InstrumentType::Indices => "INDICES",
        InstrumentType::Commodities => "COMMODITIES",
        InstrumentType::Options => "OPTIONS",
        InstrumentType::Bonds => "BONDS",
        InstrumentType::Rates => "RATES",
        InstrumentType::Sectors => "SECTORS",
        InstrumentType::Funds => "FUNDS",
        InstrumentType::SprintMarkets => "SPRINT_MARKETS",
        InstrumentType::Unknown => "UNKNOWN",
    }
}

/// The market status a wire name denotes; names not listed are `Unknown`.
pub fn market_status_from_wire(s: &str) -> (r: MarketStatus)
    ensures
        (exists|m: MarketStatus| market_status_wire(m) == s@) ==> market_status_wire(r) == s@,
        !(exists|m: MarketStatus| market_status_wire(m) == s@) ==> r == MarketStatus::Unknown,
{
    let v = chars_of(s);
    let all: [MarketStatus; 7] = [
        MarketStatus::Tradeable,
        MarketStatus::EditsOnly,
        MarketStatus::Closed,
        MarketStatus::Offline,
        MarketStatus::OnAuction,
        MarketStatus::OnAuctionNoEdits,
        MarketStatus::Suspended,
    ];
    let mut i: usize = 0;
    while i < 7
        invariant
            i <= 7,
            v@ == s@,
            all@ == seq![
                MarketStatus::Tradeable,
                MarketStatus::EditsOnly,
                MarketStatus::Closed,
                MarketStatus::Offline,
                MarketStatus::OnAuction,
                MarketStatus::OnAuctionNoEdits,
                MarketStatus::Suspended,
            ],
            forall|j: int| 0 <= j < i ==> market_status_wire(#[trigger] all@[j]) != s@,
        decreases 7 - i,
    {
        if eq_chars(&v, &chars_of(market_status_str(all[i]))) {
            return all[i];
        }
        i = i + 1;
    }
    assert forall|m: MarketStatus| market_status_wire(m) != s@ || m == MarketStatus::Unknown by {
        match m {
            MarketStatus::Tradeable => assert(market_status_wire(all@[0]) != s@),
            MarketStatus::EditsOnly => assert(market_status_wire(all@[1]) != s@),
            MarketStatus::Closed => assert(market_status_wire(all@[2]) != s@),
            MarketStatus::Offline => assert(market_status_wire(all@[3]) != s@),
            MarketStatus::OnAuction => assert(market_status_wire(all@[4]) != s@),
            MarketStatus::OnAuctionNoEdits => assert(market_status_wire(all@[5]) != s@),
            MarketStatus::Suspended => assert(market_status_wire(all@[6]) != s@),
            MarketStatus::Unknown => {},
        }
    }
    MarketStatus::Unknown
}

/// Distinct market states have distinct wire names, so a status read back
/// from its wire name is the status itself.
pub proof fn lemma_market_status_wire_injective(a: MarketStatus, b: MarketStatus)
    ensures
        market_status_wire(a) == market_status_wire(b) ==> a == b,
{
    reveal_strlit("TRADEABLE");
    reveal_strlit("EDITS_ONLY");
    reveal_strlit("CLOSED");
    reveal_strlit("OFFLINE");
    reveal_strlit("ON_AUCTION");
    reveal_strlit("ON_AUCTION_NO_EDITS");
    reveal_strlit("SUSPENDED");
    reveal_strlit("UNKNOWN");
    if market_status_wire(a) == market_status_wire(b) {
        assert(market_status_wire(a).len() == market_status_wire(b).len());
        assert(market_status_wire(a)[0] == market_status_wire(b)[0]);
        assert(market_status_wire(a)[1] == market_status_wire(b)[1]);
    }
}

/// The wire name of a direction.
pub open spec fn direction_wire(d: Direction) -> Seq<char> {
    match d {
        Direction::Buy => "BUY"@,
        Direction::Sell => "SELL"@,
    }
}

/// A direction's wire name parses back to the direction.
pub proof fn lemma_direction_round_trip(d: Direction)
    ensures
        direction_of(direction_wire(d)) == Some(d),
{
    reveal_strlit("BUY");
    reveal_strlit("SELL");
    assert(ascii_upper_seq("BUY"@) =~= "BUY"@);
    assert(ascii_upper_seq("SELL"@) =~= "SELL"@);
}

} // verus!
