//! The markets domain: search, bulk fetch, single market and navigation
//! requests.

use vstd::prelude::*;
use vstd::utf8::*;

use crate::error::Error;
use crate::models::common::Epic;
pub use crate::models::common::{InstrumentType, MarketStatus};
use crate::paths::prefixed;
use crate::query::{encode_bytes, encode_query_value};
use crate::text::{chars_of, concat_chars, join, push_all, string_of};

verus! {

/// Filter for the bulk-fetch (`GET /markets?epics=…`) endpoint.
#[derive(Debug, Clone, Copy, PartialEq, Eq, Structural)]
pub enum MarketDetailFilter {
    /// Return full instrument + dealing rules + snapshot detail.
    All,
    /// Return only the snapshot (pricing) data.
    SnapshotOnly,
}

impl MarketDetailFilter {
    /// The string expected by the `filter` query parameter.
    pub fn as_query_str(self) -> (r: &'static str)
        ensures
            self == MarketDetailFilter::All ==> r@ == "ALL"@,
            self == MarketDetailFilter::SnapshotOnly ==> r@ == "SNAPSHOT_ONLY"@,
    {
        match self {
            MarketDetailFilter::All => "ALL",
            MarketDetailFilter::SnapshotOnly => "SNAPSHOT_ONLY",
        }
    }
}

/// A currency an instrument can be dealt in.
#[derive(Debug, Clone)]
pub struct InstrumentCurrency {
    pub code: String,
    pub name: String,
    pub symbol: String,
    pub is_default: bool,
}

/// A child node of the market navigation hierarchy.
#[derive(Debug, Clone)]
pub struct NavigationChild {
    pub id: String,
    pub name: String,
}

/// Percent-encode a query-parameter value: RFC 3986 unreserved bytes are
/// kept, a space becomes `+`, every other byte `%XX`.
pub fn percent_encode(s: &str) -> (r: String)
    ensures
        r@ == encode_bytes(encode_utf8(s@), false),
{
    encode_query_value(s, false)
}

/// `markets?searchTerm=…` with the term encoded.
pub fn search_path(search_term: &str) -> (r: String)
    ensures
        r@ == "markets?searchTerm="@ + encode_bytes(encode_utf8(search_term@), false),
{
    let e = percent_encode(search_term);
    prefixed("markets?searchTerm=", e.as_str())
}

/// The epics of a list, by view.
pub open spec fn epics_model(epics: Seq<Epic>) -> Seq<Seq<char>> {
    epics.map_values(|e: Epic| e.0@)
}

/// `markets?epics=A,B,…&filter=F`; an empty list gives
/// [`Error::InvalidInput`].
pub fn get_many_path(epics: &[Epic], filter: MarketDetailFilter) -> (r: Result<String, Error>)
    ensures
        epics@.len() == 0 ==> (r matches Err(e) && e matches Error::InvalidInput(m) && m@
            == "epics list must not be empty"@),
        epics@.len() > 0 ==> (r matches Ok(p) && p@ == "markets?epics="@ + join(
            epics_model(epics@),
            ","@,
        ) + "&filter="@ + (if filter == MarketDetailFilter::All {
            "ALL"@
        } else {
            "SNAPSHOT_ONLY"@
        })),
{
    if epics.len() == 0 {
        return Err(Error::InvalidInput(string_of(&chars_of("epics list must not be empty"))));
    }
    let ghost m = epics_model(epics@);
    let sep = chars_of(",");
    let mut list: Vec<char> = Vec::new();
    let mut i: usize = 0;
    while i < epics.len()
        invariant
            i <= epics@.len(),
            m == epics_model(epics@),
            sep@ == ","@,
            list@ == join(m.take(i as int), sep@),
        decreases epics.len() - i,
    {
        if i > 0 {
            push_all(&mut list, &sep);
        }
        push_all(&mut list, &chars_of(epics[i].0.as_str()));
        proof {
            let t = m.take(i + 1);
            assert(t.drop_last() =~= m.take(i as int));
            if i == 0 {
                assert(list@ =~= t[0]);
            }
        }
        i = i + 1;
    }
    assert(m.take(epics@.len() as int) =~= m);
    let a = concat_chars(&chars_of("markets?epics="), &list);
    let b = concat_chars(&a, &chars_of("&filter="));
    Ok(string_of(&concat_chars(&b, &chars_of(filter.as_query_str()))))
}

/// `markets/{epic}`.
pub fn market_path(epic: &Epic) -> (r: String)
    ensures
        r@ == "markets/"@ + epic.0@,
{
    prefixed("markets/", epic.0.as_str())
}

/// `marketnavigation/{node_id}`.
pub fn navigation_node_path(node_id: &str) -> (r: String)
    ensures
        r@ == "marketnavigation/"@ + node_id@,
{
    prefixed("marketnavigation/", node_id)
}

} // verus!
