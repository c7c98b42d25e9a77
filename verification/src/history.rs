//! The history domain: `/history/activity` (v1 + v3) and
//! `/history/transactions` (v1 + v2) — request parameters, paths and the
//! pagination of activity pages.

use vstd::prelude::*;
use vstd::utf8::*;

use crate::error::Error;
use crate::models::common::DealId;
use crate::query::{append_query, encode_bytes, encode_query_value, path_with_query};
use crate::streaming::protocol::pairs_model;
use crate::text::{chars_of, concat_chars, decimal, fmt_u64, starts_with, starts_with_chars, string_of};
use crate::time::{rendering, valid_datetime, ApiVersion, DateTime};

verus! {

/// Channel an activity came through.
#[derive(Debug, Clone, Copy, PartialEq, Eq, Structural)]
pub enum ActivityChannel {
    Web,
    Mobile,
    Dealer,
    PublicWebApi,
    System,
    Unknown,
}

/// Kind of an activity.
#[derive(Debug, Clone, Copy, PartialEq, Eq, Structural)]
pub enum ActivityType {
    Position,
    WorkingOrder,
    Edit,
    System,
    Unknown,
}

/// Outcome of an activity.
#[derive(Debug, Clone, Copy, PartialEq, Eq, Structural)]
pub enum ActivityStatus {
    Accepted,
    Rejected,
    Unknown,
}

/// One action of an activity's details.
#[derive(Debug, Clone)]
pub struct ActivityAction {
    pub action_type: String,
    pub affected_deal_id: Option<String>,
}

/// Transaction filter of the transactions endpoints.
#[derive(Debug, Clone, Copy, PartialEq, Eq, Structural)]
pub enum TransactionType {
    All,
    AllDeal,
    Deposit,
    Withdrawal,
}

/// Paging of a transactions page.
#[derive(Debug, Clone, Copy, PartialEq, Eq)]
pub struct PageData {
    pub page_number: u32,
    pub page_size: u32,
    pub total_pages: u32,
}

/// Metadata of a transactions page.
#[derive(Debug, Clone, Copy, PartialEq, Eq)]
pub struct TransactionsMetadata {
    pub page_data: PageData,
}

/// Query of `GET /history/activity` (v3).
#[derive(Debug, Clone)]
pub struct ActivityRequest {
    pub from: Option<DateTime>,
    pub to: Option<DateTime>,
    pub detailed: bool,
    pub deal_id: Option<DealId>,
    pub filter: Option<String>,
    pub page_size: u32,
}

/// Query of `GET /history/transactions` (v2).
#[derive(Debug, Clone)]
pub struct TransactionsRequest {
    pub trans_type: Option<TransactionType>,
    pub from: Option<DateTime>,
    pub to: Option<DateTime>,
    pub max_span_seconds: Option<u32>,
    pub page_size: Option<u32>,
    pub page_number: Option<u32>,
}

impl Default for ActivityRequest {
    /// No bounds, not detailed, pages of 50.
    fn default() -> (r: ActivityRequest)
        ensures
            r.from is None && r.to is None && !r.detailed && r.deal_id is None && r.filter is None
                && r.page_size == 50,
    {
        ActivityRequest {
            from: None,
            to: None,
            detailed: false,
            deal_id: None,
            filter: None,
            page_size: 50,
        }
    }
}

impl Default for TransactionsRequest {
    /// No filters at all.
    fn default() -> (r: TransactionsRequest)
        ensures
            r.trans_type is None && r.from is None && r.to is None && r.max_span_seconds is None
                && r.page_size is None && r.page_number is None,
    {
        TransactionsRequest {
            trans_type: None,
            from: None,
            to: None,
            max_span_seconds: None,
            page_size: None,
            page_number: None,
        }
    }
}

/// Wire names of the transaction types.
pub open spec fn transaction_type_wire(t: TransactionType) -> Seq<char> {
    match t {
        TransactionType::All => "ALL"@,
        TransactionType::AllDeal => "ALL_DEAL"@,
        TransactionType::Deposit => "DEPOSIT"@,
        TransactionType::Withdrawal => "WITHDRAWAL"@,
    }
}

/// The `SCREAMING_SNAKE_CASE` name IG expects for a transaction type.
pub fn transaction_type_str(tt: TransactionType) -> (r: String)
    ensures
        r@ == transaction_type_wire(tt),
{
    let s = match tt {
        TransactionType::All => "ALL",
        TransactionType::AllDeal => "ALL_DEAL",
        TransactionType::Deposit => "DEPOSIT",
        TransactionType::Withdrawal => "WITHDRAWAL",
    };
    string_of(&chars_of(s))
}

/// Percent-encoding for query values that keeps `:` (timestamps), `!`,
/// `*` and `'` along with the unreserved characters, and writes a space as
/// `+`.
pub fn urlencoding_simple(s: &str) -> (r: String)
    ensures
        r@ == encode_bytes(encode_utf8(s@), true),
{
    encode_query_value(s, true)
}

/// The keys of a parameter list, by view.
pub open spec fn param_keys(p: Seq<(String, String)>) -> Seq<Seq<char>> {
    p.map_values(|kv: (String, String)| kv.0@)
}

/// The values of a parameter list, encoded by [`urlencoding_simple`].
pub open spec fn param_values_encoded(p: Seq<(String, String)>) -> Seq<Seq<char>> {
    p.map_values(|kv: (String, String)| encode_bytes(encode_utf8(kv.1@), true))
}

/// `base` with the query string of `params` appended (values encoded by
/// [`urlencoding_simple`]); `base` itself when there are none.
pub fn build_path_with_params(base: &str, params: &[(String, String)]) -> (r: String)
    ensures
        r@ == path_with_query(base@, param_keys(params@), param_values_encoded(params@)),
{
    let mut keys: Vec<String> = Vec::new();
    let mut values: Vec<String> = Vec::new();
    let mut i: usize = 0;
    while i < params.len()
        invariant
            i <= params@.len(),
            keys@.len() == i && values@.len() == i,
            forall|j: int| 0 <= j < i ==> #[trigger] keys@[j]@ == params@[j].0@,
            forall|j: int|
                0 <= j < i ==> #[trigger] values@[j]@ == encode_bytes(
                    encode_utf8(params@[j].1@),
                    true,
                ),
        decreases params.len() - i,
    {
        keys.push(string_of(&chars_of(params[i].0.as_str())));
        values.push(urlencoding_simple(params[i].1.as_str()));
        i = i + 1;
    }
    assert(keys@.map_values(|k: String| k@) =~= param_keys(params@));
    assert(values@.map_values(|v: String| v@) =~= param_values_encoded(params@));
    append_query(base, &keys, &values)
}

// ---------------------------------------------------------------------------
// Next-page URLs
// ---------------------------------------------------------------------------

/// The decoded query pairs of a URL as the `url` crate parses it, or
/// `None` when it does not parse.
pub uninterp spec fn url_query_pairs(url: Seq<char>) -> Option<Seq<(Seq<char>, Seq<char>)>>;

/// `url::Url::parse(url)` followed by `query_pairs()`: a function of the
/// text.
#[verifier::external_body]
fn query_pairs_of(url: &str) -> (r: Result<Vec<(String, String)>, url::ParseError>)
    ensures
        match url_query_pairs(url@) {
            Some(p) => r matches Ok(v) && pairs_model(v@) == p,
            None => r is Err,
        },
{
    url::Url::parse(url).map(
        |u| u.query_pairs().map(|(k, v)| (k.into_owned(), v.into_owned())).collect(),
    )
}

/// The placeholder origin a relative next-page URL is resolved against.
pub open spec fn with_placeholder_origin(url: Seq<char>) -> Seq<char> {
    if starts_with(url, "/"@) {
        "http://ig.invalid"@ + url
    } else {
        "http://ig.invalid/"@ + url
    }
}

/// The query pairs of a next-page URL, absolute or relative (a relative
/// one is resolved against a placeholder origin, since only its query
/// matters).
pub open spec fn extract_spec(url: Seq<char>) -> Option<Seq<(Seq<char>, Seq<char>)>> {
    match url_query_pairs(url) {
        Some(p) => Some(p),
        None => url_query_pairs(with_placeholder_origin(url)),
    }
}

/// Parse the query parameters of a next-page URL returned by IG.  A URL
/// that parses neither as it is nor relative to a placeholder origin gives
/// [`Error::Url`].
pub fn extract_query_params(url: &str) -> (r: Result<Vec<(String, String)>, Error>)
    ensures
        match extract_spec(url@) {
            Some(p) => r matches Ok(v) && pairs_model(v@) == p,
            None => r matches Err(e) && e is Url,
        },
{
    match query_pairs_of(url) {
        Ok(v) => Ok(v),
        Err(_) => {
            let u = chars_of(url);
            let slash = starts_with_chars(&u, &chars_of("/"));
            let with_base = if slash {
                concat_chars(&chars_of("http://ig.invalid"), &u)
            } else {
                concat_chars(&chars_of("http://ig.invalid/"), &u)
            };
            let s = string_of(&with_base);
            match query_pairs_of(s.as_str()) {
                Ok(v) => Ok(v),
                Err(e) => Err(Error::Url(e)),
            }
        },
    }
}

/// The parameters of the next page to fetch: those of the next-page URL,
/// or `None` when there is none.
pub fn next_page_params(next: Option<String>) -> (r: Result<Option<Vec<(String, String)>>, Error>)
    ensures
        match next {
            None => r matches Ok(None),
            Some(u) => match extract_spec(u@) {
                Some(p) => r matches Ok(Some(v)) && pairs_model(v@) == p,
                None => r matches Err(e) && e is Url,
            },
        },
{
    match next {
        None => Ok(None),
        Some(u) => match extract_query_params(u.as_str()) {
            Ok(v) => Ok(Some(v)),
            Err(e) => Err(e),
        },
    }
}

// ---------------------------------------------------------------------------
// Request parameters and paths
// ---------------------------------------------------------------------------

/// A `(key, value)` parameter, by view.
pub open spec fn param(k: Seq<char>, v: Seq<char>) -> Seq<(Seq<char>, Seq<char>)> {
    seq![(k, v)]
}

/// An optional parameter: present only when the value is.
pub open spec fn opt_param(k: Seq<char>, v: Option<Seq<char>>) -> Seq<(Seq<char>, Seq<char>)> {
    match v {
        Some(x) => seq![(k, x)],
        None => seq![],
    }
}

/// The ISO text of an optional date.
pub open spec fn opt_iso(d: Option<DateTime>) -> Option<Seq<char>> {
    match d {
        Some(x) => Some(rendering(x, ApiVersion::V3)),
        None => None,
    }
}

/// The decimal text of an optional number.
pub open spec fn opt_num(n: Option<u32>) -> Option<Seq<char>> {
    match n {
        Some(x) => Some(decimal(x as nat)),
        None => None,
    }
}

/// The first page's parameters of an activity query, in order.
pub open spec fn activity_params_spec(req: ActivityRequest) -> Seq<(Seq<char>, Seq<char>)> {
    opt_param("from"@, opt_iso(req.from)) + opt_param("to"@, opt_iso(req.to)) + (if req.detailed {
        param("detailed"@, "true"@)
    } else {
        seq![]
    }) + opt_param(
        "dealId"@,
        match req.deal_id {
            Some(d) => Some(d.0@),
            None => None,
        },
    ) + opt_param(
        "filter"@,
        match req.filter {
            Some(f) => Some(f@),
            None => None,
        },
    ) + param("pageSize"@, decimal(req.page_size as nat))
}

/// Dates of a request, when given, are valid.
pub open spec fn dates_valid(from: Option<DateTime>, to: Option<DateTime>) -> bool {
    (from matches Some(d) ==> valid_datetime(d)) && (to matches Some(d) ==> valid_datetime(d))
}

fn push_param(v: &mut Vec<(String, String)>, k: &str, val: String)
    ensures
        pairs_model(final(v)@) == pairs_model(old(v)@).push((k@, val@)),
{
    let ghost before = v@;
    v.push((string_of(&chars_of(k)), val));
    assert(pairs_model(v@) =~= pairs_model(before).push((k@, val@)));
}

/// The first page's parameters of an activity query.
pub fn activity_params(req: &ActivityRequest) -> (r: Vec<(String, String)>)
    requires
        dates_valid(req.from, req.to),
    ensures
        pairs_model(r@) == activity_params_spec(*req),
{
    let mut p: Vec<(String, String)> = Vec::new();
    let ghost e = Seq::<(Seq<char>, Seq<char>)>::empty();
    assert(pairs_model(p@) =~= e);
    if let Some(from) = &req.from {
        push_param(&mut p, "from", crate::time::format(from, ApiVersion::V3));
    }
    if let Some(to) = &req.to {
        push_param(&mut p, "to", crate::time::format(to, ApiVersion::V3));
    }
    if req.detailed {
        push_param(&mut p, "detailed", string_of(&chars_of("true")));
    }
    if let Some(deal_id) = &req.deal_id {
        push_param(&mut p, "dealId", string_of(&chars_of(deal_id.0.as_str())));
    }
    if let Some(filter) = &req.filter {
        push_param(&mut p, "filter", string_of(&chars_of(filter.as_str())));
    }
    push_param(&mut p, "pageSize", string_of(&fmt_u64(req.page_size as u64)));
    assert(pairs_model(p@) =~= activity_params_spec(*req));
    p
}

/// The parameters of a transactions query, in order.
pub open spec fn transactions_params_spec(req: TransactionsRequest) -> Seq<
    (Seq<char>, Seq<char>),
> {
    opt_param(
        "type"@,
        match req.trans_type {
            Some(t) => Some(transaction_type_wire(t)),
            None => None,
        },
    ) + opt_param("from"@, opt_iso(req.from)) + opt_param("to"@, opt_iso(req.to)) + opt_param(
        "maxSpanSeconds"@,
        opt_num(req.max_span_seconds),
    ) + opt_param("pageSize"@, opt_num(req.page_size)) + opt_param(
        "pageNumber"@,
        opt_num(req.page_number),
    )
}

/// The parameters of a transactions query.
pub fn transactions_params(req: &TransactionsRequest) -> (r: Vec<(String, String)>)
    requires
        dates_valid(req.from, req.to),
    ensures
        pairs_model(r@) == transactions_params_spec(*req),
{
    let mut p: Vec<(String, String)> = Vec::new();
    assert(pairs_model(p@) =~= Seq::<(Seq<char>, Seq<char>)>::empty());
    if let Some(tt) = req.trans_type {
        push_param(&mut p, "type", transaction_type_str(tt));
    }
    if let Some(from) = &req.from {
        push_param(&mut p, "from", crate::time::format(from, ApiVersion::V3));
    }
    if let Some(to) = &req.to {
        push_param(&mut p, "to", crate::time::format(to, ApiVersion::V3));
    }
    if let Some(max) = req.max_span_seconds {
        push_param(&mut p, "maxSpanSeconds", string_of(&fmt_u64(max as u64)));
    }
    if let Some(ps) = req.page_size {
        push_param(&mut p, "pageSize", string_of(&fmt_u64(ps as u64)));
    }
    if let Some(pn) = req.page_number {
        push_param(&mut p, "pageNumber", string_of(&fmt_u64(pn as u64)));
    }
    assert(pairs_model(p@) =~= transactions_params_spec(*req));
    p
}

/// `history/activity/{milliseconds}`.
pub fn activity_period_path(milliseconds: u64) -> (r: String)
    ensures
        r@ == "history/activity/"@ + decimal(milliseconds as nat),
{
    string_of(&concat_chars(&chars_of("history/activity/"), &fmt_u64(milliseconds)))
}

/// `history/activity/{from}/{to}` with v1 dates.
pub fn activity_range_path(from: &DateTime, to: &DateTime) -> (r: String)
    requires
        valid_datetime(*from),
        valid_datetime(*to),
    ensures
        r@ == "history/activity/"@ + rendering(*from, ApiVersion::V1) + "/"@
            + rendering(*to, ApiVersion::V1),
{
    let f = crate::time::format(from, ApiVersion::V1);
    let t = crate::time::format(to, ApiVersion::V1);
    let a = concat_chars(&chars_of("history/activity/"), &chars_of(f.as_str()));
    let b = concat_chars(&a, &chars_of("/"));
    string_of(&concat_chars(&b, &chars_of(t.as_str())))
}

/// `history/transactions/{type}/{milliseconds}`.
pub fn transactions_period_path(trans_type: TransactionType, milliseconds: u64) -> (r: String)
    ensures
        r@ == "history/transactions/"@ + transaction_type_wire(trans_type) + "/"@ + decimal(
            milliseconds as nat,
        ),
{
    let t = transaction_type_str(trans_type);
    let a = concat_chars(&chars_of("history/transactions/"), &chars_of(t.as_str()));
    let b = concat_chars(&a, &chars_of("/"));
    string_of(&concat_chars(&b, &fmt_u64(milliseconds)))
}

} // verus!
