//! The historical prices domain: resolutions, request parameters and paths.

use vstd::prelude::*;

use crate::models::common::Epic;
use crate::paths::prefixed;
use crate::query::path_with_query;
use crate::streaming::protocol::pairs_model;
use crate::text::{chars_of, concat_chars, decimal, fmt_u64, push_all, string_of};
use crate::time::{rendering, valid_datetime, version_format, ApiVersion, DateTime};

verus! {

/// Bar resolution of a price history.
#[derive(Debug, Clone, Copy, PartialEq, Eq, Structural)]
pub enum Resolution {
    Second,
    Minute,
    Minute2,
    Minute3,
    Minute5,
    Minute10,
    Minute15,
    Minute30,
    Hour,
    Hour2,
    Hour3,
    Hour4,
    Day,
    Week,
    Month,
}

/// Wire names of the resolutions.
pub open spec fn resolution_wire(r: Resolution) -> Seq<char> {
    match r {
        Resolution::Second => "SECOND"@,
        Resolution::Minute => "MINUTE"@,
        Resolution::Minute2 => "MINUTE_2"@,
        Resolution::Minute3 => "MINUTE_3"@,
        Resolution::Minute5 => "MINUTE_5"@,
        Resolution::Minute10 => "MINUTE_10"@,
        Resolution::Minute15 => "MINUTE_15"@,
        Resolution::Minute30 => "MINUTE_30"@,
        Resolution::Hour => "HOUR"@,
        Resolution::Hour2 => "HOUR_2"@,
        Resolution::Hour3 => "HOUR_3"@,
        Resolution::Hour4 => "HOUR_4"@,
        Resolution::Day => "DAY"@,
        Resolution::Week => "WEEK"@,
        Resolution::Month => "MONTH"@,
    }
}

impl Resolution {
    /// The IG wire name (also the text `to_string` gives).
    pub fn as_str(&self) -> (r: &'static str)
        ensures
            r@ == resolution_wire(*self),
    {
        match self {
            Resolution::Second => "SECOND",
            Resolution::Minute => "MINUTE",
            Resolution::Minute2 => "MINUTE_2",
            Resolution::Minute3 => "MINUTE_3",
            Resolution::Minute5 => "MINUTE_5",
            Resolution::Minute10 => "MINUTE_10",
            Resolution::Minute15 => "MINUTE_15",
            Resolution::Minute30 => "MINUTE_30",
            Resolution::Hour => "HOUR",
            Resolution::Hour2 => "HOUR_2",
            Resolution::Hour3 => "HOUR_3",
            Resolution::Hour4 => "HOUR_4",
            Resolution::Day => "DAY",
            Resolution::Week => "WEEK",
            Resolution::Month => "MONTH",
        }
    }

    /// The resolution a wire name denotes.
    pub fn parse(s: &str) -> (r: Option<Resolution>)
        ensures
            r matches Some(x) ==> resolution_wire(x) == s@,
            r is None ==> forall|x: Resolution| resolution_wire(x) != s@,
    {
        let v = chars_of(s);
        let all: [Resolution; 15] = [
            Resolution::Second,
            Resolution::Minute,
            Resolution::Minute2,
            Resolution::Minute3,
            Resolution::Minute5,
            Resolution::Minute10,
            Resolution::Minute15,
            Resolution::Minute30,
            Resolution::Hour,
            Resolution::Hour2,
            Resolution::Hour3,
            Resolution::Hour4,
            Resolution::Day,
            Resolution::Week,
            Resolution::Month,
        ];
        let mut i: usize = 0;
        while i < 15
            invariant
                i <= 15,
                v@ == s@,
                all@ == seq![
                    Resolution::Second,
                    Resolution::Minute,
                    Resolution::Minute2,
                    Resolution::Minute3,
                    Resolution::Minute5,
                    Resolution::Minute10,
                    Resolution::Minute15,
                    Resolution::Minute30,
                    Resolution::Hour,
                    Resolution::Hour2,
                    Resolution::Hour3,
                    Resolution::Hour4,
                    Resolution::Day,
                    Resolution::Week,
                    Resolution::Month,
                ],
                forall|j: int| 0 <= j < i ==> resolution_wire(#[trigger] all@[j]) != s@,
            decreases 15 - i,
        {
            if crate::text::eq_chars(&v, &chars_of(all[i].as_str())) {
                return Some(all[i]);
            }
            i = i + 1;
        }
        assert forall|x: Resolution| resolution_wire(x) != s@ by {
            match x {
                Resolution::Second => assert(resolution_wire(all@[0]) != s@),
                Resolution::Minute => assert(resolution_wire(all@[1]) != s@),
                Resolution::Minute2 => assert(resolution_wire(all@[2]) != s@),
                Resolution::Minute3 => assert(resolution_wire(all@[3]) != s@),
                Resolution::Minute5 => assert(resolution_wire(all@[4]) != s@),
                Resolution::Minute10 => assert(resolution_wire(all@[5]) != s@),
                Resolution::Minute15 => assert(resolution_wire(all@[6]) != s@),
                Resolution::Minute30 => assert(resolution_wire(all@[7]) != s@),
                Resolution::Hour => assert(resolution_wire(all@[8]) != s@),
                Resolution::Hour2 => assert(resolution_wire(all@[9]) != s@),
                Resolution::Hour3 => assert(resolution_wire(all@[10]) != s@),
                Resolution::Hour4 => assert(resolution_wire(all@[11]) != s@),
                Resolution::Day => assert(resolution_wire(all@[12]) != s@),
                Resolution::Week => assert(resolution_wire(all@[13]) != s@),
                Resolution::Month => assert(resolution_wire(all@[14]) != s@),
            }
        }
        None
    }
}

/// Paging of a prices page.
#[derive(Debug, Clone, Copy, PartialEq, Eq)]
pub struct PageData {
    pub page_number: u32,
    pub page_size: u32,
    pub total_pages: u32,
}

/// API allowance data returned with each prices response.
#[derive(Debug, Clone, Copy, PartialEq, Eq)]
pub struct PriceAllowance {
    pub remaining_allowance: u32,
    pub total_allowance: u32,
    pub allowance_expiry: u64,
}

/// Metadata block returned alongside every historical-prices response.
#[derive(Debug, Clone, Copy, PartialEq, Eq)]
pub struct PricesMetadata {
    pub page_data: PageData,
    pub allowance: PriceAllowance,
}

/// Request parameters for `GET /prices/{epic}` v3.
#[derive(Debug, Clone, Copy)]
pub struct HistoricalPricesRequest {
    pub resolution: Option<Resolution>,
    pub from: Option<DateTime>,
    pub to: Option<DateTime>,
    pub max: Option<u32>,
    pub page_size: Option<u32>,
    pub page_number: Option<u32>,
}

impl Default for HistoricalPricesRequest {
    fn default() -> (r: HistoricalPricesRequest)
        ensures
            r.resolution is None && r.from is None && r.to is None && r.max is None
                && r.page_size is None && r.page_number is None,
    {
        HistoricalPricesRequest {
            resolution: None,
            from: None,
            to: None,
            max: None,
            page_size: None,
            page_number: None,
        }
    }
}

/// The encoding of a query value here: a space becomes `%20` and `+`
/// becomes `%2B`; every other character is kept.
pub open spec fn encode_char(c: char) -> Seq<char> {
    if c == ' ' {
        seq!['%', '2', '0']
    } else if c == '+' {
        seq!['%', '2', 'B']
    } else {
        seq![c]
    }
}

/// [`encode_char`] over a text.
pub open spec fn encode_chars(s: Seq<char>) -> Seq<char>
    decreases s.len(),
{
    if s.len() == 0 {
        seq![]
    } else {
        encode_chars(s.drop_last()) + encode_char(s.last())
    }
}

/// Percent-encode the characters that are unsafe in these query values.
pub fn percent_encode(s: &str) -> (r: String)
    ensures
        r@ == encode_chars(s@),
{
    let v = chars_of(s);
    let mut out: Vec<char> = Vec::new();
    let mut i: usize = 0;
    while i < v.len()
        invariant
            i <= v@.len(),
            out@ == encode_chars(v@.take(i as int)),
        decreases v.len() - i,
    {
        let c = v[i];
        let ghost before = out@;
        if c == ' ' {
            out.push('%');
            out.push('2');
            out.push('0');
        } else if c == '+' {
            out.push('%');
            out.push('2');
            out.push('B');
        } else {
            out.push(c);
        }
        proof {
            let t = v@.take(i + 1);
            assert(t.drop_last() =~= v@.take(i as int));
            assert(out@ =~= before + encode_char(c));
        }
        i = i + 1;
    }
    assert(v@.take(v@.len() as int) =~= v@);
    string_of(&out)
}

/// The keys of a parameter list, by view.
pub open spec fn keys_of(p: Seq<(&'static str, String)>) -> Seq<Seq<char>> {
    p.map_values(|kv: (&'static str, String)| kv.0@)
}

/// The values of a parameter list, encoded by [`percent_encode`].
pub open spec fn values_encoded(p: Seq<(&'static str, String)>) -> Seq<Seq<char>> {
    p.map_values(|kv: (&'static str, String)| encode_chars(kv.1@))
}

/// Append `?key=value&…` to `base` when `params` is non-empty, values
/// encoded by [`percent_encode`].
pub fn build_query_path(base: &str, params: &[(&'static str, String)]) -> (r: String)
    ensures
        r@ == path_with_query(base@, keys_of(params@), values_encoded(params@)),
{
    let mut keys: Vec<String> = Vec::new();
    let mut values: Vec<String> = Vec::new();
    let mut i: usize = 0;
    while i < params.len()
        invariant
            i <= params@.len(),
            keys@.len() == i && values@.len() == i,
            forall|j: int| 0 <= j < i ==> #[trigger] keys@[j]@ == params@[j].0@,
            forall|j: int| 0 <= j < i ==> #[trigger] values@[j]@ == encode_chars(params@[j].1@),
        decreases params.len() - i,
    {
        keys.push(string_of(&chars_of(params[i].0)));
        values.push(percent_encode(params[i].1.as_str()));
        i = i + 1;
    }
    assert(keys@.map_values(|k: String| k@) =~= keys_of(params@));
    assert(values@.map_values(|v: String| v@) =~= values_encoded(params@));
    crate::query::append_query(base, &keys, &values)
}

/// An optional parameter, by view.
pub open spec fn opt_param(k: Seq<char>, v: Option<Seq<char>>) -> Seq<(Seq<char>, Seq<char>)> {
    match v {
        Some(x) => seq![(k, x)],
        None => seq![],
    }
}

/// The parameters of a v3 prices page, in order.
pub open spec fn prices_params_spec(req: HistoricalPricesRequest) -> Seq<(Seq<char>, Seq<char>)> {
    opt_param(
        "resolution"@,
        match req.resolution {
            Some(r) => Some(resolution_wire(r)),
            None => None,
        },
    ) + opt_param(
        "from"@,
        match req.from {
            Some(d) => Some(rendering(d, ApiVersion::V3)),
            None => None,
        },
    ) + opt_param(
        "to"@,
        match req.to {
            Some(d) => Some(rendering(d, ApiVersion::V3)),
            None => None,
        },
    ) + opt_param(
        "max"@,
        match req.max {
            Some(n) => Some(decimal(n as nat)),
            None => None,
        },
    ) + opt_param(
        "pageSize"@,
        match req.page_size {
            Some(n) => Some(decimal(n as nat)),
            None => None,
        },
    ) + opt_param(
        "pageNumber"@,
        match req.page_number {
            Some(n) => Some(decimal(n as nat)),
            None => None,
        },
    )
}

/// Parameters by view, keys being static strings.
pub open spec fn static_pairs(p: Seq<(&'static str, String)>) -> Seq<(Seq<char>, Seq<char>)> {
    p.map_values(|kv: (&'static str, String)| (kv.0@, kv.1@))
}

fn push_p(v: &mut Vec<(&'static str, String)>, k: &'static str, val: String)
    ensures
        static_pairs(final(v)@) == static_pairs(old(v)@).push((k@, val@)),
{
    let ghost before = v@;
    v.push((k, val));
    assert(static_pairs(v@) =~= static_pairs(before).push((k@, val@)));
}

/// The parameters of a v3 prices page.
pub fn prices_params(req: &HistoricalPricesRequest) -> (r: Vec<(&'static str, String)>)
    requires
        req.from matches Some(d) ==> valid_datetime(d),
        req.to matches Some(d) ==> valid_datetime(d),
    ensures
        static_pairs(r@) == prices_params_spec(*req),
{
    let mut p: Vec<(&'static str, String)> = Vec::new();
    assert(static_pairs(p@) =~= Seq::<(Seq<char>, Seq<char>)>::empty());
    if let Some(r) = req.resolution {
        push_p(&mut p, "resolution", string_of(&chars_of(r.as_str())));
    }
    if let Some(dt) = &req.from {
        push_p(&mut p, "from", crate::time::format(dt, ApiVersion::V3));
    }
    if let Some(dt) = &req.to {
        push_p(&mut p, "to", crate::time::format(dt, ApiVersion::V3));
    }
    if let Some(m) = req.max {
        push_p(&mut p, "max", string_of(&fmt_u64(m as u64)));
    }
    if let Some(ps) = req.page_size {
        push_p(&mut p, "pageSize", string_of(&fmt_u64(ps as u64)));
    }
    if let Some(pn) = req.page_number {
        push_p(&mut p, "pageNumber", string_of(&fmt_u64(pn as u64)));
    }
    assert(static_pairs(p@) =~= prices_params_spec(*req));
    p
}

/// `prices/{epic}`.
pub fn prices_base_path(epic: &Epic) -> (r: String)
    ensures
        r@ == "prices/"@ + epic.0@,
{
    prefixed("prices/", epic.0.as_str())
}

/// `prices/{epic}/{resolution}/{num_points}`.
pub fn num_points_path(epic: &Epic, resolution: Resolution, num_points: u32) -> (r: String)
    ensures
        r@ == "prices/"@ + epic.0@ + "/"@ + resolution_wire(resolution) + "/"@ + decimal(
            num_points as nat,
        ),
{
    let a = concat_chars(&chars_of("prices/"), &chars_of(epic.0.as_str()));
    let b = concat_chars(&a, &chars_of("/"));
    let c = concat_chars(&b, &chars_of(resolution.as_str()));
    let d = concat_chars(&c, &chars_of("/"));
    string_of(&concat_chars(&d, &fmt_u64(num_points as u64)))
}

/// `prices/{epic}/{resolution}/{from}/{to}` with v2 dates.
pub fn date_range_v2_path(epic: &Epic, resolution: Resolution, from: &DateTime, to: &DateTime) -> (r:
    String)
    requires
        valid_datetime(*from),
        valid_datetime(*to),
    ensures
        r@ == "prices/"@ + epic.0@ + "/"@ + resolution_wire(resolution) + "/"@ + rendering(*from, ApiVersion::V2) + "/"@ + rendering(*to, ApiVersion::V2),
{
    let f = crate::time::format(from, ApiVersion::V2);
    let t = crate::time::format(to, ApiVersion::V2);
    let mut out = chars_of("prices/");
    push_all(&mut out, &chars_of(epic.0.as_str()));
    push_all(&mut out, &chars_of("/"));
    push_all(&mut out, &chars_of(resolution.as_str()));
    push_all(&mut out, &chars_of("/"));
    push_all(&mut out, &chars_of(f.as_str()));
    push_all(&mut out, &chars_of("/"));
    push_all(&mut out, &chars_of(t.as_str()));
    string_of(&out)
}

/// `prices/{epic}/{resolution}?startdate=…&enddate=…` with v1 dates.
pub fn date_range_v1_path(epic: &Epic, resolution: Resolution, from: &DateTime, to: &DateTime) -> (r:
    String)
    requires
        valid_datetime(*from),
        valid_datetime(*to),
    ensures
        r@ == path_with_query(
            "prices/"@ + epic.0@ + "/"@ + resolution_wire(resolution),
            seq!["startdate"@, "enddate"@],
            seq![
                encode_chars(rendering(*from, ApiVersion::V1)),
                encode_chars(rendering(*to, ApiVersion::V1)),
            ],
        ),
{
    let f = crate::time::format(from, ApiVersion::V1);
    let t = crate::time::format(to, ApiVersion::V1);
    let mut params: Vec<(&'static str, String)> = Vec::new();
    params.push(("startdate", f));
    params.push(("enddate", t));
    let a = concat_chars(&chars_of("prices/"), &chars_of(epic.0.as_str()));
    let b = concat_chars(&a, &chars_of("/"));
    let base = string_of(&concat_chars(&b, &chars_of(resolution.as_str())));
    let r = build_query_path(base.as_str(), params.as_slice());
    assert(keys_of(params@) =~= seq!["startdate"@, "enddate"@]);
    assert(values_encoded(params@) =~= seq![encode_chars(f@), encode_chars(t@)]);
    r
}

/// Distinct resolutions have distinct wire names, so reading a name back
/// gives the resolution it was written for.
pub proof fn lemma_resolution_wire_injective(a: Resolution, b: Resolution)
    ensures
        resolution_wire(a) == resolution_wire(b) ==> a == b,
{
    reveal_strlit("SECOND");
    reveal_strlit("MINUTE");
    reveal_strlit("MINUTE_2");
    reveal_strlit("MINUTE_3");
    reveal_strlit("MINUTE_5");
    reveal_strlit("MINUTE_10");
    reveal_strlit("MINUTE_15");
    reveal_strlit("MINUTE_30");
    reveal_strlit("HOUR");
    reveal_strlit("HOUR_2");
    reveal_strlit("HOUR_3");
    reveal_strlit("HOUR_4");
    reveal_strlit("DAY");
    reveal_strlit("WEEK");
    reveal_strlit("MONTH");
    if resolution_wire(a) == resolution_wire(b) {
        assert(resolution_wire(a).len() == resolution_wire(b).len());
        assert(resolution_wire(a)[0] == resolution_wire(b)[0]);
        if resolution_wire(a).len() > 5 {
            assert(resolution_wire(a)[5] == resolution_wire(b)[5]);
        }
        if resolution_wire(a).len() > 7 {
            assert(resolution_wire(a)[7] == resolution_wire(b)[7]);
            assert(resolution_wire(a)[8] == resolution_wire(b)[8]);
        }
        if resolution_wire(a).len() > 5 && resolution_wire(a)[0] == 'H' {
            assert(resolution_wire(a)[5] == resolution_wire(b)[5]);
        }
    }
}

/// The UTC time of a price bar: `snapshotTimeUTC` when the reply has it,
/// else `snapshotTime` read in the v2 format; on failure, chrono's error
/// text.
pub fn snapshot_utc(utc: Option<DateTime>, snapshot_time: &str) -> (r: Result<DateTime, String>)
    ensures
        match utc {
            Some(t) => r == Ok::<DateTime, String>(t),
            None => match crate::time::chrono_parse(snapshot_time@, version_format(ApiVersion::V2)) {
                Ok(dt) => r == Ok::<DateTime, String>(dt),
                Err(m) => r matches Err(t) && t@ == m,
            },
        },
{
    match utc {
        Some(t) => Ok(t),
        None => crate::time::parse_exact(snapshot_time, ApiVersion::V2),
    }
}

/// The page to fetch after `page` when collecting every page of a price
/// history of `total_pages` pages.
pub fn next_price_page(page: u32, total_pages: u32) -> (r: Option<u32>)
    ensures
        page < total_pages ==> r == Some((page + 1) as u32),
        page >= total_pages ==> r is None,
{
    if page < total_pages {
        Some(page + 1)
    } else {
        None
    }
}

} // verus!
