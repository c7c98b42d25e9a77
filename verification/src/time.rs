//! Date/time formats used by the IG API.
//!
//! IG uses three date formats depending on the API version:
//! - v1: `YYYY:MM:DD-HH:MM:SS`
//! - v2: `YYYY/MM/DD HH:MM:SS`
//! - v3: `YYYY-MM-DDTHH:MM:SS` (ISO 8601 without zone)
//!
//! All IG timestamps are naive (no zone).  Formatting and parsing are done
//! by `chrono`.

use vstd::prelude::*;

use chrono::{Datelike, NaiveDate, NaiveDateTime, Timelike};

use crate::error::Error;
use crate::text::{chars_of, concat_chars, decimal, string_of};

verus! {

/// A calendar date and time of day without a zone (chrono's
/// `NaiveDateTime`, field by field).
#[derive(Debug, Clone, Copy, PartialEq, Eq)]
pub struct DateTime {
    pub year: i32,
    pub month: u32,
    pub day: u32,
    pub hour: u32,
    pub minute: u32,
    pub second: u32,
    pub nanosecond: u32,
}

/// Leap years of the proleptic Gregorian calendar.
pub open spec fn is_leap(y: int) -> bool {
    y % 4 == 0 && (y % 100 != 0 || y % 400 == 0)
}

/// Days in a month of a year.
pub open spec fn days_in_month(y: int, m: int) -> int {
    if m == 2 {
        if is_leap(y) {
            29
        } else {
            28
        }
    } else if m == 4 || m == 6 || m == 9 || m == 11 {
        30
    } else {
        31
    }
}

/// The values chrono represents: years within its range, an existing
/// calendar day, and a time of day (a leap second only at second 59).
pub open spec fn valid_datetime(dt: DateTime) -> bool {
    &&& -262143 <= dt.year <= 262142
    &&& 1 <= dt.month <= 12
    &&& 1 <= dt.day <= days_in_month(dt.year as int, dt.month as int)
    &&& dt.hour < 24
    &&& dt.minute < 60
    &&& dt.second < 60
    &&& (dt.nanosecond < 1_000_000_000 || (dt.second == 59 && dt.nanosecond < 2_000_000_000))
}

impl DateTime {
    /// The date and time with the given fields, when they denote one.
    pub fn new(year: i32, month: u32, day: u32, hour: u32, minute: u32, second: u32) -> (r:
        Option<DateTime>)
        ensures
            ({
                let dt = DateTime { year, month, day, hour, minute, second, nanosecond: 0 };
                &&& valid_datetime(dt) ==> r == Some(dt)
                &&& !valid_datetime(dt) ==> r is None
            }),
    {
        if year < -262143 || year > 262142 || month < 1 || month > 12 || day < 1 || hour >= 24
            || minute >= 60 || second >= 60 {
            return None;
        }
        let leap = year % 4 == 0 && (year % 100 != 0 || year % 400 == 0);
        let dim: u32 = if month == 2 {
            if leap {
                29
            } else {
                28
            }
        } else if month == 4 || month == 6 || month == 9 || month == 11 {
            30
        } else {
            31
        };
        proof {
            assert(leap == is_leap(year as int)) by (nonlinear_arith)
                requires
                    -262143 <= year <= 262142,
                    leap == (year % 4 == 0 && (year % 100 != 0 || year % 400 == 0)),
            ;
        }
        if day > dim {
            return None;
        }
        Some(DateTime { year, month, day, hour, minute, second, nanosecond: 0 })
    }
}

/// The API version whose date format is meant.
#[derive(Debug, Clone, Copy, PartialEq, Eq, Structural)]
pub enum ApiVersion {
    V1,
    V2,
    V3,
}

/// The chrono format string of each version.
pub open spec fn version_format(v: ApiVersion) -> Seq<char> {
    match v {
        ApiVersion::V1 => "%Y:%m:%d-%H:%M:%S"@,
        ApiVersion::V2 => "%Y/%m/%d %H:%M:%S"@,
        ApiVersion::V3 => "%Y-%m-%dT%H:%M:%S"@,
    }
}

/// The ISO 8601 form with a fractional second, as positions report their
/// creation time in UTC.
pub open spec fn iso_fraction_format() -> Seq<char> {
    "%Y-%m-%dT%H:%M:%S%.f"@
}

/// The format strings this module hands to chrono.
pub open spec fn known_format(fmt: Seq<char>) -> bool {
    fmt == version_format(ApiVersion::V1) || fmt == version_format(ApiVersion::V2) || fmt
        == version_format(ApiVersion::V3) || fmt == iso_fraction_format()
}

/// What `NaiveDateTime::parse_from_str(s, fmt)` gives: the date and time,
/// or the text of its error.
pub uninterp spec fn chrono_parse(s: Seq<char>, fmt: Seq<char>) -> Result<DateTime, Seq<char>>;

/// `n` in decimal, zero-padded on the left to at least `w` digits.
pub open spec fn padded(n: nat, w: nat) -> Seq<char> {
    let d = decimal(n);
    if d.len() < w {
        Seq::new((w - d.len()) as nat, |i: int| '0') + d
    } else {
        d
    }
}

/// chrono's `%Y`: four zero-padded digits for the years 0 to 9999, else a
/// sign and at least four digits.
pub open spec fn year_text(y: int) -> Seq<char> {
    if 0 <= y <= 9999 {
        padded(y as nat, 4)
    } else if y < 0 {
        seq!['-'] + padded((-y) as nat, 4)
    } else {
        seq!['+'] + padded(y as nat, 4)
    }
}

/// A date and time written year, month, day with `date_sep` between them,
/// then `mid`, then hours, minutes and seconds with `:` between them, each
/// field zero-padded to two digits (chrono's `%Y`, `%m`, `%d`, `%H`, `%M`,
/// `%S`; a leap second shows as second 60).
pub open spec fn written(dt: DateTime, date_sep: char, mid: char) -> Seq<char> {
    year_text(dt.year as int) + seq![date_sep] + padded(dt.month as nat, 2) + seq![date_sep]
        + padded(dt.day as nat, 2) + seq![mid] + padded(dt.hour as nat, 2) + seq![':']
        + padded(dt.minute as nat, 2) + seq![':'] + padded(
        (dt.second + dt.nanosecond / 1_000_000_000) as nat,
        2,
    )
}

/// The text of a date and time in the format of a version:
/// `YYYY:MM:DD-HH:MM:SS`, `YYYY/MM/DD HH:MM:SS` or `YYYY-MM-DDTHH:MM:SS`.
pub open spec fn rendering(dt: DateTime, v: ApiVersion) -> Seq<char> {
    match v {
        ApiVersion::V1 => written(dt, ':', '-'),
        ApiVersion::V2 => written(dt, '/', ' '),
        ApiVersion::V3 => written(dt, '-', 'T'),
    }
}

/// The text chrono writes for one of the version formats.
pub open spec fn rendering_for(dt: DateTime, fmt: Seq<char>) -> Seq<char> {
    if fmt == version_format(ApiVersion::V1) {
        rendering(dt, ApiVersion::V1)
    } else if fmt == version_format(ApiVersion::V2) {
        rendering(dt, ApiVersion::V2)
    } else {
        rendering(dt, ApiVersion::V3)
    }
}

/// The dates and times whose text chrono reads back as the same value:
/// four-digit years and whole seconds.
pub open spec fn round_trips(dt: DateTime) -> bool {
    0 <= dt.year <= 9999 && dt.nanosecond == 0
}

/// Whether chrono reads `s` in the format `fmt` as `dt`.
pub open spec fn reads_back(s: Seq<char>, fmt: Seq<char>, dt: DateTime) -> bool {
    chrono_parse(s, fmt) == Ok::<DateTime, Seq<char>>(dt)
}

/// `NaiveDateTime::format(fmt).to_string()` on a valid date and time and
/// one of the version formats: each field zero-padded as the format's
/// specifiers write it; and `parse_from_str` with the same format reads a
/// four-digit year with whole seconds back as the same value.
#[verifier::external_body]
fn format_with(dt: &DateTime, fmt: &str) -> (r: String)
    requires
        valid_datetime(*dt),
        fmt@ == version_format(ApiVersion::V1) || fmt@ == version_format(ApiVersion::V2) || fmt@
            == version_format(ApiVersion::V3),
    ensures
        r@ == rendering_for(*dt, fmt@),
        round_trips(*dt) ==> reads_back(r@, fmt@, *dt),
{
    let d = NaiveDate::from_ymd_opt(dt.year, dt.month, dt.day).unwrap();
    let t = d.and_hms_nano_opt(dt.hour, dt.minute, dt.second, dt.nanosecond).unwrap();
    t.format(fmt).to_string()
}

/// `NaiveDateTime::parse_from_str(s, fmt)`: a function of its arguments,
/// whose values are valid dates and times.
#[verifier::external_body]
fn parse_with(s: &str, fmt: &str) -> (r: Result<DateTime, String>)
    requires
        known_format(fmt@),
    ensures
        match chrono_parse(s@, fmt@) {
            Ok(dt) => r == Ok::<DateTime, String>(dt),
            Err(m) => r matches Err(t) && t@ == m,
        },
        r matches Ok(dt) ==> valid_datetime(dt),
{
    match NaiveDateTime::parse_from_str(s, fmt) {
        Ok(t) => Ok(
            DateTime {
                year: t.year(),
                month: t.month(),
                day: t.day(),
                hour: t.hour(),
                minute: t.minute(),
                second: t.second(),
                nanosecond: t.nanosecond(),
            },
        ),
        Err(e) => Err(e.to_string()),
    }
}

fn format_str(version: ApiVersion) -> (r: &'static str)
    ensures
        r@ == version_format(version),
{
    match version {
        ApiVersion::V1 => "%Y:%m:%d-%H:%M:%S",
        ApiVersion::V2 => "%Y/%m/%d %H:%M:%S",
        ApiVersion::V3 => "%Y-%m-%dT%H:%M:%S",
    }
}

/// Format `dt` in the date format of `version`; [`parse`] reads a
/// four-digit year with whole seconds back as `dt`.
pub fn format(dt: &DateTime, version: ApiVersion) -> (r: String)
    requires
        valid_datetime(*dt),
    ensures
        r@ == rendering(*dt, version),
        round_trips(*dt) ==> parse_spec(r@, version) == Ok::<DateTime, Seq<char>>(*dt),
{
    proof {
        reveal_strlit("%Y:%m:%d-%H:%M:%S");
        reveal_strlit("%Y/%m/%d %H:%M:%S");
        reveal_strlit("%Y-%m-%dT%H:%M:%S");
        assert(version_format(ApiVersion::V1) != version_format(ApiVersion::V2)) by {
            assert(version_format(ApiVersion::V1)[2] != version_format(ApiVersion::V2)[2]);
        }
        assert(version_format(ApiVersion::V1) != version_format(ApiVersion::V3)) by {
            assert(version_format(ApiVersion::V1)[2] != version_format(ApiVersion::V3)[2]);
        }
        assert(version_format(ApiVersion::V2) != version_format(ApiVersion::V3)) by {
            assert(version_format(ApiVersion::V2)[2] != version_format(ApiVersion::V3)[2]);
        }
    }
    format_with(dt, format_str(version))
}

/// What [`parse`] gives: the version's format, falling back to ISO 8601;
/// when both fail, the ISO attempt's error.
pub open spec fn parse_spec(s: Seq<char>, version: ApiVersion) -> Result<DateTime, Seq<char>> {
    match chrono_parse(s, version_format(version)) {
        Ok(dt) => Ok(dt),
        Err(_) => match chrono_parse(s, version_format(ApiVersion::V3)) {
            Ok(dt) => Ok(dt),
            Err(m) => Err("could not parse '"@ + s + "': "@ + m),
        },
    }
}

/// Parse `s` in the date format of `version`, accepting the ISO 8601 form
/// as a fallback; otherwise [`Error::InvalidInput`].
pub fn parse(s: &str, version: ApiVersion) -> (r: Result<DateTime, Error>)
    ensures
        match parse_spec(s@, version) {
            Ok(dt) => r matches Ok(d) && d == dt,
            Err(m) => r matches Err(e) && e matches Error::InvalidInput(t) && t@ == m,
        },
        r matches Ok(d) ==> valid_datetime(d),
{
    match parse_with(s, format_str(version)) {
        Ok(dt) => Ok(dt),
        Err(_) => match parse_with(s, format_str(ApiVersion::V3)) {
            Ok(dt) => Ok(dt),
            Err(m) => {
                let a = concat_chars(&chars_of("could not parse '"), &chars_of(s));
                let b = concat_chars(&a, &chars_of("': "));
                let c = concat_chars(&b, &chars_of(m.as_str()));
                Err(Error::InvalidInput(string_of(&c)))
            },
        },
    }
}

/// Parse `s` in exactly the date format of `version`, giving chrono's
/// error text on failure.
pub fn parse_exact(s: &str, version: ApiVersion) -> (r: Result<DateTime, String>)
    ensures
        match chrono_parse(s@, version_format(version)) {
            Ok(dt) => r == Ok::<DateTime, String>(dt),
            Err(m) => r matches Err(t) && t@ == m,
        },
        r matches Ok(d) ==> valid_datetime(d),
{
    parse_with(s, format_str(version))
}

/// What [`parse_optional_utc`] gives: the ISO 8601 form, then the same
/// with a fractional second; `None` when neither parses.
pub open spec fn optional_utc_spec(s: Seq<char>) -> Option<DateTime> {
    match chrono_parse(s, version_format(ApiVersion::V3)) {
        Ok(dt) => Some(dt),
        Err(_) => match chrono_parse(s, iso_fraction_format()) {
            Ok(dt) => Some(dt),
            Err(_) => None,
        },
    }
}

/// Parse a UTC timestamp in the ISO 8601 form, with or without a
/// fractional second.
pub fn parse_optional_utc(s: &str) -> (r: Option<DateTime>)
    ensures
        r == optional_utc_spec(s@),
        r matches Some(d) ==> valid_datetime(d),
{
    match parse_with(s, format_str(ApiVersion::V3)) {
        Ok(dt) => Some(dt),
        Err(_) => {
            let frac = "%Y-%m-%dT%H:%M:%S%.f";
            proof {
                reveal_strlit("%Y-%m-%dT%H:%M:%S%.f");
            }
            match parse_with(s, frac) {
                Ok(dt) => Some(dt),
                Err(_) => None,
            }
        },
    }
}

/// Every version falls back to ISO 8601: a text in the ISO format parses
/// under any version when it parses as ISO.
pub proof fn lemma_iso_fallback(s: Seq<char>, version: ApiVersion)
    requires
        chrono_parse(s, version_format(ApiVersion::V3)) is Ok,
    ensures
        parse_spec(s, version) is Ok,
{
}

} // verus!
