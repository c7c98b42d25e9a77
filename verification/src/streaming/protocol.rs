//! Pure TLCP frame parser — no I/O.
//!
//! Lightstreamer uses a newline-delimited text protocol.  Each line is
//! either a server command (`OK`, `PROBE`, `LOOP`, …) or a subscription
//! update whose first pipe-delimited token is the item index.
//!
//! | Wire token | Meaning                     |
//! | ---------- | --------------------------- |
//! | `$`        | Empty string `""`           |
//! | `#`        | `null` / `None`             |
//! | *(absent)* | Unchanged from last update  |

use vstd::prelude::*;
use vstd::utf8::*;

use crate::text::{
    lemma_first_index_is, lemma_first_index_none, split,
    chars_of, eq_chars, find_char_from, first_index, lemma_first_index, parse_i64_spec,
    parse_usize, parse_usize_spec, starts_with, starts_with_chars, string_of, strip_trailing,
    strip_trailing_chars, sub_chars, trim, trim_chars, trim_start, is_ws,
};

verus! {

/// A parsed value for a single subscription field.
#[derive(Debug, Clone, PartialEq)]
pub enum FieldValue {
    /// A concrete non-null string value (possibly empty, decoded from `$`).
    Value(String),
    /// The field is explicitly `null` (wire token `#`).
    Null,
    /// The field was absent in this frame — callers keep the previous value.
    Unchanged,
}

/// Mathematical model of a [`FieldValue`].
pub enum FieldModel {
    Value(Seq<char>),
    Null,
    Unchanged,
}

impl View for FieldValue {
    type V = FieldModel;

    open spec fn view(&self) -> FieldModel {
        match self {
            FieldValue::Value(s) => FieldModel::Value(s@),
            FieldValue::Null => FieldModel::Null,
            FieldValue::Unchanged => FieldModel::Unchanged,
        }
    }
}

/// Models of a slice of field values.
pub open spec fn fields_model(fields: Seq<FieldValue>) -> Seq<FieldModel> {
    fields.map_values(|f: FieldValue| f@)
}

pub open spec fn lit_true() -> Seq<char> {
    seq!['t', 'r', 'u', 'e']
}

pub open spec fn lit_false() -> Seq<char> {
    seq!['f', 'a', 'l', 's', 'e']
}

/// `"true"` / `"false"` as a boolean.
pub open spec fn bool_of(s: Seq<char>) -> Option<bool> {
    if s == lit_true() {
        Some(true)
    } else if s == lit_false() {
        Some(false)
    } else {
        None
    }
}

impl FieldValue {
    /// The string of a concrete value; `None` for null or unchanged fields.
    pub fn as_str(&self) -> (r: Option<&str>)
        ensures
            match self@ {
                FieldModel::Value(s) => r is Some && r->0@ == s,
                _ => r is None,
            },
    {
        match self {
            FieldValue::Value(s) => Some(s.as_str()),
            _ => None,
        }
    }

    /// Parse into an `i64`; `None` for null, unchanged or non-numeric values.
    pub fn parse_i64(&self) -> (r: Option<i64>)
        ensures
            r == match self@ {
                FieldModel::Value(s) => parse_i64_spec(s),
                _ => None,
            },
    {
        match self {
            FieldValue::Value(s) => {
                let cs = chars_of(s.as_str());
                crate::text::parse_i64(&cs)
            },
            _ => None,
        }
    }

    /// Parse into a `bool` (`"true"` / `"false"`); `None` otherwise.
    pub fn parse_bool(&self) -> (r: Option<bool>)
        ensures
            r == match self@ {
                FieldModel::Value(s) => bool_of(s),
                _ => None,
            },
    {
        match self {
            FieldValue::Value(s) => {
                let cs = chars_of(s.as_str());
                if eq_chars(&cs, &['t', 'r', 'u', 'e']) {
                    Some(true)
                } else if eq_chars(&cs, &['f', 'a', 'l', 's', 'e']) {
                    Some(false)
                } else {
                    None
                }
            },
            _ => None,
        }
    }
}

/// A decoded frame from the Lightstreamer streaming channel.
#[derive(Debug, Clone, PartialEq)]
pub enum Frame {
    /// A subscription update: item index (1-based) and field values.
    Update { item_index: usize, fields: Vec<FieldValue> },
    /// Server keep-alive; no action needed.
    Probe,
    /// Server asks the client to rebind the session.
    Loop,
    /// Session out-of-sync; all subscriptions must be re-registered.
    SyncError,
    /// Server signals a fatal error.
    Error { code: String, message: String },
    /// Session has been terminated by the server.
    End { cause: Option<String> },
    /// Handshake acknowledgement; contains the assigned session ID.
    SessionOk { session_id: String },
    /// A line that was not recognised (callers ignore it).
    Unknown(String),
}

/// Mathematical model of a [`Frame`].
pub enum FrameModel {
    Update { item_index: usize, fields: Seq<FieldModel> },
    Probe,
    Loop,
    SyncError,
    Error { code: Seq<char>, message: Seq<char> },
    End { cause: Option<Seq<char>> },
    SessionOk { session_id: Seq<char> },
    Unknown(Seq<char>),
}

impl View for Frame {
    type V = FrameModel;

    open spec fn view(&self) -> FrameModel {
        match self {
            Frame::Update { item_index, fields } => FrameModel::Update {
                item_index: *item_index,
                fields: fields_model(fields@),
            },
            Frame::Probe => FrameModel::Probe,
            Frame::Loop => FrameModel::Loop,
            Frame::SyncError => FrameModel::SyncError,
            Frame::Error { code, message } => FrameModel::Error { code: code@, message: message@ },
            Frame::End { cause } => FrameModel::End {
                cause: match cause {
                    Some(c) => Some(c@),
                    None => None,
                },
            },
            Frame::SessionOk { session_id } => FrameModel::SessionOk { session_id: session_id@ },
            Frame::Unknown(s) => FrameModel::Unknown(s@),
        }
    }
}

// ---------------------------------------------------------------------------
// Specification of the line grammar
// ---------------------------------------------------------------------------

pub open spec fn lit_probe() -> Seq<char> {
    seq!['P', 'R', 'O', 'B', 'E']
}

pub open spec fn lit_loop() -> Seq<char> {
    seq!['L', 'O', 'O', 'P']
}

pub open spec fn lit_sync_error() -> Seq<char> {
    seq!['S', 'Y', 'N', 'C', ' ', 'E', 'R', 'R', 'O', 'R']
}

pub open spec fn lit_ok() -> Seq<char> {
    seq!['O', 'K']
}

pub open spec fn lit_session_id() -> Seq<char> {
    seq!['S', 'e', 's', 's', 'i', 'o', 'n', 'I', 'd', ':']
}

pub open spec fn lit_error() -> Seq<char> {
    seq!['E', 'R', 'R', 'O', 'R']
}

pub open spec fn lit_end() -> Seq<char> {
    seq!['E', 'N', 'D']
}

/// Decoding of a single field token: `$` is the empty string, `#` is null,
/// an empty token is "unchanged", anything else is the value itself.
pub open spec fn decode_field_spec(t: Seq<char>) -> FieldModel {
    if t == seq!['$'] {
        FieldModel::Value(seq![])
    } else if t == seq!['#'] {
        FieldModel::Null
    } else if t.len() == 0 {
        FieldModel::Unchanged
    } else {
        FieldModel::Value(t)
    }
}

/// The decoded `|`-separated tokens of `s`, one per piece of `split(s, '|')`.
pub open spec fn decode_fields(s: Seq<char>) -> Seq<FieldModel>
    decreases s.len(),
{
    match first_index(s, '|') {
        Some(i) => {
            if 0 <= i < s.len() {
                seq![decode_field_spec(s.take(i))] + decode_fields(s.skip(i + 1))
            } else {
                seq![decode_field_spec(s)]
            }
        },
        None => seq![decode_field_spec(s)],
    }
}

/// An update line `<table>[,<item>]|<f1>|<f2>|…`: the routing key is the
/// table number before any comma.
pub open spec fn update_of(s: Seq<char>) -> Option<FrameModel> {
    match first_index(s, '|') {
        Some(p) => {
            let key = s.take(p);
            let table = match first_index(key, ',') {
                Some(q) => key.take(q),
                None => key,
            };
            match parse_usize_spec(table) {
                Some(n) => Some(FrameModel::Update { item_index: n, fields: decode_fields(s.skip(p + 1)) }),
                None => None,
            }
        },
        None => None,
    }
}

/// The frame denoted by a decoded line (trailing carriage returns removed).
pub open spec fn frame_of_text(s: Seq<char>) -> FrameModel {
    if s == lit_probe() {
        FrameModel::Probe
    } else if s == lit_loop() {
        FrameModel::Loop
    } else if s == lit_sync_error() {
        FrameModel::SyncError
    } else if s == lit_ok() {
        FrameModel::SessionOk { session_id: seq![] }
    } else if starts_with(s, lit_session_id()) {
        FrameModel::SessionOk { session_id: s.skip(10) }
    } else if starts_with(s, lit_error()) {
        let t = trim(s.skip(5));
        match first_index(t, '\n') {
            Some(i) => FrameModel::Error { code: t.take(i), message: t.skip(i + 1) },
            None => FrameModel::Error { code: t, message: seq![] },
        }
    } else if starts_with(s, lit_end()) {
        let t = trim(s.skip(3));
        FrameModel::End {
            cause: if t.len() == 0 {
                None
            } else {
                Some(t)
            },
        }
    } else {
        match update_of(s) {
            Some(f) => f,
            None => FrameModel::Unknown(s),
        }
    }
}

/// The text that `String::from_utf8_lossy` makes of a byte string.
pub uninterp spec fn utf8_lossy(bytes: Seq<u8>) -> Seq<char>;

/// The frame denoted by a raw line (without its `\n` terminator): a line
/// that is not valid UTF-8 is an unknown frame carrying its lossy decoding.
pub open spec fn parse_line_spec(line: Seq<u8>) -> FrameModel {
    if valid_utf8(line) {
        frame_of_text(strip_trailing(decode_utf8(line), '\r'))
    } else {
        FrameModel::Unknown(utf8_lossy(line))
    }
}

/// `s` followed by `k` carriage returns.
pub open spec fn with_crs(s: Seq<char>, k: nat) -> Seq<char> {
    s + Seq::new(k, |i: int| '\r')
}

/// Stripping trailing carriage returns ignores any that were appended.
pub proof fn lemma_strip_crs(s: Seq<char>, k: nat)
    ensures
        strip_trailing(with_crs(s, k), '\r') == strip_trailing(s, '\r'),
    decreases k,
{
    if k > 0 {
        let t = with_crs(s, (k - 1) as nat);
        assert(with_crs(s, k) =~= t.push('\r'));
        assert(with_crs(s, k).drop_last() =~= t);
        lemma_strip_crs(s, (k - 1) as nat);
    } else {
        assert(with_crs(s, 0) =~= s);
    }
}

/// Trailing carriage returns never change the frame a line parses to: a
/// text followed by any number of `\r` parses as the text alone.
pub proof fn lemma_trailing_cr_ignored(s: Seq<char>, k: nat)
    ensures
        parse_line_spec(encode_utf8(with_crs(s, k))) == parse_line_spec(encode_utf8(s)),
{
    broadcast use {vstd::utf8::encode_utf8_valid_utf8, vstd::utf8::encode_utf8_decode_utf8};

    lemma_strip_crs(s, k);
}

// ---------------------------------------------------------------------------
// Calls into the standard library's UTF-8 decoding
// ---------------------------------------------------------------------------

/// `std::str::from_utf8`: succeeds exactly on valid UTF-8, and the
/// resulting string holds the decoded characters.
#[verifier::external_body]
fn utf8_str(bytes: &[u8]) -> (r: Option<&str>)
    ensures
        r is Some <==> valid_utf8(bytes@),
        r matches Some(s) ==> s@ == decode_utf8(bytes@),
{
    std::str::from_utf8(bytes).ok()
}

/// `String::from_utf8_lossy`: the result is a function of the bytes alone,
/// and on valid UTF-8 it is the decoded text.
#[verifier::external_body]
pub(crate) fn utf8_lossy_string(bytes: &[u8]) -> (r: String)
    ensures
        r@ == utf8_lossy(bytes@),
        valid_utf8(bytes@) ==> r@ == decode_utf8(bytes@),
{
    String::from_utf8_lossy(bytes).into_owned()
}

// ---------------------------------------------------------------------------
// Parser
// ---------------------------------------------------------------------------

/// Decode a single pipe-delimited field token: `$` is the empty string,
/// `#` is null, an empty token is unchanged, anything else is its text.
pub fn decode_field(token: &str) -> (r: FieldValue)
    ensures
        r@ == decode_field_spec(token@),
{
    decode_field_chars(&chars_of(token))
}

/// [`decode_field`] on the characters of a token.
fn decode_field_chars(t: &[char]) -> (r: FieldValue)
    ensures
        r@ == decode_field_spec(t@),
{
    let dollar = ['$'];
    let hash = ['#'];
    assert(dollar@ =~= seq!['$']);
    assert(hash@ =~= seq!['#']);
    if eq_chars(t, &dollar) {
        FieldValue::Value(String::new())
    } else if eq_chars(t, &hash) {
        FieldValue::Null
    } else if t.len() == 0 {
        FieldValue::Unchanged
    } else {
        FieldValue::Value(string_of(t))
    }
}

/// Decode the fields of `c[from..]`.
fn decode_fields_from(c: &Vec<char>, from: usize) -> (r: Vec<FieldValue>)
    requires
        from <= c@.len(),
    ensures
        fields_model(r@) == decode_fields(c@.skip(from as int)),
{
    let n = c.len();
    let mut out: Vec<FieldValue> = Vec::new();
    let mut pos = from;
    let ghost total = decode_fields(c@.skip(from as int));
    assert(fields_model(out@) + decode_fields(c@.skip(pos as int)) =~= total);
    loop
        invariant
            from <= pos <= n == c@.len(),
            total == decode_fields(c@.skip(from as int)),
            fields_model(out@) + decode_fields(c@.skip(pos as int)) == total,
        decreases n - pos,
    {
        let ghost rest = c@.skip(pos as int);
        match find_char_from(c, pos, '|') {
            Some(q) => {
                let piece = sub_chars(c, pos, q);
                let f = decode_field_chars(&piece);
                proof {
                    lemma_first_index(rest, '|');
                    assert(rest.take(q - pos) =~= piece@);
                    assert(rest.skip(q - pos + 1) =~= c@.skip(q + 1));
                    assert(decode_fields(rest) == seq![f@] + decode_fields(c@.skip(q + 1)));
                }
                let ghost before = fields_model(out@);
                out.push(f);
                assert(fields_model(out@) =~= before.push(f@));
                pos = q + 1;
                assert(fields_model(out@) + decode_fields(c@.skip(pos as int)) =~= total);
            },
            None => {
                let piece = sub_chars(c, pos, n);
                let f = decode_field_chars(&piece);
                proof {
                    assert(rest =~= piece@);
                    assert(first_index(rest, '|') is None);
                    assert(decode_fields(rest) == seq![f@]);
                }
                let ghost before = fields_model(out@);
                assert(before + seq![f@] == total);
                out.push(f);
                assert(fields_model(out@) =~= before.push(f@));
                assert(before.push(f@) =~= before + seq![f@]);
                assert(fields_model(out@) == total);
                return out;
            },
        }
    }
}

/// Try to read `c` as an update line.
fn update_from(c: &Vec<char>) -> (r: Option<Frame>)
    ensures
        match update_of(c@) {
            Some(m) => r is Some && r->0@ == m,
            None => r is None,
        },
{
    let n = c.len();
    match find_char_from(c, 0, '|') {
        None => {
            assert(c@.skip(0) =~= c@);
            None
        },
        Some(p) => {
            assert(c@.skip(0) =~= c@);
            let key = sub_chars(c, 0, p);
            assert(key@ =~= c@.take(p as int));
            let table = match find_char_from(&key, 0, ',') {
                Some(q) => {
                    assert(key@.skip(0) =~= key@);
                    let t = sub_chars(&key, 0, q);
                    assert(t@ =~= key@.take(q as int));
                    t
                },
                None => {
                    assert(key@.skip(0) =~= key@);
                    key
                },
            };
            assert(table@ == (match first_index(key@, ',') {
                Some(q) => key@.take(q),
                None => key@,
            }));
            assert(first_index(c@, '|') == Some(p as int));
            match parse_usize(&table) {
                Some(item_index) => {
                    proof {
                        lemma_first_index(c@, '|');
                    }
                    let fields = decode_fields_from(c, p + 1);
                    Some(Frame::Update { item_index, fields })
                },
                None => None,
            }
        },
    }
}

/// Parse a decoded line (trailing carriage returns already removed).
fn frame_from_chars(c: &Vec<char>) -> (f: Frame)
    ensures
        f@ == frame_of_text(c@),
{
    if eq_chars(c, &['P', 'R', 'O', 'B', 'E']) {
        return Frame::Probe;
    }
    if eq_chars(c, &['L', 'O', 'O', 'P']) {
        return Frame::Loop;
    }
    if eq_chars(c, &['S', 'Y', 'N', 'C', ' ', 'E', 'R', 'R', 'O', 'R']) {
        return Frame::SyncError;
    }
    if eq_chars(c, &['O', 'K']) {
        return Frame::SessionOk { session_id: String::new() };
    }
    let n = c.len();
    if starts_with_chars(c, &['S', 'e', 's', 's', 'i', 'o', 'n', 'I', 'd', ':']) {
        let rest = sub_chars(c, 10, n);
        assert(rest@ =~= c@.skip(10));
        return Frame::SessionOk { session_id: string_of(&rest) };
    }
    if starts_with_chars(c, &['E', 'R', 'R', 'O', 'R']) {
        let rest = sub_chars(c, 5, n);
        assert(rest@ =~= c@.skip(5));
        let t = trim_chars(&rest);
        match find_char_from(&t, 0, '\n') {
            Some(i) => {
                assert(t@.skip(0) =~= t@);
                let tl = t.len();
                assert(i < tl);
                let code = sub_chars(&t, 0, i);
                let message = sub_chars(&t, i + 1, tl);
                assert(code@ =~= t@.take(i as int));
                assert(message@ =~= t@.skip(i + 1));
                return Frame::Error { code: string_of(&code), message: string_of(&message) };
            },
            None => {
                assert(t@.skip(0) =~= t@);
                return Frame::Error { code: string_of(&t), message: String::new() };
            },
        }
    }
    if starts_with_chars(c, &['E', 'N', 'D']) {
        let rest = sub_chars(c, 3, n);
        assert(rest@ =~= c@.skip(3));
        let t = trim_chars(&rest);
        if t.len() == 0 {
            return Frame::End { cause: None };
        } else {
            return Frame::End { cause: Some(string_of(&t)) };
        }
    }
    match update_from(c) {
        Some(f) => f,
        None => Frame::Unknown(string_of(c)),
    }
}

/// Parse a single raw line (without its trailing `\n`) into a [`Frame`].
pub fn parse_line(line: &[u8]) -> (f: Frame)
    ensures
        f@ == parse_line_spec(line@),
{
    match utf8_str(line) {
        Some(s) => {
            let raw = chars_of(s);
            let c = strip_trailing_chars(&raw, '\r');
            frame_from_chars(&c)
        },
        None => Frame::Unknown(utf8_lossy_string(line)),
    }
}

// ---------------------------------------------------------------------------
// OK block
// ---------------------------------------------------------------------------

/// Models of a list of key/value string pairs.
pub open spec fn pairs_model(v: Seq<(String, String)>) -> Seq<(Seq<char>, Seq<char>)> {
    v.map_values(|p: (String, String)| (p.0@, p.1@))
}

/// The header lines after `OK`, read up to the first blank line: the last
/// `SessionId:` line gives the session id, and every other line holding a
/// `:` gives a key/value pair split at its first `:` (lines are trimmed).
pub open spec fn ok_header(
    lines: Seq<Seq<char>>,
    sid: Seq<char>,
    extras: Seq<(Seq<char>, Seq<char>)>,
) -> (Seq<char>, Seq<(Seq<char>, Seq<char>)>)
    decreases lines.len(),
{
    if lines.len() == 0 {
        (sid, extras)
    } else {
        let l = trim(lines[0]);
        if l.len() == 0 {
            (sid, extras)
        } else if starts_with(l, lit_session_id()) {
            ok_header(lines.drop_first(), l.skip(10), extras)
        } else {
            match first_index(l, ':') {
                Some(i) => ok_header(lines.drop_first(), sid, extras.push((l.take(i), l.skip(i + 1)))),
                None => ok_header(lines.drop_first(), sid, extras),
            }
        }
    }
}

/// A multi-line OK block: its first line (trimmed) must be `OK`; the lines
/// are the `\n`-separated pieces of the block, each trimmed of whitespace
/// (so `\r\n` line ends are accepted).
pub open spec fn ok_block_spec(block: Seq<char>) -> Option<(Seq<char>, Seq<(Seq<char>, Seq<char>)>)> {
    let ls = split(block, '\n');
    if trim(ls[0]) == lit_ok() {
        Some(ok_header(ls.drop_first(), seq![], seq![]))
    } else {
        None
    }
}

/// One line as `str::lines` gives a line ended by `\n`: without one
/// trailing `\r`.
pub open spec fn line_text(l: Seq<char>) -> Seq<char> {
    if l.len() > 0 && l.last() == '\r' {
        l.drop_last()
    } else {
        l
    }
}

/// The lines `str::lines` yields: the `\n`-separated pieces, each ended by
/// `\n` without one trailing `\r`, and the piece after the last `\n` only
/// when it is not empty.
pub open spec fn std_lines(s: Seq<char>) -> Seq<Seq<char>> {
    let ps = split(s, '\n');
    let body = ps.drop_last().map_values(|l: Seq<char>| line_text(l));
    if ps.last().len() == 0 {
        body
    } else {
        body.push(ps.last())
    }
}

proof fn lemma_trim_start_push_ws(x: Seq<char>, c: char)
    requires
        is_ws(c),
    ensures
        trim_start(x.push(c)) == (if trim_start(x).len() == 0 {
            Seq::<char>::empty()
        } else {
            trim_start(x).push(c)
        }),
    decreases x.len(),
{
    if x.len() == 0 {
        assert(x.push(c).drop_first() =~= Seq::<char>::empty());
        assert(trim_start(Seq::<char>::empty()) == Seq::<char>::empty());
        assert(x.push(c)[0] == c);
    } else if is_ws(x[0]) {
        assert(x.push(c).drop_first() =~= x.drop_first().push(c));
        lemma_trim_start_push_ws(x.drop_first(), c);
    }
}

/// Trailing whitespace does not change a trimmed text.
proof fn lemma_trim_push_ws(x: Seq<char>, c: char)
    requires
        is_ws(c),
    ensures
        trim(x.push(c)) == trim(x),
{
    lemma_trim_start_push_ws(x, c);
    let t = trim_start(x);
    if t.len() > 0 {
        assert(t.push(c).drop_last() =~= t);
    }
}

proof fn lemma_trim_line_text(l: Seq<char>)
    ensures
        trim(line_text(l)) == trim(l),
{
    if l.len() > 0 && l.last() == '\r' {
        assert(l =~= l.drop_last().push('\r'));
        lemma_trim_push_ws(l.drop_last(), '\r');
    }
}

/// `ok_header` reads each line only trimmed.
proof fn lemma_ok_header_trimmed(
    a: Seq<Seq<char>>,
    b: Seq<Seq<char>>,
    sid: Seq<char>,
    extras: Seq<(Seq<char>, Seq<char>)>,
)
    requires
        a.len() == b.len(),
        forall|i: int| 0 <= i < a.len() ==> trim(#[trigger] a[i]) == trim(b[i]),
    ensures
        ok_header(a, sid, extras) == ok_header(b, sid, extras),
    decreases a.len(),
{
    if a.len() > 0 {
        assert(trim(a[0]) == trim(b[0]));
        assert forall|i: int| 0 <= i < a.drop_first().len() implies trim(
            #[trigger] a.drop_first()[i],
        ) == trim(b.drop_first()[i]) by {
            assert(trim(a[i + 1]) == trim(b[i + 1]));
        }
        let l = trim(a[0]);
        if l.len() == 0 {
        } else if starts_with(l, lit_session_id()) {
            lemma_ok_header_trimmed(a.drop_first(), b.drop_first(), l.skip(10), extras);
        } else {
            match first_index(l, ':') {
                Some(i) => lemma_ok_header_trimmed(
                    a.drop_first(),
                    b.drop_first(),
                    sid,
                    extras.push((l.take(i), l.skip(i + 1))),
                ),
                None => lemma_ok_header_trimmed(a.drop_first(), b.drop_first(), sid, extras),
            }
        }
    }
}

/// An empty last line does not change what `ok_header` reads.
proof fn lemma_ok_header_empty_last(
    a: Seq<Seq<char>>,
    sid: Seq<char>,
    extras: Seq<(Seq<char>, Seq<char>)>,
)
    ensures
        ok_header(a.push(Seq::<char>::empty()), sid, extras) == ok_header(a, sid, extras),
    decreases a.len(),
{
    let e = Seq::<char>::empty();
    let ap = a.push(e);
    if a.len() == 0 {
        assert(trim(ap[0]) =~= e);
    } else {
        assert(ap[0] == a[0]);
        assert(ap.drop_first() =~= a.drop_first().push(e));
        let l = trim(a[0]);
        if l.len() == 0 {
        } else if starts_with(l, lit_session_id()) {
            lemma_ok_header_empty_last(a.drop_first(), l.skip(10), extras);
        } else {
            match first_index(l, ':') {
                Some(i) => lemma_ok_header_empty_last(
                    a.drop_first(),
                    sid,
                    extras.push((l.take(i), l.skip(i + 1))),
                ),
                None => lemma_ok_header_empty_last(a.drop_first(), sid, extras),
            }
        }
    }
}

/// `parse_ok_block` read over the lines `str::lines` gives: a block is
/// accepted exactly when it has a first line and that line, trimmed, is
/// `OK`; the session id and the key/value pairs are then what `ok_header`
/// reads from the lines after it.
pub proof fn lemma_ok_block_by_lines(block: Seq<char>)
    ensures
        ok_block_spec(block) is Some <==> (std_lines(block).len() > 0 && trim(std_lines(block)[0])
            == lit_ok()),
        ok_block_spec(block) is Some ==> ok_block_spec(block) == Some(
            ok_header(std_lines(block).drop_first(), seq![], seq![]),
        ),
{
    let ps = split(block, '\n');
    lemma_split_nonempty(block, '\n');
    let n = ps.len() - 1;
    let body = ps.drop_last().map_values(|l: Seq<char>| line_text(l));
    let sl = std_lines(block);
    reveal_strlit("OK");
    if n == 0 {
        if ps[0].len() == 0 {
            assert(trim(ps[0]) =~= Seq::<char>::empty());
            assert(sl.len() == 0);
        } else {
            assert(sl =~= seq![ps[0]]);
            assert(sl.drop_first() =~= ps.drop_first());
        }
    } else {
        lemma_trim_line_text(ps[0]);
        assert(sl[0] == line_text(ps[0]));
        let q = ps.drop_first().drop_last();
        let qb = body.drop_first();
        assert(qb.len() == q.len());
        assert forall|i: int| 0 <= i < q.len() implies trim(#[trigger] q[i]) == trim(qb[i]) by {
            assert(qb[i] == line_text(ps[i + 1]));
            assert(q[i] == ps[i + 1]);
            lemma_trim_line_text(ps[i + 1]);
        }
        lemma_ok_header_trimmed(q, qb, seq![], seq![]);
        if ps.last().len() == 0 {
            assert(ps.last() =~= Seq::<char>::empty());
            assert(ps.drop_first() =~= q.push(Seq::<char>::empty()));
            lemma_ok_header_empty_last(q, seq![], seq![]);
            assert(sl.drop_first() =~= qb);
        } else {
            assert(ps.drop_first() =~= q.push(ps.last()));
            assert(sl.drop_first() =~= qb.push(ps.last()));
            let a = q.push(ps.last());
            let b = qb.push(ps.last());
            assert forall|i: int| 0 <= i < a.len() implies trim(#[trigger] a[i]) == trim(b[i]) by {
                if i < q.len() {
                    assert(a[i] == q[i]);
                    assert(b[i] == qb[i]);
                }
            }
            lemma_ok_header_trimmed(a, b, seq![], seq![]);
        }
    }
}

/// `split` always gives at least one piece.
proof fn lemma_split_nonempty(s: Seq<char>, sep: char)
    ensures
        split(s, sep).len() >= 1,
    decreases s.len(),
{
    match first_index(s, sep) {
        Some(i) => {
            if 0 <= i < s.len() {
                lemma_split_nonempty(s.skip(i + 1), sep);
            }
        },
        None => {},
    }
}

pub proof fn lemma_split_step(s: Seq<char>, sep: char, q: int)
    requires
        0 <= q < s.len(),
        s[q] == sep,
        forall|j: int| 0 <= j < q ==> s[j] != sep,
    ensures
        split(s, sep) == seq![s.take(q)] + split(s.skip(q + 1), sep),
{
    lemma_first_index_is(s, sep, q);
}

pub proof fn lemma_split_last(s: Seq<char>, sep: char)
    requires
        forall|j: int| 0 <= j < s.len() ==> s[j] != sep,
    ensures
        split(s, sep) == seq![s],
{
    lemma_first_index_none(s, sep);
}

/// Parse a complete multi-line OK block from `create_session` /
/// `bind_session`: the session id and the other key/value header pairs.
pub fn parse_ok_block(block: &str) -> (r: Option<(String, Vec<(String, String)>)>)
    ensures
        match ok_block_spec(block@) {
            Some((sid, extras)) => r matches Some(p) && p.0@ == sid && pairs_model(p.1@) == extras,
            None => r is None,
        },
{
    let c = chars_of(block);
    let n = c.len();
    let ghost cs = c@;
    let ghost ls = split(cs, '\n');
    let first;
    let mut pos: usize;
    let mut more: bool;
    assert(cs.skip(0) =~= cs);
    match find_char_from(&c, 0, '\n') {
        Some(q) => {
            first = sub_chars(&c, 0, q);
            proof {
                lemma_split_step(cs, '\n', q as int);
            }
            pos = q + 1;
            more = true;
        },
        None => {
            first = sub_chars(&c, 0, n);
            proof {
                lemma_split_last(cs, '\n');
                assert(cs.take(n as int) =~= cs);
            }
            pos = n;
            more = false;
        },
    }
    assert(first@ == ls[0]);
    let t = trim_chars(&first);
    let ok = ['O', 'K'];
    assert(ok@ =~= lit_ok());
    if !eq_chars(&t, &ok) {
        return None;
    }
    let ghost goal = ok_header(ls.drop_first(), seq![], seq![]);
    proof {
        if more {
            assert(ls.drop_first() =~= split(cs.skip(pos as int), '\n'));
        } else {
            assert(ls.drop_first() =~= Seq::<Seq<char>>::empty());
        }
    }
    let mut sid: Vec<char> = Vec::new();
    let mut extras: Vec<(String, String)> = Vec::new();
    assert(pairs_model(extras@) =~= seq![]);
    while more
        invariant
            n == c@.len(),
            cs == c@,
            pos <= n,
            more ==> goal == ok_header(split(cs.skip(pos as int), '\n'), sid@, pairs_model(extras@)),
            !more ==> goal == (sid@, pairs_model(extras@)),
        decreases n - pos + (if more { 1int } else { 0int }),
    {
        let ghost rest = cs.skip(pos as int);
        let line;
        let next_pos: usize;
        let next_more: bool;
        match find_char_from(&c, pos, '\n') {
            Some(q) => {
                line = sub_chars(&c, pos, q);
                proof {
                    assert forall|j: int| 0 <= j < q - pos implies rest[j] != '\n' by {
                        assert(rest[j] == cs[j + pos]);
                    }
                    lemma_split_step(rest, '\n', q - pos);
                    assert(rest.take(q - pos) =~= line@);
                    assert(rest.skip(q - pos + 1) =~= cs.skip(q + 1));
                }
                next_pos = q + 1;
                next_more = true;
            },
            None => {
                line = sub_chars(&c, pos, n);
                proof {
                    assert forall|j: int| 0 <= j < rest.len() implies rest[j] != '\n' by {
                        assert(rest[j] == cs[j + pos]);
                    }
                    lemma_split_last(rest, '\n');
                    assert(rest =~= line@);
                }
                next_pos = n;
                next_more = false;
            },
        }
        let ghost lines = split(rest, '\n');
        let ghost tail = if next_more {
            split(cs.skip(next_pos as int), '\n')
        } else {
            Seq::<Seq<char>>::empty()
        };
        assert(lines.drop_first() =~= tail);
        assert(lines[0] == line@);
        let l = trim_chars(&line);
        let ghost old_sid = sid@;
        let ghost old_ex = pairs_model(extras@);
        if l.len() == 0 {
            more = false;
        } else if starts_with_chars(&l, &['S', 'e', 's', 's', 'i', 'o', 'n', 'I', 'd', ':']) {
            let ln = l.len();
            sid = sub_chars(&l, 10, ln);
            assert(sid@ =~= l@.skip(10));
            assert(ok_header(lines, old_sid, old_ex) == ok_header(tail, sid@, pairs_model(extras@)));
            pos = next_pos;
            more = next_more;
        } else {
            let ln = l.len();
            assert(l@.skip(0) =~= l@);
            match find_char_from(&l, 0, ':') {
                Some(i) => {
                    let k = sub_chars(&l, 0, i);
                    let v = sub_chars(&l, i + 1, ln);
                    assert(k@ =~= l@.take(i as int));
                    assert(v@ =~= l@.skip(i + 1));
                    let ghost before = pairs_model(extras@);
                    extras.push((string_of(&k), string_of(&v)));
                    assert(pairs_model(extras@) =~= before.push((k@, v@)));
                },
                None => {},
            }
            assert(ok_header(lines, old_sid, old_ex) == ok_header(tail, sid@, pairs_model(extras@)));
            pos = next_pos;
            more = next_more;
        }
    }
    Some((string_of(&sid), extras))
}

// ---------------------------------------------------------------------------
// Field merging
// ---------------------------------------------------------------------------

/// Models of a running field state.
pub open spec fn state_model(v: Seq<Option<String>>) -> Seq<Option<Seq<char>>> {
    v.map_values(|o: Option<String>|
        match o {
            Some(s) => Some(s@),
            None => None,
        }
    )
}

/// A frame's fields applied on top of a running state: a value replaces the
/// slot, a null clears it, an unchanged field keeps it; the state is
/// extended with empty slots when the frame is longer.
pub open spec fn merge_spec(state: Seq<Option<Seq<char>>>, fields: Seq<FieldModel>) -> Seq<Option<Seq<char>>> {
    let n = if state.len() < fields.len() {
        fields.len()
    } else {
        state.len()
    };
    Seq::new(
        n,
        |i: int|
            if i < fields.len() {
                match fields[i] {
                    FieldModel::Value(s) => Some(s),
                    FieldModel::Null => None,
                    FieldModel::Unchanged => if i < state.len() {
                        state[i]
                    } else {
                        None
                    },
                }
            } else {
                state[i]
            },
    )
}

/// Apply a new frame's fields on top of a running state vector, respecting
/// the "absent = unchanged" rule; the state is extended when shorter.
pub fn merge_fields(state: &mut Vec<Option<String>>, fields: &[FieldValue])
    ensures
        state_model(final(state)@) == merge_spec(state_model(old(state)@), fields_model(fields@)),
{
    let ghost old_state = state_model(state@);
    let ghost fm = fields_model(fields@);
    while state.len() < fields.len()
        invariant
            old_state.len() <= state@.len(),
            forall|i: int| 0 <= i < old_state.len() ==> state_model(state@)[i] == old_state[i],
            forall|i: int| old_state.len() <= i < state@.len() ==> state@[i] is None,
            state@.len() <= fields@.len() || state@.len() == old_state.len(),
        decreases fields@.len() - state@.len(),
    {
        state.push(None);
    }
    let ghost grown = state_model(state@);
    let mut i: usize = 0;
    while i < fields.len()
        invariant
            fm == fields_model(fields@),
            grown.len() == state@.len(),
            fields@.len() <= state@.len(),
            old_state.len() <= state@.len(),
            state@.len() == (if old_state.len() < fm.len() { fm.len() } else { old_state.len() }),
            forall|j: int| 0 <= j < old_state.len() ==> grown[j] == old_state[j],
            forall|j: int| old_state.len() <= j < grown.len() ==> grown[j] is None,
            i <= fields@.len(),
            forall|j: int|
                0 <= j < state@.len() ==> state_model(state@)[j] == (if j < i {
                    merge_spec(old_state, fm)[j]
                } else {
                    grown[j]
                }),
        decreases fields@.len() - i,
    {
        let ghost prev = state@;
        assert(fm[i as int] == fields@[i as int]@);
        let ghost target = merge_spec(old_state, fm)[i as int];
        match &fields[i] {
            FieldValue::Value(s) => {
                state.set(i, Some(s.clone()));
            },
            FieldValue::Null => {
                state.set(i, None);
            },
            FieldValue::Unchanged => {},
        }
        assert(state_model(state@)[i as int] == target);
        assert forall|j: int| 0 <= j < state@.len() && j != i implies state_model(state@)[j]
            == state_model(prev)[j] by {
            assert(state@[j] == prev[j]);
        }
        assert forall|j: int| 0 <= j < state@.len() implies state_model(state@)[j] == (if j
            < i + 1 {
            merge_spec(old_state, fm)[j]
        } else {
            grown[j]
        }) by {
            if j != i {
                assert(state_model(state@)[j] == state_model(prev)[j]);
            }
        }
        i = i + 1;
    }
    assert(state_model(state@) =~= merge_spec(old_state, fm));
}

/// Merging never loses a field: the state keeps its length or grows to the
/// frame's; an unchanged (or absent) field keeps its previous value, a
/// value overwrites it and a null clears it.
pub proof fn lemma_merge_fields(state: Seq<Option<Seq<char>>>, fields: Seq<FieldModel>, i: int)
    requires
        0 <= i,
    ensures
        merge_spec(state, fields).len() >= state.len(),
        merge_spec(state, fields).len() >= fields.len(),
        i < state.len() && (i >= fields.len() || fields[i] is Unchanged) ==> merge_spec(
            state,
            fields,
        )[i] == state[i],
        i < fields.len() ==> (fields[i] matches FieldModel::Value(v) ==> merge_spec(
            state,
            fields,
        )[i] == Some(v)),
        i < fields.len() && fields[i] is Null ==> merge_spec(state, fields)[i] is None,
{
}

/// Applying the same frame twice gives the same state as applying it once.
pub proof fn lemma_merge_idempotent(state: Seq<Option<Seq<char>>>, fields: Seq<FieldModel>)
    ensures
        merge_spec(merge_spec(state, fields), fields) == merge_spec(state, fields),
{
    assert(merge_spec(merge_spec(state, fields), fields) =~= merge_spec(state, fields));
}

/// A frame of unchanged fields only, no longer than the state, leaves the
/// state as it is.
pub proof fn lemma_merge_unchanged_noop(state: Seq<Option<Seq<char>>>, fields: Seq<FieldModel>)
    requires
        fields.len() <= state.len(),
        forall|i: int| 0 <= i < fields.len() ==> fields[i] is Unchanged,
    ensures
        merge_spec(state, fields) == state,
{
    assert(merge_spec(state, fields) =~= state);
}

} // verus!
