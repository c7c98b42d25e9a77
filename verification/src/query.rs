//! Percent-encoding of query-string values and assembly of query strings.

use vstd::prelude::*;
use vstd::utf8::*;

use crate::text::{chars_of, join, push_all, string_of};

verus! {

/// RFC 3986 unreserved bytes: letters, digits, `-`, `_`, `.`, `~`.
pub open spec fn unreserved(b: u8) -> bool {
    ||| 65 <= b <= 90
    ||| 97 <= b <= 122
    ||| 48 <= b <= 57
    ||| b == 45 || b == 95 || b == 46 || b == 126
}

/// Bytes left as they are in a query value: the unreserved ones and, in
/// the lax variant, also `:` (timestamps), `!`, `*` and `'`.
pub open spec fn kept(b: u8, lax: bool) -> bool {
    unreserved(b) || (lax && (b == 58 || b == 33 || b == 42 || b == 39))
}

/// Upper-case hexadecimal digit of `n` (`0 <= n < 16`).
pub open spec fn hex_digit(n: int) -> char {
    if n < 10 {
        (48 + n) as char
    } else {
        (55 + n) as char
    }
}

/// The encoding of one byte: kept as is, `+` for a space, else `%XX`.
pub open spec fn encode_byte(b: u8, lax: bool) -> Seq<char> {
    if kept(b, lax) {
        seq![b as char]
    } else if b == 32 {
        seq!['+']
    } else {
        seq!['%', hex_digit(b as int / 16), hex_digit(b as int % 16)]
    }
}

/// The encoding of a byte string, byte by byte.
pub open spec fn encode_bytes(bs: Seq<u8>, lax: bool) -> Seq<char>
    decreases bs.len(),
{
    if bs.len() == 0 {
        seq![]
    } else {
        encode_bytes(bs.drop_last(), lax) + encode_byte(bs.last(), lax)
    }
}

fn hex_char(n: u8) -> (c: char)
    requires
        n < 16,
    ensures
        c == hex_digit(n as int),
{
    if n < 10 {
        (48 + n) as char
    } else {
        (55 + n) as char
    }
}

fn encode_one(out: &mut Vec<char>, b: u8, lax: bool)
    ensures
        final(out)@ == old(out)@ + encode_byte(b, lax),
{
    let keep = (65 <= b && b <= 90) || (97 <= b && b <= 122) || (48 <= b && b <= 57) || b == 45
        || b == 95 || b == 46 || b == 126 || (lax && (b == 58 || b == 33 || b == 42 || b == 39));
    if keep {
        out.push(b as char);
    } else if b == 32 {
        out.push('+');
    } else {
        out.push('%');
        out.push(hex_char(b / 16));
        out.push(hex_char(b % 16));
    }
    assert(final(out)@ =~= old(out)@ + encode_byte(b, lax)) by {
        assert(keep == kept(b, lax));
    }
}

/// Percent-encode the UTF-8 bytes of `s` as [`encode_bytes`] says.
pub fn encode_query_value(s: &str, lax: bool) -> (r: String)
    ensures
        r@ == encode_bytes(encode_utf8(s@), lax),
{
    let bytes = s.as_bytes();
    let mut out: Vec<char> = Vec::new();
    let mut i: usize = 0;
    while i < bytes.len()
        invariant
            i <= bytes@.len(),
            bytes@ == encode_utf8(s@),
            out@ == encode_bytes(bytes@.take(i as int), lax),
        decreases bytes.len() - i,
    {
        encode_one(&mut out, bytes[i], lax);
        proof {
            let t = bytes@.take(i + 1);
            assert(t.drop_last() =~= bytes@.take(i as int));
        }
        i = i + 1;
    }
    assert(bytes@.take(bytes@.len() as int) =~= bytes@);
    string_of(&out)
}

/// The value of an upper-case hexadecimal digit.
pub open spec fn hex_value(c: char) -> int {
    if '0' <= c && c <= '9' {
        c as int - '0' as int
    } else {
        c as int - 'A' as int + 10
    }
}

/// An upper-case hexadecimal digit.
pub open spec fn is_upper_hex(c: char) -> bool {
    ('0' <= c && c <= '9') || ('A' <= c && c <= 'F')
}

/// Characters that stand for themselves inside a query value: letters,
/// digits, `-`, `_`, `.`, `~`, plus `+` (a space) and `%` (an escape).
pub open spec fn query_safe(c: char) -> bool {
    ||| ('A' <= c && c <= 'Z')
    ||| ('a' <= c && c <= 'z')
    ||| ('0' <= c && c <= '9')
    ||| c == '-' || c == '_' || c == '.' || c == '~' || c == '+' || c == '%'
}

/// How one byte is written.  ASCII letters, digits, `-`, `_`, `.` and `~`
/// are written as themselves (and, in the lax variant, `:`, `!`, `*` and
/// `'` too); a space is written `+`; every other byte is written `%`
/// followed by two upper-case hex digits whose value is the byte.
pub proof fn lemma_encode_byte_law(b: u8, lax: bool)
    ensures
        (('A' as u8) <= b <= ('Z' as u8) || ('a' as u8) <= b <= ('z' as u8) || ('0' as u8) <= b
            <= ('9' as u8) || b == '-' as u8 || b == '_' as u8 || b == '.' as u8 || b == '~' as u8)
            ==> encode_byte(b, lax) == seq![b as char],
        lax && (b == ':' as u8 || b == '!' as u8 || b == '*' as u8 || b == '\'' as u8)
            ==> encode_byte(b, lax) == seq![b as char],
        !lax && (b == ':' as u8 || b == '!' as u8 || b == '*' as u8 || b == '\'' as u8 || b
            == '&' as u8 || b == '=' as u8 || b == '?' as u8 || b == '#' as u8 || b == '/' as u8
            || b == '+' as u8 || b == '%' as u8) ==> encode_byte(b, lax)[0] == '%',
        b == ' ' as u8 ==> encode_byte(b, lax) == seq!['+'],
        encode_byte(b, lax) == seq![b as char] || encode_byte(b, lax) == seq!['+'] || {
            let e = encode_byte(b, lax);
            &&& b != ' ' as u8
            &&& e.len() == 3
            &&& e[0] == '%'
            &&& is_upper_hex(e[1])
            &&& is_upper_hex(e[2])
            &&& hex_value(e[1]) * 16 + hex_value(e[2]) == b
        },
        encode_byte(b, lax) == seq![b as char] ==> b != ' ' as u8 && b != '&' as u8 && b
            != '=' as u8 && b != '%' as u8 && b != '+' as u8,
{
    let hi = b as int / 16;
    let lo = b as int % 16;
    assert(0 <= hi < 16 && 0 <= lo < 16);
    assert(hi * 16 + lo == b);
    if !kept(b, lax) {
        if b == 32 {
            assert(encode_byte(b, lax)[0] == '+');
            assert((b as char) == ' ');
            assert(seq![b as char][0] == ' ');
        } else {
            assert(encode_byte(b, lax).len() == 3);
            assert(seq![b as char].len() == 1);
        }
    }
}

/// An encoded value never breaks out of its query parameter: every
/// character of it is a letter, a digit, `-`, `_`, `.`, `~`, `+` or `%`
/// (and, in the lax variant, `:`, `!`, `*` or `'`), so no `&`, `=`, `#` or
/// `?` appears, whatever the text.
pub proof fn lemma_encoding_alphabet(bs: Seq<u8>, lax: bool)
    ensures
        forall|i: int|
            0 <= i < encode_bytes(bs, lax).len() ==> {
                let c = #[trigger] encode_bytes(bs, lax)[i];
                query_safe(c) || (lax && (c == ':' || c == '!' || c == '*' || c == '\''))
            },
    decreases bs.len(),
{
    if bs.len() > 0 {
        lemma_encoding_alphabet(bs.drop_last(), lax);
        let a = encode_bytes(bs.drop_last(), lax);
        let b = bs.last();
        let e = encode_byte(b, lax);
        lemma_encode_byte_law(b, lax);
        assert forall|i: int| 0 <= i < e.len() implies {
            let c = #[trigger] e[i];
            query_safe(c) || (lax && (c == ':' || c == '!' || c == '*' || c == '\''))
        } by {
            if !kept(b, lax) && b != 32 {
                assert(is_upper_hex(e[1]) && is_upper_hex(e[2]));
            }
        }
        assert forall|i: int| 0 <= i < encode_bytes(bs, lax).len() implies {
            let c = #[trigger] encode_bytes(bs, lax)[i];
            query_safe(c) || (lax && (c == ':' || c == '!' || c == '*' || c == '\''))
        } by {
            if i < a.len() {
                assert(encode_bytes(bs, lax)[i] == a[i]);
            } else {
                assert(encode_bytes(bs, lax)[i] == e[i - a.len()]);
            }
        }
    }
}

/// `key=value` pairs joined by `&`, each value encoded by `enc`.
pub open spec fn query_string(
    keys: Seq<Seq<char>>,
    values: Seq<Seq<char>>,
) -> Seq<char> {
    join(Seq::new(keys.len(), |i: int| keys[i] + seq!['='] + values[i]), seq!['&'])
}

/// `base`, then `?` and the query string when there are parameters.
pub open spec fn path_with_query(base: Seq<char>, keys: Seq<Seq<char>>, values: Seq<Seq<char>>) -> Seq<
    char,
> {
    if keys.len() == 0 {
        base
    } else {
        base + seq!['?'] + query_string(keys, values)
    }
}

/// Append `key=value` pairs (values already encoded) to `base`.
pub fn append_query(base: &str, keys: &Vec<String>, values: &Vec<String>) -> (r: String)
    requires
        keys@.len() == values@.len(),
    ensures
        r@ == path_with_query(
            base@,
            keys@.map_values(|k: String| k@),
            values@.map_values(|v: String| v@),
        ),
{
    let ghost ks = keys@.map_values(|k: String| k@);
    let ghost vs = values@.map_values(|v: String| v@);
    let mut out = chars_of(base);
    if keys.len() == 0 {
        return string_of(&out);
    }
    out.push('?');
    let ghost head = out@;
    let mut i: usize = 0;
    while i < keys.len()
        invariant
            i <= keys@.len() == values@.len(),
            ks == keys@.map_values(|k: String| k@),
            vs == values@.map_values(|v: String| v@),
            out@ == head + join(
                Seq::new(i as nat, |j: int| ks[j] + seq!['='] + vs[j]),
                seq!['&'],
            ),
        decreases keys.len() - i,
    {
        let ghost before = out@;
        if i > 0 {
            out.push('&');
        }
        let k = chars_of(keys[i].as_str());
        let v = chars_of(values[i].as_str());
        push_all(&mut out, &k);
        out.push('=');
        push_all(&mut out, &v);
        proof {
            assert(k@ == ks[i as int]);
            assert(v@ == vs[i as int]);
            let prev = Seq::new(i as nat, |j: int| ks[j] + seq!['='] + vs[j]);
            let next = Seq::new((i + 1) as nat, |j: int| ks[j] + seq!['='] + vs[j]);
            assert(next.drop_last() =~= prev);
            assert(next.last() == ks[i as int] + seq!['='] + vs[i as int]);
            if i == 0 {
                assert(before == head);
                assert(out@ =~= head + next[0]);
            } else {
                assert(out@ =~= head + (join(prev, seq!['&']) + seq!['&'] + next.last()));
            }
        }
        i = i + 1;
    }
    proof {
        assert(Seq::new(keys@.len(), |j: int| ks[j] + seq!['='] + vs[j]) =~= Seq::new(
            ks.len(),
            |j: int| ks[j] + seq!['='] + vs[j],
        ));
    }
    string_of(&out)
}

} // verus!
