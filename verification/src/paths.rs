//! Small helpers for request paths: a prefix and an identifier, and the
//! trailing slash a base path needs before others are joined to it.

use vstd::prelude::*;

use crate::text::{chars_of, concat_chars, string_of};

verus! {

/// `prefix` followed by `id`.
pub fn prefixed(prefix: &str, id: &str) -> (r: String)
    ensures
        r@ == prefix@ + id@,
{
    string_of(&concat_chars(&chars_of(prefix), &chars_of(id)))
}

/// `prefix`, `a`, `sep`, `b`.
pub fn prefixed2(prefix: &str, a: &str, sep: &str, b: &str) -> (r: String)
    ensures
        r@ == prefix@ + a@ + sep@ + b@,
{
    let x = concat_chars(&chars_of(prefix), &chars_of(a));
    let y = concat_chars(&x, &chars_of(sep));
    string_of(&concat_chars(&y, &chars_of(b)))
}

/// The base path as a joinable directory: `path` when it already ends
/// with `/`, else `path` followed by `/`.
pub open spec fn directory_path(path: Seq<char>) -> Seq<char> {
    if path.len() > 0 && path.last() == '/' {
        path
    } else {
        path.push('/')
    }
}

/// `path` with a trailing slash, so that joining a relative path keeps its
/// last segment.
pub fn with_trailing_slash(path: &str) -> (r: String)
    ensures
        r@ == directory_path(path@),
{
    let v = chars_of(path);
    let n = v.len();
    if n > 0 && v[n - 1] == '/' {
        string_of(&v)
    } else {
        let mut w = v;
        w.push('/');
        string_of(&w)
    }
}

} // verus!
