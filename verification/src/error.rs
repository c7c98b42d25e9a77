//! Crate-wide error type.
//!
//! Domain modules do not define error enums of their own; they extend
//! [`Error`].  Variants are coarse-grained; the `Api` variant carries IG's
//! machine-readable `errorCode` for fine matching by callers.

use vstd::prelude::*;

use crate::text::{chars_of, contains_chars, contains_seq, occurs_at};

verus! {

/// Every failure the client reports.
#[derive(Debug)]
pub enum Error {
    /// HTTP transport error.
    Http(reqwest::Error),
    /// IG API error: the HTTP status code and IG's error payload.
    Api { status: u16, source: ApiError },
    /// Authentication error.
    Auth(String),
    /// Rate limited by IG.
    RateLimited(String),
    /// Failed to deserialise a response.
    Deserialization(serde_json::Error),
    /// Invalid configuration.
    Config(String),
    /// Invalid input.
    InvalidInput(String),
    /// URL error.
    Url(url::ParseError),
    /// Invalid HTTP header value.
    HeaderValue(http::header::InvalidHeaderValue),
    /// The Lightstreamer server rejected a request.
    Streaming(String),
}

/// Wire-level error payload returned by IG.
///
/// Most endpoints return `{ "errorCode": "…" }` on failure.  Some include
/// additional context fields, kept in `extra`.
#[derive(Debug)]
pub struct ApiError {
    pub error_code: String,
    pub extra: serde_json::Map<String, serde_json::Value>,
}

/// IG error codes that mean the credentials or tokens were rejected.
pub open spec fn auth_code(code: Seq<char>) -> bool {
    ||| contains_seq(code, "oauth-token-invalid"@)
    ||| contains_seq(code, "client-token-invalid"@)
    ||| contains_seq(code, "client-token-missing"@)
    ||| contains_seq(code, "security-token"@)
}

/// IG error codes that mean the rate limit was hit.
pub open spec fn rate_code(code: Seq<char>) -> bool {
    contains_seq(code, "api-rate-exceeded"@)
}

/// Whether an error is an authentication failure.
pub open spec fn is_auth_spec(e: &Error) -> bool {
    match e {
        Error::Auth(_) => true,
        Error::Api { source, .. } => auth_code(source.error_code@),
        _ => false,
    }
}

/// Whether an error reports an exceeded rate limit.
pub open spec fn is_rate_limited_spec(e: &Error) -> bool {
    match e {
        Error::RateLimited(_) => true,
        Error::Api { source, .. } => rate_code(source.error_code@),
        _ => false,
    }
}

impl Error {
    /// True for `Error::Auth`, or for `Error::Api` whose IG `errorCode`
    /// contains one of `oauth-token-invalid`, `client-token-invalid`,
    /// `client-token-missing`, `security-token`.
    pub fn is_auth(&self) -> (r: bool)
        ensures
            r == is_auth_spec(self),
    {
        match self {
            Error::Auth(_) => true,
            Error::Api { source, .. } => {
                let c = chars_of(source.error_code.as_str());
                contains_chars(&c, &chars_of("oauth-token-invalid")) || contains_chars(
                    &c,
                    &chars_of("client-token-invalid"),
                ) || contains_chars(&c, &chars_of("client-token-missing")) || contains_chars(
                    &c,
                    &chars_of("security-token"),
                )
            },
            _ => false,
        }
    }

    /// True if the error indicates the rate limit has been hit.
    pub fn is_rate_limited(&self) -> (r: bool)
        ensures
            r == is_rate_limited_spec(self),
    {
        match self {
            Error::RateLimited(_) => true,
            Error::Api { source, .. } => {
                let c = chars_of(source.error_code.as_str());
                contains_chars(&c, &chars_of("api-rate-exceeded"))
            },
            _ => false,
        }
    }
}

/// How errors are classified: every `Auth` error is an authentication
/// failure and every `RateLimited` one a rate-limit failure; an `Api`
/// error is an authentication failure exactly when its IG code contains
/// `oauth-token-invalid`, `client-token-invalid`, `client-token-missing` or
/// `security-token`, and a rate-limit failure exactly when it contains
/// `api-rate-exceeded`; no other error is either.
pub proof fn lemma_error_classification(e: Error)
    ensures
        e is Auth ==> is_auth_spec(&e),
        e is RateLimited ==> is_rate_limited_spec(&e),
        e matches Error::Api { source, .. } ==> (is_auth_spec(&e) <==> (contains_seq(
            source.error_code@,
            "oauth-token-invalid"@,
        ) || contains_seq(source.error_code@, "client-token-invalid"@) || contains_seq(
            source.error_code@,
            "client-token-missing"@,
        ) || contains_seq(source.error_code@, "security-token"@))),
        e matches Error::Api { source, .. } ==> (is_rate_limited_spec(&e) <==> contains_seq(
            source.error_code@,
            "api-rate-exceeded"@,
        )),
        !(e is Auth) && !(e is Api) ==> !is_auth_spec(&e),
        !(e is RateLimited) && !(e is Api) ==> !is_rate_limited_spec(&e),
{
}

/// A marker counts wherever it stands in the code: a code made of any
/// prefix, one of the token markers and any suffix is an authentication
/// code, and one holding `api-rate-exceeded` a rate-limit code.
pub proof fn lemma_markers_anywhere(pre: Seq<char>, post: Seq<char>)
    ensures
        auth_code(pre + "oauth-token-invalid"@ + post),
        auth_code(pre + "client-token-invalid"@ + post),
        auth_code(pre + "client-token-missing"@ + post),
        auth_code(pre + "security-token"@ + post),
        rate_code(pre + "api-rate-exceeded"@ + post),
{
    lemma_occurs_in_middle(pre, "oauth-token-invalid"@, post);
    lemma_occurs_in_middle(pre, "client-token-invalid"@, post);
    lemma_occurs_in_middle(pre, "client-token-missing"@, post);
    lemma_occurs_in_middle(pre, "security-token"@, post);
    lemma_occurs_in_middle(pre, "api-rate-exceeded"@, post);
}

proof fn lemma_occurs_in_middle(pre: Seq<char>, p: Seq<char>, post: Seq<char>)
    ensures
        contains_seq(pre + p + post, p),
{
    let s = pre + p + post;
    assert(s.subrange(pre.len() as int, (pre.len() + p.len()) as int) =~= p);
    assert(occurs_at(s, p, pre.len() as int));
}

} // verus!
