//! The decisions of the HTTP transport: which headers every request
//! carries, how the session authenticates it, how a body-carrying DELETE
//! travels, and when a 401 is worth a token refresh and a retry.

use vstd::prelude::*;

use crate::error::Error;
use crate::session::tokens::{AuthTokens, RestAuth, RestAuthModel, SessionModel, SessionState};
use crate::text::{chars_of, concat_chars, decimal, fmt_u64, string_of};

verus! {

/// HTTP methods the client uses.
#[derive(Debug, Clone, Copy, PartialEq, Eq, Structural)]
pub enum HttpMethod {
    Get,
    Post,
    Put,
    Delete,
}

/// Headers, by view.
pub open spec fn headers_model(h: Seq<(&'static str, String)>) -> Seq<(Seq<char>, Seq<char>)> {
    h.map_values(|p: (&'static str, String)| (p.0@, p.1@))
}

/// The headers of every request: the API key, JSON `Accept`, and the API
/// version when one is given.
pub open spec fn base_headers_spec(api_key: Seq<char>, version: Option<u8>) -> Seq<
    (Seq<char>, Seq<char>),
> {
    seq![("X-IG-API-KEY"@, api_key), ("Accept"@, "application/json; charset=UTF-8"@)] + match version {
        Some(v) => seq![("Version"@, decimal(v as nat))],
        None => seq![],
    }
}

fn push_header(h: &mut Vec<(&'static str, String)>, k: &'static str, v: String)
    ensures
        headers_model(final(h)@) == headers_model(old(h)@).push((k@, v@)),
{
    let ghost before = h@;
    h.push((k, v));
    assert(headers_model(h@) =~= headers_model(before).push((k@, v@)));
}

/// The headers of every request.
pub fn base_headers(api_key: &str, version: Option<u8>) -> (r: Vec<(&'static str, String)>)
    ensures
        headers_model(r@) == base_headers_spec(api_key@, version),
{
    let mut h: Vec<(&'static str, String)> = Vec::new();
    assert(headers_model(h@) =~= Seq::<(Seq<char>, Seq<char>)>::empty());
    push_header(&mut h, "X-IG-API-KEY", string_of(&chars_of(api_key)));
    push_header(&mut h, "Accept", string_of(&chars_of("application/json; charset=UTF-8")));
    if let Some(v) = version {
        push_header(&mut h, "Version", string_of(&fmt_u64(v as u64)));
    }
    assert(headers_model(h@) =~= base_headers_spec(api_key@, version));
    h
}

/// The authentication headers of a session: CST and X-SECURITY-TOKEN for
/// a CST session; for an OAuth session the bearer and, when an account is
/// bound, `IG-ACCOUNT-ID`.  Without REST auth, an error message.
pub open spec fn auth_headers_spec(s: SessionModel) -> Result<
    Seq<(Seq<char>, Seq<char>)>,
    Seq<char>,
> {
    match s.tokens.rest {
        None => Err("no active session — call login() first"@),
        Some(RestAuthModel::Cst { cst, x_security_token }) => Ok(
            seq![("CST"@, cst), ("X-SECURITY-TOKEN"@, x_security_token)],
        ),
        Some(RestAuthModel::OAuth { access_token, token_type }) => Ok(
            seq![("Authorization"@, token_type + " "@ + access_token)] + match s.account_id {
                Some(a) => seq![("IG-ACCOUNT-ID"@, a)],
                None => seq![],
            },
        ),
    }
}

/// The authentication headers of an authenticated request; without REST
/// auth, [`Error::Auth`].
pub fn auth_headers(state: &SessionState) -> (r: Result<Vec<(&'static str, String)>, Error>)
    ensures
        match auth_headers_spec(state@) {
            Ok(h) => r matches Ok(v) && headers_model(v@) == h,
            Err(m) => r matches Err(e) && e matches Error::Auth(t) && t@ == m,
        },
{
    let mut h: Vec<(&'static str, String)> = Vec::new();
    assert(headers_model(h@) =~= Seq::<(Seq<char>, Seq<char>)>::empty());
    match &state.tokens.rest {
        None => {
            return Err(Error::Auth(string_of(&chars_of("no active session — call login() first"))));
        },
        Some(RestAuth::Cst { cst, x_security_token }) => {
            push_header(&mut h, "CST", string_of(&chars_of(cst.as_str())));
            push_header(
                &mut h,
                "X-SECURITY-TOKEN",
                string_of(&chars_of(x_security_token.as_str())),
            );
        },
        Some(RestAuth::OAuth { access_token, token_type }) => {
            let a = concat_chars(&chars_of(token_type.as_str()), &chars_of(" "));
            push_header(
                &mut h,
                "Authorization",
                string_of(&concat_chars(&a, &chars_of(access_token.as_str()))),
            );
            if let Some(account) = &state.account_id {
                push_header(&mut h, "IG-ACCOUNT-ID", string_of(&chars_of(account.as_str())));
            }
        },
    }
    assert(headers_model(h@) =~= auth_headers_spec(state@)->Ok_0);
    Ok(h)
}

/// How a request travels: IG drops the body of a real DELETE, so a
/// DELETE with a body goes as a POST carrying `_method: DELETE`.
pub fn effective_method(method: HttpMethod, has_body: bool) -> (r: (HttpMethod, Option<
    &'static str,
>))
    ensures
        method == HttpMethod::Delete && has_body ==> r.0 == HttpMethod::Post && (r.1 matches Some(
            m,
        ) && m@ == "DELETE"@),
        !(method == HttpMethod::Delete && has_body) ==> r.0 == method && r.1 is None,
{
    match method {
        HttpMethod::Delete => {
            if has_body {
                (HttpMethod::Post, Some("DELETE"))
            } else {
                (method, None)
            }
        },
        _ => (method, None),
    }
}

/// A 401 is retried, after a forced token refresh, only when the session
/// can refresh.
pub fn retry_after_status(status: u16, can_refresh: bool) -> (r: bool)
    ensures
        r == (status == 401 && can_refresh),
{
    status == 401 && can_refresh
}

/// Whether a failed authenticated request is retried after a forced
/// refresh: only an API error, with status 401 (see
/// [`retry_after_status`]), on a session that holds refresh state.
pub fn should_retry_unauthorized(err: &Error, tokens: &AuthTokens) -> (r: bool)
    ensures
        r == (err matches Error::Api { status, .. } && status == 401 && tokens@.refresh is Some),
{
    match err {
        Error::Api { status, .. } => retry_after_status(*status, tokens.refresh.is_some()),
        _ => false,
    }
}

/// The error code given to an error body that is not IG's JSON payload:
/// `http-<status>`.
pub fn fallback_error_code(status: u16) -> (r: String)
    ensures
        r@ == "http-"@ + decimal(status as nat),
{
    string_of(&concat_chars(&chars_of("http-"), &fmt_u64(status as u64)))
}

/// What building a client requires: an environment and an API key, checked
/// in that order; a missing one gives [`Error::Config`].
pub fn check_builder(has_environment: bool, has_api_key: bool) -> (r: Result<(), Error>)
    ensures
        !has_environment ==> (r matches Err(e) && e matches Error::Config(m) && m@
            == "environment is required"@),
        has_environment && !has_api_key ==> (r matches Err(e) && e matches Error::Config(m) && m@
            == "api_key is required"@),
        has_environment && has_api_key ==> r is Ok,
{
    if !has_environment {
        return Err(Error::Config(string_of(&chars_of("environment is required"))));
    }
    if !has_api_key {
        return Err(Error::Config(string_of(&chars_of("api_key is required"))));
    }
    Ok(())
}

} // verus!
