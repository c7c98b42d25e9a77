//! Token storage.  REST, streaming and refresh surfaces are independent,
//! so a v3 OAuth session can also hold CST/XST for Lightstreamer without
//! losing its refresh capability.

use std::time::{Duration, Instant};

use vstd::prelude::*;

use crate::text::{chars_of, concat_chars, string_of};

verus! {

/// How REST requests are authenticated.
#[derive(Debug, Clone)]
pub enum RestAuth {
    Cst { cst: String, x_security_token: String },
    OAuth { access_token: String, token_type: String },
}

/// The CST/XST pair that Lightstreamer accepts.
#[derive(Debug, Clone)]
pub struct StreamingAuth {
    pub cst: String,
    pub x_security_token: String,
}

/// What a v3 session needs to renew its access token.
#[derive(Debug, Clone)]
pub struct RefreshState {
    pub refresh_token: String,
    pub expires_at: Instant,
}

/// The three independent token surfaces of a session.
#[derive(Debug, Clone)]
pub struct AuthTokens {
    pub rest: Option<RestAuth>,
    pub streaming: Option<StreamingAuth>,
    pub refresh: Option<RefreshState>,
}

/// Model of a [`RestAuth`].
pub enum RestAuthModel {
    Cst { cst: Seq<char>, x_security_token: Seq<char> },
    OAuth { access_token: Seq<char>, token_type: Seq<char> },
}

/// Model of a [`StreamingAuth`].
pub struct StreamingAuthModel {
    pub cst: Seq<char>,
    pub x_security_token: Seq<char>,
}

/// Model of a [`RefreshState`]: the refresh token, and the expiry instant
/// carried as it is.
pub struct RefreshModel {
    pub refresh_token: Seq<char>,
    pub expires_at: Instant,
}

/// Model of an [`AuthTokens`].
pub struct TokensModel {
    pub rest: Option<RestAuthModel>,
    pub streaming: Option<StreamingAuthModel>,
    pub refresh: Option<RefreshModel>,
}

impl View for RestAuth {
    type V = RestAuthModel;

    open spec fn view(&self) -> RestAuthModel {
        match self {
            RestAuth::Cst { cst, x_security_token } => RestAuthModel::Cst {
                cst: cst@,
                x_security_token: x_security_token@,
            },
            RestAuth::OAuth { access_token, token_type } => RestAuthModel::OAuth {
                access_token: access_token@,
                token_type: token_type@,
            },
        }
    }
}

impl View for StreamingAuth {
    type V = StreamingAuthModel;

    open spec fn view(&self) -> StreamingAuthModel {
        StreamingAuthModel { cst: self.cst@, x_security_token: self.x_security_token@ }
    }
}

impl View for RefreshState {
    type V = RefreshModel;

    open spec fn view(&self) -> RefreshModel {
        RefreshModel { refresh_token: self.refresh_token@, expires_at: self.expires_at }
    }
}

impl View for AuthTokens {
    type V = TokensModel;

    open spec fn view(&self) -> TokensModel {
        TokensModel {
            rest: match self.rest {
                Some(r) => Some(r@),
                None => None,
            },
            streaming: match self.streaming {
                Some(s) => Some(s@),
                None => None,
            },
            refresh: match self.refresh {
                Some(r) => Some(r@),
                None => None,
            },
        }
    }
}

/// The Lightstreamer password built from a CST/XST pair.
pub open spec fn ls_password_spec(cst: Seq<char>, xst: Seq<char>) -> Seq<char> {
    "CST-"@ + cst + "|XST-"@ + xst
}

impl StreamingAuth {
    /// The Lightstreamer password: `CST-<cst>|XST-<xst>`.
    pub fn lightstreamer_password(&self) -> (r: String)
        ensures
            r@ == ls_password_spec(self@.cst, self@.x_security_token),
    {
        let a = concat_chars(&chars_of("CST-"), &chars_of(self.cst.as_str()));
        let b = concat_chars(&a, &chars_of("|XST-"));
        let c = concat_chars(&b, &chars_of(self.x_security_token.as_str()));
        string_of(&c)
    }
}

/// `Instant::now()`, read against `deadline`: the time left until it, zero
/// once it has passed, in nanoseconds.  Depends on the clock, so nothing is
/// stated of the result.
#[verifier::external_body]
fn nanos_until(deadline: &Instant) -> (r: u128) {
    deadline.saturating_duration_since(Instant::now()).as_nanos()
}

/// `Duration::as_nanos`.  `Duration` is opaque here, so nothing is stated
/// of the result.
#[verifier::external_body]
fn duration_nanos(d: &Duration) -> (r: u128) {
    d.as_nanos()
}

/// A token expiring `remaining` nanoseconds from now must be refreshed when
/// that is within the skew: `now + skew >= expires_at`.
pub fn refresh_due(remaining_nanos: u128, skew_nanos: u128) -> (r: bool)
    ensures
        r == (remaining_nanos <= skew_nanos),
{
    remaining_nanos <= skew_nanos
}

/// `Instant`'s `==`: the derived equality, which holds exactly of the same
/// instant.
#[verifier::external_body]
fn instant_eq(a: &Instant, b: &Instant) -> (r: bool)
    ensures
        r == (*a == *b),
{
    *a == *b
}

/// The expiry of the refresh state a model holds, if any.
pub open spec fn refresh_expiry(t: TokensModel) -> Option<Instant> {
    match t.refresh {
        Some(r) => Some(r.expires_at),
        None => None,
    }
}

impl AuthTokens {
    /// Whether a refresh that waited for its turn still has to be made:
    /// the refresh state's expiry (or its absence) is what it was before
    /// waiting.  Another caller that refreshed meanwhile has changed it.
    pub fn refresh_still_needed(before: &AuthTokens, after: &AuthTokens) -> (r: bool)
        ensures
            r == (refresh_expiry(before@) == refresh_expiry(after@)),
    {
        match (&before.refresh, &after.refresh) {
            (Some(a), Some(b)) => instant_eq(&a.expires_at, &b.expires_at),
            (None, None) => true,
            _ => false,
        }
    }

    /// No tokens at all.
    pub fn empty() -> (r: AuthTokens)
        ensures
            r@.rest is None,
            r@.streaming is None,
            r@.refresh is None,
    {
        AuthTokens { rest: None, streaming: None, refresh: None }
    }

    /// Whether the access token is due for a refresh, given the skew: never
    /// without refresh state; otherwise when the expiry is within the skew
    /// of the current time (see [`refresh_due`]).
    pub fn needs_refresh(&self, skew: Duration) -> (r: bool)
        ensures
            self@.refresh is None ==> !r,
    {
        match &self.refresh {
            Some(r) => refresh_due(nanos_until(&r.expires_at), duration_nanos(&skew)),
            None => false,
        }
    }

    /// Whether REST requests can be authenticated.
    pub fn has_rest_auth(&self) -> (r: bool)
        ensures
            r == self@.rest is Some,
    {
        self.rest.is_some()
    }

    /// Whether Lightstreamer credentials are held.
    pub fn has_streaming_auth(&self) -> (r: bool)
        ensures
            r == self@.streaming is Some,
    {
        self.streaming.is_some()
    }
}

impl Default for AuthTokens {
    fn default() -> (r: AuthTokens)
        ensures
            r@.rest is None,
            r@.streaming is None,
            r@.refresh is None,
    {
        AuthTokens::empty()
    }
}

/// The OAuth payload of a v3 login or refresh.
#[derive(Debug, Clone)]
pub struct OAuthPayload {
    pub access_token: String,
    pub refresh_token: String,
    pub token_type: String,
    /// IG returns `expires_in` as a string of seconds, not a number.
    pub expires_in: String,
}

/// The session state the transport reads on every request.
#[derive(Debug, Clone)]
pub struct SessionState {
    pub tokens: AuthTokens,
    pub account_id: Option<String>,
    pub client_id: Option<String>,
    pub lightstreamer_endpoint: Option<String>,
}

/// Model of a [`SessionState`].
pub struct SessionModel {
    pub tokens: TokensModel,
    pub account_id: Option<Seq<char>>,
    pub client_id: Option<Seq<char>>,
    pub lightstreamer_endpoint: Option<Seq<char>>,
}

/// The view of an optional string.
pub open spec fn opt_view(o: Option<String>) -> Option<Seq<char>> {
    match o {
        Some(s) => Some(s@),
        None => None,
    }
}

impl View for SessionState {
    type V = SessionModel;

    open spec fn view(&self) -> SessionModel {
        SessionModel {
            tokens: self.tokens@,
            account_id: opt_view(self.account_id),
            client_id: opt_view(self.client_id),
            lightstreamer_endpoint: opt_view(self.lightstreamer_endpoint),
        }
    }
}

impl SessionState {
    /// The logged-out state: no tokens, no account.
    pub fn empty() -> (r: SessionState)
        ensures
            r@.tokens.rest is None,
            r@.tokens.streaming is None,
            r@.tokens.refresh is None,
            r@.account_id is None,
            r@.client_id is None,
            r@.lightstreamer_endpoint is None,
    {
        SessionState {
            tokens: AuthTokens::empty(),
            account_id: None,
            client_id: None,
            lightstreamer_endpoint: None,
        }
    }
}

impl Default for SessionState {
    fn default() -> (r: SessionState)
        ensures
            r@.tokens.rest is None,
            r@.tokens.streaming is None,
            r@.tokens.refresh is None,
            r@.account_id is None,
            r@.client_id is None,
            r@.lightstreamer_endpoint is None,
    {
        SessionState::empty()
    }
}

} // verus!
