//! The state changes of the login, refresh, read, switch and logout flows.
//!
//! Each flow's HTTP exchange is made by the caller; the functions here say
//! what the exchange's result does to the session state.

use std::time::{Duration, Instant};

use vstd::prelude::*;

use crate::error::Error;
use crate::session::tokens::{
    opt_view, AuthTokens, OAuthPayload, RefreshModel, RefreshState, RestAuth, RestAuthModel,
    SessionModel, SessionState, StreamingAuth, StreamingAuthModel, TokensModel,
};
use crate::session::SessionInfo;
use crate::text::{chars_of, concat_chars, string_of};

verus! {

// ---------------------------------------------------------------------------
// Integer parsing of `expires_in`
// ---------------------------------------------------------------------------

pub open spec fn is_digit_char(c: char) -> bool {
    '0' <= c && c <= '9'
}

/// The value of a non-empty run of decimal digits.
pub open spec fn digits_val(s: Seq<char>) -> int
    decreases s.len(),
{
    if s.len() == 0 {
        0
    } else {
        digits_val(s.drop_last()) * 10 + (s.last() as int - '0' as int)
    }
}

/// The digits of a `u64` literal as `str::parse::<u64>` reads it: an
/// optional `+` followed by at least one decimal digit.
pub open spec fn u64_digits(s: Seq<char>) -> Option<Seq<char>> {
    let d = if s.len() > 0 && s[0] == '+' {
        s.drop_first()
    } else {
        s
    };
    if d.len() > 0 && forall|i: int| 0 <= i < d.len() ==> is_digit_char(#[trigger] d[i]) {
        Some(d)
    } else {
        None
    }
}

/// What `str::parse::<u64>` accepts: an optional `+`, then digits whose
/// value fits in 64 bits.
pub open spec fn u64_parse_spec(s: Seq<char>) -> Option<u64> {
    match u64_digits(s) {
        Some(d) => if digits_val(d) <= u64::MAX {
            Some(digits_val(d) as u64)
        } else {
            None
        },
        None => None,
    }
}

/// `str::parse::<u64>`: as its documentation says, an optional `+` sign
/// followed by digits is accepted when the value fits, and anything else
/// (whitespace included) is an error.  The error's text is the standard
/// library's message; nothing is stated of it.
#[verifier::external_body]
fn parse_u64(s: &str) -> (r: Result<u64, String>)
    ensures
        match u64_parse_spec(s@) {
            Some(v) => r == Ok::<u64, String>(v),
            None => r is Err,
        },
{
    s.parse::<u64>().map_err(|e| e.to_string())
}

/// `Instant::now()`: depends on the clock, so nothing is stated of it.
#[verifier::external_body]
fn instant_now() -> (r: Instant) {
    Instant::now()
}

/// A span of whole seconds (a `Duration`), with the count it was made from.
pub struct SecondsSpan {
    span: Duration,
    secs: Ghost<u64>,
}

impl SecondsSpan {
    /// The number of seconds the span was made from.
    pub closed spec fn secs(&self) -> u64 {
        self.secs@
    }
}

/// An instant reached by moving a start instant later by a span of whole
/// seconds, with the start and the count it was reached from.
pub struct LaterInstant {
    at: Instant,
    start: Ghost<Instant>,
    secs: Ghost<u64>,
}

impl LaterInstant {
    /// The instant reached.
    pub closed spec fn instant(&self) -> Instant {
        self.at
    }

    /// The instant it was reached from.
    pub closed spec fn start(&self) -> Instant {
        self.start@
    }

    /// How many seconds after `start` it lies.
    pub closed spec fn secs(&self) -> u64 {
        self.secs@
    }
}

/// `Duration::from_secs`: a span of `secs` seconds.  `Duration` is opaque
/// here; the span records the count it was made from.
#[verifier::external_body]
fn duration_from_secs(secs: u64) -> (r: SecondsSpan)
    ensures
        r.secs() == secs,
{
    SecondsSpan { span: Duration::from_secs(secs), secs: Ghost(secs) }
}

/// `Instant::checked_add`: the instant `d` later than `at`, or `None` where
/// it cannot be represented.  `Instant` is opaque here; a result records
/// the instant and the span it was reached from.  When the addition
/// fails is not stated.
#[verifier::external_body]
fn instant_checked_add(at: &Instant, d: &SecondsSpan) -> (r: Option<LaterInstant>)
    ensures
        r matches Some(l) ==> l.start() == *at && l.secs() == d.secs(),
{
    match at.checked_add(d.span) {
        Some(t) => Some(LaterInstant { at: t, start: Ghost(*at), secs: Ghost(d.secs@) }),
        None => None,
    }
}

/// The instant a later-instant stands for.
fn later_instant(l: LaterInstant) -> (r: Instant)
    ensures
        r == l.instant(),
{
    l.at
}

/// The expiry of a token that lives `expires_in` seconds from now: the
/// clock's instant moved later by exactly that many seconds.  An
/// `expires_in` that is not a `u64` gives [`Error::Auth`] with a message
/// that starts with `prefix`.
fn expiry_from(expires_in: &str, prefix: &str) -> (r: Result<LaterInstant, Error>)
    ensures
        u64_parse_spec(expires_in@) is None ==> (r matches Err(e) && e is Auth),
        r matches Err(e) ==> e is Auth,
        r matches Ok(l) ==> u64_parse_spec(expires_in@) == Some(l.secs()),
{
    match parse_u64(expires_in) {
        Ok(secs) => match instant_checked_add(&instant_now(), &duration_from_secs(secs)) {
            Some(at) => Ok(at),
            None => {
                let m = concat_chars(&chars_of(prefix), &chars_of("out of range"));
                Err(Error::Auth(string_of(&m)))
            },
        },
        Err(text) => {
            let m = concat_chars(&chars_of(prefix), &chars_of(text.as_str()));
            Err(Error::Auth(string_of(&m)))
        },
    }
}

// ---------------------------------------------------------------------------
// State transitions
// ---------------------------------------------------------------------------

/// The session after a v2 login: CST/XST serve both REST and streaming,
/// there is nothing to refresh, and the account comes from the response.
pub open spec fn login_v2_spec(
    cst: Seq<char>,
    xst: Seq<char>,
    account_id: Seq<char>,
    client_id: Seq<char>,
    endpoint: Seq<char>,
) -> SessionModel {
    SessionModel {
        tokens: TokensModel {
            rest: Some(RestAuthModel::Cst { cst, x_security_token: xst }),
            streaming: Some(StreamingAuthModel { cst, x_security_token: xst }),
            refresh: None,
        },
        account_id: Some(account_id),
        client_id: Some(client_id),
        lightstreamer_endpoint: Some(endpoint),
    }
}

/// The session after a v3 login: an OAuth bearer for REST, the refresh
/// token with its expiry, no streaming credentials yet.
pub open spec fn login_v3_spec(
    access_token: Seq<char>,
    token_type: Seq<char>,
    refresh_token: Seq<char>,
    expires_at: Instant,
    account_id: Seq<char>,
    client_id: Seq<char>,
    endpoint: Seq<char>,
) -> SessionModel {
    SessionModel {
        tokens: TokensModel {
            rest: Some(RestAuthModel::OAuth { access_token, token_type }),
            streaming: None,
            refresh: Some(RefreshModel { refresh_token, expires_at }),
        },
        account_id: Some(account_id),
        client_id: Some(client_id),
        lightstreamer_endpoint: Some(endpoint),
    }
}

/// The session after a token refresh: a new bearer and refresh state; the
/// streaming credentials and the account stay.
pub open spec fn refreshed_spec(
    s: SessionModel,
    access_token: Seq<char>,
    token_type: Seq<char>,
    refresh_token: Seq<char>,
    expires_at: Instant,
) -> SessionModel {
    SessionModel {
        tokens: TokensModel {
            rest: Some(RestAuthModel::OAuth { access_token, token_type }),
            streaming: s.tokens.streaming,
            refresh: Some(RefreshModel { refresh_token, expires_at }),
        },
        ..s
    }
}

/// The session after a read that fetched CST/XST: the pair becomes the
/// streaming credentials; REST auth and refresh state stay.
pub open spec fn with_streaming_spec(s: SessionModel, cst: Seq<char>, xst: Seq<char>) -> SessionModel {
    SessionModel {
        tokens: TokensModel {
            streaming: Some(StreamingAuthModel { cst, x_security_token: xst }),
            ..s.tokens
        },
        ..s
    }
}

/// The session after switching account.
pub open spec fn switched_spec(s: SessionModel, account_id: Seq<char>) -> SessionModel {
    SessionModel { account_id: Some(account_id), ..s }
}

/// Copy of a string with the same view.
fn copy_string(s: &String) -> (r: String)
    ensures
        r@ == s@,
{
    string_of(&chars_of(s.as_str()))
}

/// The session state after a v2 login whose response carried the given
/// `CST` and `X-SECURITY-TOKEN` headers.  A missing header gives
/// [`Error::Auth`].
pub fn login_v2_state(cst: Option<String>, xst: Option<String>, info: &SessionInfo) -> (r: Result<
    SessionState,
    Error,
>)
    ensures
        cst is None ==> (r matches Err(e) && e matches Error::Auth(m) && m@
            == "missing CST header in login response"@),
        cst is Some && xst is None ==> (r matches Err(e) && e matches Error::Auth(m) && m@
            == "missing X-SECURITY-TOKEN header"@),
        cst is Some && xst is Some ==> (r matches Ok(s) && s@ == login_v2_spec(
            cst->0@,
            xst->0@,
            info.account_id@,
            info.client_id@,
            info.lightstreamer_endpoint@,
        )),
{
    let cst = match cst {
        Some(c) => c,
        None => {
            return Err(Error::Auth(string_of(&chars_of("missing CST header in login response"))));
        },
    };
    let xst = match xst {
        Some(x) => x,
        None => {
            return Err(Error::Auth(string_of(&chars_of("missing X-SECURITY-TOKEN header"))));
        },
    };
    let tokens = AuthTokens {
        rest: Some(RestAuth::Cst { cst: copy_string(&cst), x_security_token: copy_string(&xst) }),
        streaming: Some(StreamingAuth { cst, x_security_token: xst }),
        refresh: None,
    };
    Ok(
        SessionState {
            tokens,
            account_id: Some(copy_string(&info.account_id)),
            client_id: Some(copy_string(&info.client_id)),
            lightstreamer_endpoint: Some(copy_string(&info.lightstreamer_endpoint)),
        },
    )
}

/// The session state after a v3 login whose token expires at `expires_at`.
pub fn login_v3_state_at(payload: &OAuthPayload, info: &SessionInfo, expires_at: Instant) -> (r:
    SessionState)
    ensures
        r@ == login_v3_spec(
            payload.access_token@,
            payload.token_type@,
            payload.refresh_token@,
            expires_at,
            info.account_id@,
            info.client_id@,
            info.lightstreamer_endpoint@,
        ),
{
    SessionState {
        tokens: AuthTokens {
            rest: Some(
                RestAuth::OAuth {
                    access_token: copy_string(&payload.access_token),
                    token_type: copy_string(&payload.token_type),
                },
            ),
            streaming: None,
            refresh: Some(
                RefreshState { refresh_token: copy_string(&payload.refresh_token), expires_at },
            ),
        },
        account_id: Some(copy_string(&info.account_id)),
        client_id: Some(copy_string(&info.client_id)),
        lightstreamer_endpoint: Some(copy_string(&info.lightstreamer_endpoint)),
    }
}

/// The session state after a v3 login: the token expires `expires_in`
/// seconds from now.  An `expires_in` that is not a `u64` gives
/// [`Error::Auth`].
pub fn login_v3_state(payload: &OAuthPayload, info: &SessionInfo) -> (r: Result<
    SessionState,
    Error,
>)
    ensures
        u64_parse_spec(payload.expires_in@) is None ==> (r matches Err(e) && e is Auth),
        r matches Err(e) ==> e is Auth,
        r matches Ok(s) ==> exists|l: LaterInstant|
            #![trigger l.instant()]
            u64_parse_spec(payload.expires_in@) == Some(l.secs()) && s@ == login_v3_spec(
                payload.access_token@,
                payload.token_type@,
                payload.refresh_token@,
                l.instant(),
                info.account_id@,
                info.client_id@,
                info.lightstreamer_endpoint@,
            ),
{
    let a = concat_chars(&chars_of("invalid expires_in '"), &chars_of(payload.expires_in.as_str()));
    let prefix = string_of(&concat_chars(&a, &chars_of("': ")));
    match expiry_from(payload.expires_in.as_str(), prefix.as_str()) {
        Ok(l) => {
            Ok(login_v3_state_at(payload, info, later_instant(l)))
        },
        Err(e) => Err(e),
    }
}

impl SessionState {
    /// The refresh token of the session; without one, [`Error::Auth`].
    pub fn refresh_token(&self) -> (r: Result<String, Error>)
        ensures
            match self@.tokens.refresh {
                Some(rs) => r matches Ok(t) && t@ == rs.refresh_token,
                None => r matches Err(e) && e matches Error::Auth(m) && m@
                    == "no refresh token available"@,
            },
    {
        match &self.tokens.refresh {
            Some(rs) => Ok(copy_string(&rs.refresh_token)),
            None => Err(Error::Auth(string_of(&chars_of("no refresh token available")))),
        }
    }

    /// Apply a refreshed token that expires at `expires_at`.
    pub fn apply_refresh_at(&mut self, payload: &OAuthPayload, expires_at: Instant)
        ensures
            final(self)@ == refreshed_spec(
                old(self)@,
                payload.access_token@,
                payload.token_type@,
                payload.refresh_token@,
                expires_at,
            ),
    {
        self.tokens.rest = Some(
            RestAuth::OAuth {
                access_token: copy_string(&payload.access_token),
                token_type: copy_string(&payload.token_type),
            },
        );
        self.tokens.refresh = Some(
            RefreshState { refresh_token: copy_string(&payload.refresh_token), expires_at },
        );
    }

    /// Apply a refreshed token that expires `expires_in` seconds from now.
    /// An `expires_in` that is not a `u64` gives [`Error::Auth`] and leaves
    /// the state as it was.
    pub fn apply_refresh(&mut self, payload: &OAuthPayload) -> (r: Result<(), Error>)
        ensures
            u64_parse_spec(payload.expires_in@) is None ==> (r matches Err(e) && e is Auth),
            r matches Err(e) ==> e is Auth && final(self)@ == old(self)@,
            r is Ok ==> exists|l: LaterInstant|
                #![trigger l.instant()]
                u64_parse_spec(payload.expires_in@) == Some(l.secs()) && final(self)@
                    == refreshed_spec(
                    old(self)@,
                    payload.access_token@,
                    payload.token_type@,
                    payload.refresh_token@,
                    l.instant(),
                ),
    {
        match expiry_from(payload.expires_in.as_str(), "invalid expires_in: ") {
            Ok(l) => {
                self.apply_refresh_at(payload, later_instant(l));
                Ok(())
            },
            Err(e) => Err(e),
        }
    }

    /// Record the CST/XST pair returned by a session read: when both headers
    /// came back they become the streaming credentials; otherwise nothing
    /// changes.
    pub fn apply_read_tokens(&mut self, cst: Option<String>, xst: Option<String>)
        ensures
            match (cst, xst) {
                (Some(c), Some(x)) => final(self)@ == with_streaming_spec(old(self)@, c@, x@),
                _ => final(self)@ == old(self)@,
            },
    {
        match (cst, xst) {
            (Some(c), Some(x)) => {
                self.tokens.streaming = Some(StreamingAuth { cst: c, x_security_token: x });
            },
            _ => {},
        }
    }

    /// Bind the session to another account.
    pub fn switch_account(&mut self, account_id: &str)
        ensures
            final(self)@ == switched_spec(old(self)@, account_id@),
    {
        self.account_id = Some(string_of(&chars_of(account_id)));
    }

    /// Forget everything: the state after logout.
    pub fn clear(&mut self)
        ensures
            final(self)@.tokens.rest is None,
            final(self)@.tokens.streaming is None,
            final(self)@.tokens.refresh is None,
            final(self)@.account_id is None,
            final(self)@.client_id is None,
            final(self)@.lightstreamer_endpoint is None,
    {
        *self = SessionState::empty();
    }

    /// The state itself when REST requests can be authenticated; otherwise
    /// [`Error::Auth`].
    pub fn require_authenticated(&self) -> (r: Result<(), Error>)
        ensures
            r is Ok <==> self@.tokens.rest is Some,
            r matches Err(e) ==> e matches Error::Auth(m) && m@
                == "no active session — call session().login() first"@,
    {
        if self.tokens.has_rest_auth() {
            Ok(())
        } else {
            Err(Error::Auth(string_of(&chars_of("no active session — call session().login() first"))))
        }
    }
}

/// The path of `GET /session`, asking for CST/XST headers when
/// `fetch_tokens` is set.
pub fn session_read_path(fetch_tokens: bool) -> (r: &'static str)
    ensures
        fetch_tokens ==> r@ == "session?fetchSessionTokens=true"@,
        !fetch_tokens ==> r@ == "session"@,
{
    if fetch_tokens {
        "session?fetchSessionTokens=true"
    } else {
        "session"
    }
}

/// Which login renews a session: `"v3"` when it holds refresh state (a
/// v2 login there would drop the bearer and the refresh token), else
/// `"v2"`.
pub fn session_kind(tokens: &AuthTokens) -> (r: &'static str)
    ensures
        tokens@.refresh is Some ==> r@ == "v3"@,
        tokens@.refresh is None ==> r@ == "v2"@,
{
    if tokens.refresh.is_some() {
        "v3"
    } else {
        "v2"
    }
}

// ---------------------------------------------------------------------------
// Laws of the token surfaces
// ---------------------------------------------------------------------------

/// The three token surfaces are independent: fetching streaming
/// credentials keeps the REST auth and the refresh state, and a refresh
/// keeps the streaming credentials.
pub proof fn lemma_surfaces_independent(
    s: SessionModel,
    cst: Seq<char>,
    xst: Seq<char>,
    access_token: Seq<char>,
    token_type: Seq<char>,
    refresh_token: Seq<char>,
    at: Instant,
)
    ensures
        with_streaming_spec(s, cst, xst).tokens.rest == s.tokens.rest,
        with_streaming_spec(s, cst, xst).tokens.refresh == s.tokens.refresh,
        refreshed_spec(s, access_token, token_type, refresh_token, at).tokens.streaming
            == s.tokens.streaming,
        refreshed_spec(
            with_streaming_spec(s, cst, xst),
            access_token,
            token_type,
            refresh_token,
            at,
        ).tokens.streaming == Some(StreamingAuthModel { cst, x_security_token: xst }),
{
}

/// A v3 session that fetches CST/XST holds all three surfaces at once: an
/// OAuth bearer for REST, Lightstreamer credentials, and its refresh state.
pub proof fn lemma_v3_session_can_stream(
    access_token: Seq<char>,
    token_type: Seq<char>,
    refresh_token: Seq<char>,
    at: Instant,
    account_id: Seq<char>,
    client_id: Seq<char>,
    endpoint: Seq<char>,
    cst: Seq<char>,
    xst: Seq<char>,
)
    ensures
        ({
            let s = with_streaming_spec(
                login_v3_spec(
                    access_token,
                    token_type,
                    refresh_token,
                    at,
                    account_id,
                    client_id,
                    endpoint,
                ),
                cst,
                xst,
            );
            &&& s.tokens.rest == Some(RestAuthModel::OAuth { access_token, token_type })
            &&& s.tokens.streaming == Some(StreamingAuthModel { cst, x_security_token: xst })
            &&& s.tokens.refresh == Some(RefreshModel { refresh_token, expires_at: at })
        }),
{
}

/// Switching account changes the account and nothing else.
pub proof fn lemma_switch_keeps_tokens(s: SessionModel, account_id: Seq<char>)
    ensures
        switched_spec(s, account_id).tokens == s.tokens,
        switched_spec(s, account_id).account_id == Some(account_id),
        switched_spec(s, account_id).lightstreamer_endpoint == s.lightstreamer_endpoint,
{
}

} // verus!
