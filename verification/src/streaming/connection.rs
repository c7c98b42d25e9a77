//! Lightstreamer session management: the decisions of `create_session`,
//! `bind_session`, `control` (subscribe / unsubscribe) and the read loop.
//!
//! The HTTP exchanges themselves are performed by the caller; this module
//! decides what to send, how to read what comes back, and what to do next.

use vstd::prelude::*;

use crate::error::Error;
use crate::streaming::protocol::{
    ok_block_spec, pairs_model, parse_ok_block, utf8_lossy, utf8_lossy_string, Frame, FrameModel,
};
use crate::session::tokens::{ls_password_spec, RestAuth, RestAuthModel, SessionModel, SessionState};
use crate::streaming::protocol::{merge_spec, state_model};
use crate::streaming::subscription::{EntryModel, Registry};
use crate::text::{
    chars_of, concat_chars, eq_chars, find_char_from, first_index, first_token,
    first_token_chars, fmt_u64, decimal, join, join_strings, push_all, starts_with,
    starts_with_chars, strings_model, string_of, strip_trailing, strip_trailing_chars, sub_chars,
    trim, trim_chars, trim_start, trim_start_chars,
};

verus! {

// ---------------------------------------------------------------------------
// control.txt body classification
// ---------------------------------------------------------------------------

/// Lightstreamer answers `200 OK` even for a rejected control request: the
/// body is rejected when its first whitespace token is `ERROR` or it starts
/// (after leading whitespace) with `SYNC ERROR`.
pub open spec fn control_body_rejected(body: Seq<char>) -> bool {
    first_token(body) == "ERROR"@ || starts_with(trim_start(body), "SYNC ERROR"@)
}

/// Classify a `control.txt` response body.
///
/// A rejected body gives [`Error::Streaming`] (not [`Error::Auth`]), so the
/// caller stays unsubscribed and retries rather than refreshing tokens.
pub fn classify_control_body(body: &str) -> (r: Result<(), Error>)
    ensures
        r is Err <==> control_body_rejected(body@),
        r matches Err(e) ==> e matches Error::Streaming(m) && m@
            == "Lightstreamer control returned ERROR: "@ + trim(body@),
{
    let b = chars_of(body);
    let token = first_token_chars(&b);
    let rest = trim_start_chars(&b);
    if eq_chars(&token, &chars_of("ERROR")) || starts_with_chars(&rest, &chars_of("SYNC ERROR")) {
        let msg = concat_chars(&chars_of("Lightstreamer control returned ERROR: "), &trim_chars(&b));
        return Err(Error::Streaming(string_of(&msg)));
    }
    Ok(())
}

// ---------------------------------------------------------------------------
// Session addressing and request forms
// ---------------------------------------------------------------------------

/// The client identifier sent on session creation.
pub open spec fn client_id_lit() -> Seq<char> {
    "mgQkwtwdysogQz2BJ4Ji kOj2Bg"@
}

/// Where and as whom a Lightstreamer session lives.
#[derive(Debug, Clone)]
pub struct LsSession {
    /// The Lightstreamer endpoint (scheme and host).
    pub endpoint: String,
    /// Lightstreamer username (the IG account id), kept for re-creation.
    pub username: String,
    /// Lightstreamer password (`CST-…|XST-…`), kept for re-creation.
    pub password: String,
    /// The current session id.
    pub session_id: String,
    /// The `ControlAddress` the server announced, if any.
    pub control_address: Option<String>,
}

/// Model of a [`LsSession`].
pub struct LsSessionModel {
    pub endpoint: Seq<char>,
    pub username: Seq<char>,
    pub password: Seq<char>,
    pub session_id: Seq<char>,
    pub control_address: Option<Seq<char>>,
}

impl View for LsSession {
    type V = LsSessionModel;

    open spec fn view(&self) -> LsSessionModel {
        LsSessionModel {
            endpoint: self.endpoint@,
            username: self.username@,
            password: self.password@,
            session_id: self.session_id@,
            control_address: match self.control_address {
                Some(a) => Some(a@),
                None => None,
            },
        }
    }
}

/// Base URL for `control.txt`: the announced control address, given an
/// `https://` scheme when it has none, or else the endpoint.
pub open spec fn control_base_spec(endpoint: Seq<char>, control_address: Option<Seq<char>>) -> Seq<
    char,
> {
    match control_address {
        None => endpoint,
        Some(a) => if starts_with(a, "http://"@) || starts_with(a, "https://"@) {
            a
        } else {
            "https://"@ + a
        },
    }
}

/// A form of `(name, value)` pairs, by view.
pub open spec fn form_model(f: Seq<(&'static str, String)>) -> Seq<(Seq<char>, Seq<char>)> {
    f.map_values(|p: (&'static str, String)| (p.0@, p.1@))
}

/// The `create_session.txt` form for the given credentials.
pub open spec fn create_form_spec(username: Seq<char>, password: Seq<char>) -> Seq<
    (Seq<char>, Seq<char>),
> {
    seq![
        ("LS_op2"@, "create"@),
        ("LS_cid"@, client_id_lit()),
        ("LS_adapter_set"@, "DEFAULT"@),
        ("LS_user"@, username),
        ("LS_password"@, password),
        ("LS_polling"@, "false"@),
    ]
}

/// The `bind_session.txt` form for a session.
pub open spec fn bind_form_spec(session_id: Seq<char>) -> Seq<(Seq<char>, Seq<char>)> {
    seq![("LS_session"@, session_id), ("LS_polling"@, "false"@)]
}

/// The value a form gives a parameter: that of its first entry with the
/// name, if any.
pub open spec fn form_value(f: Seq<(Seq<char>, Seq<char>)>, name: Seq<char>) -> Option<Seq<char>>
    decreases f.len(),
{
    if f.len() == 0 {
        None
    } else if f[0].0 == name {
        Some(f[0].1)
    } else {
        form_value(f.drop_first(), name)
    }
}

/// Both session requests ask for a streaming session, never a polling one:
/// `LS_polling` is `false` in the create and in the bind form.  Creating
/// sends operation `create`, the fixed client id, the `DEFAULT` adapter set
/// and the given user and password; binding sends the session id.
pub proof fn lemma_session_forms(user: Seq<char>, password: Seq<char>, session_id: Seq<char>)
    ensures
        form_value(create_form_spec(user, password), "LS_polling"@) == Some("false"@),
        form_value(bind_form_spec(session_id), "LS_polling"@) == Some("false"@),
        form_value(create_form_spec(user, password), "LS_op2"@) == Some("create"@),
        form_value(create_form_spec(user, password), "LS_cid"@) == Some(
            "mgQkwtwdysogQz2BJ4Ji kOj2Bg"@,
        ),
        form_value(create_form_spec(user, password), "LS_adapter_set"@) == Some("DEFAULT"@),
        form_value(create_form_spec(user, password), "LS_user"@) == Some(user),
        form_value(create_form_spec(user, password), "LS_password"@) == Some(password),
        form_value(bind_form_spec(session_id), "LS_session"@) == Some(session_id),
{
    reveal_strlit("LS_op2");
    reveal_strlit("LS_cid");
    reveal_strlit("LS_adapter_set");
    reveal_strlit("LS_user");
    reveal_strlit("LS_password");
    reveal_strlit("LS_polling");
    reveal_strlit("LS_session");
    reveal_strlit("mgQkwtwdysogQz2BJ4Ji kOj2Bg");
    reveal_with_fuel(form_value, 7);
    assert("LS_op2"@ != "LS_polling"@ && "LS_op2"@ != "LS_cid"@ && "LS_op2"@ != "LS_adapter_set"@
        && "LS_op2"@ != "LS_user"@ && "LS_op2"@ != "LS_password"@) by {
        assert("LS_op2"@[3] != "LS_polling"@[3]);
        assert("LS_op2"@[3] != "LS_cid"@[3]);
        assert("LS_op2"@.len() != "LS_adapter_set"@.len());
        assert("LS_op2"@.len() != "LS_user"@.len());
        assert("LS_op2"@.len() != "LS_password"@.len());
    }
    assert("LS_cid"@ != "LS_polling"@ && "LS_cid"@ != "LS_adapter_set"@ && "LS_cid"@ != "LS_user"@
        && "LS_cid"@ != "LS_password"@) by {
        assert("LS_cid"@.len() != "LS_polling"@.len());
        assert("LS_cid"@.len() != "LS_adapter_set"@.len());
        assert("LS_cid"@.len() != "LS_user"@.len());
        assert("LS_cid"@.len() != "LS_password"@.len());
    }
    assert("LS_adapter_set"@ != "LS_polling"@ && "LS_adapter_set"@ != "LS_user"@
        && "LS_adapter_set"@ != "LS_password"@) by {
        assert("LS_adapter_set"@.len() != "LS_polling"@.len());
        assert("LS_adapter_set"@.len() != "LS_user"@.len());
        assert("LS_adapter_set"@.len() != "LS_password"@.len());
    }
    assert("LS_user"@ != "LS_polling"@ && "LS_user"@ != "LS_password"@) by {
        assert("LS_user"@.len() != "LS_polling"@.len());
        assert("LS_user"@.len() != "LS_password"@.len());
    }
    assert("LS_password"@ != "LS_polling"@) by {
        assert("LS_password"@[4] != "LS_polling"@[4]);
    }
    assert("LS_session"@ != "LS_polling"@) by {
        assert("LS_session"@[3] != "LS_polling"@[3]);
    }
}

/// `endpoint` followed by the given path.
fn endpoint_url(endpoint: &str, path: &str) -> (r: String)
    ensures
        r@ == endpoint@ + path@,
{
    string_of(&concat_chars(&chars_of(endpoint), &chars_of(path)))
}

/// The `create_session.txt` URL of an endpoint.
pub fn create_session_url(endpoint: &str) -> (r: String)
    ensures
        r@ == endpoint@ + "/lightstreamer/create_session.txt"@,
{
    endpoint_url(endpoint, "/lightstreamer/create_session.txt")
}

/// The `create_session.txt` form for the given credentials.
pub fn create_session_form(username: &str, password: &str) -> (r: Vec<(&'static str, String)>)
    ensures
        form_model(r@) == create_form_spec(username@, password@),
{
    let mut f: Vec<(&'static str, String)> = Vec::new();
    f.push(("LS_op2", string_of(&chars_of("create"))));
    f.push(("LS_cid", string_of(&chars_of("mgQkwtwdysogQz2BJ4Ji kOj2Bg"))));
    f.push(("LS_adapter_set", string_of(&chars_of("DEFAULT"))));
    f.push(("LS_user", string_of(&chars_of(username))));
    f.push(("LS_password", string_of(&chars_of(password))));
    f.push(("LS_polling", string_of(&chars_of("false"))));
    assert(form_model(f@) =~= create_form_spec(username@, password@));
    f
}

impl LsSession {
    /// The base URL for `control.txt` calls.
    pub fn control_base_url(&self) -> (r: String)
        ensures
            r@ == control_base_spec(self@.endpoint, self@.control_address),
    {
        match &self.control_address {
            None => string_of(&chars_of(self.endpoint.as_str())),
            Some(addr) => {
                let a = chars_of(addr.as_str());
                if starts_with_chars(&a, &chars_of("http://")) || starts_with_chars(
                    &a,
                    &chars_of("https://"),
                ) {
                    string_of(&a)
                } else {
                    string_of(&concat_chars(&chars_of("https://"), &a))
                }
            },
        }
    }

    /// The full `control.txt` URL.
    pub fn control_url(&self) -> (r: String)
        ensures
            r@ == control_base_spec(self@.endpoint, self@.control_address)
                + "/lightstreamer/control.txt"@,
    {
        let base = self.control_base_url();
        endpoint_url(base.as_str(), "/lightstreamer/control.txt")
    }

    /// The `bind_session.txt` URL.
    pub fn bind_session_url(&self) -> (r: String)
        ensures
            r@ == self@.endpoint + "/lightstreamer/bind_session.txt"@,
    {
        endpoint_url(self.endpoint.as_str(), "/lightstreamer/bind_session.txt")
    }

    /// The `create_session.txt` form that re-creates this session.
    pub fn create_form(&self) -> (r: Vec<(&'static str, String)>)
        ensures
            form_model(r@) == create_form_spec(self@.username, self@.password),
    {
        create_session_form(self.username.as_str(), self.password.as_str())
    }

    /// The `bind_session.txt` form.
    pub fn bind_form(&self) -> (r: Vec<(&'static str, String)>)
        ensures
            form_model(r@) == bind_form_spec(self@.session_id),
    {
        let mut f: Vec<(&'static str, String)> = Vec::new();
        f.push(("LS_session", string_of(&chars_of(self.session_id.as_str()))));
        f.push(("LS_polling", string_of(&chars_of("false"))));
        assert(form_model(f@) =~= seq![
            ("LS_session"@, self@.session_id),
            ("LS_polling"@, "false"@),
        ]);
        f
    }

    /// The `control.txt` form that adds or deletes subscription
    /// `item_index`.
    pub fn control_form(
        &self,
        op: &str,
        item_index: usize,
        item_name: &str,
        fields: &str,
        mode: &str,
    ) -> (r: Vec<(&'static str, String)>)
        ensures
            form_model(r@) == seq![
                ("LS_session"@, self@.session_id),
                ("LS_op"@, op@),
                ("LS_table"@, decimal(item_index as nat)),
                ("LS_id"@, item_name@),
                ("LS_schema"@, fields@),
                ("LS_mode"@, mode@),
            ],
    {
        let mut f: Vec<(&'static str, String)> = Vec::new();
        f.push(("LS_session", string_of(&chars_of(self.session_id.as_str()))));
        f.push(("LS_op", string_of(&chars_of(op))));
        f.push(("LS_table", string_of(&fmt_u64(item_index as u64))));
        f.push(("LS_id", string_of(&chars_of(item_name))));
        f.push(("LS_schema", string_of(&chars_of(fields))));
        f.push(("LS_mode", string_of(&chars_of(mode))));
        assert(form_model(f@) =~= seq![
            ("LS_session"@, self@.session_id),
            ("LS_op"@, op@),
            ("LS_table"@, decimal(item_index as nat)),
            ("LS_id"@, item_name@),
            ("LS_schema"@, fields@),
            ("LS_mode"@, mode@),
        ]);
        f
    }

    /// The `control.txt` form that deletes subscription `item_index`.
    pub fn unsubscribe_form(&self, item_index: usize) -> (r: Vec<(&'static str, String)>)
        ensures
            form_model(r@) == seq![
                ("LS_session"@, self@.session_id),
                ("LS_op"@, "delete"@),
                ("LS_table"@, decimal(item_index as nat)),
            ],
    {
        let mut f: Vec<(&'static str, String)> = Vec::new();
        f.push(("LS_session", string_of(&chars_of(self.session_id.as_str()))));
        f.push(("LS_op", string_of(&chars_of("delete"))));
        f.push(("LS_table", string_of(&fmt_u64(item_index as u64))));
        assert(form_model(f@) =~= seq![
            ("LS_session"@, self@.session_id),
            ("LS_op"@, "delete"@),
            ("LS_table"@, decimal(item_index as nat)),
        ]);
        f
    }
}

// ---------------------------------------------------------------------------
// Line framing of the streaming response
// ---------------------------------------------------------------------------

/// Splitting a buffer at its first `\n`: the line before it (without
/// trailing `\r`) and what follows it; `None` while no line is complete.
pub open spec fn split_line(buf: Seq<char>) -> Option<(Seq<char>, Seq<char>)> {
    match first_index(buf, '\n') {
        Some(i) => Some((strip_trailing(buf.take(i), '\r'), buf.skip(i + 1))),
        None => None,
    }
}

/// Buffers the bytes of a streaming response and yields complete
/// `\n`-terminated lines.
#[derive(Debug)]
pub struct LineBuffer {
    buf: Vec<char>,
}

impl View for LineBuffer {
    type V = Seq<char>;

    closed spec fn view(&self) -> Seq<char> {
        self.buf@
    }
}

impl LineBuffer {
    /// An empty buffer.
    pub fn new() -> (r: LineBuffer)
        ensures
            r@ == Seq::<char>::empty(),
    {
        LineBuffer { buf: Vec::new() }
    }

    /// Append a received chunk, decoded as `String::from_utf8_lossy` does.
    pub fn push_chunk(&mut self, bytes: &[u8])
        ensures
            final(self)@ == old(self)@ + utf8_lossy(bytes@),
    {
        let text = utf8_lossy_string(bytes);
        push_all(&mut self.buf, &chars_of(text.as_str()));
    }

    /// Append text that is already decoded.
    pub fn push_text(&mut self, text: &str)
        ensures
            final(self)@ == old(self)@ + text@,
    {
        push_all(&mut self.buf, &chars_of(text));
    }

    /// Take the next complete line (without its `\n` and trailing `\r`s), if
    /// one is buffered.
    pub fn next_line(&mut self) -> (r: Option<String>)
        ensures
            match split_line(old(self)@) {
                Some((line, rest)) => r matches Some(l) && l@ == line && final(self)@ == rest,
                None => r is None && final(self)@ == old(self)@,
            },
    {
        match find_char_from(&self.buf, 0, '\n') {
            None => {
                assert(self.buf@.skip(0) =~= self.buf@);
                None
            },
            Some(i) => {
                assert(self.buf@.skip(0) =~= self.buf@);
                let n = self.buf.len();
                assert(i < n);
                let head = sub_chars(&self.buf, 0, i);
                let line = strip_trailing_chars(&head, '\r');
                let rest = sub_chars(&self.buf, i + 1, n);
                proof {
                    assert(head@ =~= self.buf@.take(i as int));
                    assert(rest@ =~= self.buf@.skip(i + 1));
                }
                self.buf = rest;
                Some(string_of(&line))
            },
        }
    }
}

/// A line assembled from any number of pieces is read back whole: when the
/// buffered text and the new text hold no `\n`, appending the text and a
/// `\n` makes exactly one line, without trailing `\r`s, and empties the
/// buffer.
pub proof fn lemma_line_reassembly(buffered: Seq<char>, text: Seq<char>)
    requires
        first_index(buffered, '\n') is None,
        first_index(text, '\n') is None,
    ensures
        split_line(buffered + text + seq!['\n']) == Some(
            (strip_trailing(buffered + text, '\r'), Seq::<char>::empty()),
        ),
{
    let s = buffered + text + seq!['\n'];
    crate::text::lemma_first_index(buffered, '\n');
    crate::text::lemma_first_index(text, '\n');
    let n = (buffered.len() + text.len()) as int;
    assert forall|j: int| 0 <= j < n implies s[j] != '\n' by {
        if j < buffered.len() {
            assert(s[j] == buffered[j]);
        } else {
            assert(s[j] == text[j - buffered.len()]);
        }
    }
    crate::text::lemma_first_index_is(s, '\n', n);
    assert(s.take(n) =~= buffered + text);
    assert(s.skip(n + 1) =~= Seq::<char>::empty());
}

/// Text without a `\n` never completes a line.
pub proof fn lemma_no_newline_no_line(buffered: Seq<char>, text: Seq<char>)
    requires
        first_index(buffered, '\n') is None,
        first_index(text, '\n') is None,
    ensures
        split_line(buffered + text) is None,
{
    let s = buffered + text;
    crate::text::lemma_first_index(buffered, '\n');
    crate::text::lemma_first_index(text, '\n');
    assert forall|j: int| 0 <= j < s.len() implies s[j] != '\n' by {
        if j < buffered.len() {
            assert(s[j] == buffered[j]);
        } else {
            assert(s[j] == text[j - buffered.len()]);
        }
    }
    crate::text::lemma_first_index_none(s, '\n');
}

// ---------------------------------------------------------------------------
// OK-block reader
// ---------------------------------------------------------------------------

/// The value of the first `ControlAddress` entry of a header.
pub open spec fn control_address_spec(extras: Seq<(Seq<char>, Seq<char>)>) -> Option<Seq<char>>
    decreases extras.len(),
{
    if extras.len() == 0 {
        None
    } else if extras[0].0 == "ControlAddress"@ {
        Some(extras[0].1)
    } else {
        control_address_spec(extras.drop_first())
    }
}

/// The value of the first `ControlAddress` entry of a header.
pub fn find_control_address(extras: &Vec<(String, String)>) -> (r: Option<String>)
    ensures
        match control_address_spec(pairs_model(extras@)) {
            Some(a) => r matches Some(s) && s@ == a,
            None => r is None,
        },
{
    let ghost m = pairs_model(extras@);
    let key = chars_of("ControlAddress");
    let mut i: usize = 0;
    assert(m.skip(0) =~= m);
    while i < extras.len()
        invariant
            i <= extras@.len(),
            m == pairs_model(extras@),
            key@ == "ControlAddress"@,
            control_address_spec(m) == control_address_spec(m.skip(i as int)),
        decreases extras.len() - i,
    {
        let ghost t = m.skip(i as int);
        assert(t[0] == m[i as int]);
        assert(t.drop_first() =~= m.skip(i + 1));
        if eq_chars(&chars_of(extras[i].0.as_str()), &key) {
            return Some(string_of(&chars_of(extras[i].1.as_str())));
        }
        i = i + 1;
    }
    assert(m.skip(i as int).len() == 0);
    None
}

/// The reconstructed OK block handed to [`parse_ok_block`]: the header
/// lines joined by CRLF, followed by an empty line.
pub open spec fn ok_block_text(lines: Seq<Seq<char>>) -> Seq<char> {
    join(lines, "\r\n"@) + "\r\n\r\n"@
}

/// What reading the OK block yields: the session id and the control
/// address, or the error the session is refused with.
pub open spec fn ok_block_outcome(lines: Seq<Seq<char>>, done: bool) -> Result<
    (Seq<char>, Option<Seq<char>>),
    Seq<char>,
> {
    if !done {
        Err("Lightstreamer OK block not received"@)
    } else {
        match ok_block_spec(ok_block_text(lines)) {
            Some((sid, extras)) => Ok((sid, control_address_spec(extras))),
            None => Err("Lightstreamer session error: "@ + join(lines, ", "@)),
        }
    }
}

/// Collects the header lines of the initial OK block of a streaming
/// response, up to the blank line that ends it.
#[derive(Debug)]
pub struct OkBlockReader {
    lines: Vec<String>,
    done: bool,
}

/// Model of an [`OkBlockReader`]: the header lines so far, and whether the
/// blank line has been seen.
pub struct OkBlockModel {
    pub lines: Seq<Seq<char>>,
    pub done: bool,
}

impl View for OkBlockReader {
    type V = OkBlockModel;

    closed spec fn view(&self) -> OkBlockModel {
        OkBlockModel { lines: strings_model(self.lines@), done: self.done }
    }
}

impl OkBlockReader {
    /// A reader that has seen nothing.
    pub fn new() -> (r: OkBlockReader)
        ensures
            r@.lines == Seq::<Seq<char>>::empty(),
            !r@.done,
    {
        let r = OkBlockReader { lines: Vec::new(), done: false };
        assert(strings_model(r.lines@) =~= Seq::<Seq<char>>::empty());
        r
    }

    /// Whether the blank line ending the block has been read.
    pub fn is_done(&self) -> (r: bool)
        ensures
            r == self@.done,
    {
        self.done
    }

    /// Feed the next line of the stream: a blank line ends the block, any
    /// other line is kept.  Returns whether the block is complete.
    pub fn push_line(&mut self, line: String) -> (done: bool)
        requires
            !old(self)@.done,
        ensures
            done == final(self)@.done,
            line@.len() == 0 ==> final(self)@.done && final(self)@.lines == old(self)@.lines,
            line@.len() != 0 ==> !final(self)@.done && final(self)@.lines == old(self)@.lines.push(
                line@,
            ),
    {
        if chars_of(line.as_str()).len() == 0 {
            self.done = true;
            true
        } else {
            let ghost before = self.lines@;
            self.lines.push(line);
            assert(strings_model(self.lines@) =~= strings_model(before).push(line@));
            false
        }
    }

    /// The session id and control address announced by the block.  A stream
    /// that ended before the blank line, or a block that is not an `OK`
    /// block, gives [`Error::Auth`].
    pub fn finish(&self) -> (r: Result<(String, Option<String>), Error>)
        ensures
            match ok_block_outcome(self@.lines, self@.done) {
                Ok((sid, ca)) => r matches Ok(p) && p.0@ == sid && match ca {
                    Some(a) => p.1 matches Some(s) && s@ == a,
                    None => p.1 is None,
                },
                Err(m) => r matches Err(e) && e matches Error::Auth(t) && t@ == m,
            },
    {
        if !self.done {
            return Err(Error::Auth(string_of(&chars_of("Lightstreamer OK block not received"))));
        }
        let joined = join_strings(&self.lines, &chars_of("\r\n"));
        let block = string_of(&concat_chars(&joined, &chars_of("\r\n\r\n")));
        match parse_ok_block(block.as_str()) {
            None => {
                let listed = join_strings(&self.lines, &chars_of(", "));
                let msg = concat_chars(&chars_of("Lightstreamer session error: "), &listed);
                Err(Error::Auth(string_of(&msg)))
            },
            Some((session_id, extras)) => {
                let ca = find_control_address(&extras);
                Ok((session_id, ca))
            },
        }
    }
}

// ---------------------------------------------------------------------------
// Bind-failure routing
// ---------------------------------------------------------------------------

/// What to do when `bind_session` fails in the rebind path.
#[derive(Debug, PartialEq, Eq)]
pub enum BindFailureAction {
    /// Auto-reconnect enabled: full session re-create with token refresh.
    Reconnect,
    /// Auto-reconnect disabled: emit `Disconnected` and stop.
    Disconnect,
}

/// Decide the bind-failure route from the reconnect policy.
pub fn bind_failure_action(policy_enabled: bool) -> (r: BindFailureAction)
    ensures
        policy_enabled <==> r is Reconnect,
        !policy_enabled <==> r is Disconnect,
{
    if policy_enabled {
        BindFailureAction::Reconnect
    } else {
        BindFailureAction::Disconnect
    }
}

// ---------------------------------------------------------------------------
// Frame dispatch
// ---------------------------------------------------------------------------

/// What processing one frame asks of the read loop.
#[derive(Debug)]
pub enum FrameAction {
    /// Keep reading.
    Continue,
    /// Forward the merged field state of subscription `item_index` to its
    /// subscriber, then keep reading.
    Deliver { item_index: usize, state: Vec<Option<String>> },
    /// Rebind the same session.
    Rebind,
    /// The server ended the session: a full reconnect is needed.
    SessionEnded { reason: Option<String> },
    /// Stop reading.
    Terminate,
}

/// Process one frame: an update is merged into its subscription's state
/// (and forwarded when the subscription is known); a bind acknowledgement
/// with a session id records it; `LOOP` and `SYNC ERROR` ask for a rebind,
/// `END` ends the session, `ERROR` terminates; anything else is ignored.
pub fn handle_frame(frame: Frame, registry: &mut Registry, session: &mut LsSession) -> (r:
    FrameAction)
    requires
        old(registry).wf(),
    ensures
        final(registry).wf(),
        final(registry)@.next_index == old(registry)@.next_index,
        !(frame@ is Update) ==> final(registry)@ == old(registry)@,
        !(frame@ matches FrameModel::SessionOk { session_id } && session_id.len() > 0)
            ==> final(session)@ == old(session)@,
        match frame@ {
            FrameModel::Update { item_index, fields } => {
                &&& final(session)@ == old(session)@
                &&& if old(registry)@.entries.dom().contains(item_index) {
                    &&& r matches FrameAction::Deliver { item_index: i, state } && i == item_index
                        && state_model(state@) == merge_spec(
                        old(registry)@.entries[item_index].field_state,
                        fields,
                    )
                    &&& final(registry)@.entries == old(registry)@.entries.insert(
                        item_index,
                        EntryModel {
                            field_state: merge_spec(
                                old(registry)@.entries[item_index].field_state,
                                fields,
                            ),
                            ..old(registry)@.entries[item_index]
                        },
                    )
                } else {
                    &&& r is Continue
                    &&& final(registry)@.entries == old(registry)@.entries
                }
            },
            FrameModel::Probe => r is Continue,
            FrameModel::Unknown(_) => r is Continue,
            FrameModel::Loop => r is Rebind,
            FrameModel::SyncError => r is Rebind,
            FrameModel::Error { .. } => r is Terminate,
            FrameModel::End { cause } => r matches FrameAction::SessionEnded { reason }
                && opt_str_view(reason) == cause,
            FrameModel::SessionOk { session_id } => {
                &&& r is Continue
                &&& session_id.len() > 0 ==> final(session)@ == LsSessionModel {
                    session_id,
                    ..old(session)@
                }
            },
        },
{
    match frame {
        Frame::Update { item_index, fields } => {
            match registry.apply_update(item_index, fields.as_slice()) {
                Some(state) => FrameAction::Deliver { item_index, state },
                None => FrameAction::Continue,
            }
        },
        Frame::Probe => FrameAction::Continue,
        Frame::Loop => FrameAction::Rebind,
        Frame::SyncError => FrameAction::Rebind,
        Frame::Error { .. } => FrameAction::Terminate,
        Frame::End { cause } => FrameAction::SessionEnded { reason: cause },
        Frame::SessionOk { session_id } => {
            if chars_of(session_id.as_str()).len() > 0 {
                session.session_id = session_id;
            }
            FrameAction::Continue
        },
        Frame::Unknown(_) => FrameAction::Continue,
    }
}

/// The view of an optional string.
pub open spec fn opt_str_view(o: Option<String>) -> Option<Seq<char>> {
    match o {
        Some(s) => Some(s@),
        None => None,
    }
}

// ---------------------------------------------------------------------------
// Read-loop decisions
// ---------------------------------------------------------------------------

/// Why draining a stream stopped.
#[derive(Debug)]
pub enum DrainOutcome {
    /// `LOOP`, `SYNC ERROR`, a stream error or EOF: bind the same session.
    Rebind,
    /// `END`: a full session reconnect is needed.
    SessionEnded { reason: Option<String> },
    /// `ERROR` or shutdown.
    Terminate,
}

/// Whether a frame action stops the draining of the stream, and why.
pub fn drain_outcome(action: FrameAction) -> (r: Option<DrainOutcome>)
    ensures
        match action {
            FrameAction::Continue => r is None,
            FrameAction::Deliver { .. } => r is None,
            FrameAction::Rebind => r matches Some(DrainOutcome::Rebind),
            FrameAction::SessionEnded { reason } => r matches Some(
                DrainOutcome::SessionEnded { reason: q },
            ) && opt_str_view(q) == opt_str_view(reason),
            FrameAction::Terminate => r matches Some(DrainOutcome::Terminate),
        },
{
    match action {
        FrameAction::Continue => None,
        FrameAction::Deliver { .. } => None,
        FrameAction::Rebind => Some(DrainOutcome::Rebind),
        FrameAction::SessionEnded { reason } => Some(DrainOutcome::SessionEnded { reason }),
        FrameAction::Terminate => Some(DrainOutcome::Terminate),
    }
}

/// The read loop's next move.
#[derive(Debug)]
pub enum LoopStep {
    /// Call `bind_session` on the current session.
    Bind,
    /// Run the auto-reconnect sequence for `reason`.
    Reconnect { reason: Option<String> },
    /// Emit `Disconnected { reason }` and stop.
    Disconnect { reason: Option<String> },
    /// Stop silently.
    Stop,
}

/// The next move after draining: rebind on `Rebind`; on `END`, reconnect
/// when the policy allows it and disconnect otherwise; stop on
/// `Terminate`.
pub fn after_drain(outcome: DrainOutcome, policy_enabled: bool) -> (r: LoopStep)
    ensures
        match outcome {
            DrainOutcome::Rebind => r is Bind,
            DrainOutcome::SessionEnded { reason } => if policy_enabled {
                r matches LoopStep::Reconnect { reason: q } && opt_str_view(q) == opt_str_view(
                    reason,
                )
            } else {
                r matches LoopStep::Disconnect { reason: q } && opt_str_view(q) == opt_str_view(
                    reason,
                )
            },
            DrainOutcome::Terminate => r is Stop,
        },
{
    match outcome {
        DrainOutcome::Rebind => LoopStep::Bind,
        DrainOutcome::SessionEnded { reason } => {
            if policy_enabled {
                LoopStep::Reconnect { reason }
            } else {
                LoopStep::Disconnect { reason }
            }
        },
        DrainOutcome::Terminate => LoopStep::Stop,
    }
}

/// The next move after `bind_session` failed with `error_text`: routed as
/// an ended session, so a bind failure never stops silently.
pub fn after_bind_failure(error_text: &str, policy_enabled: bool) -> (r: LoopStep)
    ensures
        ({
            let reason = "bind_session failed: "@ + error_text@;
            if policy_enabled {
                r matches LoopStep::Reconnect { reason: Some(q) } && q@ == reason
            } else {
                r matches LoopStep::Disconnect { reason: Some(q) } && q@ == reason
            }
        }),
{
    let reason = string_of(&concat_chars(&chars_of("bind_session failed: "), &chars_of(error_text)));
    match bind_failure_action(policy_enabled) {
        BindFailureAction::Disconnect => LoopStep::Disconnect { reason: Some(reason) },
        BindFailureAction::Reconnect => LoopStep::Reconnect { reason: Some(reason) },
    }
}

// ---------------------------------------------------------------------------
// Session parameters for connecting
// ---------------------------------------------------------------------------

/// The OAuth refusal message of [`streaming_login`].
pub open spec fn oauth_refusal() -> Seq<char> {
    "OAuth session cannot be used directly for streaming. Call client.session().read(true).await? first to obtain CST/XST tokens, then call streaming().connect() again."@
}

/// What connecting needs from the session: the Lightstreamer endpoint, the
/// username (the account id) and the password (`CST-…|XST-…`); each one
/// missing gives [`Error::Auth`], checked in this order.
pub open spec fn streaming_login_spec(s: SessionModel) -> Result<
    (Seq<char>, Seq<char>, Seq<char>),
    Seq<char>,
> {
    if s.tokens.rest is None {
        Err("no active session — call session().login() first"@)
    } else if s.account_id is None {
        Err("no account ID in session — call session().login() first"@)
    } else if s.lightstreamer_endpoint is None {
        Err("no Lightstreamer endpoint in session — call session().login() first"@)
    } else {
        match s.tokens.streaming {
            Some(st) => Ok(
                (
                    s.lightstreamer_endpoint->0,
                    s.account_id->0,
                    ls_password_spec(st.cst, st.x_security_token),
                ),
            ),
            None => if s.tokens.rest matches Some(RestAuthModel::OAuth { .. }) {
                Err(oauth_refusal())
            } else {
                Err("no active session tokens"@)
            },
        }
    }
}

/// The endpoint, username and password for opening a Lightstreamer
/// session from the given session state.
pub fn streaming_login(state: &SessionState) -> (r: Result<(String, String, String), Error>)
    ensures
        match streaming_login_spec(state@) {
            Ok((e, u, p)) => r matches Ok(t) && t.0@ == e && t.1@ == u && t.2@ == p,
            Err(m) => r matches Err(err) && err matches Error::Auth(t) && t@ == m,
        },
{
    match state.require_authenticated() {
        Err(e) => {
            return Err(e);
        },
        Ok(()) => {},
    }
    let account_id = match &state.account_id {
        Some(a) => string_of(&chars_of(a.as_str())),
        None => {
            return Err(
                Error::Auth(
                    string_of(&chars_of("no account ID in session — call session().login() first")),
                ),
            );
        },
    };
    let endpoint = match &state.lightstreamer_endpoint {
        Some(e) => string_of(&chars_of(e.as_str())),
        None => {
            return Err(
                Error::Auth(
                    string_of(
                        &chars_of(
                            "no Lightstreamer endpoint in session — call session().login() first",
                        ),
                    ),
                ),
            );
        },
    };
    match &state.tokens.streaming {
        Some(st) => Ok((endpoint, account_id, st.lightstreamer_password())),
        None => match &state.tokens.rest {
            Some(RestAuth::OAuth { .. }) => Err(
                Error::Auth(
                    string_of(
                        &chars_of(
                            "OAuth session cannot be used directly for streaming. Call client.session().read(true).await? first to obtain CST/XST tokens, then call streaming().connect() again.",
                        ),
                    ),
                ),
            ),
            _ => Err(Error::Auth(string_of(&chars_of("no active session tokens")))),
        },
    }
}

} // verus!
