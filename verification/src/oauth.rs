//! The local Google OAuth callback: which setup mode was asked for, where
//! the callback listener binds, how the browser's request is read and
//! answered. The listener's socket stays with the shell.
use crate::numtext::{decimal, decimal_string};
use crate::text::{append_str, chars_of, is_unicode_whitespace, is_whitespace, owned, str_eq, string_from_chars, trim, trim_chars};
use vstd::prelude::*;
use vstd::string::StringSliceAdditionalSpecFns;

verus! {

// ---------------------------------------------------------------- trusted
/// What `url::Url::parse` reads from a text: the scheme, the host (as
/// `host_str` gives it), the explicit port (`port`, which leaves out a
/// scheme's default port) and the path; `None` when it does not parse.
pub uninterp spec fn parsed_url(text: Seq<char>) -> Option<(Seq<char>, Option<Seq<char>>, Option<u16>, Seq<char>)>;

/// What `url::Url::join` gives for `input` against the URL parsed from
/// `base`: the joined URL's path and its query pairs, decoded as
/// `query_pairs` decodes them, in order; `None` when either does not parse.
pub uninterp spec fn joined_url(base: Seq<char>, input: Seq<char>) -> Option<(Seq<char>, Seq<(Seq<char>, Seq<char>)>)>;

pub open spec fn url_parts_view(p: Option<(String, Option<String>, Option<u16>, String)>) -> Option<
    (Seq<char>, Option<Seq<char>>, Option<u16>, Seq<char>),
> {
    match p {
        Some((scheme, host, port, path)) => Some(
            (
                scheme@,
                match host {
                    Some(h) => Some(h@),
                    None => None,
                },
                port,
                path@,
            ),
        ),
        None => None,
    }
}

pub open spec fn pairs_view(v: Seq<(String, String)>) -> Seq<(Seq<char>, Seq<char>)> {
    v.map_values(|p: (String, String)| (p.0@, p.1@))
}

pub open spec fn joined_view(j: Option<(String, Vec<(String, String)>)>) -> Option<(Seq<char>, Seq<(Seq<char>, Seq<char>)>)> {
    match j {
        Some((path, pairs)) => Some((path@, pairs_view(pairs@))),
        None => None,
    }
}

/// `url::Url::parse`, read as its scheme, host, port and path.
#[verifier::external_body]
pub(crate) fn parse_url(text: &str) -> (r: Option<(String, Option<String>, Option<u16>, String)>)
    ensures
        url_parts_view(r) == parsed_url(text@),
{
    url::Url::parse(text).ok().map(
        |u| (u.scheme().to_string(), u.host_str().map(|h| h.to_string()), u.port(), u.path().to_string()),
    )
}

/// `url::Url::join` against the parsed base, read as the path and the
/// decoded query pairs.
#[verifier::external_body]
fn join_url(base: &str, input: &str) -> (r: Option<(String, Vec<(String, String)>)>)
    ensures
        joined_view(r) == joined_url(base@, input@),
{
    let joined = url::Url::parse(base).and_then(|b| b.join(input)).ok()?;
    let pairs = joined.query_pairs().map(|(k, v)| (k.into_owned(), v.into_owned())).collect();
    Some((joined.path().to_string(), pairs))
}

// ---------------------------------------------------------------- mode
/// How the Google authorisation is completed.
#[derive(Debug, Clone, PartialEq, Eq)]
pub enum GoogleAuthMode {
    /// Print the authorisation URL and stop.
    PrintUrl,
    /// Wait for the browser's callback on the local listener.
    Callback,
    /// Exchange a code pasted by the user.
    Code,
}

/// Exactly one of the three modes must be asked for; `None` otherwise.
pub fn google_auth_mode(print_url: bool, callback: bool, has_code: bool) -> (r: Option<GoogleAuthMode>)
    ensures
        r is Some <==> ((if print_url { 1int } else { 0 }) + (if callback { 1int } else { 0 }) + (if has_code {
            1int
        } else {
            0
        }) == 1),
        r == Some(GoogleAuthMode::PrintUrl) <==> (print_url && !callback && !has_code),
        r == Some(GoogleAuthMode::Callback) <==> (!print_url && callback && !has_code),
        r == Some(GoogleAuthMode::Code) <==> (!print_url && !callback && has_code),
{
    if print_url && !callback && !has_code {
        Some(GoogleAuthMode::PrintUrl)
    } else if !print_url && callback && !has_code {
        Some(GoogleAuthMode::Callback)
    } else if !print_url && !callback && has_code {
        Some(GoogleAuthMode::Code)
    } else {
        None
    }
}

// ---------------------------------------------------------------- credentials
/// A credential the authorisation needs: present and not blank, kept as
/// given; otherwise the message `<what> is required`.
pub fn required_credential(value: Option<String>, what: &str) -> (r: Result<String, String>)
    ensures
        match r {
            Ok(v) => value == Some(v) && trim(v@).len() > 0,
            Err(m) => (value is None || trim(value->0@).len() == 0) && m@ == what@ + " is required"@,
        },
{
    let ok = match &value {
        Some(v) => {
            let cs = chars_of(v.as_str());
            trim_chars(&cs).len() > 0
        },
        None => false,
    };
    if ok {
        match value {
            Some(v) => return Ok(v),
            None => {},
        }
    }
    let mut m = owned(what);
    append_str(&mut m, " is required");
    Err(m)
}

// ---------------------------------------------------------------- listener
/// Why a redirect URI cannot take the callback.
#[derive(Debug, Clone, Copy, PartialEq, Eq)]
pub enum RedirectProblem {
    Unparsable,
    NotHttp,
    MissingHost,
    NotLoopback,
    MissingPort,
}

/// Where the callback listener binds, and the path the callback must use.
#[derive(Debug, Clone)]
pub struct CallbackAddress {
    pub bind_host: String,
    pub port: u16,
    pub path: String,
}

/// The listener for a parsed redirect URI: plain `http` on a loopback host
/// with an explicit port; `localhost` binds to `127.0.0.1`.
pub open spec fn callback_address_of(parts: Option<(Seq<char>, Option<Seq<char>>, Option<u16>, Seq<char>)>) -> Result<
    (Seq<char>, u16, Seq<char>),
    RedirectProblem,
> {
    match parts {
        None => Err(RedirectProblem::Unparsable),
        Some((scheme, host, port, path)) => if scheme != "http"@ {
            Err(RedirectProblem::NotHttp)
        } else {
            match host {
                None => Err(RedirectProblem::MissingHost),
                Some(h) => if h != "127.0.0.1"@ && h != "localhost"@ && h != "::1"@ {
                    Err(RedirectProblem::NotLoopback)
                } else {
                    match port {
                        None => Err(RedirectProblem::MissingPort),
                        Some(p) => Ok(
                            (
                                if h == "localhost"@ {
                                    "127.0.0.1"@
                                } else {
                                    h
                                },
                                p,
                                path,
                            ),
                        ),
                    }
                },
            }
        },
    }
}

pub open spec fn address_view(r: Result<CallbackAddress, RedirectProblem>) -> Result<(Seq<char>, u16, Seq<char>), RedirectProblem> {
    match r {
        Ok(a) => Ok((a.bind_host@, a.port, a.path@)),
        Err(e) => Err(e),
    }
}

/// The listener for a redirect URI already read into its parts.
pub fn callback_address_from(parts: Option<(String, Option<String>, Option<u16>, String)>) -> (r: Result<
    CallbackAddress,
    RedirectProblem,
>)
    ensures
        address_view(r) == callback_address_of(url_parts_view(parts)),
{
    match parts {
        None => Err(RedirectProblem::Unparsable),
        Some((scheme, host, port, path)) => {
            if !str_eq(scheme.as_str(), "http") {
                return Err(RedirectProblem::NotHttp);
            }
            let h = match host {
                None => return Err(RedirectProblem::MissingHost),
                Some(h) => h,
            };
            let is_localhost = str_eq(h.as_str(), "localhost");
            if !str_eq(h.as_str(), "127.0.0.1") && !is_localhost && !str_eq(h.as_str(), "::1") {
                return Err(RedirectProblem::NotLoopback);
            }
            let p = match port {
                None => return Err(RedirectProblem::MissingPort),
                Some(p) => p,
            };
            let bind_host = if is_localhost {
                owned("127.0.0.1")
            } else {
                h
            };
            Ok(CallbackAddress { bind_host, port: p, path })
        },
    }
}

/// The listener for a redirect URI.
pub fn callback_address(redirect_uri: &str) -> (r: Result<CallbackAddress, RedirectProblem>)
    ensures
        address_view(r) == callback_address_of(parsed_url(redirect_uri@)),
{
    let parts = parse_url(redirect_uri);
    callback_address_from(parts)
}

// ---------------------------------------------------------------- the request
/// The index of the first line feed at or after `i`, or the end.
pub open spec fn line_end(s: Seq<char>, i: int) -> int
    decreases s.len() - i,
{
    if 0 <= i < s.len() && s[i] != '\n' {
        line_end(s, i + 1)
    } else {
        i
    }
}

/// The first line of a request as `str::lines` yields it: up to the first
/// line feed, a carriage return just before it dropped; `None` for an empty
/// request.
pub open spec fn first_line(s: Seq<char>) -> Option<Seq<char>> {
    if s.len() == 0 {
        None
    } else {
        let k = line_end(s, 0);
        if k < s.len() && k > 0 && s[k - 1] == '\r' {
            Some(s.take(k - 1))
        } else {
            Some(s.take(k))
        }
    }
}

proof fn lemma_line_end_bounds(s: Seq<char>, i: int)
    requires
        0 <= i <= s.len(),
    ensures
        i <= line_end(s, i) <= s.len(),
    decreases s.len() - i,
{
    if i < s.len() && s[i] != '\n' {
        lemma_line_end_bounds(s, i + 1);
    }
}

/// The first index at or after `i` that is not whitespace.
pub open spec fn skip_space(s: Seq<char>, i: int) -> int
    decreases s.len() - i,
{
    if 0 <= i < s.len() && is_unicode_whitespace(s[i]) {
        skip_space(s, i + 1)
    } else {
        i
    }
}

/// The first index at or after `i` that is whitespace, or the end.
pub open spec fn word_end(s: Seq<char>, i: int) -> int
    decreases s.len() - i,
{
    if 0 <= i < s.len() && !is_unicode_whitespace(s[i]) {
        word_end(s, i + 1)
    } else {
        i
    }
}

/// The second whitespace-separated word of a line (`split_whitespace().nth(1)`).
pub open spec fn second_word(s: Seq<char>) -> Option<Seq<char>> {
    let a0 = skip_space(s, 0);
    if a0 >= s.len() {
        None
    } else {
        let a1 = skip_space(s, word_end(s, a0));
        if a1 >= s.len() {
            None
        } else {
            Some(s.subrange(a1, word_end(s, a1)))
        }
    }
}

proof fn lemma_skip_space_bounds(s: Seq<char>, i: int)
    requires
        0 <= i <= s.len(),
    ensures
        i <= skip_space(s, i) <= s.len(),
    decreases s.len() - i,
{
    if i < s.len() && is_unicode_whitespace(s[i]) {
        lemma_skip_space_bounds(s, i + 1);
    }
}

proof fn lemma_word_end_bounds(s: Seq<char>, i: int)
    requires
        0 <= i <= s.len(),
    ensures
        i <= word_end(s, i) <= s.len(),
    decreases s.len() - i,
{
    if i < s.len() && !is_unicode_whitespace(s[i]) {
        lemma_word_end_bounds(s, i + 1);
    }
}

fn skip_space_from(s: &Vec<char>, i: usize) -> (r: usize)
    requires
        i <= s@.len(),
    ensures
        r == skip_space(s@, i as int),
        i <= r <= s@.len(),
{
    let mut k = i;
    proof {
        lemma_skip_space_bounds(s@, i as int);
    }
    while k < s.len() && is_whitespace(s[k])
        invariant
            i <= k <= s@.len(),
            skip_space(s@, k as int) == skip_space(s@, i as int),
        decreases s@.len() - k,
    {
        k = k + 1;
    }
    k
}

fn word_end_from(s: &Vec<char>, i: usize) -> (r: usize)
    requires
        i <= s@.len(),
    ensures
        r == word_end(s@, i as int),
        i <= r <= s@.len(),
{
    let mut k = i;
    while k < s.len() && !is_whitespace(s[k])
        invariant
            i <= k <= s@.len(),
            word_end(s@, k as int) == word_end(s@, i as int),
        decreases s@.len() - k,
    {
        k = k + 1;
    }
    k
}

fn line_of(s: &Vec<char>) -> (r: Option<Vec<char>>)
    ensures
        match r {
            Some(l) => first_line(s@) == Some(l@),
            None => first_line(s@) is None,
        },
{
    if s.len() == 0 {
        return None;
    }
    proof {
        lemma_line_end_bounds(s@, 0);
    }
    let mut k: usize = 0;
    while k < s.len() && s[k] != '\n'
        invariant
            k <= s@.len(),
            line_end(s@, k as int) == line_end(s@, 0),
        decreases s@.len() - k,
    {
        k = k + 1;
    }
    let end = if k < s.len() && k > 0 && s[k - 1] == '\r' {
        k - 1
    } else {
        k
    };
    let mut out: Vec<char> = Vec::new();
    let mut i: usize = 0;
    while i < end
        invariant
            end <= s@.len(),
            i <= end,
            out@ == s@.take(i as int),
        decreases end - i,
    {
        out.push(s[i]);
        i = i + 1;
        assert(out@ =~= s@.take(i as int));
    }
    Some(out)
}

/// The path of a callback request: the second word of its first line.
pub open spec fn request_path_of(request: Seq<char>) -> Option<Seq<char>> {
    match first_line(request) {
        Some(line) => second_word(line),
        None => None,
    }
}

/// What the browser's request led to.
#[derive(Debug, Clone, PartialEq, Eq)]
pub enum CallbackResult {
    /// The request was empty.
    EmptyRequest,
    /// The request line has no path.
    MissingPath,
    /// The path does not join onto the redirect URI.
    UnparsablePath(String),
    /// The callback came to another path than the redirect URI's.
    UnexpectedPath(String),
    /// The `state` parameter is missing or differs.
    InvalidState,
    /// Google reported an error instead of a code.
    AuthorizationFailed(String),
    /// No code came with a valid state.
    MissingCode,
    /// The authorisation code.
    Code(String),
}

pub enum ResultView {
    EmptyRequest,
    MissingPath,
    UnparsablePath(Seq<char>),
    UnexpectedPath(Seq<char>),
    InvalidState,
    AuthorizationFailed(Seq<char>),
    MissingCode,
    Code(Seq<char>),
}

pub open spec fn result_view(r: CallbackResult) -> ResultView {
    match r {
        CallbackResult::EmptyRequest => ResultView::EmptyRequest,
        CallbackResult::MissingPath => ResultView::MissingPath,
        CallbackResult::UnparsablePath(p) => ResultView::UnparsablePath(p@),
        CallbackResult::UnexpectedPath(p) => ResultView::UnexpectedPath(p@),
        CallbackResult::InvalidState => ResultView::InvalidState,
        CallbackResult::AuthorizationFailed(e) => ResultView::AuthorizationFailed(e@),
        CallbackResult::MissingCode => ResultView::MissingCode,
        CallbackResult::Code(c) => ResultView::Code(c@),
    }
}

/// The last value given for `key`, as the callback reads repeated keys.
pub open spec fn last_value(pairs: Seq<(Seq<char>, Seq<char>)>, key: Seq<char>) -> Option<Seq<char>>
    decreases pairs.len(),
{
    if pairs.len() == 0 {
        None
    } else if pairs.last().0 == key {
        Some(pairs.last().1)
    } else {
        last_value(pairs.drop_last(), key)
    }
}

/// The callback's verdict once its path was joined onto the redirect URI:
/// the path must be the redirect's, the state must match, an error from
/// Google wins over a code, and a code must be there.
pub open spec fn callback_verdict(
    joined: Option<(Seq<char>, Seq<(Seq<char>, Seq<char>)>)>,
    path: Seq<char>,
    redirect_path: Seq<char>,
    expected_state: Seq<char>,
) -> ResultView {
    match joined {
        None => ResultView::UnparsablePath(path),
        Some((p, pairs)) => if p != redirect_path {
            ResultView::UnexpectedPath(p)
        } else if last_value(pairs, "state"@) != Some(expected_state) {
            ResultView::InvalidState
        } else {
            match last_value(pairs, "error"@) {
                Some(e) => ResultView::AuthorizationFailed(e),
                None => match last_value(pairs, "code"@) {
                    Some(c) => ResultView::Code(c),
                    None => ResultView::MissingCode,
                },
            }
        },
    }
}

fn last_of(pairs: &Vec<(String, String)>, key: &str) -> (r: Option<String>)
    ensures
        match r {
            Some(v) => last_value(pairs_view(pairs@), key@) == Some(v@),
            None => last_value(pairs_view(pairs@), key@) is None,
        },
{
    let mut i = pairs.len();
    assert(pairs_view(pairs@).take(pairs@.len() as int) =~= pairs_view(pairs@));
    while i > 0
        invariant
            i <= pairs@.len(),
            last_value(pairs_view(pairs@), key@) == last_value(pairs_view(pairs@).take(i as int), key@),
        decreases i,
    {
        proof {
            assert(pairs_view(pairs@).take(i as int).drop_last() =~= pairs_view(pairs@).take(i - 1));
        }
        if str_eq(pairs[i - 1].0.as_str(), key) {
            return Some(pairs[i - 1].1.clone());
        }
        i = i - 1;
    }
    None
}

/// The verdict on a callback whose path was joined onto the redirect URI.
pub fn callback_verdict_from(
    joined: Option<(String, Vec<(String, String)>)>,
    path: &str,
    redirect_path: &str,
    expected_state: &str,
) -> (r: CallbackResult)
    ensures
        result_view(r) == callback_verdict(joined_view(joined), path@, redirect_path@, expected_state@),
{
    match joined {
        None => CallbackResult::UnparsablePath(owned(path)),
        Some((p, pairs)) => {
            if !str_eq(p.as_str(), redirect_path) {
                return CallbackResult::UnexpectedPath(p);
            }
            let state = last_of(&pairs, "state");
            let state_ok = match &state {
                Some(s) => str_eq(s.as_str(), expected_state),
                None => false,
            };
            if !state_ok {
                return CallbackResult::InvalidState;
            }
            match last_of(&pairs, "error") {
                Some(e) => CallbackResult::AuthorizationFailed(e),
                None => match last_of(&pairs, "code") {
                    Some(c) => CallbackResult::Code(c),
                    None => CallbackResult::MissingCode,
                },
            }
        },
    }
}

/// The whole reading of a callback request against the redirect URI and
/// its path.
pub open spec fn callback_result_of(
    request: Seq<char>,
    redirect_uri: Seq<char>,
    redirect_path: Seq<char>,
    expected_state: Seq<char>,
) -> ResultView {
    match first_line(request) {
        None => ResultView::EmptyRequest,
        Some(line) => match second_word(line) {
            None => ResultView::MissingPath,
            Some(path) => callback_verdict(joined_url(redirect_uri, path), path, redirect_path, expected_state),
        },
    }
}

/// Reads the browser's callback request: its path, joined onto the
/// redirect URI, must match the redirect's path and carry the expected
/// state and a code.
pub fn handle_callback_request(request: &str, redirect_uri: &str, redirect_path: &str, expected_state: &str) -> (r:
    CallbackResult)
    ensures
        result_view(r) == callback_result_of(request@, redirect_uri@, redirect_path@, expected_state@),
{
    let cs = chars_of(request);
    let line = match line_of(&cs) {
        None => return CallbackResult::EmptyRequest,
        Some(l) => l,
    };
    let a0 = skip_space_from(&line, 0);
    if a0 >= line.len() {
        return CallbackResult::MissingPath;
    }
    let b0 = word_end_from(&line, a0);
    let a1 = skip_space_from(&line, b0);
    if a1 >= line.len() {
        return CallbackResult::MissingPath;
    }
    let b1 = word_end_from(&line, a1);
    let mut word: Vec<char> = Vec::new();
    let mut i = a1;
    while i < b1
        invariant
            a1 <= i <= b1,
            b1 <= line@.len(),
            word@ == line@.subrange(a1 as int, i as int),
        decreases b1 - i,
    {
        word.push(line[i]);
        i = i + 1;
        assert(word@ =~= line@.subrange(a1 as int, i as int));
    }
    let path = string_from_chars(word.as_slice());
    let joined = join_url(redirect_uri, path.as_str());
    callback_verdict_from(joined, path.as_str(), redirect_path, expected_state)
}

// ---------------------------------------------------------------- the reply
/// The status, reason and body the browser is answered with; none when the
/// code is missing or the request could not be read.
pub open spec fn reply_of(r: ResultView) -> Option<(u16, Seq<char>, Seq<char>)> {
    match r {
        ResultView::UnexpectedPath(_) => Some((404, "Not Found"@, "Unexpected callback path"@)),
        ResultView::InvalidState => Some((400, "Bad Request"@, "Invalid OAuth state"@)),
        ResultView::AuthorizationFailed(_) => Some((400, "Bad Request"@, "OAuth authorization failed"@)),
        ResultView::Code(_) => Some(
            (200, "OK"@, "insync received the Google OAuth code. You can close this browser tab."@),
        ),
        _ => None,
    }
}

pub fn callback_reply(r: &CallbackResult) -> (out: Option<(u16, &'static str, &'static str)>)
    ensures
        match out {
            Some((s, reason, body)) => reply_of(result_view(*r)) == Some((s, reason@, body@)),
            None => reply_of(result_view(*r)) is None,
        },
{
    match r {
        CallbackResult::UnexpectedPath(_) => Some((404, "Not Found", "Unexpected callback path")),
        CallbackResult::InvalidState => Some((400, "Bad Request", "Invalid OAuth state")),
        CallbackResult::AuthorizationFailed(_) => Some((400, "Bad Request", "OAuth authorization failed")),
        CallbackResult::Code(_) => Some(
            (200, "OK", "insync received the Google OAuth code. You can close this browser tab."),
        ),
        _ => None,
    }
}

/// A plain-text HTTP/1.1 response that closes the connection; the length
/// is the body's length in UTF-8 bytes.
pub open spec fn http_response(status: u16, reason: Seq<char>, body: Seq<char>, body_bytes: nat) -> Seq<char> {
    "HTTP/1.1 "@ + decimal(status as nat) + " "@ + reason + "\r\nContent-Type: text/plain; charset=utf-8\r\nContent-Length: "@
        + decimal(body_bytes) + "\r\nConnection: close\r\n\r\n"@ + body
}

pub fn http_response_text(status: u16, reason: &str, body: &str) -> (r: String)
    ensures
        r@ == http_response(status, reason@, body@, body.spec_bytes().len()),
{
    let mut out = owned("HTTP/1.1 ");
    let code = decimal_string(status as u64);
    append_str(&mut out, code.as_str());
    append_str(&mut out, " ");
    append_str(&mut out, reason);
    append_str(&mut out, "\r\nContent-Type: text/plain; charset=utf-8\r\nContent-Length: ");
    let n = body.as_bytes().len();
    let len = decimal_string(n as u64);
    append_str(&mut out, len.as_str());
    append_str(&mut out, "\r\nConnection: close\r\n\r\n");
    append_str(&mut out, body);
    out
}

} // verus!
