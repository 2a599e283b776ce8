//! The redirect that ends the browser part of a login: reading the request
//! line of the one request that the local listener accepts, and answering it.

use crate::common::text::{decimal, same_text, to_decimal};
use crate::error::Error;
use vstd::prelude::*;
use vstd::string::*;

verus! {

/// The decoded name-value pairs of the query of a URL, in their order; `None`
/// where the text is not a URL.  It stands for what `url::Url::parse`
/// followed by `url::Url::query_pairs` yields.
pub uninterp spec fn url_query_pairs(url: Seq<char>) -> Option<Seq<(Seq<char>, Seq<char>)>>;

/// The authorization code and the state token that a redirect carries.
#[derive(Debug)]
pub struct Callback {
    pub code: String,
    pub state: String,
}

/// What a `Callback` holds.
pub struct CallbackView {
    pub code: Seq<char>,
    pub state: Seq<char>,
}

impl View for Callback {
    type V = CallbackView;

    open spec fn view(&self) -> CallbackView {
        CallbackView { code: self.code@, state: self.state@ }
    }
}

/// The characters that separate the parts of a request line: the white
/// space of Unicode.
pub open spec fn is_blank(c: char) -> bool {
    ||| '\u{9}' <= c <= '\u{d}'
    ||| c == ' '
    ||| c == '\u{85}'
    ||| c == '\u{a0}'
    ||| c == '\u{1680}'
    ||| '\u{2000}' <= c <= '\u{200a}'
    ||| c == '\u{2028}'
    ||| c == '\u{2029}'
    ||| c == '\u{202f}'
    ||| c == '\u{205f}'
    ||| c == '\u{3000}'
}

/// The first position at or after `from` that holds no blank.
pub open spec fn skip_blanks(line: Seq<char>, from: int) -> int
    decreases line.len() - from,
{
    if 0 <= from < line.len() && is_blank(line[from]) {
        skip_blanks(line, from + 1)
    } else {
        from
    }
}

/// The first position at or after `from` that holds a blank.
pub open spec fn skip_word(line: Seq<char>, from: int) -> int
    decreases line.len() - from,
{
    if 0 <= from < line.len() && !is_blank(line[from]) {
        skip_word(line, from + 1)
    } else {
        from
    }
}

/// Where the second blank-separated part of `line` starts.
pub open spec fn target_start(line: Seq<char>) -> int {
    skip_blanks(line, skip_word(line, skip_blanks(line, 0)))
}

/// The request target: the second blank-separated part of a request line.
pub open spec fn request_target(line: Seq<char>) -> Option<Seq<char>> {
    let start = target_start(line);
    if start < line.len() {
        Some(line.subrange(start, skip_word(line, start)))
    } else {
        None
    }
}

/// The value of the first pair named `key`.
pub open spec fn first_value(pairs: Seq<(Seq<char>, Seq<char>)>, key: Seq<char>) -> Option<
    Seq<char>,
>
    decreases pairs.len(),
{
    if pairs.len() == 0 {
        None
    } else if pairs[0].0 == key {
        Some(pairs[0].1)
    } else {
        first_value(pairs.drop_first(), key)
    }
}

/// The name of the query parameter that carries the authorization code.
pub open spec fn code_key() -> Seq<char> {
    seq!['c', 'o', 'd', 'e']
}

/// The name of the query parameter that echoes the state token.
pub open spec fn state_key() -> Seq<char> {
    seq!['s', 't', 'a', 't', 'e']
}

/// The origin against which the request target is resolved.
pub open spec fn local_origin() -> Seq<char> {
    "http://localhost"@
}

/// What a list of query pairs yields: the first `code` and the first
/// `state`, or a failure where one of them is absent.
pub open spec fn callback_from(pairs: Seq<(Seq<char>, Seq<char>)>) -> Result<CallbackView, Error> {
    match (first_value(pairs, code_key()), first_value(pairs, state_key())) {
        (Some(code), Some(state)) => Ok(CallbackView { code, state }),
        _ => Err(Error::CallbackMissingParameter),
    }
}

/// What a request line yields.
pub open spec fn callback_of(line: Seq<char>) -> Result<CallbackView, Error> {
    match request_target(line) {
        Some(target) => match url_query_pairs(local_origin() + target) {
            Some(pairs) => callback_from(pairs),
            None => Err(Error::CallbackMissingParameter),
        },
        None => Err(Error::CallbackMissingParameter),
    }
}

/// The views of a result of reading a redirect.
pub open spec fn callback_view(result: Result<Callback, Error>) -> Result<CallbackView, Error> {
    match result {
        Ok(callback) => Ok(callback@),
        Err(error) => Err(error),
    }
}

/// The body of the answer to the redirect.
pub open spec fn confirmation_message() -> Seq<char> {
    "Go back to your terminal :)"@
}

/// The whole answer to the redirect: status line, the length of the body,
/// an empty line and the body.
pub open spec fn confirmation_text() -> Seq<char> {
    "HTTP/1.1 200 OK\r\ncontent-length: "@ + decimal(confirmation_message().len()) + "\r\n\r\n"@
        + confirmation_message()
}

/// A blank ends a word and a word ends a run of blanks: both scans stay
/// inside the line and stop where they say.
pub proof fn lemma_scans(line: Seq<char>, from: int)
    requires
        0 <= from <= line.len(),
    ensures
        from <= skip_blanks(line, from) <= line.len(),
        from <= skip_word(line, from) <= line.len(),
        skip_blanks(line, from) < line.len() ==> !is_blank(line[skip_blanks(line, from)]),
        skip_word(line, from) < line.len() ==> is_blank(line[skip_word(line, from)]),
        forall|i: int| from <= i < skip_blanks(line, from) ==> is_blank(#[trigger] line[i]),
        forall|i: int| from <= i < skip_word(line, from) ==> !is_blank(#[trigger] line[i]),
    decreases line.len() - from,
{
    if from < line.len() {
        lemma_scans(line, from + 1);
    }
}

/// A request target is never empty and holds no blank.
pub proof fn lemma_request_target(line: Seq<char>)
    ensures
        match request_target(line) {
            Some(target) => target.len() > 0 && forall|i: int|
                0 <= i < target.len() ==> !is_blank(#[trigger] target[i]),
            None => true,
        },
{
    lemma_scans(line, 0);
    let a = skip_blanks(line, 0);
    lemma_scans(line, a);
    let b = skip_word(line, a);
    lemma_scans(line, b);
    let c = skip_blanks(line, b);
    if c < line.len() {
        lemma_scans(line, c);
    }
}

/// Lists the decoded query pairs of a URL.
///
/// Trusted: calls `url::Url::parse` and, where that succeeds,
/// `url::Url::query_pairs`, and copies each pair out.  The result is `None`
/// exactly where the text does not parse.
#[verifier::external_body]
fn query_pairs(url: &str) -> (pairs: Option<Vec<(String, String)>>)
    ensures
        pairs.deep_view() == url_query_pairs(url@),
{
    let parsed = url::Url::parse(url).ok()?;
    Some(parsed.query_pairs().map(|(name, value)| (name.into_owned(), value.into_owned())).collect())
}

fn blank(c: char) -> (b: bool)
    ensures
        b == is_blank(c),
{
    ('\u{9}' <= c && c <= '\u{d}') || c == ' ' || c == '\u{85}' || c == '\u{a0}' || c == '\u{1680}'
        || ('\u{2000}' <= c && c <= '\u{200a}') || c == '\u{2028}' || c == '\u{2029}' || c
        == '\u{202f}' || c == '\u{205f}' || c == '\u{3000}'
}

fn scan_blanks(line: &str, len: usize, from: usize) -> (to: usize)
    requires
        len == line@.len(),
        from <= len,
    ensures
        to == skip_blanks(line@, from as int),
        from <= to <= len,
{
    let mut at: usize = from;
    while at < len && blank(line.get_char(at))
        invariant
            len == line@.len(),
            from <= at <= len,
            skip_blanks(line@, from as int) == skip_blanks(line@, at as int),
        decreases len - at,
    {
        at += 1;
    }
    at
}

fn scan_word(line: &str, len: usize, from: usize) -> (to: usize)
    requires
        len == line@.len(),
        from <= len,
    ensures
        to == skip_word(line@, from as int),
        from <= to <= len,
{
    let mut at: usize = from;
    while at < len && !blank(line.get_char(at))
        invariant
            len == line@.len(),
            from <= at <= len,
            skip_word(line@, from as int) == skip_word(line@, at as int),
        decreases len - at,
    {
        at += 1;
    }
    at
}

/// Cuts the request target out of a request line.
pub fn target_of(line: &str) -> (target: Option<&str>)
    ensures
        match target {
            Some(text) => request_target(line@) == Some(text@),
            None => request_target(line@) is None,
        },
{
    let len = line.unicode_len();
    let method_start = scan_blanks(line, len, 0);
    let method_end = scan_word(line, len, method_start);
    let start = scan_blanks(line, len, method_end);
    if start < len {
        let end = scan_word(line, len, start);
        Some(line.substring_char(start, end))
    } else {
        None
    }
}

/// The value of the first pair named `key`.
pub fn value_of(pairs: &Vec<(String, String)>, key: &str) -> (value: Option<String>)
    ensures
        value.deep_view() == first_value(pairs.deep_view(), key@),
{
    let ghost all = pairs.deep_view();
    let mut i: usize = 0;
    assert(all.subrange(0, all.len() as int) =~= all);
    while i < pairs.len()
        invariant
            i <= pairs.len(),
            all == pairs.deep_view(),
            first_value(all, key@) == first_value(all.subrange(i as int, all.len() as int), key@),
        decreases pairs.len() - i,
    {
        let ghost rest = all.subrange(i as int, all.len() as int);
        assert(rest[0] == pairs[i as int].deep_view());
        if same_text(pairs[i].0.as_str(), key) {
            return Some(pairs[i].1.clone());
        }
        assert(rest.drop_first() =~= all.subrange(i + 1, all.len() as int));
        i += 1;
    }
    None
}

/// Picks the authorization code and the state token out of the query pairs
/// of a redirect.  Fails with `CallbackMissingParameter` exactly where `code`
/// or `state` is absent.
pub fn callback_from_pairs(pairs: &Vec<(String, String)>) -> (result: Result<Callback, Error>)
    ensures
        callback_view(result) == callback_from(pairs.deep_view()),
{
    proof {
        reveal_strlit("code");
        reveal_strlit("state");
        assert("code"@ =~= code_key());
        assert("state"@ =~= state_key());
    }
    match (value_of(pairs, "code"), value_of(pairs, "state")) {
        (Some(code), Some(state)) => Ok(Callback { code, state }),
        _ => Err(Error::CallbackMissingParameter),
    }
}

/// Reads the request line of the redirect.  Fails with
/// `CallbackMissingParameter` where the line has no request target, where
/// the target does not form a URL, and where `code` or `state` is absent from
/// its query.
pub fn parse_callback(line: &str) -> (result: Result<Callback, Error>)
    ensures
        callback_view(result) == callback_of(line@),
{
    match target_of(line) {
        Some(target) => {
            let url = String::from_str("http://localhost").concat(target);
            match query_pairs(url.as_str()) {
                Some(pairs) => callback_from_pairs(&pairs),
                None => Err(Error::CallbackMissingParameter),
            }
        },
        None => Err(Error::CallbackMissingParameter),
    }
}

/// The bytes to send back over the connection of the redirect.
pub fn confirmation() -> (text: String)
    ensures
        text@ == confirmation_text(),
{
    let message = "Go back to your terminal :)";
    let mut text = String::from_str("HTTP/1.1 200 OK\r\ncontent-length: ");
    let length = to_decimal(message.unicode_len());
    text.append(length.as_str());
    text.append("\r\n\r\n");
    text.append(message);
    text
}

} // verus!
