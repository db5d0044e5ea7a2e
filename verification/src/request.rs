//! Request parsing: an untrusted byte buffer becomes a validated request
//! whose method, path and query parameters all borrow from that buffer.

use crate::method::Method;
use crate::method::lemma_method_token_round_trip;
use crate::method::method_from_token;
use crate::method::method_token;
use crate::query_string::QueryString;
use crate::query_string::QueryView;
use crate::query_string::parse_query;
use crate::scan::find_char;
use crate::scan::find_delimiter;
use crate::scan::first_delimiter;
use crate::scan::first_index_of;
use crate::scan::is_delimiter;
use crate::scan::lemma_first_delimiter;
use crate::scan::lemma_first_delimiter_at;
use crate::scan::lemma_first_index_of;
use crate::scan::str_eq;
use vstd::prelude::*;
use vstd::utf8::decode_utf8;
use vstd::utf8::valid_utf8;

verus! {

/// Why a buffer failed to parse as a request.
#[derive(PartialEq, Eq, Structural, Clone, Copy, Debug)]
pub enum ParseError {
    /// A token was missing: the scan reached the end of the input without
    /// finding a delimiter.
    InvalidRequest,
    /// The buffer is not valid UTF-8.
    InvalidEncoding,
    /// The protocol token is not exactly `HTTP/1.1`.
    InvalidProtocol,
    /// The method token names no supported method.
    InvalidMethod,
}

/// The diagnostic text of each error.
pub open spec fn message_text(e: ParseError) -> Seq<char> {
    match e {
        ParseError::InvalidRequest => "Invalid Request"@,
        ParseError::InvalidEncoding => "Invalid Encoding"@,
        ParseError::InvalidProtocol => "Invalid Protocol"@,
        ParseError::InvalidMethod => "Invalid Method"@,
    }
}

impl ParseError {
    /// A short diagnostic message naming the failure.
    pub fn message(&self) -> (m: &str)
        ensures
            m@ == message_text(*self),
    {
        match self {
            ParseError::InvalidRequest => "Invalid Request",
            ParseError::InvalidEncoding => "Invalid Encoding",
            ParseError::InvalidProtocol => "Invalid Protocol",
            ParseError::InvalidMethod => "Invalid Method",
        }
    }
}

/// A parsed request: everything a request abstracts to.
pub ghost struct RequestView {
    pub method: Method,
    pub path: Seq<char>,
    pub query_params: Option<QueryView>,
}

/// A validated request. `path` and the query parameters borrow from the
/// buffer the request was parsed from and never outlive it. The path never
/// contains the query-string suffix: it is split off during parsing.
#[derive(Debug)]
pub struct Request<'buf> {
    pub method: Method,
    pub path: &'buf str,
    pub query_params: Option<QueryString<'buf>>,
}

impl<'buf> View for Request<'buf> {
    type V = RequestView;

    open spec fn view(&self) -> RequestView {
        RequestView {
            method: self.method,
            path: self.path@,
            query_params: match self.query_params {
                Some(q) => Some(q@),
                None => None,
            },
        }
    }
}

/// The token before the first delimiter, and everything after that
/// delimiter; or nothing when no delimiter occurs.
pub open spec fn next_word(s: Seq<char>) -> Option<(Seq<char>, Seq<char>)> {
    let k = first_delimiter(s);
    if 0 <= k < s.len() {
        Some((s.take(k), s.skip(k + 1)))
    } else {
        None
    }
}

/// True when `s` holds neither a space nor a carriage return.
pub open spec fn has_no_delimiter(s: Seq<char>) -> bool {
    forall|i: int| 0 <= i < s.len() ==> !is_delimiter(#[trigger] s[i])
}

/// Scanning a delimiter-free token followed by a delimiter yields exactly
/// that token and the rest.
pub proof fn lemma_next_word_concat(tok: Seq<char>, d: char, rest: Seq<char>)
    requires
        is_delimiter(d),
        has_no_delimiter(tok),
    ensures
        next_word(tok + seq![d] + rest) == Some((tok, rest)),
{
    let s = tok + seq![d] + rest;
    assert(s[tok.len() as int] == d);
    assert forall|i: int| 0 <= i < tok.len() implies !is_delimiter(s[i]) by {
        assert(s[i] == tok[i]);
    }
    lemma_first_delimiter_at(s, tok.len() as int);
    assert(s.take(tok.len() as int) =~= tok);
    assert(s.skip(tok.len() as int + 1) =~= rest);
}

/// The request the path token denotes: split at the first `?` into the
/// path proper and the raw query string, or taken whole when `?` is absent.
pub open spec fn split_query(m: Method, path_tok: Seq<char>) -> RequestView {
    let q = first_index_of(path_tok, '?');
    if 0 <= q < path_tok.len() {
        RequestView {
            method: m,
            path: path_tok.take(q),
            query_params: Some(parse_query(path_tok.skip(q + 1))),
        }
    } else {
        RequestView { method: m, path: path_tok, query_params: None }
    }
}

/// What parsing text yields: three tokens (method, path, protocol), the
/// protocol validated, the method matched against the supported set, the
/// path split at its first `?`. Each missing piece is its own error.
pub open spec fn spec_parse(s: Seq<char>) -> Result<RequestView, ParseError> {
    match next_word(s) {
        None => Err(ParseError::InvalidRequest),
        Some(w1) => match next_word(w1.1) {
            None => Err(ParseError::InvalidRequest),
            Some(w2) => match next_word(w2.1) {
                None => Err(ParseError::InvalidRequest),
                Some(w3) => if w3.0 != "HTTP/1.1"@ {
                    Err(ParseError::InvalidProtocol)
                } else {
                    match method_from_token(w1.0) {
                        Err(_) => Err(ParseError::InvalidMethod),
                        Ok(m) => Ok(split_query(m, w2.0)),
                    }
                },
            },
        },
    }
}

/// True when the parse outcome `r` carries the content `s` says it should:
/// the same error, or a request whose view is the parsed one.
pub open spec fn result_matches<'buf>(
    r: Result<Request<'buf>, ParseError>,
    s: Result<RequestView, ParseError>,
) -> bool {
    match r {
        Ok(req) => s matches Ok(v) && req@ == v,
        Err(e) => s matches Err(e2) && e == e2,
    }
}

/// True when the request's query parameters, if any, are well formed.
pub open spec fn parsed_query_wf<'buf>(r: Result<Request<'buf>, ParseError>) -> bool {
    match r {
        Ok(req) => match req.query_params {
            Some(q) => q.wf(),
            None => true,
        },
        Err(_) => true,
    }
}

/// The token before the first space or carriage return, and everything
/// after that delimiter; or nothing when no delimiter occurs.
pub fn get_next_word<'a>(text: &'a str) -> (r: Option<(&'a str, &'a str)>)
    ensures
        match r {
            Some(p) => next_word(text@) == Some((p.0@, p.1@)),
            None => next_word(text@) is None,
        },
{
    match find_delimiter(text) {
        Some(i) => {
            proof {
                lemma_first_delimiter(text@);
            }
            let n: usize = text.unicode_len();
            let word = text.substring_char(0, i);
            let rest = text.substring_char(i + 1, n);
            Some((word, rest))
        }
        None => None,
    }
}

/// Relies on std::str::from_utf8: it succeeds exactly when the bytes are
/// valid UTF-8, and then borrows them, decoded, as text.
#[verifier::external_body]
fn decode_buffer(buffer: &[u8]) -> (r: Option<&str>)
    ensures
        r is Some <==> valid_utf8(buffer@),
        r matches Some(t) ==> t@ == decode_utf8(buffer@),
{
    std::str::from_utf8(buffer).ok()
}

impl<'buf> Request<'buf> {
    /// A request assembled from already-validated parts.
    pub fn new(
        method: Method,
        path: &'buf str,
        query_params: Option<QueryString<'buf>>,
    ) -> (r: Request<'buf>)
        ensures
            r.method == method,
            r.path == path,
            r.query_params == query_params,
    {
        Request { method, path, query_params }
    }

    /// The request's method.
    pub fn method(&self) -> (m: &Method)
        ensures
            *m == self@.method,
    {
        &self.method
    }

    /// The request's path, without any query-string suffix.
    pub fn path(&self) -> (p: &'buf str)
        ensures
            p@ == self@.path,
    {
        self.path
    }

    /// The query parameters, present exactly when the path token held `?`.
    pub fn query_params(&self) -> (r: Option<&QueryString<'buf>>)
        ensures
            match r {
                Some(q) => {
                    &&& self.query_params matches Some(qq) && qq == *q
                    &&& self@.query_params == Some(q@)
                },
                None => self.query_params is None && self@.query_params is None,
            },
    {
        self.query_params.as_ref()
    }

    /// Parses one request line out of already-decoded text.
    pub fn parse_str(text: &'buf str) -> (r: Result<Request<'buf>, ParseError>)
        ensures
            result_matches(r, spec_parse(text@)),
            parsed_query_wf(r),
    {
        let (method_tok, rest1) = match get_next_word(text) {
            Some(p) => p,
            None => {
                return Err(ParseError::InvalidRequest);
            }
        };
        let (path_tok, rest2) = match get_next_word(rest1) {
            Some(p) => p,
            None => {
                return Err(ParseError::InvalidRequest);
            }
        };
        let (protocol, _rest3) = match get_next_word(rest2) {
            Some(p) => p,
            None => {
                return Err(ParseError::InvalidRequest);
            }
        };
        if !str_eq(protocol, "HTTP/1.1") {
            return Err(ParseError::InvalidProtocol);
        }
        let method = match Method::from_str(method_tok) {
            Ok(m) => m,
            Err(_) => {
                return Err(ParseError::InvalidMethod);
            }
        };
        match find_char(path_tok, '?') {
            Some(i) => {
                proof {
                    lemma_first_index_of(path_tok@, '?');
                }
                let n: usize = path_tok.unicode_len();
                let raw = path_tok.substring_char(i + 1, n);
                let path = path_tok.substring_char(0, i);
                let query = QueryString::parse(raw);
                Ok(Request { method, path, query_params: Some(query) })
            }
            None => Ok(Request { method, path: path_tok, query_params: None }),
        }
    }

    /// Parses one request line out of an untrusted byte buffer. Only the
    /// request line is consumed; header and body bytes that follow it are
    /// ignored entirely.
    pub fn parse(buffer: &'buf [u8]) -> (r: Result<Request<'buf>, ParseError>)
        ensures
            !valid_utf8(buffer@) ==> (r matches Err(e) && e == ParseError::InvalidEncoding),
            valid_utf8(buffer@) ==> result_matches(r, spec_parse(decode_utf8(buffer@))),
            parsed_query_wf(r),
    {
        match decode_buffer(buffer) {
            Some(text) => Self::parse_str(text),
            None => Err(ParseError::InvalidEncoding),
        }
    }
}

/// A well-formed request line parses to its own method and path: the path
/// excludes everything from the first `?` onward, and query parameters are
/// present, parsed from the suffix after `?`, exactly when a `?` occurs.
pub proof fn lemma_parse_request_line(m: Method, p: Seq<char>, rest: Seq<char>)
    requires
        has_no_delimiter(p),
    ensures
        ({
            let s = method_token(m) + seq![' '] + p + seq![' '] + "HTTP/1.1"@ + seq!['\r'] + rest;
            let q = first_index_of(p, '?');
            &&& spec_parse(s) matches Ok(v)
            &&& spec_parse(s)->Ok_0.method == m
            &&& (!(0 <= q < p.len()) ==> spec_parse(s)->Ok_0.path == p && spec_parse(
                s,
            )->Ok_0.query_params is None)
            &&& (0 <= q < p.len() ==> spec_parse(s)->Ok_0.path == p.take(q) && spec_parse(
                s,
            )->Ok_0.query_params == Some(parse_query(p.skip(q + 1))))
        }),
{
    reveal_strlit("GET");
    reveal_strlit("POST");
    reveal_strlit("PUT");
    reveal_strlit("DELETE");
    reveal_strlit("HEAD");
    reveal_strlit("HTTP/1.1");
    let s = method_token(m) + seq![' '] + p + seq![' '] + "HTTP/1.1"@ + seq!['\r'] + rest;
    let rest1 = p + seq![' '] + "HTTP/1.1"@ + seq!['\r'] + rest;
    let rest2 = "HTTP/1.1"@ + seq!['\r'] + rest;
    assert(has_no_delimiter(method_token(m))) by {
        match m {
            Method::GET => {}
            Method::POST => {}
            Method::PUT => {}
            Method::DELETE => {}
            Method::HEAD => {}
        }
    }
    assert(s =~= method_token(m) + seq![' '] + rest1);
    lemma_next_word_concat(method_token(m), ' ', rest1);
    assert(rest1 =~= p + seq![' '] + rest2);
    lemma_next_word_concat(p, ' ', rest2);
    assert(has_no_delimiter("HTTP/1.1"@));
    assert(rest2 =~= "HTTP/1.1"@ + seq!['\r'] + rest);
    lemma_next_word_concat("HTTP/1.1"@, '\r', rest);
    lemma_method_token_round_trip(m);
}

/// Parsing is deterministic: any two requests parsed from the same text
/// have identical method, path and query content.
pub proof fn lemma_parse_deterministic(s: Seq<char>, r1: RequestView, r2: RequestView)
    requires
        spec_parse(s) == Ok::<RequestView, ParseError>(r1),
        spec_parse(s) == Ok::<RequestView, ParseError>(r2),
    ensures
        r1 == r2,
{
}

} // verus!
