//! Outgoing responses: a status line, an empty line, then an optional body.

use crate::status_code::StatusCode;
use crate::status_code::code_text;
use crate::status_code::reason_text;
use vstd::prelude::*;

verus! {

/// An outgoing response. The body, when present, is owned: it is built
/// after the request buffer and does not borrow from it.
#[derive(Debug)]
pub struct Response {
    pub status_code: StatusCode,
    pub body: Option<String>,
}

/// The body's characters, or the empty sequence when there is no body.
pub open spec fn body_text(r: Response) -> Seq<char> {
    match r.body {
        Some(b) => b@,
        None => Seq::<char>::empty(),
    }
}

/// The status line and blank line that precede the body on the wire:
/// `"HTTP/1.1 <code> <reason>\r\n\r\n"`.
pub open spec fn status_line_text(sc: StatusCode) -> Seq<char> {
    "HTTP/1.1 "@ + code_text(sc) + " "@ + reason_text(sc) + "\r\n\r\n"@
}

/// Everything a response writes to its stream.
pub open spec fn response_text(r: Response) -> Seq<char> {
    status_line_text(r.status_code) + body_text(r)
}

/// True when `p` is a prefix of `s`.
pub open spec fn starts_with(s: Seq<char>, p: Seq<char>) -> bool {
    p.len() <= s.len() && s.take(p.len() as int) == p
}

/// Reads a serialized response back: the status whose status line prefixes
/// `s`, together with everything after that line as the body.
pub open spec fn parse_response_text(s: Seq<char>) -> Option<(StatusCode, Seq<char>)> {
    if starts_with(s, status_line_text(StatusCode::Okay)) {
        Some((StatusCode::Okay, s.skip(status_line_text(StatusCode::Okay).len() as int)))
    } else if starts_with(s, status_line_text(StatusCode::BadRequest)) {
        Some((StatusCode::BadRequest, s.skip(status_line_text(StatusCode::BadRequest).len() as int)))
    } else if starts_with(s, status_line_text(StatusCode::NotFound)) {
        Some((StatusCode::NotFound, s.skip(status_line_text(StatusCode::NotFound).len() as int)))
    } else {
        None
    }
}

/// Round trip: what [`Response::send`] writes, read back as a status line
/// followed by a body, yields exactly the status code and body the response
/// was built from.
pub proof fn lemma_send_round_trip(r: Response)
    ensures
        parse_response_text(response_text(r)) == Some((r.status_code, body_text(r))),
{
    reveal_strlit("HTTP/1.1 ");
    reveal_strlit("200");
    reveal_strlit("400");
    reveal_strlit("404");
    reveal_strlit("Ok");
    reveal_strlit("BadRequest");
    reveal_strlit("NotFound");
    reveal_strlit("\r\n\r\n");
    assert("HTTP/1.1 "@.len() == 9);
    assert("200"@.len() == 3);
    assert("400"@.len() == 3);
    assert("404"@.len() == 3);
    assert("200"@[0] == '2');
    assert("400"@[0] == '4');
    assert("404"@[0] == '4');
    assert("200"@[2] == '0');
    assert("400"@[2] == '0');
    assert("404"@[2] == '4');
    let line = status_line_text(r.status_code);
    let text = response_text(r);
    assert(text.take(line.len() as int) =~= line);
    assert(text.skip(line.len() as int) =~= body_text(r));
    assert(status_line_text(StatusCode::Okay)[9] == '2');
    assert(status_line_text(StatusCode::BadRequest)[9] == '4');
    assert(status_line_text(StatusCode::NotFound)[9] == '4');
    assert(status_line_text(StatusCode::BadRequest)[11] == '0');
    assert(status_line_text(StatusCode::NotFound)[11] == '4');
    match r.status_code {
        StatusCode::Okay => {
        }
        StatusCode::BadRequest => {
            assert(!starts_with(text, status_line_text(StatusCode::Okay))) by {
                if starts_with(text, status_line_text(StatusCode::Okay)) {
                    assert(text[9] == '2');
                    assert(text[9] == '4');
                }
            }
        }
        StatusCode::NotFound => {
            assert(!starts_with(text, status_line_text(StatusCode::Okay))) by {
                if starts_with(text, status_line_text(StatusCode::Okay)) {
                    assert(text[9] == '2');
                    assert(text[9] == '4');
                }
            }
            assert(!starts_with(text, status_line_text(StatusCode::BadRequest))) by {
                if starts_with(text, status_line_text(StatusCode::BadRequest)) {
                    assert(text[11] == '0');
                    assert(text[11] == '4');
                }
            }
        }
    }
}

impl Response {
    /// A response with the given status and optional body; no validation.
    pub fn new(status_code: StatusCode, body: Option<String>) -> (r: Response)
        ensures
            r.status_code == status_code,
            r.body == body,
    {
        Response { status_code, body }
    }

    /// Serializes the response onto the outgoing stream as the literal
    /// sequence `"HTTP/1.1 <code> <reason>\r\n\r\n<body>"`, with an empty
    /// string for an absent body. No headers are ever emitted.
    pub fn send(&self, stream: &mut String)
        ensures
            final(stream)@ == old(stream)@ + response_text(*self),
    {
        stream.append("HTTP/1.1 ");
        match self.status_code {
            StatusCode::Okay => stream.append("200"),
            StatusCode::BadRequest => stream.append("400"),
            StatusCode::NotFound => stream.append("404"),
        }
        stream.append(" ");
        stream.append(self.status_code.reason_phrase());
        stream.append("\r\n\r\n");
        match &self.body {
            Some(b) => stream.append(b.as_str()),
            None => {}
        }
        proof {
            assert(stream@ =~= old(stream)@ + response_text(*self));
        }
    }
}

} // verus!
