//! The per-connection dispatch core and the pluggable handler contract.
//! Accepting, reading and writing sockets stay with the caller; the library
//! takes a filled buffer and produces the response to write back.

use crate::request::ParseError;
use crate::request::Request;
use crate::response::Response;
use crate::status_code::StatusCode;
use vstd::prelude::*;

verus! {

/// The extension point that turns a parsed request into a response.
///
/// `handle_request` is required and may hold arbitrary logic. A handler may
/// also override `handle_bad_request`; by default a bad request is answered
/// with `400 BadRequest` and no body.
pub trait Handler {
    /// Produces the response for a syntactically valid request.
    fn handle_request(&mut self, request: &Request) -> Response;

    /// Produces the response for a buffer that failed to parse.
    fn handle_bad_request(&mut self, _error: &ParseError) -> Response {
        default_bad_request()
    }
}

/// The default answer to a bad request, and what an unoverridden
/// [`Handler::handle_bad_request`] returns: `400 BadRequest` with no body.
/// The parse error itself is never sent to the peer.
pub fn default_bad_request() -> (r: Response)
    ensures
        r.status_code == StatusCode::BadRequest,
        r.body is None,
{
    Response::new(StatusCode::BadRequest, None)
}

/// The serving loop's state: the address to listen on. Accepting, reading
/// and writing are the caller's: per connection, the caller reads into a
/// fixed buffer and hands it to [`respond`].
pub struct Server {
    pub addr: String,
}

impl Server {
    /// A server that will listen on `addr`.
    pub fn new(addr: String) -> (s: Server)
        ensures
            s.addr == addr,
    {
        Server { addr }
    }
}

/// One connection's parse-and-dispatch step: parses the filled buffer and
/// dispatches to the handler — `handle_request` on success,
/// `handle_bad_request` on any parse failure. What the response holds is
/// the handler's to decide.
pub fn respond<H: Handler>(handler: &mut H, buffer: &[u8]) -> Response {
    match Request::parse(buffer) {
        Ok(request) => handler.handle_request(&request),
        Err(error) => handler.handle_bad_request(&error),
    }
}

} // verus!
