//! The closed set of supported HTTP verbs.

use crate::scan::str_eq;
use vstd::prelude::*;

verus! {

/// An HTTP method, parsed case-sensitively from a request-line token.
#[derive(PartialEq, Eq, Structural, Clone, Copy, Debug)]
pub enum Method {
    GET,
    POST,
    PUT,
    DELETE,
    HEAD,
}

/// Failure of [`Method::from_str`]: an unrecognized method token.
/// Carries no diagnostic payload.
#[derive(PartialEq, Eq, Structural, Clone, Copy, Debug)]
pub struct MethodError;

/// The exact token that names each method on the wire.
pub open spec fn method_token(m: Method) -> Seq<char> {
    match m {
        Method::GET => "GET"@,
        Method::POST => "POST"@,
        Method::PUT => "PUT"@,
        Method::DELETE => "DELETE"@,
        Method::HEAD => "HEAD"@,
    }
}

/// The method a token names, or an error for any other token.
pub open spec fn method_from_token(t: Seq<char>) -> Result<Method, MethodError> {
    if t == "GET"@ {
        Ok(Method::GET)
    } else if t == "POST"@ {
        Ok(Method::POST)
    } else if t == "PUT"@ {
        Ok(Method::PUT)
    } else if t == "DELETE"@ {
        Ok(Method::DELETE)
    } else if t == "HEAD"@ {
        Ok(Method::HEAD)
    } else {
        Err(MethodError)
    }
}

/// A method's own token parses back to that method.
pub proof fn lemma_method_token_round_trip(m: Method)
    ensures
        method_from_token(method_token(m)) == Ok::<Method, MethodError>(m),
{
    reveal_strlit("GET");
    reveal_strlit("POST");
    reveal_strlit("PUT");
    reveal_strlit("DELETE");
    reveal_strlit("HEAD");
    assert("GET"@.len() == 3);
    assert("POST"@.len() == 4);
    assert("PUT"@.len() == 3);
    assert("DELETE"@.len() == 6);
    assert("HEAD"@.len() == 4);
    assert("GET"@[0] == 'G');
    assert("PUT"@[0] == 'P');
    assert("POST"@[0] == 'P');
    assert("HEAD"@[0] == 'H');
}

impl Method {
    /// Matches the token against the exact literals `"GET"`, `"POST"`,
    /// `"PUT"`, `"DELETE"` and `"HEAD"`; anything else is an error.
    pub fn from_str(s: &str) -> (r: Result<Method, MethodError>)
        ensures
            r == method_from_token(s@),
    {
        if str_eq(s, "GET") {
            Ok(Method::GET)
        } else if str_eq(s, "POST") {
            Ok(Method::POST)
        } else if str_eq(s, "PUT") {
            Ok(Method::PUT)
        } else if str_eq(s, "DELETE") {
            Ok(Method::DELETE)
        } else if str_eq(s, "HEAD") {
            Ok(Method::HEAD)
        } else {
            Err(MethodError)
        }
    }
}

} // verus!
