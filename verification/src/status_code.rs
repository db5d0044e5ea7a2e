//! The closed set of response status codes.

use vstd::prelude::*;

verus! {

/// A response status: a numeric code with a fixed reason phrase.
#[derive(PartialEq, Eq, Structural, Clone, Copy, Debug)]
pub enum StatusCode {
    Okay,
    BadRequest,
    NotFound,
}

/// The numeric code of each status.
pub open spec fn code_of(sc: StatusCode) -> u16 {
    match sc {
        StatusCode::Okay => 200,
        StatusCode::BadRequest => 400,
        StatusCode::NotFound => 404,
    }
}

/// The numeric code as the decimal digits written on the wire.
pub open spec fn code_text(sc: StatusCode) -> Seq<char> {
    match sc {
        StatusCode::Okay => "200"@,
        StatusCode::BadRequest => "400"@,
        StatusCode::NotFound => "404"@,
    }
}

/// The fixed reason phrase of each status.
pub open spec fn reason_text(sc: StatusCode) -> Seq<char> {
    match sc {
        StatusCode::Okay => "Ok"@,
        StatusCode::BadRequest => "BadRequest"@,
        StatusCode::NotFound => "NotFound"@,
    }
}

impl StatusCode {
    /// The numeric status code.
    pub fn code(&self) -> (c: u16)
        ensures
            c == code_of(*self),
    {
        match self {
            StatusCode::Okay => 200,
            StatusCode::BadRequest => 400,
            StatusCode::NotFound => 404,
        }
    }

    /// The fixed short reason identifier that follows the code on the wire.
    pub fn reason_phrase(&self) -> (r: &str)
        ensures
            r@ == reason_text(*self),
    {
        match self {
            StatusCode::Okay => "Ok",
            StatusCode::BadRequest => "BadRequest",
            StatusCode::NotFound => "NotFound",
        }
    }
}

} // verus!
