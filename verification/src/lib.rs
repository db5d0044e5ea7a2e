//! A minimal HTTP/1.1 request-parsing and response-serialization core.
//!
//! The library turns an untrusted byte buffer into a validated [`Request`]
//! (method, path, optional query parameters), all borrowing from the
//! original buffer, and serializes a status-line-only [`Response`].
//! Connection I/O is left to the caller; the [`Handler`] trait is the
//! extension point that turns a parsed request into a response.

pub mod method;
pub mod query_string;
pub mod request;
pub mod response;
pub mod scan;
pub mod server;
pub mod status_code;

pub use method::Method;
pub use method::MethodError;
pub use query_string::QueryString;
pub use query_string::Value;
pub use request::ParseError;
pub use request::Request;
pub use response::Response;
pub use server::Handler;
pub use server::Server;
pub use status_code::StatusCode;
