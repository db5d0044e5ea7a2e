use http_server::Handler;
use http_server::Method;
use http_server::ParseError;
use http_server::QueryString;
use http_server::Request;
use http_server::Response;
use http_server::Server;
use http_server::StatusCode;
use http_server::Value;
use http_server::request::get_next_word;

struct FixedHandler {
    served: usize,
}

impl Handler for FixedHandler {
    fn handle_request(&mut self, request: &Request) -> Response {
        self.served += 1;
        if request.path() == "/" {
            Response::new(StatusCode::Okay, Some("home".to_string()))
        } else {
            Response::new(StatusCode::NotFound, None)
        }
    }
}

#[test]
fn parses_simple_request_line() {
    let buffer = b"GET / HTTP/1.1\r\nHost: localhost\r\n\r\n";
    let request = Request::parse(&buffer[..]).unwrap();
    assert_eq!(*request.method(), Method::GET);
    assert_eq!(request.path(), "/");
    assert!(request.query_params().is_none());
}

#[test]
fn parses_each_supported_method() {
    let cases: Vec<(&[u8], Method)> = vec![
        (b"GET /a HTTP/1.1\r\n\r\n", Method::GET),
        (b"POST /a HTTP/1.1\r\n\r\n", Method::POST),
        (b"PUT /a HTTP/1.1\r\n\r\n", Method::PUT),
        (b"DELETE /a HTTP/1.1\r\n\r\n", Method::DELETE),
        (b"HEAD /a HTTP/1.1\r\n\r\n", Method::HEAD),
    ];
    for (buffer, method) in cases {
        let request = Request::parse(buffer).unwrap();
        assert_eq!(*request.method(), method);
        assert_eq!(request.path(), "/a");
    }
}

#[test]
fn splits_query_string_from_path() {
    let buffer = b"GET /search?q=rust&tag=lang&tag=web HTTP/1.1\r\n\r\n";
    let request = Request::parse(&buffer[..]).unwrap();
    assert_eq!(*request.method(), Method::GET);
    assert_eq!(request.path(), "/search");
    let query = request.query_params().expect("query parameters expected");
    match query.get("q") {
        Some(Value::Single(v)) => assert_eq!(*v, "rust"),
        other => panic!("unexpected value for q: {:?}", other),
    }
    match query.get("tag") {
        Some(Value::Multiple(vs)) => assert_eq!(vs, &vec!["lang", "web"]),
        other => panic!("unexpected value for tag: {:?}", other),
    }
    assert!(query.get("missing").is_none());
}

#[test]
fn path_without_question_mark_has_no_query() {
    let buffer = b"POST /submit HTTP/1.1\r\n\r\n";
    let request = Request::parse(&buffer[..]).unwrap();
    assert_eq!(request.path(), "/submit");
    assert!(request.query_params().is_none());
}

#[test]
fn reparsing_the_same_buffer_yields_identical_content() {
    let buffer = b"GET /search?q=rust&tag=lang&tag=web HTTP/1.1\r\n\r\n";
    let first = Request::parse(&buffer[..]).unwrap();
    let second = Request::parse(&buffer[..]).unwrap();
    assert_eq!(first.method(), second.method());
    assert_eq!(first.path(), second.path());
    let q1 = first.query_params().unwrap();
    let q2 = second.query_params().unwrap();
    for key in ["q", "tag", "absent"] {
        match (q1.get(key), q2.get(key)) {
            (None, None) => {}
            (Some(Value::Single(a)), Some(Value::Single(b))) => assert_eq!(a, b),
            (Some(Value::Multiple(a)), Some(Value::Multiple(b))) => assert_eq!(a, b),
            other => panic!("parses disagree on {}: {:?}", key, other),
        }
    }
}

#[test]
fn too_few_tokens_is_invalid_request() {
    assert_eq!(Request::parse(b"").unwrap_err(), ParseError::InvalidRequest);
    assert_eq!(Request::parse(b"GET").unwrap_err(), ParseError::InvalidRequest);
    assert_eq!(Request::parse(b"GET /").unwrap_err(), ParseError::InvalidRequest);
    assert_eq!(Request::parse(b"GET / HTTP/1.1").unwrap_err(), ParseError::InvalidRequest);
}

#[test]
fn non_utf8_buffer_is_invalid_encoding() {
    let buffer: [u8; 4] = [0xff, 0xfe, 0x20, 0x20];
    assert_eq!(Request::parse(&buffer[..]).unwrap_err(), ParseError::InvalidEncoding);
}

#[test]
fn wrong_protocol_token_is_invalid_protocol() {
    assert_eq!(
        Request::parse(b"GET / HTTP/1.0\r\n\r\n").unwrap_err(),
        ParseError::InvalidProtocol
    );
    assert_eq!(
        Request::parse(b"GET / http/1.1\r\n\r\n").unwrap_err(),
        ParseError::InvalidProtocol
    );
}

#[test]
fn unknown_method_token_is_invalid_method() {
    assert_eq!(
        Request::parse(b"FOO / HTTP/1.1\r\n\r\n").unwrap_err(),
        ParseError::InvalidMethod
    );
    assert_eq!(
        Request::parse(b"get / HTTP/1.1\r\n\r\n").unwrap_err(),
        ParseError::InvalidMethod
    );
}

#[test]
fn default_bad_request_is_a_bare_400() {
    let response = http_server::server::default_bad_request();
    assert_eq!(response.status_code, StatusCode::BadRequest);
    assert!(response.body.is_none());
    let mut wire = String::new();
    response.send(&mut wire);
    assert_eq!(wire, "HTTP/1.1 400 BadRequest\r\n\r\n");
}

#[test]
fn default_bad_request_handling_serializes_as_bare_400() {
    let mut handler = FixedHandler { served: 0 };
    let error = Request::parse(b"FOO / HTTP/1.1\r\n\r\n").unwrap_err();
    assert_eq!(error, ParseError::InvalidMethod);
    let response = handler.handle_bad_request(&error);
    assert_eq!(response.status_code, StatusCode::BadRequest);
    assert!(response.body.is_none());
    let mut wire = String::new();
    response.send(&mut wire);
    assert_eq!(wire, "HTTP/1.1 400 BadRequest\r\n\r\n");
    assert_eq!(handler.served, 0);
}

#[test]
fn zero_filled_buffer_gets_a_400_and_serving_goes_on() {
    let buffer = [0u8; 1024];
    let mut handler = FixedHandler { served: 0 };
    let response = http_server::server::respond(&mut handler, &buffer[..]);
    assert_eq!(response.status_code, StatusCode::BadRequest);
    assert!(response.body.is_none());
    let mut wire = String::new();
    response.send(&mut wire);
    assert_eq!(wire, "HTTP/1.1 400 BadRequest\r\n\r\n");
    let ok = http_server::server::respond(&mut handler, b"GET / HTTP/1.1\r\n\r\n");
    assert_eq!(ok.status_code, StatusCode::Okay);
    assert_eq!(handler.served, 1);
}

#[test]
fn respond_dispatches_parsed_requests_to_the_handler() {
    let mut handler = FixedHandler { served: 0 };
    let ok = http_server::server::respond(&mut handler, b"GET / HTTP/1.1\r\n\r\n");
    assert_eq!(ok.status_code, StatusCode::Okay);
    assert_eq!(ok.body.as_deref(), Some("home"));
    let missing = http_server::server::respond(&mut handler, b"GET /nope HTTP/1.1\r\n\r\n");
    assert_eq!(missing.status_code, StatusCode::NotFound);
    assert!(missing.body.is_none());
    assert_eq!(handler.served, 2);
}

#[test]
fn send_writes_status_line_blank_line_then_body() {
    let response = Response::new(StatusCode::Okay, Some("hello".to_string()));
    let mut wire = String::new();
    response.send(&mut wire);
    assert_eq!(wire, "HTTP/1.1 200 Ok\r\n\r\nhello");

    let response = Response::new(StatusCode::NotFound, None);
    let mut wire = String::new();
    response.send(&mut wire);
    assert_eq!(wire, "HTTP/1.1 404 NotFound\r\n\r\n");
}

#[test]
fn send_appends_to_what_the_stream_already_holds() {
    let mut wire = String::from("before|");
    Response::new(StatusCode::Okay, None).send(&mut wire);
    assert_eq!(wire, "before|HTTP/1.1 200 Ok\r\n\r\n");
}

#[test]
fn status_codes_and_reason_phrases() {
    assert_eq!(StatusCode::Okay.code(), 200);
    assert_eq!(StatusCode::BadRequest.code(), 400);
    assert_eq!(StatusCode::NotFound.code(), 404);
    assert_eq!(StatusCode::Okay.reason_phrase(), "Ok");
    assert_eq!(StatusCode::BadRequest.reason_phrase(), "BadRequest");
    assert_eq!(StatusCode::NotFound.reason_phrase(), "NotFound");
}

#[test]
fn method_tokens_parse_case_sensitively() {
    assert_eq!(Method::from_str("GET").unwrap(), Method::GET);
    assert_eq!(Method::from_str("POST").unwrap(), Method::POST);
    assert_eq!(Method::from_str("PUT").unwrap(), Method::PUT);
    assert_eq!(Method::from_str("DELETE").unwrap(), Method::DELETE);
    assert_eq!(Method::from_str("HEAD").unwrap(), Method::HEAD);
    assert!(Method::from_str("get").is_err());
    assert!(Method::from_str("").is_err());
    assert!(Method::from_str("PATCH").is_err());
}

#[test]
fn parse_error_messages() {
    assert_eq!(ParseError::InvalidRequest.message(), "Invalid Request");
    assert_eq!(ParseError::InvalidEncoding.message(), "Invalid Encoding");
    assert_eq!(ParseError::InvalidProtocol.message(), "Invalid Protocol");
    assert_eq!(ParseError::InvalidMethod.message(), "Invalid Method");
}

#[test]
fn query_string_collects_duplicate_keys_in_insertion_order() {
    let query = QueryString::parse("a=1&a=2&a=3");
    match query.get("a") {
        Some(Value::Multiple(vs)) => assert_eq!(vs, &vec!["1", "2", "3"]),
        other => panic!("unexpected value for a: {:?}", other),
    }
}

#[test]
fn query_string_degrades_gracefully_on_malformed_input() {
    let query = QueryString::parse("key");
    match query.get("key") {
        Some(Value::Single(v)) => assert_eq!(*v, ""),
        other => panic!("unexpected value for key: {:?}", other),
    }

    let query = QueryString::parse("=v");
    match query.get("") {
        Some(Value::Single(v)) => assert_eq!(*v, "v"),
        other => panic!("unexpected value for empty key: {:?}", other),
    }

    let query = QueryString::parse("a=b=c");
    match query.get("a") {
        Some(Value::Single(v)) => assert_eq!(*v, "b=c"),
        other => panic!("unexpected value for a: {:?}", other),
    }

    let query = QueryString::parse("");
    match query.get("") {
        Some(Value::Single(v)) => assert_eq!(*v, ""),
        other => panic!("unexpected value for empty segment: {:?}", other),
    }
}

#[test]
fn get_next_word_splits_at_space_or_carriage_return() {
    assert_eq!(get_next_word("GET / HTTP/1.1"), Some(("GET", "/ HTTP/1.1")));
    assert_eq!(get_next_word("HTTP/1.1\r\nHost: x"), Some(("HTTP/1.1", "\nHost: x")));
    assert_eq!(get_next_word("token"), None);
    assert_eq!(get_next_word(""), None);
    assert_eq!(get_next_word(" rest"), Some(("", "rest")));
}

#[test]
fn request_new_keeps_its_parts() {
    let request = Request::new(Method::PUT, "/x", None);
    assert_eq!(*request.method(), Method::PUT);
    assert_eq!(request.path(), "/x");
    assert!(request.query_params().is_none());
}

#[test]
fn server_keeps_its_address() {
    let server = Server::new("127.0.0.1:8080".to_string());
    assert_eq!(server.addr, "127.0.0.1:8080");
}
