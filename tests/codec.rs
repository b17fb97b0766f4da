use quickserving_core::error::ParseError;
use quickserving_core::headers::{HeaderName, Headers};
use quickserving_core::method::Method;
use quickserving_core::request::Request;
use quickserving_core::response::Response;
use quickserving_core::status::StatusCode;
use quickserving_core::version::Version;

fn sample_request() -> Request {
    let mut headers = Headers::new();
    headers.insert(HeaderName::Host, "example.org".to_string());
    headers.insert(HeaderName::Accept, " text/html".to_string());
    headers.insert(HeaderName::UserAgent, "probe: 1".to_string());
    Request::new(
        Method::PATCH,
        "/a/b?c=d".to_string(),
        Version::new("HTTP".to_string(), "1.0".to_string()),
        headers,
        "line one\nline two\r\n\r\nafter a blank line".to_string(),
    )
}

#[test]
fn request_encodes_to_wire() {
    assert_eq!(
        sample_request().to_string(),
        "PATCH /a/b?c=d HTTP/1.0\nHost: example.org\nAccept:  text/html\nUser-Agent: probe: 1\n\r\nline one\nline two\r\n\r\nafter a blank line"
    );
}

#[test]
fn request_round_trips() {
    let r = sample_request();
    let back = Request::from_string(r.to_string()).ok().unwrap();
    assert_eq!(back.method, r.method);
    assert_eq!(back.path, r.path);
    assert_eq!(back.version.to_string(), "HTTP/1.0");
    assert_eq!(back.headers.to_string(), r.headers.to_string());
    assert_eq!(back.headers.get(&HeaderName::Accept), Some(&" text/html".to_string()));
    assert_eq!(back.body, r.body);
}

#[test]
fn response_round_trips() {
    let mut headers = Headers::new();
    headers.insert(HeaderName::ContentType, "text/plain".to_string());
    let r = Response::new(
        StatusCode::ImATeapot,
        Version::new("HTTP".to_string(), "1.1".to_string()),
        headers,
        "short and stout".to_string(),
    );
    let wire = r.to_string();
    assert_eq!(wire, "HTTP/1.1 418\nContent-Type: text/plain\n\r\nshort and stout");
    let back = Response::from_string(wire).ok().unwrap();
    assert_eq!(back.status, StatusCode::ImATeapot);
    assert_eq!(back.version.name, "HTTP");
    assert_eq!(back.version.version, "1.1");
    assert_eq!(back.headers.to_string(), "Content-Type: text/plain\n");
    assert_eq!(back.body, "short and stout");
}

#[test]
fn response_with_unknown_code_is_rejected() {
    let r = Response::from_string("HTTP/1.1 299\n\r\n".to_string());
    assert_eq!(r.err(), Some(ParseError::UnknownStatusCode));
    let r = Response::from_string("HTTP/1.1 20x\n\r\n".to_string());
    assert_eq!(r.err(), Some(ParseError::MalformedStartLine));
    let r = Response::from_string("HTTP/1.1 200 OK\n\r\n".to_string());
    assert_eq!(r.err(), Some(ParseError::MalformedStartLine));
}

#[test]
fn start_line_needs_three_tokens() {
    for raw in ["GET /x\n\r\n", "GET /x HTTP/1.1 extra\n\r\n", "", "GET  HTTP/1.1"] {
        let r = Request::from_string(raw.to_string());
        if raw == "GET  HTTP/1.1" {
            let r = r.ok().unwrap();
            assert_eq!(r.path, "");
            assert_eq!(r.body, "");
        } else {
            assert_eq!(r.err(), Some(ParseError::MalformedStartLine));
        }
    }
}

#[test]
fn bad_method_or_version_is_malformed_start_line() {
    let r = Request::from_string("get /x HTTP/1.1\n\r\n".to_string());
    assert_eq!(r.err(), Some(ParseError::MalformedStartLine));
    let r = Request::from_string("GET /x HTTP1.1\n\r\n".to_string());
    assert_eq!(r.err(), Some(ParseError::MalformedStartLine));
    let r = Request::from_string("GET /x HTTP/1/1\n\r\n".to_string());
    assert_eq!(r.err(), Some(ParseError::MalformedStartLine));
}

#[test]
fn header_line_without_colon_is_malformed() {
    let r = Request::from_string("GET /x HTTP/1.1\nHost example\n\r\n".to_string());
    assert_eq!(r.err(), Some(ParseError::MalformedHeaderLine));
}

#[test]
fn unknown_headers_are_dropped_and_last_wins() {
    let raw = "GET /x HTTP/1.1\r\nX-Custom: 1\r\nHost:a\r\nHost: b\r\n\r\nbody";
    let r = Request::from_string(raw.to_string()).ok().unwrap();
    assert_eq!(r.headers.to_string(), "Host: b\n");
    assert_eq!(r.body, "body");
}

#[test]
fn message_without_blank_line_has_empty_body() {
    let r = Request::from_string("DELETE /item HTTP/2.0\nCookie: k=v".to_string()).ok().unwrap();
    assert_eq!(r.method, Method::DELETE);
    assert_eq!(r.headers.get(&HeaderName::Cookie), Some(&"k=v".to_string()));
    assert_eq!(r.body, "");
}
