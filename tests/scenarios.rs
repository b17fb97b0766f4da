use quickserving_core::config::{ResponseConfig, ResponseHTTPConfig, ServerConfig};
use quickserving_core::error::ParseError;
use quickserving_core::headers::{HeaderName, Headers};
use quickserving_core::method::Method;
use quickserving_core::request::Request;
use quickserving_core::server::{create_response_at, Server};

const DATE: &str = "2024-01-01 00:00:00 UTC";

fn text_route_table() -> ServerConfig {
    let mut config = ServerConfig::new(3000);
    let mut headers = Headers::new();
    headers.insert(HeaderName::ContentType, "text/plain".to_string());
    config.add_route(
        "/hello".to_string(),
        Method::GET,
        ResponseConfig::Text { text: "hi".to_string(), http: ResponseHTTPConfig { headers } },
    );
    config
}

fn file_route_table() -> ServerConfig {
    let mut config = ServerConfig::new(3000);
    let mut headers = Headers::new();
    headers.insert(HeaderName::ContentType, "text/plain".to_string());
    headers.insert(HeaderName::ContentLength, "999".to_string());
    config.add_route(
        "/file".to_string(),
        Method::GET,
        ResponseConfig::File { source: "./abcde.txt".to_string(), http: ResponseHTTPConfig { headers } },
    );
    config
}

fn answer(server: &Server, raw: &str, content: Option<String>) -> String {
    let request = Request::from_string(raw.to_string()).ok().unwrap();
    create_response_at(server, &request, content, DATE).to_string()
}

fn not_found_wire() -> String {
    format!(
        "HTTP/1.1 404\nContent-Type: text/html\nHost: quickserving\nDate: {}\nContent-Length: 12\n\r\n<h1>404</h1>",
        DATE
    )
}

#[test]
fn text_route_answers_with_its_text() {
    let server = Server::new(text_route_table());
    assert_eq!(
        answer(&server, "GET /hello HTTP/1.1\n\r\n", None),
        "HTTP/1.1 200\nContent-Type: text/plain\nContent-Length: 2\n\r\nhi"
    );
}

#[test]
fn missing_path_gets_fallback() {
    let server = Server::new(text_route_table());
    let wire = answer(&server, "GET /missing HTTP/1.1\n\r\n", None);
    assert_eq!(wire, not_found_wire());
    assert!(wire.ends_with("\r\n<h1>404</h1>"));
    assert!(wire.contains("Content-Length: 12\n"));
}

#[test]
fn other_method_gets_fallback() {
    let server = Server::new(text_route_table());
    assert_eq!(answer(&server, "POST /hello HTTP/1.1\n\r\n", None), not_found_wire());
}

#[test]
fn garbage_start_line_is_malformed() {
    let r = Request::from_string("GARBAGE\n\r\n".to_string());
    assert_eq!(r.err(), Some(ParseError::MalformedStartLine));
}

#[test]
fn file_route_recomputes_stale_length() {
    let server = Server::new(file_route_table());
    let request = Request::from_string("GET /file HTTP/1.1\n\r\n".to_string()).ok().unwrap();
    assert_eq!(server.file_to_read(&request), Some("./abcde.txt".to_string()));
    let response = create_response_at(&server, &request, Some("ABCDE".to_string()), DATE);
    assert_eq!(response.headers.get(&HeaderName::ContentLength), Some(&"5".to_string()));
    assert_eq!(
        response.to_string(),
        "HTTP/1.1 200\nContent-Type: text/plain\nContent-Length: 5\n\r\nABCDE"
    );
}

#[test]
fn unreadable_file_matches_missing_route() {
    let files = Server::new(file_route_table());
    let texts = Server::new(text_route_table());
    let unreadable = answer(&files, "GET /file HTTP/1.1\n\r\n", None);
    let missing = answer(&texts, "GET /nowhere HTTP/1.1\n\r\n", None);
    assert_eq!(unreadable, missing);
    assert_eq!(unreadable, not_found_wire());
}

#[test]
fn routes_match_exactly() {
    let mut config = ServerConfig::new(80);
    config.add_route(
        "/a".to_string(),
        Method::GET,
        ResponseConfig::Text { text: "a".to_string(), http: ResponseHTTPConfig { headers: Headers::new() } },
    );
    assert!(config.find_response_config(&"/a".to_string(), &Method::GET).is_some());
    assert!(config.find_response_config(&"/a".to_string(), &Method::POST).is_none());
    assert!(config.find_response_config(&"/a/".to_string(), &Method::GET).is_none());
    let server = Server::new(config);
    assert_eq!(answer(&server, "POST /a HTTP/1.1\n\r\n", None), not_found_wire());
    assert_eq!(answer(&server, "GET /a/ HTTP/1.1\n\r\n", None), not_found_wire());
    assert!(answer(&server, "GET /a HTTP/1.1\n\r\n", None).starts_with("HTTP/1.1 200\n"));
}

#[test]
fn later_route_for_same_key_wins() {
    let mut config = ServerConfig::new(80);
    for text in ["first", "second"] {
        config.add_route(
            "/x".to_string(),
            Method::GET,
            ResponseConfig::Text { text: text.to_string(), http: ResponseHTTPConfig { headers: Headers::new() } },
        );
    }
    assert_eq!(config.route_count(), 1);
    match config.find_response_config(&"/x".to_string(), &Method::GET) {
        Some(ResponseConfig::Text { text, .. }) => assert_eq!(text, "second"),
        _ => panic!("expected the text route"),
    }
}

#[test]
fn length_counts_utf8_bytes() {
    let mut config = ServerConfig::new(80);
    config.add_route(
        "/e".to_string(),
        Method::GET,
        ResponseConfig::Text { text: "é€".to_string(), http: ResponseHTTPConfig { headers: Headers::new() } },
    );
    let server = Server::new(config);
    assert_eq!(answer(&server, "GET /e HTTP/1.1\n\r\n", None), "HTTP/1.1 200\nContent-Length: 5\n\r\né€");
}

#[test]
fn fallback_dated_now_has_fixed_parts() {
    let r = quickserving_core::server::create_404_response();
    assert_eq!(r.body, "<h1>404</h1>");
    assert_eq!(r.headers.get(&HeaderName::ContentLength), Some(&"12".to_string()));
    assert_eq!(r.headers.get(&HeaderName::ContentType), Some(&"text/html".to_string()));
    assert!(!r.headers.get(&HeaderName::Date).unwrap().is_empty());
}
