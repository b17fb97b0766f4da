use quickserving_core::error::ParseError;
use quickserving_core::headers::{HeaderName, Headers};
use quickserving_core::logging::{format_log_line, LogLevel};
use quickserving_core::method::Method;
use quickserving_core::options::{Config, QServeOptions};
use quickserving_core::status::StatusCode;
use quickserving_core::version::Version;

const ALL_HEADERS: [HeaderName; 41] = [
    HeaderName::ContentMD5, HeaderName::HTTP2Settings, HeaderName::Warning, HeaderName::Pragma,
    HeaderName::AIM, HeaderName::Accept, HeaderName::AcceptCharset, HeaderName::AcceptEncoding,
    HeaderName::AcceptLanguage, HeaderName::Authorization, HeaderName::CacheControl,
    HeaderName::Connection, HeaderName::ContentEncoding, HeaderName::ContentLength,
    HeaderName::ContentType, HeaderName::Date, HeaderName::Expect, HeaderName::Forwarded,
    HeaderName::From, HeaderName::Host, HeaderName::IfMatch, HeaderName::IfModifiedSince,
    HeaderName::IfNoneMatch, HeaderName::IfRange, HeaderName::IfUnmodifiedSince,
    HeaderName::MaxForwards, HeaderName::Prefer, HeaderName::ProxyAuthorization, HeaderName::Range,
    HeaderName::Referer, HeaderName::TE, HeaderName::Trailer, HeaderName::TransferEncoding,
    HeaderName::UserAgent, HeaderName::Upgrade, HeaderName::Via,
    HeaderName::AccessControlRequestMethod, HeaderName::AccessControlRequestHeaders,
    HeaderName::Cookie, HeaderName::Origin, HeaderName::AcceptDatetime,
];

#[test]
fn every_header_name_parses_back() {
    for h in ALL_HEADERS {
        assert_eq!(HeaderName::parse(h.as_str()), Ok(h));
        assert_eq!(HeaderName::parse(&h.to_string()), Ok(h));
    }
    assert_eq!(HeaderName::AcceptCharset.as_str(), "Accept-Charset");
    assert_eq!(HeaderName::AcceptDatetime.as_str(), "Accept-Datetime");
}

#[test]
fn header_names_are_case_sensitive() {
    assert_eq!(HeaderName::parse("content-type"), Err(ParseError::UnknownHeaderName));
    assert_eq!(HeaderName::parse("X-Unknown"), Err(ParseError::UnknownHeaderName));
    assert_eq!(HeaderName::parse(""), Err(ParseError::UnknownHeaderName));
}

#[test]
fn status_codes_map_both_ways() {
    for (code, status) in [(200u16, StatusCode::OK), (404, StatusCode::NotFound), (100, StatusCode::Continue), (598, StatusCode::NetworkReadTimeoutError)] {
        assert_eq!(status.to_numeric(), code);
        assert_eq!(StatusCode::from_numeric(code), Ok(status));
        assert_eq!(StatusCode::from_numeric(status.to_numeric()), Ok(status));
    }
    for code in [0u16, 99, 299, 599, 600, 65535] {
        assert_eq!(StatusCode::from_numeric(code), Err(ParseError::UnknownStatusCode));
    }
    assert_eq!(StatusCode::NotFound.reason_phrase(), "Not Found");
}

#[test]
fn every_status_number_parses_back() {
    let mut found = 0;
    for n in 0u16..1000 {
        if let Ok(s) = StatusCode::from_numeric(n) {
            assert_eq!(s.to_numeric(), n);
            found += 1;
        }
    }
    assert_eq!(found, 92);
}

#[test]
fn methods_parse_exactly() {
    for m in [Method::GET, Method::HEAD, Method::OPTIONS, Method::TRACE, Method::PUT, Method::DELETE, Method::POST, Method::PATCH, Method::CONNECT] {
        assert_eq!(Method::parse(m.as_str()), Ok(m));
    }
    assert_eq!(Method::parse("get"), Err(ParseError::UnknownMethod));
    assert_eq!(Method::parse("GETS"), Err(ParseError::UnknownMethod));
}

#[test]
fn versions_have_exactly_one_slash() {
    let v = Version::parse("HTTP/1.1").ok().unwrap();
    assert_eq!(v.name, "HTTP");
    assert_eq!(v.version, "1.1");
    assert_eq!(v.to_string(), "HTTP/1.1");
    assert_eq!(Version::parse("HTTP").err(), Some(ParseError::UnknownVersionFormat));
    assert_eq!(Version::parse("A/B/C").err(), Some(ParseError::UnknownVersionFormat));
    let empty = Version::parse("/").ok().unwrap();
    assert_eq!(empty.name, "");
    assert_eq!(empty.version, "");
}

#[test]
fn headers_insert_overwrites_in_place() {
    let mut h = Headers::new();
    assert_eq!(h.insert(HeaderName::Host, "a".to_string()), None);
    assert_eq!(h.insert(HeaderName::Accept, "b".to_string()), None);
    assert_eq!(h.insert(HeaderName::Host, "c".to_string()), Some("a".to_string()));
    assert_eq!(h.get(&HeaderName::Host), Some(&"c".to_string()));
    assert_eq!(h.to_string(), "Host: c\nAccept: b\n");
}

#[test]
fn headers_remove_is_safe_when_absent() {
    let mut h = Headers::new();
    assert_eq!(h.remove(HeaderName::Date), None);
    h.insert(HeaderName::Date, "today".to_string());
    h.insert(HeaderName::Via, "proxy".to_string());
    assert_eq!(h.remove(HeaderName::Date), Some("today".to_string()));
    assert_eq!(h.get(&HeaderName::Date), None);
    assert_eq!(h.to_string(), "Via: proxy\n");
}

#[test]
fn header_block_reads_known_lines() {
    let h = Headers::from_string("Host: a: b\r\nbroken line\nX-Other: 1\nContent-Type: text/html\n\nHost: c");
    assert_eq!(h.to_string(), "Host: c\nContent-Type: text/html\n");
    let back = Headers::from_string(&h.to_string());
    assert_eq!(back.to_string(), h.to_string());
    let colon = Headers::from_string("Host: a: b");
    assert_eq!(colon.get(&HeaderName::Host), Some(&"a: b".to_string()));
}

#[test]
fn log_line_layout() {
    assert_eq!(
        format_log_line(LogLevel::WARN, "careful", "2024-05-06", "07:08:09"),
        "[WARN] 2024-05-06 07:08:09 => careful"
    );
    assert_eq!(LogLevel::INFO.to_string(), "INFO");
}

#[test]
fn option_listing_and_defaults() {
    let o = QServeOptions::default();
    assert_eq!(
        o.to_string(),
        "port = \"2500\"\ndir = \"./my_project_html\"\nstatic_dir = \"./my_project_html/static\" "
    );
    let c = Config::default();
    assert_eq!(c.port, 3000);
    assert_eq!(c.directory, "./");
    assert_eq!(c.index_file, "index.html");
    assert_eq!(c.not_found_uri, "404.html");
}
