use quickserving_core::directory::{directory_response, directory_response_at};
use quickserving_core::headers::HeaderName;
use quickserving_core::options::Config;

const DATE: &str = "2024-01-01 00:00:00 UTC";

#[test]
fn slash_path_names_index_file() {
    let c = Config::default();
    assert_eq!(c.requested_path("/docs/"), "/docs/index.html");
    assert_eq!(c.requested_path("/docs/a.txt"), "/docs/a.txt");
    assert_eq!(c.resource_path("/"), ".///index.html");
    assert_eq!(c.resource_path("/x.css"), ".///x.css");
}

#[test]
fn found_file_is_typed_by_extension() {
    let c = Config::default();
    let r = directory_response_at(&c, "/", Some("hello".to_string()), None, DATE);
    assert_eq!(
        r.to_string(),
        format!("HTTP/1.1 200\nContent-Type: text/html\nDate: {}\nContent-Length: 5\n\r\nhello", DATE)
    );
    let css = directory_response_at(&c, "/site.css", Some("a{}".to_string()), None, DATE);
    assert_eq!(css.headers.get(&HeaderName::ContentType), Some(&"text/css".to_string()));
    let odd = directory_response_at(&c, "/blob", Some("?".to_string()), None, DATE);
    assert_eq!(odd.headers.get(&HeaderName::ContentType), Some(&"application/octet-stream".to_string()));
}

#[test]
fn missing_file_gets_not_found_page() {
    let c = Config::default();
    let r = directory_response_at(&c, "/gone", None, Some("<p>nope</p>".to_string()), DATE);
    assert_eq!(r.to_string(), "HTTP/1.1 404\nContent-Type: text/html\nContent-Length: 11\n\r\n<p>nope</p>");
    let bare = directory_response(&c, "/gone", None, None);
    assert_eq!(bare.to_string(), "HTTP/1.1 404\nContent-Type: text/html\nContent-Length: 3\n\r\n404");
}
