//! Resolving a request against the route table and building the response.

use vstd::prelude::*;
use vstd::utf8::encode_utf8;
use crate::config::{
    ResponseConfig, ResponseHTTPConfig, ResponseSpecModel, RouteModel, ServerConfig, ServerConfigModel,
    lookup_route,
};
use crate::headers::{
    HeaderEntry, HeaderName, Headers, insert_entry, lemma_insert_new, lemma_key_index_bounds, lookup,
    remove_key,
};
use crate::method::Method;
use crate::request::Request;
use crate::response::{Response, ResponseModel, response_text};
use crate::status::StatusCode;
use crate::text::{decimal, decimal_text};
use crate::version::{Version, VersionModel};

verus! {

/// The number of bytes of the UTF-8 encoding of `s`.
pub open spec fn byte_len(s: Seq<char>) -> nat {
    encode_utf8(s).len()
}

/// `h` with its `Content-Length` set, as the last entry, to the byte length of `body`.
pub open spec fn with_length(h: Seq<HeaderEntry>, body: Seq<char>) -> Seq<HeaderEntry> {
    insert_entry(remove_key(h, HeaderName::ContentLength), HeaderName::ContentLength, decimal_text(byte_len(body)))
}

/// The version every built response carries: `HTTP/1.1`.
pub open spec fn http11() -> VersionModel {
    ("HTTP"@, "1.1"@)
}

/// A `200` response with the given headers and body, its length recomputed.
pub open spec fn ok_model(h: Seq<HeaderEntry>, body: Seq<char>) -> ResponseModel {
    ResponseModel { status: StatusCode::OK, version: http11(), headers: with_length(h, body), body }
}

/// The fixed body of the fallback response.
pub open spec fn not_found_body() -> Seq<char> {
    "<h1>404</h1>"@
}

/// The fallback response, given the date it carries.
pub open spec fn not_found_model(date: Seq<char>) -> ResponseModel {
    ResponseModel {
        status: StatusCode::NotFound,
        version: http11(),
        headers: with_length(
            seq![
                (HeaderName::ContentType, "text/html"@),
                (HeaderName::Host, "quickserving"@),
                (HeaderName::Date, date),
            ],
            not_found_body(),
        ),
        body: not_found_body(),
    }
}

/// The response to `(m, p)` under route table `t`: the configured text, the file
/// contents `content` when it could be read, and the fallback otherwise.
pub open spec fn resolve(
    t: Seq<RouteModel>,
    m: Method,
    p: Seq<char>,
    content: Option<Seq<char>>,
    date: Seq<char>,
) -> ResponseModel {
    match lookup_route(t, m, p) {
        None => not_found_model(date),
        Some(ResponseSpecModel::Text { text, headers }) => ok_model(headers, text),
        Some(ResponseSpecModel::File { source, headers }) => match content {
            Some(c) => ok_model(headers, c),
            None => not_found_model(date),
        },
    }
}

/// After removing a name, no entry carries it.
pub proof fn lemma_remove_key(h: Seq<HeaderEntry>, k: HeaderName)
    ensures
        forall|i: int| 0 <= i < remove_key(h, k).len() ==> remove_key(h, k)[i].0 != k,
    decreases h.len(),
{
    if h.len() > 0 {
        lemma_remove_key(h.drop_last(), k);
    }
}

/// Setting the length leaves exactly one `Content-Length`, last, holding the byte
/// length of the body; the other entries are those of `h` without it.
pub proof fn lemma_with_length(h: Seq<HeaderEntry>, body: Seq<char>)
    ensures
        with_length(h, body) == remove_key(h, HeaderName::ContentLength).push(
            (HeaderName::ContentLength, decimal_text(byte_len(body))),
        ),
        lookup(with_length(h, body), HeaderName::ContentLength) == Some(decimal_text(byte_len(body))),
{
    let r = remove_key(h, HeaderName::ContentLength);
    let e = (HeaderName::ContentLength, decimal_text(byte_len(body)));
    lemma_remove_key(h, HeaderName::ContentLength);
    lemma_key_index_bounds(r, HeaderName::ContentLength, 0);
    lemma_key_index_bounds(r.push(e), HeaderName::ContentLength, 0);
    assert(r.push(e)[r.len() as int] == e);
}

/// Every response the resolver builds carries a `Content-Length` equal to the byte
/// length of its body, exactly once and as its last header.
pub proof fn lemma_content_length_exact(
    t: Seq<RouteModel>,
    m: Method,
    p: Seq<char>,
    content: Option<Seq<char>>,
    date: Seq<char>,
)
    ensures
        ({
            let r = resolve(t, m, p, content, date);
            &&& lookup(r.headers, HeaderName::ContentLength) == Some(decimal_text(byte_len(r.body)))
            &&& r.headers.len() > 0
            &&& r.headers.last() == (HeaderName::ContentLength, decimal_text(byte_len(r.body)))
            &&& forall|i: int| 0 <= i < r.headers.len() - 1 ==> r.headers[i].0 != HeaderName::ContentLength
        }),
{
    let r = resolve(t, m, p, content, date);
    let h = match lookup_route(t, m, p) {
        None => seq![
            (HeaderName::ContentType, "text/html"@),
            (HeaderName::Host, "quickserving"@),
            (HeaderName::Date, date),
        ],
        Some(ResponseSpecModel::Text { text, headers }) => headers,
        Some(ResponseSpecModel::File { source, headers }) => match content {
            Some(c) => headers,
            None => seq![
                (HeaderName::ContentType, "text/html"@),
                (HeaderName::Host, "quickserving"@),
                (HeaderName::Date, date),
            ],
        },
    };
    assert(r.headers == with_length(h, r.body));
    lemma_with_length(h, r.body);
    lemma_remove_key(h, HeaderName::ContentLength);
}

/// A file route answers with the file's contents and their exact byte length,
/// whatever `Content-Length` its configured headers held.
pub proof fn lemma_file_length_overrides(
    t: Seq<RouteModel>,
    m: Method,
    p: Seq<char>,
    source: Seq<char>,
    headers: Seq<HeaderEntry>,
    c: Seq<char>,
    date: Seq<char>,
)
    requires
        lookup_route(t, m, p) == Some(ResponseSpecModel::File { source, headers }),
    ensures
        resolve(t, m, p, Some(c), date).status == StatusCode::OK,
        resolve(t, m, p, Some(c), date).body == c,
        lookup(resolve(t, m, p, Some(c), date).headers, HeaderName::ContentLength) == Some(
            decimal_text(byte_len(c)),
        ),
{
    lemma_with_length(headers, c);
}

/// A request for a path with no route and a request for a file route whose file
/// cannot be read get the same response, byte for byte, for the same date.
pub proof fn lemma_fallback_determinism(
    t1: Seq<RouteModel>,
    m1: Method,
    p1: Seq<char>,
    c1: Option<Seq<char>>,
    t2: Seq<RouteModel>,
    m2: Method,
    p2: Seq<char>,
    date: Seq<char>,
)
    requires
        lookup_route(t1, m1, p1) is None,
        lookup_route(t2, m2, p2) matches Some(ResponseSpecModel::File { .. }),
    ensures
        resolve(t1, m1, p1, c1, date) == not_found_model(date),
        resolve(t2, m2, p2, None, date) == not_found_model(date),
        response_text(resolve(t1, m1, p1, c1, date)) == response_text(resolve(t2, m2, p2, None, date)),
{
}

/// Relies on `chrono::Utc::now` and the `Display` of `chrono::DateTime<Utc>`: the
/// current time as text. Nothing is known of the value.
#[verifier::external_body]
pub(crate) fn current_date() -> (r: String) {
    chrono::Utc::now().to_string()
}

/// `HTTP/1.1`.
fn http11_version() -> (r: Version)
    ensures
        r@ == http11(),
{
    Version::new("HTTP".to_owned(), "1.1".to_owned())
}

/// A copy of `headers` whose `Content-Length` is the byte length of `body`.
pub(crate) fn with_content_length(headers: &Headers, body: &String) -> (r: Headers)
    ensures
        r@ == with_length(headers@, body@),
{
    let mut h = headers.clone();
    h.remove(HeaderName::ContentLength);
    let n = body.as_str().as_bytes().len();
    h.insert(HeaderName::ContentLength, decimal(n));
    h
}

/// The fallback response carrying `date`.
pub fn not_found_response(date: &str) -> (r: Response)
    ensures
        r@ == not_found_model(date@),
{
    let mut headers = Headers::new();
    proof {
        lemma_insert_new(headers@, HeaderName::ContentType, "text/html"@);
    }
    headers.insert(HeaderName::ContentType, "text/html".to_owned());
    proof {
        lemma_insert_new(headers@, HeaderName::Host, "quickserving"@);
    }
    headers.insert(HeaderName::Host, "quickserving".to_owned());
    proof {
        lemma_insert_new(headers@, HeaderName::Date, date@);
    }
    headers.insert(HeaderName::Date, date.to_owned());
    proof {
        assert(headers@ =~= seq![
            (HeaderName::ContentType, "text/html"@),
            (HeaderName::Host, "quickserving"@),
            (HeaderName::Date, date@),
        ]);
    }
    let body = "<h1>404</h1>".to_owned();
    let headers = with_content_length(&headers, &body);
    Response::new(StatusCode::NotFound, http11_version(), headers, body)
}

/// The fallback response, dated now.
pub fn create_404_response() -> (r: Response)
    ensures
        exists|d: Seq<char>| r@ == not_found_model(d),
{
    let date = current_date();
    not_found_response(date.as_str())
}

/// A `200` response with the configured text and headers, its length recomputed.
pub fn create_text_response(text: &String, response_config: &ResponseHTTPConfig) -> (r: Response)
    ensures
        r@ == ok_model(response_config.headers@, text@),
{
    let headers = with_content_length(&response_config.headers, text);
    Response::new(StatusCode::OK, http11_version(), headers, text.clone())
}

/// A `200` response with the contents of a file and the configured headers, its
/// length recomputed; the fallback response, dated `date`, when the file could not
/// be read (`content` is `None`).
pub fn create_file_response(content: Option<String>, response_config: &ResponseHTTPConfig, date: &str) -> (r: Response)
    ensures
        r@ == (match content {
            Some(c) => ok_model(response_config.headers@, c@),
            None => not_found_model(date@),
        }),
{
    match content {
        Some(c) => {
            let headers = with_content_length(&response_config.headers, &c);
            Response::new(StatusCode::OK, http11_version(), headers, c)
        },
        None => not_found_response(date),
    }
}

/// A server: its configuration, read-only once built.
pub struct Server {
    config: ServerConfig,
}

impl Server {
    /// A server over a configuration.
    pub fn new(config: ServerConfig) -> (r: Self)
        ensures
            r.config() == config@,
    {
        Server { config }
    }

    /// The model of the configuration.
    pub closed spec fn config(&self) -> ServerConfigModel {
        self.config@
    }

    /// The port to listen on.
    pub fn port(&self) -> (r: u16)
        ensures
            r == self.config().port,
    {
        self.config.port()
    }

    /// The file a request needs read, when its route serves a file.
    pub fn file_to_read(&self, request: &Request) -> (r: Option<String>)
        ensures
            match r {
                Some(s) => lookup_route(self.config().routes, request.method, request.path@) matches Some(
                    ResponseSpecModel::File { source, .. },
                ) && source == s@,
                None => !(lookup_route(self.config().routes, request.method, request.path@) matches Some(
                    ResponseSpecModel::File { .. },
                )),
            },
    {
        match self.config.find_response_config(&request.path, &request.method) {
            Some(ResponseConfig::File { source, .. }) => Some(source),
            _ => None,
        }
    }
}

/// The characters of file contents, if there are any.
pub open spec fn content_model(content: Option<String>) -> Option<Seq<char>> {
    match content {
        Some(c) => Some(c@),
        None => None,
    }
}

/// The response to `request`, given the contents of the file its route serves (if
/// it serves one and it could be read) and the date the fallback response carries.
pub fn create_response_at(server: &Server, request: &Request, content: Option<String>, date: &str) -> (r: Response)
    ensures
        r@ == resolve(server.config().routes, request.method, request.path@, content_model(content), date@),
{
    match server.config.find_response_config(&request.path, &request.method) {
        None => not_found_response(date),
        Some(ResponseConfig::Text { text, http }) => create_text_response(&text, &http),
        Some(ResponseConfig::File { source: _, http }) => create_file_response(content, &http, date),
    }
}

/// The response to `request`, dated now where it is the fallback; `content` is
/// the contents of the file its route serves, if it could be read.
pub fn create_response(server: &Server, request: &Request, content: Option<String>) -> (r: Response)
    ensures
        exists|d: Seq<char>| r@ == #[trigger] resolve(server.config().routes, request.method, request.path@, content_model(content), d),
{
    let date = current_date();
    create_response_at(server, request, content, date.as_str())
}

} // verus!
