//! Serving a directory: a request path names a file under the directory, a path
//! ending in `/` names its index file, and a missing file gets the not-found page.

use vstd::prelude::*;
use crate::headers::{HeaderName, Headers, lemma_insert_new};
use crate::options::Config;
use crate::pages::ends_with;
use crate::response::{Response, ResponseModel};
use crate::server::{content_model, current_date, http11, with_content_length, with_length};
use crate::status::StatusCode;
use crate::text::chars_of;
use crate::version::Version;

verus! {

/// The media type that `mime_guess` gives for a path, by its extension.
pub uninterp spec fn mime_of(path: Seq<char>) -> Seq<char>;

/// Relies on `mime_guess::from_path` and `MimeGuess::first_or_octet_stream`: the
/// media type for the extension of `path` (`application/octet-stream` when it has
/// none or an unknown one), which depends on the path alone.
#[verifier::external_body]
fn guess_mime(path: &str) -> (r: String)
    ensures
        r@ == mime_of(path@),
{
    mime_guess::from_path(path).first_or_octet_stream().to_string()
}

/// The path asked for, with the index file put in for a path ending in `/`.
pub open spec fn requested_text(path: Seq<char>, index_file: Seq<char>) -> Seq<char> {
    if ends_with(path, "/"@) {
        path + index_file
    } else {
        path
    }
}

/// The file that serves `path`: `<directory>/<requested path>`.
pub open spec fn resource_text(directory: Seq<char>, path: Seq<char>, index_file: Seq<char>) -> Seq<char> {
    directory + "/"@ + requested_text(path, index_file)
}

/// The answer for `path`: the file's contents typed by the requested path's
/// extension and dated `date`; or, when the file could not be read, the not-found
/// page (`404` when that could not be read either).
pub open spec fn directory_model(
    path: Seq<char>,
    index_file: Seq<char>,
    content: Option<Seq<char>>,
    not_found_page: Option<Seq<char>>,
    date: Seq<char>,
) -> ResponseModel {
    match content {
        Some(c) => ResponseModel {
            status: StatusCode::OK,
            version: http11(),
            headers: with_length(
                seq![
                    (HeaderName::ContentType, mime_of(requested_text(path, index_file))),
                    (HeaderName::Date, date),
                ],
                c,
            ),
            body: c,
        },
        None => {
            let page = match not_found_page {
                Some(p) => p,
                None => "404"@,
            };
            ResponseModel {
                status: StatusCode::NotFound,
                version: http11(),
                headers: with_length(seq![(HeaderName::ContentType, "text/html"@)], page),
                body: page,
            }
        },
    }
}

impl Config {
    /// The path asked for, with the index file put in for a path ending in `/`.
    pub fn requested_path(&self, path: &str) -> (r: String)
        ensures
            r@ == requested_text(path@, self.index_file@),
    {
        proof {
            reveal_strlit("/");
        }
        let v = chars_of(path);
        assert("/"@ =~= seq!['/']);
        proof {
            if v.len() > 0 {
                let tail = v@.subrange(v@.len() - 1, v@.len() as int);
                assert(tail =~= seq![v@[v@.len() - 1]]);
                if tail == "/"@ {
                    assert(tail[0] == "/"@[0]);
                }
            }
        }
        assert(ends_with(path@, "/"@) == (v.len() > 0 && v@[v@.len() - 1] == '/'));
        let mut out = path.to_owned();
        if v.len() > 0 && v[v.len() - 1] == '/' {
            out.append(self.index_file.as_str());
        }
        out
    }

    /// The file that serves `path`.
    pub fn resource_path(&self, path: &str) -> (r: String)
        ensures
            r@ == resource_text(self.directory@, path@, self.index_file@),
    {
        let mut out = self.directory.clone();
        out.append("/");
        let requested = self.requested_path(path);
        out.append(requested.as_str());
        proof {
            reveal_strlit("/");
        }
        assert(out@ =~= resource_text(self.directory@, path@, self.index_file@));
        out
    }
}

/// The answer for `path` under `config`, given what could be read of the file that
/// serves it and of the not-found page, dated `date`.
pub fn directory_response_at(
    config: &Config,
    path: &str,
    content: Option<String>,
    not_found_page: Option<String>,
    date: &str,
) -> (r: Response)
    ensures
        r@ == directory_model(
            path@,
            config.index_file@,
            content_model(content),
            content_model(not_found_page),
            date@,
        ),
{
    let version = Version::new("HTTP".to_owned(), "1.1".to_owned());
    let mut headers = Headers::new();
    match content {
        Some(c) => {
            let requested = config.requested_path(path);
            let mime = guess_mime(requested.as_str());
            proof {
                lemma_insert_new(headers@, HeaderName::ContentType, mime@);
            }
            headers.insert(HeaderName::ContentType, mime);
            proof {
                lemma_insert_new(headers@, HeaderName::Date, date@);
            }
            headers.insert(HeaderName::Date, date.to_owned());
            assert(headers@ =~= seq![(HeaderName::ContentType, mime_of(requested_text(path@, config.index_file@))), (HeaderName::Date, date@)]);
            let headers = with_content_length(&headers, &c);
            Response::new(StatusCode::OK, version, headers, c)
        },
        None => {
            let page = match not_found_page {
                Some(p) => p,
                None => "404".to_owned(),
            };
            proof {
                lemma_insert_new(headers@, HeaderName::ContentType, "text/html"@);
            }
            headers.insert(HeaderName::ContentType, "text/html".to_owned());
            assert(headers@ =~= seq![(HeaderName::ContentType, "text/html"@)]);
            let headers = with_content_length(&headers, &page);
            Response::new(StatusCode::NotFound, version, headers, page)
        },
    }
}

/// The answer for `path` under `config`, dated now.
pub fn directory_response(
    config: &Config,
    path: &str,
    content: Option<String>,
    not_found_page: Option<String>,
) -> (r: Response)
    ensures
        exists|d: Seq<char>|
            r@ == #[trigger] directory_model(
                path@,
                config.index_file@,
                content_model(content),
                content_model(not_found_page),
                d,
            ),
{
    let date = current_date();
    directory_response_at(config, path, content, not_found_page, date.as_str())
}

} // verus!
