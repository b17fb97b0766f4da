//! Requests: their model, their wire form, and decoding.

use vstd::prelude::*;
use crate::error::ParseError;
use crate::headers::{HeaderEntry, Headers};
use crate::message::{
    decode_head, decode_head_of, headers_clean, lemma_message_round_trip,
    line_clean, message_text, start_line, };
use crate::method::{
    Method, lemma_method_text_is_token, lemma_method_text_round_trip, method_in_range,
    method_of_text, method_text,
};
use crate::text::{
    chars_of, find_between, find_char, find_in, has_char, lemma_find_char_at, lemma_find_char_shift,
    slice_of, token_char,
};
use crate::version::{
    Version, VersionModel, lemma_version_round_trip, version_clean, version_in_range, version_of_text,
    version_text,
};

verus! {

/// The model of a request.
pub struct RequestModel {
    pub method: Method,
    pub path: Seq<char>,
    pub version: VersionModel,
    pub headers: Seq<HeaderEntry>,
    pub body: Seq<char>,
}

/// The request line `<METHOD> <PATH> <NAME>/<VERSION>`.
pub open spec fn request_start(m: Method, path: Seq<char>, v: VersionModel) -> Seq<char> {
    method_text(m) + seq![' '] + path + seq![' '] + version_text(v)
}

/// The wire form of a request.
pub open spec fn request_text(r: RequestModel) -> Seq<char> {
    message_text(request_start(r.method, r.path, r.version), r.headers, r.body)
}

/// A request line split on single spaces into exactly three tokens: a known
/// method, a path, and a version with exactly one `/`.
pub open spec fn request_line_of(l: Seq<char>) -> Option<(Method, Seq<char>, VersionModel)> {
    let a = find_char(l, ' ', 0);
    let b = find_char(l, ' ', a + 1);
    if a < l.len() && b < l.len() && find_char(l, ' ', b + 1) == l.len() {
        match (method_of_text(l.subrange(0, a)), version_of_text(l.subrange(b + 1, l.len() as int))) {
            (Some(m), Some(v)) => Some((m, l.subrange(a + 1, b), v)),
            _ => None,
        }
    } else {
        None
    }
}

/// Decoding a request from its wire text.
pub open spec fn decode_request(s: Seq<char>) -> Result<RequestModel, ParseError> {
    match request_line_of(start_line(s)) {
        None => Err(ParseError::MalformedStartLine),
        Some((m, path, v)) => match decode_head(s) {
            Err(e) => Err(e),
            Ok((h, body)) => Ok(RequestModel { method: m, path, version: v, headers: h, body }),
        },
    }
}

/// A request that its wire form can carry: a path without space or line feed, a
/// clean version, and clean headers with unique names.
pub open spec fn request_well_formed(r: RequestModel) -> bool {
    &&& !has_char(r.path, ' ')
    &&& !has_char(r.path, '\n')
    &&& version_clean(r.version)
    &&& headers_clean(r.headers)
}

/// A request line built from a well-formed request reads back as its parts.
proof fn lemma_request_line_round_trip(m: Method, path: Seq<char>, v: VersionModel)
    requires
        !has_char(path, ' '),
        !has_char(path, '\n'),
        version_clean(v),
    ensures
        request_line_of(request_start(m, path, v)) == Some((m, path, v)),
        line_clean(request_start(m, path, v)),
{
    let l = request_start(m, path, v);
    let mt = method_text(m);
    let vt = version_text(v);
    let a = mt.len() as int;
    let b = a + 1 + path.len();
    lemma_method_text_is_token(m);
    lemma_method_text_round_trip(m);
    lemma_version_round_trip(v);
    assert forall|k: int| 0 <= k < a implies l[k] != ' ' && l[k] != '\n' by {
        assert(l[k] == mt[k]);
        assert(token_char(mt[k]));
    }
    assert(l[a] == ' ');
    lemma_find_char_at(l, ' ', 0, a);
    assert forall|k: int| a + 1 <= k < b implies l[k] != ' ' && l[k] != '\n' by {
        assert(l[k] == path[k - a - 1]);
    }
    assert(l[b] == ' ');
    lemma_find_char_at(l, ' ', a + 1, b);
    assert forall|k: int| b + 1 <= k < l.len() implies l[k] != ' ' && l[k] != '\n' && l[k] != '\r' by {
        assert(l[k] == vt[k - b - 1]);
        if k - b - 1 < v.0.len() {
            assert(vt[k - b - 1] == v.0[k - b - 1]);
        } else if k - b - 1 > v.0.len() {
            assert(vt[k - b - 1] == v.1[k - b - 2 - v.0.len()]);
        }
    }
    lemma_find_char_at(l, ' ', b + 1, l.len() as int);
    assert(l.subrange(0, a) =~= mt);
    assert(l.subrange(a + 1, b) =~= path);
    assert(l.subrange(b + 1, l.len() as int) =~= vt);
    assert(!has_char(l, '\n'));
}

/// Decoding the wire form of a well-formed request gives that request back.
pub proof fn lemma_request_round_trip(r: RequestModel)
    requires
        request_well_formed(r),
    ensures
        decode_request(request_text(r)) == Ok::<RequestModel, ParseError>(r),
{
    lemma_request_line_round_trip(r.method, r.path, r.version);
    lemma_message_round_trip(request_start(r.method, r.path, r.version), r.headers, r.body);
}

/// An HTTP request.
pub struct Request {
    pub method: Method,
    pub path: String,
    pub version: Version,
    pub headers: Headers,
    pub body: String,
}

impl View for Request {
    type V = RequestModel;

    open spec fn view(&self) -> RequestModel {
        RequestModel {
            method: self.method,
            path: self.path@,
            version: self.version@,
            headers: self.headers@,
            body: self.body@,
        }
    }
}

impl Request {
    /// A request from its parts.
    pub fn new(method: Method, path: String, version: Version, headers: Headers, body: String) -> (r:
        Self)
        ensures
            r@ == (RequestModel {
                method,
                path: path@,
                version: version@,
                headers: headers@,
                body: body@,
            }),
    {
        Request { method, path, version, headers, body }
    }

    /// Decodes a request from its wire text.
    pub fn from_string(string: String) -> (r: Result<Request, ParseError>)
        ensures
            match r {
                Ok(req) => decode_request(string@) == Ok::<RequestModel, ParseError>(req@),
                Err(e) => decode_request(string@) == Err::<RequestModel, ParseError>(e),
            },
    {
        let s = string.as_str();
        let v = chars_of(s);
        let e0 = find_in(&v, '\n', 0);
        let hi = if e0 > 0 && v[e0 - 1] == '\r' {
            e0 - 1
        } else {
            e0
        };
        let ghost l = start_line(v@);
        assert(l =~= v@.subrange(0, hi as int));
        let a = find_between(&v, ' ', 0, hi);
        if a >= hi {
            return Err(ParseError::MalformedStartLine);
        }
        let b = find_between(&v, ' ', a + 1, hi);
        proof {
            lemma_find_char_shift(v@, ' ', 0, (a + 1) as int, hi as int);
        }
        if b >= hi {
            return Err(ParseError::MalformedStartLine);
        }
        let c = find_between(&v, ' ', b + 1, hi);
        proof {
            lemma_find_char_shift(v@, ' ', 0, (b + 1) as int, hi as int);
        }
        if c < hi {
            return Err(ParseError::MalformedStartLine);
        }
        assert(l.subrange(0, a as int) =~= v@.subrange(0, a as int));
        assert(l.subrange(b + 1, l.len() as int) =~= v@.subrange(b + 1, hi as int));
        assert(l.subrange(a + 1, b as int) =~= v@.subrange(a + 1, b as int));
        let method = match method_in_range(&v, 0, a) {
            Some(m) => m,
            None => {
                return Err(ParseError::MalformedStartLine);
            },
        };
        let version = match version_in_range(s, &v, b + 1, hi) {
            Some(x) => x,
            None => {
                return Err(ParseError::MalformedStartLine);
            },
        };
        let path = slice_of(s, a + 1, b);
        match decode_head_of(s, &v) {
            Err(e) => Err(e),
            Ok((headers, body)) => Ok(Request { method, path, version, headers, body }),
        }
    }

    /// The wire form of this request.
    pub fn to_string(&self) -> (r: String)
        ensures
            r@ == request_text(self@),
    {
        proof {
            reveal_strlit(" ");
            reveal_strlit("\n");
            reveal_strlit("\r\n");
        }
        let mut out = String::new();
        out.append(self.method.as_str());
        out.append(" ");
        out.append(self.path.as_str());
        out.append(" ");
        let version = self.version.to_string();
        out.append(version.as_str());
        out.append("\n");
        let headers = self.headers.to_string();
        out.append(headers.as_str());
        out.append("\r\n");
        out.append(self.body.as_str());
        assert(out@ =~= request_text(self@));
        out
    }
}

} // verus!
