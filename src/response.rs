//! Responses: their model, their wire form, and decoding.
//!
//! The status line carries the version and the numeric code only, with no
//! reason phrase, in both directions.

use vstd::prelude::*;
use crate::error::ParseError;
use crate::headers::{HeaderEntry, Headers};
use crate::message::{
    decode_head, decode_head_of, headers_clean, lemma_message_round_trip,
    line_clean, message_text, start_line,
};
use crate::status::{StatusCode, lemma_status_bijection, lemma_status_number_range, status_number, status_of_number};
use crate::text::{
    chars_of, decimal, decimal_text, digit_value, find_between, find_char, find_in,
    has_char, lemma_decimal_three_digits, lemma_digit_value, lemma_find_char_at, lemma_find_char_shift,
};
use crate::version::{
    Version, VersionModel, lemma_version_round_trip, version_clean, version_in_range, version_of_text,
    version_text,
};

verus! {

/// The model of a response.
pub struct ResponseModel {
    pub status: StatusCode,
    pub version: VersionModel,
    pub headers: Seq<HeaderEntry>,
    pub body: Seq<char>,
}

/// The status line `<NAME>/<VERSION> <code>`.
pub open spec fn response_start(st: StatusCode, v: VersionModel) -> Seq<char> {
    version_text(v) + seq![' '] + decimal_text(status_number(st) as nat)
}

/// The wire form of a response.
pub open spec fn response_text(r: ResponseModel) -> Seq<char> {
    message_text(response_start(r.status, r.version), r.headers, r.body)
}

/// The value of a status code token: exactly three decimal digits.
pub open spec fn code_value(t: Seq<char>) -> Option<nat> {
    if t.len() == 3 && digit_value(t[0]) is Some && digit_value(t[1]) is Some && digit_value(t[2]) is Some {
        Some(100 * digit_value(t[0])->0 + 10 * digit_value(t[1])->0 + digit_value(t[2])->0)
    } else {
        None
    }
}

/// A status line split on a single space into a version with exactly one `/` and a
/// three-digit code; a code outside the table is an unknown status.
pub open spec fn status_line_of(l: Seq<char>) -> Result<(VersionModel, StatusCode), ParseError> {
    let a = find_char(l, ' ', 0);
    if a < l.len() && find_char(l, ' ', a + 1) == l.len() {
        match (version_of_text(l.subrange(0, a)), code_value(l.subrange(a + 1, l.len() as int))) {
            (Some(v), Some(n)) => match status_of_number(n as u16) {
                Some(st) => Ok((v, st)),
                None => Err(ParseError::UnknownStatusCode),
            },
            _ => Err(ParseError::MalformedStartLine),
        }
    } else {
        Err(ParseError::MalformedStartLine)
    }
}

/// Decoding a response from its wire text.
pub open spec fn decode_response(s: Seq<char>) -> Result<ResponseModel, ParseError> {
    match status_line_of(start_line(s)) {
        Err(e) => Err(e),
        Ok((v, st)) => match decode_head(s) {
            Err(e) => Err(e),
            Ok((h, body)) => Ok(ResponseModel { status: st, version: v, headers: h, body }),
        },
    }
}

/// A response that its wire form can carry: a clean version and clean headers
/// with unique names.
pub open spec fn response_well_formed(r: ResponseModel) -> bool {
    version_clean(r.version) && headers_clean(r.headers)
}

/// A status line built from a clean version reads back as its parts.
proof fn lemma_status_line_round_trip(st: StatusCode, v: VersionModel)
    requires
        version_clean(v),
    ensures
        status_line_of(response_start(st, v)) == Ok::<(VersionModel, StatusCode), ParseError>((v, st)),
        line_clean(response_start(st, v)),
{
    let n = status_number(st) as nat;
    lemma_status_number_range(st);
    lemma_status_bijection(st, status_number(st));
    lemma_decimal_three_digits(n);
    lemma_digit_value(n / 100);
    lemma_digit_value((n / 10) % 10);
    lemma_digit_value(n % 10);
    lemma_version_round_trip(v);
    let l = response_start(st, v);
    let vt = version_text(v);
    let code = decimal_text(n);
    let a = vt.len() as int;
    assert forall|k: int| 0 <= k < a implies l[k] != ' ' && l[k] != '\n' by {
        assert(l[k] == vt[k]);
        if k < v.0.len() {
            assert(vt[k] == v.0[k]);
        } else if k > v.0.len() {
            assert(vt[k] == v.1[k - 1 - v.0.len()]);
        }
    }
    assert(l[a] == ' ');
    lemma_find_char_at(l, ' ', 0, a);
    assert(l.subrange(a + 1, l.len() as int) =~= code);
    assert forall|k: int| a + 1 <= k < l.len() implies l[k] != ' ' && l[k] != '\n' && l[k] != '\r' by {
        assert(l[k] == code[k - a - 1]);
    }
    lemma_find_char_at(l, ' ', a + 1, l.len() as int);
    assert(l.subrange(0, a) =~= vt);
    assert(100 * (n / 100) + 10 * ((n / 10) % 10) + n % 10 == n);
    assert(!has_char(l, '\n'));
}

/// Decoding the wire form of a well-formed response gives that response back.
pub proof fn lemma_response_round_trip(r: ResponseModel)
    requires
        response_well_formed(r),
    ensures
        decode_response(response_text(r)) == Ok::<ResponseModel, ParseError>(r),
{
    lemma_status_line_round_trip(r.status, r.version);
    lemma_message_round_trip(response_start(r.status, r.version), r.headers, r.body);
}

/// An HTTP response.
pub struct Response {
    pub status: StatusCode,
    pub version: Version,
    pub headers: Headers,
    pub body: String,
}

impl View for Response {
    type V = ResponseModel;

    open spec fn view(&self) -> ResponseModel {
        ResponseModel {
            status: self.status,
            version: self.version@,
            headers: self.headers@,
            body: self.body@,
        }
    }
}

/// The value of the digit `c`, if it is one.
fn digit_of(c: char) -> (r: Option<u16>)
    ensures
        match r {
            Some(d) => digit_value(c) == Some(d as nat),
            None => digit_value(c) is None,
        },
{
    if '0' <= c && c <= '9' {
        Some((c as u32 - '0' as u32) as u16)
    } else {
        None
    }
}

impl Response {
    /// A response from its parts.
    pub fn new(status: StatusCode, version: Version, headers: Headers, body: String) -> (r: Self)
        ensures
            r@ == (ResponseModel { status, version: version@, headers: headers@, body: body@ }),
    {
        Response { status, version, headers, body }
    }

    /// Decodes a response from its wire text.
    pub fn from_string(string: String) -> (r: Result<Response, ParseError>)
        ensures
            match r {
                Ok(resp) => decode_response(string@) == Ok::<ResponseModel, ParseError>(resp@),
                Err(e) => decode_response(string@) == Err::<ResponseModel, ParseError>(e),
            },
    {
        let s = string.as_str();
        let v = chars_of(s);
        let e0 = find_in(&v, '\n', 0);
        let hi = if e0 > 0 && v[e0 - 1] == '\r' {
            e0 - 1
        } else {
            e0
        };
        let ghost l = start_line(v@);
        assert(l =~= v@.subrange(0, hi as int));
        let a = find_between(&v, ' ', 0, hi);
        if a >= hi {
            return Err(ParseError::MalformedStartLine);
        }
        let b = find_between(&v, ' ', a + 1, hi);
        proof {
            lemma_find_char_shift(v@, ' ', 0, (a + 1) as int, hi as int);
        }
        if b < hi {
            return Err(ParseError::MalformedStartLine);
        }
        assert(l.subrange(0, a as int) =~= v@.subrange(0, a as int));
        let ghost code = l.subrange(a + 1, l.len() as int);
        let version = match version_in_range(s, &v, 0, a) {
            Some(x) => x,
            None => {
                return Err(ParseError::MalformedStartLine);
            },
        };
        if hi - (a + 1) != 3 {
            return Err(ParseError::MalformedStartLine);
        }
        assert(code[0] == v@[a + 1] && code[1] == v@[a + 2] && code[2] == v@[a + 3]);
        let d0 = digit_of(v[a + 1]);
        let d1 = digit_of(v[a + 2]);
        let d2 = digit_of(v[a + 3]);
        let n = match (d0, d1, d2) {
            (Some(x), Some(y), Some(z)) => 100 * x + 10 * y + z,
            _ => {
                return Err(ParseError::MalformedStartLine);
            },
        };
        let status = match StatusCode::from_numeric(n) {
            Ok(st) => st,
            Err(e) => {
                return Err(e);
            },
        };
        match decode_head_of(s, &v) {
            Err(e) => Err(e),
            Ok((headers, body)) => Ok(Response { status, version, headers, body }),
        }
    }

    /// The wire form of this response.
    pub fn to_string(&self) -> (r: String)
        ensures
            r@ == response_text(self@),
    {
        proof {
            reveal_strlit(" ");
            reveal_strlit("\n");
            reveal_strlit("\r\n");
        }
        let mut out = self.version.to_string();
        out.append(" ");
        let code = decimal(self.status.to_numeric() as usize);
        out.append(code.as_str());
        out.append("\n");
        let headers = self.headers.to_string();
        out.append(headers.as_str());
        out.append("\r\n");
        out.append(self.body.as_str());
        assert(out@ =~= response_text(self@));
        out
    }
}

} // verus!
