//! The registry of header names and the header collection.

use vstd::prelude::*;
use crate::error::ParseError;
use crate::text::{chars_of, range_eq_str, is_token, token_char};

verus! {

/// The closed set of recognised header names.
#[derive(PartialEq, Eq, Structural, Clone, Copy, Debug, Hash)]
pub enum HeaderName {
    ContentMD5,
    HTTP2Settings,
    Warning,
    Pragma,
    AIM,
    Accept,
    AcceptCharset,
    AcceptEncoding,
    AcceptLanguage,
    Authorization,
    CacheControl,
    Connection,
    ContentEncoding,
    ContentLength,
    ContentType,
    Date,
    Expect,
    Forwarded,
    From,
    Host,
    IfMatch,
    IfModifiedSince,
    IfNoneMatch,
    IfRange,
    IfUnmodifiedSince,
    MaxForwards,
    Prefer,
    ProxyAuthorization,
    Range,
    Referer,
    TE,
    Trailer,
    TransferEncoding,
    UserAgent,
    Upgrade,
    Via,
    AccessControlRequestMethod,
    AccessControlRequestHeaders,
    Cookie,
    Origin,
    AcceptDatetime,
}

/// The canonical wire spelling of a header name.
pub open spec fn header_text(h: HeaderName) -> Seq<char> {
    match h {
        HeaderName::ContentMD5 => "Content-MD5"@,
        HeaderName::HTTP2Settings => "HTTP2-Settings"@,
        HeaderName::Warning => "Warning"@,
        HeaderName::Pragma => "Pragma"@,
        HeaderName::AIM => "A-IM"@,
        HeaderName::Accept => "Accept"@,
        HeaderName::AcceptCharset => "Accept-Charset"@,
        HeaderName::AcceptEncoding => "Accept-Encoding"@,
        HeaderName::AcceptLanguage => "Accept-Language"@,
        HeaderName::Authorization => "Authorization"@,
        HeaderName::CacheControl => "Cache-Control"@,
        HeaderName::Connection => "Connection"@,
        HeaderName::ContentEncoding => "Content-Encoding"@,
        HeaderName::ContentLength => "Content-Length"@,
        HeaderName::ContentType => "Content-Type"@,
        HeaderName::Date => "Date"@,
        HeaderName::Expect => "Expect"@,
        HeaderName::Forwarded => "Forwarded"@,
        HeaderName::From => "From"@,
        HeaderName::Host => "Host"@,
        HeaderName::IfMatch => "If-Match"@,
        HeaderName::IfModifiedSince => "If-Modified-Since"@,
        HeaderName::IfNoneMatch => "If-None-Match"@,
        HeaderName::IfRange => "If-Range"@,
        HeaderName::IfUnmodifiedSince => "If-Unmodified-Since"@,
        HeaderName::MaxForwards => "Max-Forwards"@,
        HeaderName::Prefer => "Prefer"@,
        HeaderName::ProxyAuthorization => "Proxy-Authorization"@,
        HeaderName::Range => "Range"@,
        HeaderName::Referer => "Referer"@,
        HeaderName::TE => "TE"@,
        HeaderName::Trailer => "Trailer"@,
        HeaderName::TransferEncoding => "Transfer-Encoding"@,
        HeaderName::UserAgent => "User-Agent"@,
        HeaderName::Upgrade => "Upgrade"@,
        HeaderName::Via => "Via"@,
        HeaderName::AccessControlRequestMethod => "Access-Control-Request-Method"@,
        HeaderName::AccessControlRequestHeaders => "Access-Control-Request-Headers"@,
        HeaderName::Cookie => "Cookie"@,
        HeaderName::Origin => "Origin"@,
        HeaderName::AcceptDatetime => "Accept-Datetime"@,
    }
}

/// The header name whose canonical spelling is exactly `s`, if any.
pub open spec fn header_of_text(s: Seq<char>) -> Option<HeaderName> {
    if s == "Content-MD5"@ {
        Some(HeaderName::ContentMD5)
    } else if s == "HTTP2-Settings"@ {
        Some(HeaderName::HTTP2Settings)
    } else if s == "Warning"@ {
        Some(HeaderName::Warning)
    } else if s == "Pragma"@ {
        Some(HeaderName::Pragma)
    } else if s == "A-IM"@ {
        Some(HeaderName::AIM)
    } else if s == "Accept"@ {
        Some(HeaderName::Accept)
    } else if s == "Accept-Charset"@ {
        Some(HeaderName::AcceptCharset)
    } else if s == "Accept-Encoding"@ {
        Some(HeaderName::AcceptEncoding)
    } else if s == "Accept-Language"@ {
        Some(HeaderName::AcceptLanguage)
    } else if s == "Authorization"@ {
        Some(HeaderName::Authorization)
    } else if s == "Cache-Control"@ {
        Some(HeaderName::CacheControl)
    } else if s == "Connection"@ {
        Some(HeaderName::Connection)
    } else if s == "Content-Encoding"@ {
        Some(HeaderName::ContentEncoding)
    } else if s == "Content-Length"@ {
        Some(HeaderName::ContentLength)
    } else if s == "Content-Type"@ {
        Some(HeaderName::ContentType)
    } else if s == "Date"@ {
        Some(HeaderName::Date)
    } else if s == "Expect"@ {
        Some(HeaderName::Expect)
    } else if s == "Forwarded"@ {
        Some(HeaderName::Forwarded)
    } else if s == "From"@ {
        Some(HeaderName::From)
    } else if s == "Host"@ {
        Some(HeaderName::Host)
    } else if s == "If-Match"@ {
        Some(HeaderName::IfMatch)
    } else if s == "If-Modified-Since"@ {
        Some(HeaderName::IfModifiedSince)
    } else if s == "If-None-Match"@ {
        Some(HeaderName::IfNoneMatch)
    } else if s == "If-Range"@ {
        Some(HeaderName::IfRange)
    } else if s == "If-Unmodified-Since"@ {
        Some(HeaderName::IfUnmodifiedSince)
    } else if s == "Max-Forwards"@ {
        Some(HeaderName::MaxForwards)
    } else if s == "Prefer"@ {
        Some(HeaderName::Prefer)
    } else if s == "Proxy-Authorization"@ {
        Some(HeaderName::ProxyAuthorization)
    } else if s == "Range"@ {
        Some(HeaderName::Range)
    } else if s == "Referer"@ {
        Some(HeaderName::Referer)
    } else if s == "TE"@ {
        Some(HeaderName::TE)
    } else if s == "Trailer"@ {
        Some(HeaderName::Trailer)
    } else if s == "Transfer-Encoding"@ {
        Some(HeaderName::TransferEncoding)
    } else if s == "User-Agent"@ {
        Some(HeaderName::UserAgent)
    } else if s == "Upgrade"@ {
        Some(HeaderName::Upgrade)
    } else if s == "Via"@ {
        Some(HeaderName::Via)
    } else if s == "Access-Control-Request-Method"@ {
        Some(HeaderName::AccessControlRequestMethod)
    } else if s == "Access-Control-Request-Headers"@ {
        Some(HeaderName::AccessControlRequestHeaders)
    } else if s == "Cookie"@ {
        Some(HeaderName::Cookie)
    } else if s == "Origin"@ {
        Some(HeaderName::Origin)
    } else if s == "Accept-Datetime"@ {
        Some(HeaderName::AcceptDatetime)
    } else {
        None
    }
}

/// Parsing the canonical spelling of a header name gives that name back.
pub proof fn lemma_header_text_round_trip(h: HeaderName)
    ensures
        header_of_text(header_text(h)) == Some(h),
{
    reveal_strlit("Content-MD5");
    reveal_strlit("HTTP2-Settings");
    reveal_strlit("Warning");
    reveal_strlit("Pragma");
    reveal_strlit("A-IM");
    reveal_strlit("Accept");
    reveal_strlit("Accept-Charset");
    reveal_strlit("Accept-Encoding");
    reveal_strlit("Accept-Language");
    reveal_strlit("Authorization");
    reveal_strlit("Cache-Control");
    reveal_strlit("Connection");
    reveal_strlit("Content-Encoding");
    reveal_strlit("Content-Length");
    reveal_strlit("Content-Type");
    reveal_strlit("Date");
    reveal_strlit("Expect");
    reveal_strlit("Forwarded");
    reveal_strlit("From");
    reveal_strlit("Host");
    reveal_strlit("If-Match");
    reveal_strlit("If-Modified-Since");
    reveal_strlit("If-None-Match");
    reveal_strlit("If-Range");
    reveal_strlit("If-Unmodified-Since");
    reveal_strlit("Max-Forwards");
    reveal_strlit("Prefer");
    reveal_strlit("Proxy-Authorization");
    reveal_strlit("Range");
    reveal_strlit("Referer");
    reveal_strlit("TE");
    reveal_strlit("Trailer");
    reveal_strlit("Transfer-Encoding");
    reveal_strlit("User-Agent");
    reveal_strlit("Upgrade");
    reveal_strlit("Via");
    reveal_strlit("Access-Control-Request-Method");
    reveal_strlit("Access-Control-Request-Headers");
    reveal_strlit("Cookie");
    reveal_strlit("Origin");
    reveal_strlit("Accept-Datetime");
    assert("Content-MD5"@.len() == 11);
    assert("HTTP2-Settings"@.len() == 14 && "HTTP2-Settings"@[0] == 'H');
    assert("Warning"@.len() == 7 && "Warning"@[0] == 'W');
    assert("Pragma"@.len() == 6 && "Pragma"@[0] == 'P' && "Pragma"@[2] == 'a');
    assert("A-IM"@.len() == 4 && "A-IM"@[0] == 'A');
    assert("Accept"@.len() == 6 && "Accept"@[0] == 'A');
    assert("Accept-Charset"@.len() == 14 && "Accept-Charset"@[0] == 'A');
    assert("Accept-Encoding"@.len() == 15 && "Accept-Encoding"@[7] == 'E');
    assert("Accept-Language"@.len() == 15 && "Accept-Language"@[7] == 'L');
    assert("Authorization"@.len() == 13 && "Authorization"@[0] == 'A');
    assert("Cache-Control"@.len() == 13 && "Cache-Control"@[0] == 'C');
    assert("Connection"@.len() == 10 && "Connection"@[0] == 'C');
    assert("Content-Encoding"@.len() == 16);
    assert("Content-Length"@.len() == 14 && "Content-Length"@[0] == 'C');
    assert("Content-Type"@.len() == 12 && "Content-Type"@[0] == 'C');
    assert("Date"@.len() == 4 && "Date"@[0] == 'D');
    assert("Expect"@.len() == 6 && "Expect"@[0] == 'E');
    assert("Forwarded"@.len() == 9);
    assert("From"@.len() == 4 && "From"@[0] == 'F');
    assert("Host"@.len() == 4 && "Host"@[0] == 'H');
    assert("If-Match"@.len() == 8 && "If-Match"@[3] == 'M');
    assert("If-Modified-Since"@.len() == 17 && "If-Modified-Since"@[0] == 'I');
    assert("If-None-Match"@.len() == 13 && "If-None-Match"@[0] == 'I');
    assert("If-Range"@.len() == 8 && "If-Range"@[3] == 'R');
    assert("If-Unmodified-Since"@.len() == 19 && "If-Unmodified-Since"@[0] == 'I');
    assert("Max-Forwards"@.len() == 12 && "Max-Forwards"@[0] == 'M');
    assert("Prefer"@.len() == 6 && "Prefer"@[0] == 'P' && "Prefer"@[2] == 'e');
    assert("Proxy-Authorization"@.len() == 19 && "Proxy-Authorization"@[0] == 'P');
    assert("Range"@.len() == 5);
    assert("Referer"@.len() == 7 && "Referer"@[0] == 'R');
    assert("TE"@.len() == 2);
    assert("Trailer"@.len() == 7 && "Trailer"@[0] == 'T');
    assert("Transfer-Encoding"@.len() == 17 && "Transfer-Encoding"@[0] == 'T');
    assert("User-Agent"@.len() == 10 && "User-Agent"@[0] == 'U');
    assert("Upgrade"@.len() == 7 && "Upgrade"@[0] == 'U');
    assert("Via"@.len() == 3);
    assert("Access-Control-Request-Method"@.len() == 29);
    assert("Access-Control-Request-Headers"@.len() == 30);
    assert("Cookie"@.len() == 6 && "Cookie"@[0] == 'C');
    assert("Origin"@.len() == 6 && "Origin"@[0] == 'O');
    assert("Accept-Datetime"@.len() == 15 && "Accept-Datetime"@[7] == 'D');
}

/// Every canonical spelling is made of letters, digits and `-`.
pub proof fn lemma_header_text_is_token(h: HeaderName)
    ensures
        is_token(header_text(h)),
{
    reveal_strlit("Content-MD5");
    reveal_strlit("HTTP2-Settings");
    reveal_strlit("Warning");
    reveal_strlit("Pragma");
    reveal_strlit("A-IM");
    reveal_strlit("Accept");
    reveal_strlit("Accept-Charset");
    reveal_strlit("Accept-Encoding");
    reveal_strlit("Accept-Language");
    reveal_strlit("Authorization");
    reveal_strlit("Cache-Control");
    reveal_strlit("Connection");
    reveal_strlit("Content-Encoding");
    reveal_strlit("Content-Length");
    reveal_strlit("Content-Type");
    reveal_strlit("Date");
    reveal_strlit("Expect");
    reveal_strlit("Forwarded");
    reveal_strlit("From");
    reveal_strlit("Host");
    reveal_strlit("If-Match");
    reveal_strlit("If-Modified-Since");
    reveal_strlit("If-None-Match");
    reveal_strlit("If-Range");
    reveal_strlit("If-Unmodified-Since");
    reveal_strlit("Max-Forwards");
    reveal_strlit("Prefer");
    reveal_strlit("Proxy-Authorization");
    reveal_strlit("Range");
    reveal_strlit("Referer");
    reveal_strlit("TE");
    reveal_strlit("Trailer");
    reveal_strlit("Transfer-Encoding");
    reveal_strlit("User-Agent");
    reveal_strlit("Upgrade");
    reveal_strlit("Via");
    reveal_strlit("Access-Control-Request-Method");
    reveal_strlit("Access-Control-Request-Headers");
    reveal_strlit("Cookie");
    reveal_strlit("Origin");
    reveal_strlit("Accept-Datetime");
    assert forall|i: int| 0 <= i < "Content-MD5"@.len() implies token_char("Content-MD5"@[i]) by {
        assert("Content-MD5"@[0] == 'C' && "Content-MD5"@[1] == 'o' && "Content-MD5"@[2] == 'n' && "Content-MD5"@[3] == 't' && "Content-MD5"@[4] == 'e' && "Content-MD5"@[5] == 'n' && "Content-MD5"@[6] == 't' && "Content-MD5"@[7] == '-' && "Content-MD5"@[8] == 'M' && "Content-MD5"@[9] == 'D' && "Content-MD5"@[10] == '5');
        assert(i == 0 || i == 1 || i == 2 || i == 3 || i == 4 || i == 5 || i == 6 || i == 7 || i == 8 || i == 9 || i == 10);
    }
    assert forall|i: int| 0 <= i < "HTTP2-Settings"@.len() implies token_char("HTTP2-Settings"@[i]) by {
        assert("HTTP2-Settings"@[0] == 'H' && "HTTP2-Settings"@[1] == 'T' && "HTTP2-Settings"@[2] == 'T' && "HTTP2-Settings"@[3] == 'P' && "HTTP2-Settings"@[4] == '2' && "HTTP2-Settings"@[5] == '-' && "HTTP2-Settings"@[6] == 'S' && "HTTP2-Settings"@[7] == 'e' && "HTTP2-Settings"@[8] == 't' && "HTTP2-Settings"@[9] == 't' && "HTTP2-Settings"@[10] == 'i' && "HTTP2-Settings"@[11] == 'n' && "HTTP2-Settings"@[12] == 'g' && "HTTP2-Settings"@[13] == 's');
        assert(i == 0 || i == 1 || i == 2 || i == 3 || i == 4 || i == 5 || i == 6 || i == 7 || i == 8 || i == 9 || i == 10 || i == 11 || i == 12 || i == 13);
    }
    assert forall|i: int| 0 <= i < "Warning"@.len() implies token_char("Warning"@[i]) by {
        assert("Warning"@[0] == 'W' && "Warning"@[1] == 'a' && "Warning"@[2] == 'r' && "Warning"@[3] == 'n' && "Warning"@[4] == 'i' && "Warning"@[5] == 'n' && "Warning"@[6] == 'g');
        assert(i == 0 || i == 1 || i == 2 || i == 3 || i == 4 || i == 5 || i == 6);
    }
    assert forall|i: int| 0 <= i < "Pragma"@.len() implies token_char("Pragma"@[i]) by {
        assert("Pragma"@[0] == 'P' && "Pragma"@[1] == 'r' && "Pragma"@[2] == 'a' && "Pragma"@[3] == 'g' && "Pragma"@[4] == 'm' && "Pragma"@[5] == 'a');
        assert(i == 0 || i == 1 || i == 2 || i == 3 || i == 4 || i == 5);
    }
    assert forall|i: int| 0 <= i < "A-IM"@.len() implies token_char("A-IM"@[i]) by {
        assert("A-IM"@[0] == 'A' && "A-IM"@[1] == '-' && "A-IM"@[2] == 'I' && "A-IM"@[3] == 'M');
        assert(i == 0 || i == 1 || i == 2 || i == 3);
    }
    assert forall|i: int| 0 <= i < "Accept"@.len() implies token_char("Accept"@[i]) by {
        assert("Accept"@[0] == 'A' && "Accept"@[1] == 'c' && "Accept"@[2] == 'c' && "Accept"@[3] == 'e' && "Accept"@[4] == 'p' && "Accept"@[5] == 't');
        assert(i == 0 || i == 1 || i == 2 || i == 3 || i == 4 || i == 5);
    }
    assert forall|i: int| 0 <= i < "Accept-Charset"@.len() implies token_char("Accept-Charset"@[i]) by {
        assert("Accept-Charset"@[0] == 'A' && "Accept-Charset"@[1] == 'c' && "Accept-Charset"@[2] == 'c' && "Accept-Charset"@[3] == 'e' && "Accept-Charset"@[4] == 'p' && "Accept-Charset"@[5] == 't' && "Accept-Charset"@[6] == '-' && "Accept-Charset"@[7] == 'C' && "Accept-Charset"@[8] == 'h' && "Accept-Charset"@[9] == 'a' && "Accept-Charset"@[10] == 'r' && "Accept-Charset"@[11] == 's' && "Accept-Charset"@[12] == 'e' && "Accept-Charset"@[13] == 't');
        assert(i == 0 || i == 1 || i == 2 || i == 3 || i == 4 || i == 5 || i == 6 || i == 7 || i == 8 || i == 9 || i == 10 || i == 11 || i == 12 || i == 13);
    }
    assert forall|i: int| 0 <= i < "Accept-Encoding"@.len() implies token_char("Accept-Encoding"@[i]) by {
        assert("Accept-Encoding"@[0] == 'A' && "Accept-Encoding"@[1] == 'c' && "Accept-Encoding"@[2] == 'c' && "Accept-Encoding"@[3] == 'e' && "Accept-Encoding"@[4] == 'p' && "Accept-Encoding"@[5] == 't' && "Accept-Encoding"@[6] == '-' && "Accept-Encoding"@[7] == 'E' && "Accept-Encoding"@[8] == 'n' && "Accept-Encoding"@[9] == 'c' && "Accept-Encoding"@[10] == 'o' && "Accept-Encoding"@[11] == 'd' && "Accept-Encoding"@[12] == 'i' && "Accept-Encoding"@[13] == 'n' && "Accept-Encoding"@[14] == 'g');
        assert(i == 0 || i == 1 || i == 2 || i == 3 || i == 4 || i == 5 || i == 6 || i == 7 || i == 8 || i == 9 || i == 10 || i == 11 || i == 12 || i == 13 || i == 14);
    }
    assert forall|i: int| 0 <= i < "Accept-Language"@.len() implies token_char("Accept-Language"@[i]) by {
        assert("Accept-Language"@[0] == 'A' && "Accept-Language"@[1] == 'c' && "Accept-Language"@[2] == 'c' && "Accept-Language"@[3] == 'e' && "Accept-Language"@[4] == 'p' && "Accept-Language"@[5] == 't' && "Accept-Language"@[6] == '-' && "Accept-Language"@[7] == 'L' && "Accept-Language"@[8] == 'a' && "Accept-Language"@[9] == 'n' && "Accept-Language"@[10] == 'g' && "Accept-Language"@[11] == 'u' && "Accept-Language"@[12] == 'a' && "Accept-Language"@[13] == 'g' && "Accept-Language"@[14] == 'e');
        assert(i == 0 || i == 1 || i == 2 || i == 3 || i == 4 || i == 5 || i == 6 || i == 7 || i == 8 || i == 9 || i == 10 || i == 11 || i == 12 || i == 13 || i == 14);
    }
    assert forall|i: int| 0 <= i < "Authorization"@.len() implies token_char("Authorization"@[i]) by {
        assert("Authorization"@[0] == 'A' && "Authorization"@[1] == 'u' && "Authorization"@[2] == 't' && "Authorization"@[3] == 'h' && "Authorization"@[4] == 'o' && "Authorization"@[5] == 'r' && "Authorization"@[6] == 'i' && "Authorization"@[7] == 'z' && "Authorization"@[8] == 'a' && "Authorization"@[9] == 't' && "Authorization"@[10] == 'i' && "Authorization"@[11] == 'o' && "Authorization"@[12] == 'n');
        assert(i == 0 || i == 1 || i == 2 || i == 3 || i == 4 || i == 5 || i == 6 || i == 7 || i == 8 || i == 9 || i == 10 || i == 11 || i == 12);
    }
    assert forall|i: int| 0 <= i < "Cache-Control"@.len() implies token_char("Cache-Control"@[i]) by {
        assert("Cache-Control"@[0] == 'C' && "Cache-Control"@[1] == 'a' && "Cache-Control"@[2] == 'c' && "Cache-Control"@[3] == 'h' && "Cache-Control"@[4] == 'e' && "Cache-Control"@[5] == '-' && "Cache-Control"@[6] == 'C' && "Cache-Control"@[7] == 'o' && "Cache-Control"@[8] == 'n' && "Cache-Control"@[9] == 't' && "Cache-Control"@[10] == 'r' && "Cache-Control"@[11] == 'o' && "Cache-Control"@[12] == 'l');
        assert(i == 0 || i == 1 || i == 2 || i == 3 || i == 4 || i == 5 || i == 6 || i == 7 || i == 8 || i == 9 || i == 10 || i == 11 || i == 12);
    }
    assert forall|i: int| 0 <= i < "Connection"@.len() implies token_char("Connection"@[i]) by {
        assert("Connection"@[0] == 'C' && "Connection"@[1] == 'o' && "Connection"@[2] == 'n' && "Connection"@[3] == 'n' && "Connection"@[4] == 'e' && "Connection"@[5] == 'c' && "Connection"@[6] == 't' && "Connection"@[7] == 'i' && "Connection"@[8] == 'o' && "Connection"@[9] == 'n');
        assert(i == 0 || i == 1 || i == 2 || i == 3 || i == 4 || i == 5 || i == 6 || i == 7 || i == 8 || i == 9);
    }
    assert forall|i: int| 0 <= i < "Content-Encoding"@.len() implies token_char("Content-Encoding"@[i]) by {
        assert("Content-Encoding"@[0] == 'C' && "Content-Encoding"@[1] == 'o' && "Content-Encoding"@[2] == 'n' && "Content-Encoding"@[3] == 't' && "Content-Encoding"@[4] == 'e' && "Content-Encoding"@[5] == 'n' && "Content-Encoding"@[6] == 't' && "Content-Encoding"@[7] == '-' && "Content-Encoding"@[8] == 'E' && "Content-Encoding"@[9] == 'n' && "Content-Encoding"@[10] == 'c' && "Content-Encoding"@[11] == 'o' && "Content-Encoding"@[12] == 'd' && "Content-Encoding"@[13] == 'i' && "Content-Encoding"@[14] == 'n' && "Content-Encoding"@[15] == 'g');
        assert(i == 0 || i == 1 || i == 2 || i == 3 || i == 4 || i == 5 || i == 6 || i == 7 || i == 8 || i == 9 || i == 10 || i == 11 || i == 12 || i == 13 || i == 14 || i == 15);
    }
    assert forall|i: int| 0 <= i < "Content-Length"@.len() implies token_char("Content-Length"@[i]) by {
        assert("Content-Length"@[0] == 'C' && "Content-Length"@[1] == 'o' && "Content-Length"@[2] == 'n' && "Content-Length"@[3] == 't' && "Content-Length"@[4] == 'e' && "Content-Length"@[5] == 'n' && "Content-Length"@[6] == 't' && "Content-Length"@[7] == '-' && "Content-Length"@[8] == 'L' && "Content-Length"@[9] == 'e' && "Content-Length"@[10] == 'n' && "Content-Length"@[11] == 'g' && "Content-Length"@[12] == 't' && "Content-Length"@[13] == 'h');
        assert(i == 0 || i == 1 || i == 2 || i == 3 || i == 4 || i == 5 || i == 6 || i == 7 || i == 8 || i == 9 || i == 10 || i == 11 || i == 12 || i == 13);
    }
    assert forall|i: int| 0 <= i < "Content-Type"@.len() implies token_char("Content-Type"@[i]) by {
        assert("Content-Type"@[0] == 'C' && "Content-Type"@[1] == 'o' && "Content-Type"@[2] == 'n' && "Content-Type"@[3] == 't' && "Content-Type"@[4] == 'e' && "Content-Type"@[5] == 'n' && "Content-Type"@[6] == 't' && "Content-Type"@[7] == '-' && "Content-Type"@[8] == 'T' && "Content-Type"@[9] == 'y' && "Content-Type"@[10] == 'p' && "Content-Type"@[11] == 'e');
        assert(i == 0 || i == 1 || i == 2 || i == 3 || i == 4 || i == 5 || i == 6 || i == 7 || i == 8 || i == 9 || i == 10 || i == 11);
    }
    assert forall|i: int| 0 <= i < "Date"@.len() implies token_char("Date"@[i]) by {
        assert("Date"@[0] == 'D' && "Date"@[1] == 'a' && "Date"@[2] == 't' && "Date"@[3] == 'e');
        assert(i == 0 || i == 1 || i == 2 || i == 3);
    }
    assert forall|i: int| 0 <= i < "Expect"@.len() implies token_char("Expect"@[i]) by {
        assert("Expect"@[0] == 'E' && "Expect"@[1] == 'x' && "Expect"@[2] == 'p' && "Expect"@[3] == 'e' && "Expect"@[4] == 'c' && "Expect"@[5] == 't');
        assert(i == 0 || i == 1 || i == 2 || i == 3 || i == 4 || i == 5);
    }
    assert forall|i: int| 0 <= i < "Forwarded"@.len() implies token_char("Forwarded"@[i]) by {
        assert("Forwarded"@[0] == 'F' && "Forwarded"@[1] == 'o' && "Forwarded"@[2] == 'r' && "Forwarded"@[3] == 'w' && "Forwarded"@[4] == 'a' && "Forwarded"@[5] == 'r' && "Forwarded"@[6] == 'd' && "Forwarded"@[7] == 'e' && "Forwarded"@[8] == 'd');
        assert(i == 0 || i == 1 || i == 2 || i == 3 || i == 4 || i == 5 || i == 6 || i == 7 || i == 8);
    }
    assert forall|i: int| 0 <= i < "From"@.len() implies token_char("From"@[i]) by {
        assert("From"@[0] == 'F' && "From"@[1] == 'r' && "From"@[2] == 'o' && "From"@[3] == 'm');
        assert(i == 0 || i == 1 || i == 2 || i == 3);
    }
    assert forall|i: int| 0 <= i < "Host"@.len() implies token_char("Host"@[i]) by {
        assert("Host"@[0] == 'H' && "Host"@[1] == 'o' && "Host"@[2] == 's' && "Host"@[3] == 't');
        assert(i == 0 || i == 1 || i == 2 || i == 3);
    }
    assert forall|i: int| 0 <= i < "If-Match"@.len() implies token_char("If-Match"@[i]) by {
        assert("If-Match"@[0] == 'I' && "If-Match"@[1] == 'f' && "If-Match"@[2] == '-' && "If-Match"@[3] == 'M' && "If-Match"@[4] == 'a' && "If-Match"@[5] == 't' && "If-Match"@[6] == 'c' && "If-Match"@[7] == 'h');
        assert(i == 0 || i == 1 || i == 2 || i == 3 || i == 4 || i == 5 || i == 6 || i == 7);
    }
    assert forall|i: int| 0 <= i < "If-Modified-Since"@.len() implies token_char("If-Modified-Since"@[i]) by {
        assert("If-Modified-Since"@[0] == 'I' && "If-Modified-Since"@[1] == 'f' && "If-Modified-Since"@[2] == '-' && "If-Modified-Since"@[3] == 'M' && "If-Modified-Since"@[4] == 'o' && "If-Modified-Since"@[5] == 'd' && "If-Modified-Since"@[6] == 'i' && "If-Modified-Since"@[7] == 'f' && "If-Modified-Since"@[8] == 'i' && "If-Modified-Since"@[9] == 'e' && "If-Modified-Since"@[10] == 'd' && "If-Modified-Since"@[11] == '-' && "If-Modified-Since"@[12] == 'S' && "If-Modified-Since"@[13] == 'i' && "If-Modified-Since"@[14] == 'n' && "If-Modified-Since"@[15] == 'c' && "If-Modified-Since"@[16] == 'e');
        assert(i == 0 || i == 1 || i == 2 || i == 3 || i == 4 || i == 5 || i == 6 || i == 7 || i == 8 || i == 9 || i == 10 || i == 11 || i == 12 || i == 13 || i == 14 || i == 15 || i == 16);
    }
    assert forall|i: int| 0 <= i < "If-None-Match"@.len() implies token_char("If-None-Match"@[i]) by {
        assert("If-None-Match"@[0] == 'I' && "If-None-Match"@[1] == 'f' && "If-None-Match"@[2] == '-' && "If-None-Match"@[3] == 'N' && "If-None-Match"@[4] == 'o' && "If-None-Match"@[5] == 'n' && "If-None-Match"@[6] == 'e' && "If-None-Match"@[7] == '-' && "If-None-Match"@[8] == 'M' && "If-None-Match"@[9] == 'a' && "If-None-Match"@[10] == 't' && "If-None-Match"@[11] == 'c' && "If-None-Match"@[12] == 'h');
        assert(i == 0 || i == 1 || i == 2 || i == 3 || i == 4 || i == 5 || i == 6 || i == 7 || i == 8 || i == 9 || i == 10 || i == 11 || i == 12);
    }
    assert forall|i: int| 0 <= i < "If-Range"@.len() implies token_char("If-Range"@[i]) by {
        assert("If-Range"@[0] == 'I' && "If-Range"@[1] == 'f' && "If-Range"@[2] == '-' && "If-Range"@[3] == 'R' && "If-Range"@[4] == 'a' && "If-Range"@[5] == 'n' && "If-Range"@[6] == 'g' && "If-Range"@[7] == 'e');
        assert(i == 0 || i == 1 || i == 2 || i == 3 || i == 4 || i == 5 || i == 6 || i == 7);
    }
    assert forall|i: int| 0 <= i < "If-Unmodified-Since"@.len() implies token_char("If-Unmodified-Since"@[i]) by {
        assert("If-Unmodified-Since"@[0] == 'I' && "If-Unmodified-Since"@[1] == 'f' && "If-Unmodified-Since"@[2] == '-' && "If-Unmodified-Since"@[3] == 'U' && "If-Unmodified-Since"@[4] == 'n' && "If-Unmodified-Since"@[5] == 'm' && "If-Unmodified-Since"@[6] == 'o' && "If-Unmodified-Since"@[7] == 'd' && "If-Unmodified-Since"@[8] == 'i' && "If-Unmodified-Since"@[9] == 'f' && "If-Unmodified-Since"@[10] == 'i' && "If-Unmodified-Since"@[11] == 'e' && "If-Unmodified-Since"@[12] == 'd' && "If-Unmodified-Since"@[13] == '-' && "If-Unmodified-Since"@[14] == 'S' && "If-Unmodified-Since"@[15] == 'i' && "If-Unmodified-Since"@[16] == 'n' && "If-Unmodified-Since"@[17] == 'c' && "If-Unmodified-Since"@[18] == 'e');
        assert(i == 0 || i == 1 || i == 2 || i == 3 || i == 4 || i == 5 || i == 6 || i == 7 || i == 8 || i == 9 || i == 10 || i == 11 || i == 12 || i == 13 || i == 14 || i == 15 || i == 16 || i == 17 || i == 18);
    }
    assert forall|i: int| 0 <= i < "Max-Forwards"@.len() implies token_char("Max-Forwards"@[i]) by {
        assert("Max-Forwards"@[0] == 'M' && "Max-Forwards"@[1] == 'a' && "Max-Forwards"@[2] == 'x' && "Max-Forwards"@[3] == '-' && "Max-Forwards"@[4] == 'F' && "Max-Forwards"@[5] == 'o' && "Max-Forwards"@[6] == 'r' && "Max-Forwards"@[7] == 'w' && "Max-Forwards"@[8] == 'a' && "Max-Forwards"@[9] == 'r' && "Max-Forwards"@[10] == 'd' && "Max-Forwards"@[11] == 's');
        assert(i == 0 || i == 1 || i == 2 || i == 3 || i == 4 || i == 5 || i == 6 || i == 7 || i == 8 || i == 9 || i == 10 || i == 11);
    }
    assert forall|i: int| 0 <= i < "Prefer"@.len() implies token_char("Prefer"@[i]) by {
        assert("Prefer"@[0] == 'P' && "Prefer"@[1] == 'r' && "Prefer"@[2] == 'e' && "Prefer"@[3] == 'f' && "Prefer"@[4] == 'e' && "Prefer"@[5] == 'r');
        assert(i == 0 || i == 1 || i == 2 || i == 3 || i == 4 || i == 5);
    }
    assert forall|i: int| 0 <= i < "Proxy-Authorization"@.len() implies token_char("Proxy-Authorization"@[i]) by {
        assert("Proxy-Authorization"@[0] == 'P' && "Proxy-Authorization"@[1] == 'r' && "Proxy-Authorization"@[2] == 'o' && "Proxy-Authorization"@[3] == 'x' && "Proxy-Authorization"@[4] == 'y' && "Proxy-Authorization"@[5] == '-' && "Proxy-Authorization"@[6] == 'A' && "Proxy-Authorization"@[7] == 'u' && "Proxy-Authorization"@[8] == 't' && "Proxy-Authorization"@[9] == 'h' && "Proxy-Authorization"@[10] == 'o' && "Proxy-Authorization"@[11] == 'r' && "Proxy-Authorization"@[12] == 'i' && "Proxy-Authorization"@[13] == 'z' && "Proxy-Authorization"@[14] == 'a' && "Proxy-Authorization"@[15] == 't' && "Proxy-Authorization"@[16] == 'i' && "Proxy-Authorization"@[17] == 'o' && "Proxy-Authorization"@[18] == 'n');
        assert(i == 0 || i == 1 || i == 2 || i == 3 || i == 4 || i == 5 || i == 6 || i == 7 || i == 8 || i == 9 || i == 10 || i == 11 || i == 12 || i == 13 || i == 14 || i == 15 || i == 16 || i == 17 || i == 18);
    }
    assert forall|i: int| 0 <= i < "Range"@.len() implies token_char("Range"@[i]) by {
        assert("Range"@[0] == 'R' && "Range"@[1] == 'a' && "Range"@[2] == 'n' && "Range"@[3] == 'g' && "Range"@[4] == 'e');
        assert(i == 0 || i == 1 || i == 2 || i == 3 || i == 4);
    }
    assert forall|i: int| 0 <= i < "Referer"@.len() implies token_char("Referer"@[i]) by {
        assert("Referer"@[0] == 'R' && "Referer"@[1] == 'e' && "Referer"@[2] == 'f' && "Referer"@[3] == 'e' && "Referer"@[4] == 'r' && "Referer"@[5] == 'e' && "Referer"@[6] == 'r');
        assert(i == 0 || i == 1 || i == 2 || i == 3 || i == 4 || i == 5 || i == 6);
    }
    assert forall|i: int| 0 <= i < "TE"@.len() implies token_char("TE"@[i]) by {
        assert("TE"@[0] == 'T' && "TE"@[1] == 'E');
        assert(i == 0 || i == 1);
    }
    assert forall|i: int| 0 <= i < "Trailer"@.len() implies token_char("Trailer"@[i]) by {
        assert("Trailer"@[0] == 'T' && "Trailer"@[1] == 'r' && "Trailer"@[2] == 'a' && "Trailer"@[3] == 'i' && "Trailer"@[4] == 'l' && "Trailer"@[5] == 'e' && "Trailer"@[6] == 'r');
        assert(i == 0 || i == 1 || i == 2 || i == 3 || i == 4 || i == 5 || i == 6);
    }
    assert forall|i: int| 0 <= i < "Transfer-Encoding"@.len() implies token_char("Transfer-Encoding"@[i]) by {
        assert("Transfer-Encoding"@[0] == 'T' && "Transfer-Encoding"@[1] == 'r' && "Transfer-Encoding"@[2] == 'a' && "Transfer-Encoding"@[3] == 'n' && "Transfer-Encoding"@[4] == 's' && "Transfer-Encoding"@[5] == 'f' && "Transfer-Encoding"@[6] == 'e' && "Transfer-Encoding"@[7] == 'r' && "Transfer-Encoding"@[8] == '-' && "Transfer-Encoding"@[9] == 'E' && "Transfer-Encoding"@[10] == 'n' && "Transfer-Encoding"@[11] == 'c' && "Transfer-Encoding"@[12] == 'o' && "Transfer-Encoding"@[13] == 'd' && "Transfer-Encoding"@[14] == 'i' && "Transfer-Encoding"@[15] == 'n' && "Transfer-Encoding"@[16] == 'g');
        assert(i == 0 || i == 1 || i == 2 || i == 3 || i == 4 || i == 5 || i == 6 || i == 7 || i == 8 || i == 9 || i == 10 || i == 11 || i == 12 || i == 13 || i == 14 || i == 15 || i == 16);
    }
    assert forall|i: int| 0 <= i < "User-Agent"@.len() implies token_char("User-Agent"@[i]) by {
        assert("User-Agent"@[0] == 'U' && "User-Agent"@[1] == 's' && "User-Agent"@[2] == 'e' && "User-Agent"@[3] == 'r' && "User-Agent"@[4] == '-' && "User-Agent"@[5] == 'A' && "User-Agent"@[6] == 'g' && "User-Agent"@[7] == 'e' && "User-Agent"@[8] == 'n' && "User-Agent"@[9] == 't');
        assert(i == 0 || i == 1 || i == 2 || i == 3 || i == 4 || i == 5 || i == 6 || i == 7 || i == 8 || i == 9);
    }
    assert forall|i: int| 0 <= i < "Upgrade"@.len() implies token_char("Upgrade"@[i]) by {
        assert("Upgrade"@[0] == 'U' && "Upgrade"@[1] == 'p' && "Upgrade"@[2] == 'g' && "Upgrade"@[3] == 'r' && "Upgrade"@[4] == 'a' && "Upgrade"@[5] == 'd' && "Upgrade"@[6] == 'e');
        assert(i == 0 || i == 1 || i == 2 || i == 3 || i == 4 || i == 5 || i == 6);
    }
    assert forall|i: int| 0 <= i < "Via"@.len() implies token_char("Via"@[i]) by {
        assert("Via"@[0] == 'V' && "Via"@[1] == 'i' && "Via"@[2] == 'a');
        assert(i == 0 || i == 1 || i == 2);
    }
    assert forall|i: int| 0 <= i < "Access-Control-Request-Method"@.len() implies token_char("Access-Control-Request-Method"@[i]) by {
        assert("Access-Control-Request-Method"@[0] == 'A' && "Access-Control-Request-Method"@[1] == 'c' && "Access-Control-Request-Method"@[2] == 'c' && "Access-Control-Request-Method"@[3] == 'e' && "Access-Control-Request-Method"@[4] == 's' && "Access-Control-Request-Method"@[5] == 's' && "Access-Control-Request-Method"@[6] == '-' && "Access-Control-Request-Method"@[7] == 'C' && "Access-Control-Request-Method"@[8] == 'o' && "Access-Control-Request-Method"@[9] == 'n' && "Access-Control-Request-Method"@[10] == 't' && "Access-Control-Request-Method"@[11] == 'r' && "Access-Control-Request-Method"@[12] == 'o' && "Access-Control-Request-Method"@[13] == 'l' && "Access-Control-Request-Method"@[14] == '-' && "Access-Control-Request-Method"@[15] == 'R' && "Access-Control-Request-Method"@[16] == 'e' && "Access-Control-Request-Method"@[17] == 'q' && "Access-Control-Request-Method"@[18] == 'u' && "Access-Control-Request-Method"@[19] == 'e' && "Access-Control-Request-Method"@[20] == 's' && "Access-Control-Request-Method"@[21] == 't' && "Access-Control-Request-Method"@[22] == '-' && "Access-Control-Request-Method"@[23] == 'M' && "Access-Control-Request-Method"@[24] == 'e' && "Access-Control-Request-Method"@[25] == 't' && "Access-Control-Request-Method"@[26] == 'h' && "Access-Control-Request-Method"@[27] == 'o' && "Access-Control-Request-Method"@[28] == 'd');
        assert(i == 0 || i == 1 || i == 2 || i == 3 || i == 4 || i == 5 || i == 6 || i == 7 || i == 8 || i == 9 || i == 10 || i == 11 || i == 12 || i == 13 || i == 14 || i == 15 || i == 16 || i == 17 || i == 18 || i == 19 || i == 20 || i == 21 || i == 22 || i == 23 || i == 24 || i == 25 || i == 26 || i == 27 || i == 28);
    }
    assert forall|i: int| 0 <= i < "Access-Control-Request-Headers"@.len() implies token_char("Access-Control-Request-Headers"@[i]) by {
        assert("Access-Control-Request-Headers"@[0] == 'A' && "Access-Control-Request-Headers"@[1] == 'c' && "Access-Control-Request-Headers"@[2] == 'c' && "Access-Control-Request-Headers"@[3] == 'e' && "Access-Control-Request-Headers"@[4] == 's' && "Access-Control-Request-Headers"@[5] == 's' && "Access-Control-Request-Headers"@[6] == '-' && "Access-Control-Request-Headers"@[7] == 'C' && "Access-Control-Request-Headers"@[8] == 'o' && "Access-Control-Request-Headers"@[9] == 'n' && "Access-Control-Request-Headers"@[10] == 't' && "Access-Control-Request-Headers"@[11] == 'r' && "Access-Control-Request-Headers"@[12] == 'o' && "Access-Control-Request-Headers"@[13] == 'l' && "Access-Control-Request-Headers"@[14] == '-' && "Access-Control-Request-Headers"@[15] == 'R' && "Access-Control-Request-Headers"@[16] == 'e' && "Access-Control-Request-Headers"@[17] == 'q' && "Access-Control-Request-Headers"@[18] == 'u' && "Access-Control-Request-Headers"@[19] == 'e' && "Access-Control-Request-Headers"@[20] == 's' && "Access-Control-Request-Headers"@[21] == 't' && "Access-Control-Request-Headers"@[22] == '-' && "Access-Control-Request-Headers"@[23] == 'H' && "Access-Control-Request-Headers"@[24] == 'e' && "Access-Control-Request-Headers"@[25] == 'a' && "Access-Control-Request-Headers"@[26] == 'd' && "Access-Control-Request-Headers"@[27] == 'e' && "Access-Control-Request-Headers"@[28] == 'r' && "Access-Control-Request-Headers"@[29] == 's');
        assert(i == 0 || i == 1 || i == 2 || i == 3 || i == 4 || i == 5 || i == 6 || i == 7 || i == 8 || i == 9 || i == 10 || i == 11 || i == 12 || i == 13 || i == 14 || i == 15 || i == 16 || i == 17 || i == 18 || i == 19 || i == 20 || i == 21 || i == 22 || i == 23 || i == 24 || i == 25 || i == 26 || i == 27 || i == 28 || i == 29);
    }
    assert forall|i: int| 0 <= i < "Cookie"@.len() implies token_char("Cookie"@[i]) by {
        assert("Cookie"@[0] == 'C' && "Cookie"@[1] == 'o' && "Cookie"@[2] == 'o' && "Cookie"@[3] == 'k' && "Cookie"@[4] == 'i' && "Cookie"@[5] == 'e');
        assert(i == 0 || i == 1 || i == 2 || i == 3 || i == 4 || i == 5);
    }
    assert forall|i: int| 0 <= i < "Origin"@.len() implies token_char("Origin"@[i]) by {
        assert("Origin"@[0] == 'O' && "Origin"@[1] == 'r' && "Origin"@[2] == 'i' && "Origin"@[3] == 'g' && "Origin"@[4] == 'i' && "Origin"@[5] == 'n');
        assert(i == 0 || i == 1 || i == 2 || i == 3 || i == 4 || i == 5);
    }
    assert forall|i: int| 0 <= i < "Accept-Datetime"@.len() implies token_char("Accept-Datetime"@[i]) by {
        assert("Accept-Datetime"@[0] == 'A' && "Accept-Datetime"@[1] == 'c' && "Accept-Datetime"@[2] == 'c' && "Accept-Datetime"@[3] == 'e' && "Accept-Datetime"@[4] == 'p' && "Accept-Datetime"@[5] == 't' && "Accept-Datetime"@[6] == '-' && "Accept-Datetime"@[7] == 'D' && "Accept-Datetime"@[8] == 'a' && "Accept-Datetime"@[9] == 't' && "Accept-Datetime"@[10] == 'e' && "Accept-Datetime"@[11] == 't' && "Accept-Datetime"@[12] == 'i' && "Accept-Datetime"@[13] == 'm' && "Accept-Datetime"@[14] == 'e');
        assert(i == 0 || i == 1 || i == 2 || i == 3 || i == 4 || i == 5 || i == 6 || i == 7 || i == 8 || i == 9 || i == 10 || i == 11 || i == 12 || i == 13 || i == 14);
    }
}

/// The header name spelled exactly by `v[lo..hi]`.
pub fn header_in_range(v: &Vec<char>, lo: usize, hi: usize) -> (r: Option<HeaderName>)
    requires
        lo <= hi <= v.len(),
    ensures
        r == header_of_text(v@.subrange(lo as int, hi as int)),
{
    if range_eq_str(v, lo, hi, "Content-MD5") {
        Some(HeaderName::ContentMD5)
    } else if range_eq_str(v, lo, hi, "HTTP2-Settings") {
        Some(HeaderName::HTTP2Settings)
    } else if range_eq_str(v, lo, hi, "Warning") {
        Some(HeaderName::Warning)
    } else if range_eq_str(v, lo, hi, "Pragma") {
        Some(HeaderName::Pragma)
    } else if range_eq_str(v, lo, hi, "A-IM") {
        Some(HeaderName::AIM)
    } else if range_eq_str(v, lo, hi, "Accept") {
        Some(HeaderName::Accept)
    } else if range_eq_str(v, lo, hi, "Accept-Charset") {
        Some(HeaderName::AcceptCharset)
    } else if range_eq_str(v, lo, hi, "Accept-Encoding") {
        Some(HeaderName::AcceptEncoding)
    } else if range_eq_str(v, lo, hi, "Accept-Language") {
        Some(HeaderName::AcceptLanguage)
    } else if range_eq_str(v, lo, hi, "Authorization") {
        Some(HeaderName::Authorization)
    } else if range_eq_str(v, lo, hi, "Cache-Control") {
        Some(HeaderName::CacheControl)
    } else if range_eq_str(v, lo, hi, "Connection") {
        Some(HeaderName::Connection)
    } else if range_eq_str(v, lo, hi, "Content-Encoding") {
        Some(HeaderName::ContentEncoding)
    } else if range_eq_str(v, lo, hi, "Content-Length") {
        Some(HeaderName::ContentLength)
    } else if range_eq_str(v, lo, hi, "Content-Type") {
        Some(HeaderName::ContentType)
    } else if range_eq_str(v, lo, hi, "Date") {
        Some(HeaderName::Date)
    } else if range_eq_str(v, lo, hi, "Expect") {
        Some(HeaderName::Expect)
    } else if range_eq_str(v, lo, hi, "Forwarded") {
        Some(HeaderName::Forwarded)
    } else if range_eq_str(v, lo, hi, "From") {
        Some(HeaderName::From)
    } else if range_eq_str(v, lo, hi, "Host") {
        Some(HeaderName::Host)
    } else if range_eq_str(v, lo, hi, "If-Match") {
        Some(HeaderName::IfMatch)
    } else if range_eq_str(v, lo, hi, "If-Modified-Since") {
        Some(HeaderName::IfModifiedSince)
    } else if range_eq_str(v, lo, hi, "If-None-Match") {
        Some(HeaderName::IfNoneMatch)
    } else if range_eq_str(v, lo, hi, "If-Range") {
        Some(HeaderName::IfRange)
    } else if range_eq_str(v, lo, hi, "If-Unmodified-Since") {
        Some(HeaderName::IfUnmodifiedSince)
    } else if range_eq_str(v, lo, hi, "Max-Forwards") {
        Some(HeaderName::MaxForwards)
    } else if range_eq_str(v, lo, hi, "Prefer") {
        Some(HeaderName::Prefer)
    } else if range_eq_str(v, lo, hi, "Proxy-Authorization") {
        Some(HeaderName::ProxyAuthorization)
    } else if range_eq_str(v, lo, hi, "Range") {
        Some(HeaderName::Range)
    } else if range_eq_str(v, lo, hi, "Referer") {
        Some(HeaderName::Referer)
    } else if range_eq_str(v, lo, hi, "TE") {
        Some(HeaderName::TE)
    } else if range_eq_str(v, lo, hi, "Trailer") {
        Some(HeaderName::Trailer)
    } else if range_eq_str(v, lo, hi, "Transfer-Encoding") {
        Some(HeaderName::TransferEncoding)
    } else if range_eq_str(v, lo, hi, "User-Agent") {
        Some(HeaderName::UserAgent)
    } else if range_eq_str(v, lo, hi, "Upgrade") {
        Some(HeaderName::Upgrade)
    } else if range_eq_str(v, lo, hi, "Via") {
        Some(HeaderName::Via)
    } else if range_eq_str(v, lo, hi, "Access-Control-Request-Method") {
        Some(HeaderName::AccessControlRequestMethod)
    } else if range_eq_str(v, lo, hi, "Access-Control-Request-Headers") {
        Some(HeaderName::AccessControlRequestHeaders)
    } else if range_eq_str(v, lo, hi, "Cookie") {
        Some(HeaderName::Cookie)
    } else if range_eq_str(v, lo, hi, "Origin") {
        Some(HeaderName::Origin)
    } else if range_eq_str(v, lo, hi, "Accept-Datetime") {
        Some(HeaderName::AcceptDatetime)
    } else {
        None
    }
}

impl HeaderName {
    /// Parses the exact, case-sensitive canonical spelling of a header name.
    pub fn parse(s: &str) -> (r: Result<HeaderName, ParseError>)
        ensures
            r == (match header_of_text(s@) {
                Some(h) => Ok(h),
                None => Err(ParseError::UnknownHeaderName),
            }),
    {
        let v = chars_of(s);
        assert(v@.subrange(0, v@.len() as int) =~= s@);
        match header_in_range(&v, 0, v.len()) {
            Some(h) => Ok(h),
            None => Err(ParseError::UnknownHeaderName),
        }
    }

    /// The canonical wire spelling of this header name.
    pub fn as_str(&self) -> (r: &'static str)
        ensures
            r@ == header_text(*self),
    {
        match self {
            HeaderName::ContentMD5 => "Content-MD5",
            HeaderName::HTTP2Settings => "HTTP2-Settings",
            HeaderName::Warning => "Warning",
            HeaderName::Pragma => "Pragma",
            HeaderName::AIM => "A-IM",
            HeaderName::Accept => "Accept",
            HeaderName::AcceptCharset => "Accept-Charset",
            HeaderName::AcceptEncoding => "Accept-Encoding",
            HeaderName::AcceptLanguage => "Accept-Language",
            HeaderName::Authorization => "Authorization",
            HeaderName::CacheControl => "Cache-Control",
            HeaderName::Connection => "Connection",
            HeaderName::ContentEncoding => "Content-Encoding",
            HeaderName::ContentLength => "Content-Length",
            HeaderName::ContentType => "Content-Type",
            HeaderName::Date => "Date",
            HeaderName::Expect => "Expect",
            HeaderName::Forwarded => "Forwarded",
            HeaderName::From => "From",
            HeaderName::Host => "Host",
            HeaderName::IfMatch => "If-Match",
            HeaderName::IfModifiedSince => "If-Modified-Since",
            HeaderName::IfNoneMatch => "If-None-Match",
            HeaderName::IfRange => "If-Range",
            HeaderName::IfUnmodifiedSince => "If-Unmodified-Since",
            HeaderName::MaxForwards => "Max-Forwards",
            HeaderName::Prefer => "Prefer",
            HeaderName::ProxyAuthorization => "Proxy-Authorization",
            HeaderName::Range => "Range",
            HeaderName::Referer => "Referer",
            HeaderName::TE => "TE",
            HeaderName::Trailer => "Trailer",
            HeaderName::TransferEncoding => "Transfer-Encoding",
            HeaderName::UserAgent => "User-Agent",
            HeaderName::Upgrade => "Upgrade",
            HeaderName::Via => "Via",
            HeaderName::AccessControlRequestMethod => "Access-Control-Request-Method",
            HeaderName::AccessControlRequestHeaders => "Access-Control-Request-Headers",
            HeaderName::Cookie => "Cookie",
            HeaderName::Origin => "Origin",
            HeaderName::AcceptDatetime => "Accept-Datetime",
        }
    }

    /// The canonical wire spelling of this header name, owned.
    pub fn to_string(&self) -> (r: String)
        ensures
            r@ == header_text(*self),
    {
        self.as_str().to_owned()
    }
}

/// One header entry as a model: its name and the characters of its value.
pub type HeaderEntry = (HeaderName, Seq<char>);

/// The index of the first entry named `k` at or after `i`, or `s.len()` if there is none.
pub open spec fn key_index(s: Seq<HeaderEntry>, k: HeaderName, i: int) -> int
    decreases s.len() - i,
{
    if i < 0 || i >= s.len() {
        s.len() as int
    } else if s[i].0 == k {
        i
    } else {
        key_index(s, k, i + 1)
    }
}

/// The value of the entry named `k`, if there is one.
pub open spec fn lookup(s: Seq<HeaderEntry>, k: HeaderName) -> Option<Seq<char>> {
    let i = key_index(s, k, 0);
    if i < s.len() {
        Some(s[i].1)
    } else {
        None
    }
}

/// Sets the value of `k`: an existing entry is overwritten in place, a new one goes last.
pub open spec fn insert_entry(s: Seq<HeaderEntry>, k: HeaderName, v: Seq<char>) -> Seq<HeaderEntry> {
    let i = key_index(s, k, 0);
    if i < s.len() {
        s.update(i, (k, v))
    } else {
        s.push((k, v))
    }
}

/// The entries of `s` not named `k`, in order.
pub open spec fn remove_key(s: Seq<HeaderEntry>, k: HeaderName) -> Seq<HeaderEntry>
    decreases s.len(),
{
    if s.len() == 0 {
        s
    } else if s.last().0 == k {
        remove_key(s.drop_last(), k)
    } else {
        remove_key(s.drop_last(), k).push(s.last())
    }
}

/// No two entries share a name.
pub open spec fn keys_unique(s: Seq<HeaderEntry>) -> bool {
    forall|i: int, j: int| 0 <= i < j < s.len() ==> s[i].0 != s[j].0
}

/// The wire line of one entry: `<Name>: <value>` and a line feed.
pub open spec fn header_line(e: HeaderEntry) -> Seq<char> {
    header_text(e.0) + seq![':', ' '] + e.1 + seq!['\n']
}

/// The wire block of a header collection: one line per entry, in order.
pub open spec fn headers_text(s: Seq<HeaderEntry>) -> Seq<char>
    decreases s.len(),
{
    if s.len() == 0 {
        Seq::empty()
    } else {
        header_line(s[0]) + headers_text(s.drop_first())
    }
}

/// One more entry at the end adds its line at the end of the block.
pub proof fn lemma_headers_text_push(s: Seq<HeaderEntry>, e: HeaderEntry)
    ensures
        headers_text(s.push(e)) == headers_text(s) + header_line(e),
    decreases s.len(),
{
    if s.len() == 0 {
        assert(s.push(e).drop_first() =~= Seq::<HeaderEntry>::empty());
        assert(s.push(e)[0] == e);
        assert(headers_text(s.push(e).drop_first()) == Seq::<char>::empty());
        assert(headers_text(s) == Seq::<char>::empty());
        assert(headers_text(s.push(e)) =~= headers_text(s) + header_line(e));
    } else {
        assert(s.push(e).drop_first() =~= s.drop_first().push(e));
        lemma_headers_text_push(s.drop_first(), e);
        assert(s.push(e)[0] == s[0]);
        assert(headers_text(s.push(e)) == header_line(s[0]) + headers_text(s.drop_first().push(e)));
        assert(headers_text(s) == header_line(s[0]) + headers_text(s.drop_first()));
        assert(headers_text(s.push(e)) =~= headers_text(s) + header_line(e));
    }
}

/// The model of stored entries.
spec fn entries_model(v: Seq<(HeaderName, String)>) -> Seq<HeaderEntry> {
    v.map_values(|e: (HeaderName, String)| (e.0, e.1@))
}

/// A mapping from header names to single values, kept in insertion order.
pub struct Headers {
    entries: Vec<(HeaderName, String)>,
}

impl View for Headers {
    type V = Seq<HeaderEntry>;

    closed spec fn view(&self) -> Seq<HeaderEntry> {
        entries_model(self.entries@)
    }
}

impl Clone for Headers {
    fn clone(&self) -> (r: Self)
        ensures
            r@ == self@,
    {
        let mut entries: Vec<(HeaderName, String)> = Vec::new();
        let mut i: usize = 0;
        while i < self.entries.len()
            invariant
                i <= self.entries.len(),
                entries_model(entries@) == self@.take(i as int),
                self@.len() == self.entries.len(),
            decreases self.entries.len() - i,
        {
            let e = &self.entries[i];
            let value = e.1.clone();
            assert(self@[i as int] == (e.0, value@));
            let ghost before = entries@;
            entries.push((e.0, value));
            assert(entries_model(entries@) =~= entries_model(before).push((e.0, value@)));
            assert(self@.take(i + 1) =~= self@.take(i as int).push(self@[i as int]));
            i = i + 1;
        }
        assert(self@.take(i as int) =~= self@);
        Headers { entries }
    }
}

impl Headers {
    /// An empty collection.
    pub fn new() -> (r: Self)
        ensures
            r@ == Seq::<HeaderEntry>::empty(),
    {
        let r = Headers { entries: Vec::new() };
        assert(r@ =~= Seq::<HeaderEntry>::empty());
        r
    }

    /// The index of the first entry named `name`, or the number of entries.
    fn position(&self, name: &HeaderName) -> (r: usize)
        ensures
            r as int == key_index(self@, *name, 0),
    {
        let mut i: usize = 0;
        while i < self.entries.len() && self.entries[i].0 != *name
            invariant
                i <= self.entries.len(),
                self@.len() == self.entries.len(),
                key_index(self@, *name, i as int) == key_index(self@, *name, 0),
            decreases self.entries.len() - i,
        {
            i = i + 1;
        }
        i
    }

    /// The value stored under `name`, if any.
    pub fn get(&self, name: &HeaderName) -> (r: Option<&String>)
        ensures
            match r {
                Some(v) => lookup(self@, *name) == Some(v@),
                None => lookup(self@, *name) is None,
            },
    {
        let i = self.position(name);
        if i < self.entries.len() {
            Some(&self.entries[i].1)
        } else {
            None
        }
    }

    /// Sets the value of `name`, overwriting silently; returns the value it replaced.
    pub fn insert(&mut self, name: HeaderName, value: String) -> (r: Option<String>)
        ensures
            final(self)@ == insert_entry(old(self)@, name, value@),
            match r {
                Some(v) => lookup(old(self)@, name) == Some(v@),
                None => lookup(old(self)@, name) is None,
            },
    {
        let i = self.position(&name);
        if i < self.entries.len() {
            let ghost v = value@;
            let old_entry = self.entries.remove(i);
            self.entries.insert(i, (name, value));
            assert(self@ =~= insert_entry(old(self)@, name, v));
            Some(old_entry.1)
        } else {
            self.entries.push((name, value));
            assert(self@ =~= insert_entry(old(self)@, name, value@));
            None
        }
    }

    /// Removes every entry named `name`; returns the value it held, if any.
    pub fn remove(&mut self, name: HeaderName) -> (r: Option<String>)
        ensures
            final(self)@ == remove_key(old(self)@, name),
            match r {
                Some(v) => lookup(old(self)@, name) == Some(v@),
                None => lookup(old(self)@, name) is None,
            },
    {
        let ghost before = self@;
        let mut kept: Vec<(HeaderName, String)> = Vec::new();
        let mut found: Option<String> = None;
        let mut i: usize = 0;
        while i < self.entries.len()
            invariant
                i <= self.entries.len(),
                before == self@,
                before.len() == self.entries.len(),
                entries_model(kept@) == remove_key(before.take(i as int), name),
                match found {
                    Some(v) => lookup(before.take(i as int), name) == Some(v@),
                    None => lookup(before.take(i as int), name) is None,
                },
            decreases self.entries.len() - i,
        {
            let e = &self.entries[i];
            proof {
                lemma_lookup_push(before.take(i as int), name, before[i as int]);
                assert(before.take(i + 1).drop_last() =~= before.take(i as int));
                assert(before.take(i + 1) =~= before.take(i as int).push(before[i as int]));
            }
            if e.0 == name {
                if found.is_none() {
                    found = Some(e.1.clone());
                }
            } else {
                kept.push((e.0, e.1.clone()));
                assert(entries_model(kept@) =~= remove_key(before.take(i + 1), name));
            }
            i = i + 1;
        }
        assert(before.take(i as int) =~= before);
        self.entries = kept;
        found
    }

    /// The wire block: one `<Name>: <value>` line per entry, in insertion order.
    pub fn to_string(&self) -> (r: String)
        ensures
            r@ == headers_text(self@),
    {
        let mut out = String::new();
        let mut i: usize = 0;
        proof {
            reveal_strlit(": ");
            reveal_strlit("\n");
        }
        while i < self.entries.len()
            invariant
                i <= self.entries.len(),
                self@.len() == self.entries.len(),
                out@ == headers_text(self@.take(i as int)),
                ": "@ == seq![':', ' '],
                "\n"@ == seq!['\n'],
            decreases self.entries.len() - i,
        {
            let e = &self.entries[i];
            out.append(e.0.as_str());
            out.append(": ");
            out.append(e.1.as_str());
            out.append("\n");
            assert(self@.take(i + 1) =~= self@.take(i as int).push(self@[i as int]));
            proof {
                lemma_headers_text_push(self@.take(i as int), self@[i as int]);
            }
            assert(out@ =~= headers_text(self@.take(i + 1)));
            i = i + 1;
        }
        assert(self@.take(i as int) =~= self@);
        out
    }
}

/// Setting a name that no entry carries adds it at the end.
pub proof fn lemma_insert_new(s: Seq<HeaderEntry>, k: HeaderName, v: Seq<char>)
    requires
        forall|i: int| 0 <= i < s.len() ==> s[i].0 != k,
    ensures
        insert_entry(s, k, v) == s.push((k, v)),
{
    lemma_key_index_bounds(s, k, 0);
}

/// Looking up in a sequence with one more entry at its end.
pub proof fn lemma_lookup_push(s: Seq<HeaderEntry>, k: HeaderName, e: HeaderEntry)
    ensures
        lookup(s.push(e), k) == (if lookup(s, k) is Some {
            lookup(s, k)
        } else if e.0 == k {
            Some(e.1)
        } else {
            None
        }),
{
    lemma_key_index_push(s, k, e, 0);
    lemma_key_index_bounds(s, k, 0);
    let i = key_index(s, k, 0);
    if i < s.len() {
        assert(s.push(e)[i] == s[i]);
    }
}

/// `key_index` lies between its start and the length.
pub proof fn lemma_key_index_bounds(s: Seq<HeaderEntry>, k: HeaderName, i: int)
    requires
        0 <= i,
    ensures
        i <= key_index(s, k, i) <= s.len() || (i > s.len() && key_index(s, k, i) == s.len()),
        key_index(s, k, i) < s.len() ==> s[key_index(s, k, i)].0 == k,
        forall|j: int| i <= j < key_index(s, k, i) ==> s[j].0 != k,
    decreases s.len() - i,
{
    if i < s.len() && s[i].0 != k {
        lemma_key_index_bounds(s, k, i + 1);
    }
}

/// `key_index` on a sequence with one more entry at its end.
pub proof fn lemma_key_index_push(s: Seq<HeaderEntry>, k: HeaderName, e: HeaderEntry, i: int)
    requires
        0 <= i <= s.len(),
    ensures
        key_index(s.push(e), k, i) == (if key_index(s, k, i) < s.len() {
            key_index(s, k, i)
        } else if e.0 == k {
            s.len() as int
        } else {
            s.len() + 1 as int
        }),
    decreases s.len() - i,
{
    assert(s.push(e)[i] == if i < s.len() { s[i] } else { e });
    if i < s.len() {
        lemma_key_index_push(s, k, e, i + 1);
    } else {
        assert(key_index(s.push(e), k, i + 1) == s.len() + 1);
    }
}

} // verus!
