//! Request methods.

use vstd::prelude::*;
use crate::text::{chars_of, range_eq_str, is_token, token_char};
use crate::error::ParseError;

verus! {

broadcast use vstd::string::group_string_axioms;

/// The closed set of request methods.
#[derive(PartialEq, Eq, Structural, Clone, Copy, Debug)]
pub enum Method {
    GET,
    HEAD,
    OPTIONS,
    TRACE,
    PUT,
    DELETE,
    POST,
    PATCH,
    CONNECT,
}

/// The wire spelling of a method.
pub open spec fn method_text(m: Method) -> Seq<char> {
    match m {
        Method::GET => "GET"@,
        Method::HEAD => "HEAD"@,
        Method::OPTIONS => "OPTIONS"@,
        Method::TRACE => "TRACE"@,
        Method::PUT => "PUT"@,
        Method::DELETE => "DELETE"@,
        Method::POST => "POST"@,
        Method::PATCH => "PATCH"@,
        Method::CONNECT => "CONNECT"@,
    }
}

/// The method spelled by `s`, if any.
pub open spec fn method_of_text(s: Seq<char>) -> Option<Method> {
    if s == "GET"@ {
        Some(Method::GET)
    } else if s == "HEAD"@ {
        Some(Method::HEAD)
    } else if s == "OPTIONS"@ {
        Some(Method::OPTIONS)
    } else if s == "TRACE"@ {
        Some(Method::TRACE)
    } else if s == "PUT"@ {
        Some(Method::PUT)
    } else if s == "DELETE"@ {
        Some(Method::DELETE)
    } else if s == "POST"@ {
        Some(Method::POST)
    } else if s == "PATCH"@ {
        Some(Method::PATCH)
    } else if s == "CONNECT"@ {
        Some(Method::CONNECT)
    } else {
        None
    }
}

/// Parsing the spelling of a method gives that method back.
pub proof fn lemma_method_text_round_trip(m: Method)
    ensures
        method_of_text(method_text(m)) == Some(m),
{
    reveal_strlit("GET");
    reveal_strlit("HEAD");
    reveal_strlit("OPTIONS");
    reveal_strlit("TRACE");
    reveal_strlit("PUT");
    reveal_strlit("DELETE");
    reveal_strlit("POST");
    reveal_strlit("PATCH");
    reveal_strlit("CONNECT");
    assert("GET"@.len() == 3 && "GET"@[0] == 'G');
    assert("HEAD"@.len() == 4 && "HEAD"@[0] == 'H');
    assert("OPTIONS"@.len() == 7 && "OPTIONS"@[0] == 'O');
    assert("TRACE"@.len() == 5 && "TRACE"@[0] == 'T');
    assert("PUT"@.len() == 3 && "PUT"@[0] == 'P');
    assert("DELETE"@.len() == 6 && "DELETE"@[0] == 'D');
    assert("POST"@.len() == 4 && "POST"@[0] == 'P');
    assert("PATCH"@.len() == 5 && "PATCH"@[0] == 'P');
    assert("CONNECT"@.len() == 7 && "CONNECT"@[0] == 'C');
}

/// Every method is spelled with letters only.
pub proof fn lemma_method_text_is_token(m: Method)
    ensures
        is_token(method_text(m)),
{
    reveal_strlit("GET");
    reveal_strlit("HEAD");
    reveal_strlit("OPTIONS");
    reveal_strlit("TRACE");
    reveal_strlit("PUT");
    reveal_strlit("DELETE");
    reveal_strlit("POST");
    reveal_strlit("PATCH");
    reveal_strlit("CONNECT");
    assert forall|i: int| 0 <= i < "GET"@.len() implies token_char("GET"@[i]) by {
        assert("GET"@[0] == 'G' && "GET"@[1] == 'E' && "GET"@[2] == 'T');
        assert(i == 0 || i == 1 || i == 2);
    }
    assert forall|i: int| 0 <= i < "HEAD"@.len() implies token_char("HEAD"@[i]) by {
        assert("HEAD"@[0] == 'H' && "HEAD"@[1] == 'E' && "HEAD"@[2] == 'A' && "HEAD"@[3] == 'D');
        assert(i == 0 || i == 1 || i == 2 || i == 3);
    }
    assert forall|i: int| 0 <= i < "OPTIONS"@.len() implies token_char("OPTIONS"@[i]) by {
        assert("OPTIONS"@[0] == 'O' && "OPTIONS"@[1] == 'P' && "OPTIONS"@[2] == 'T' && "OPTIONS"@[3] == 'I' && "OPTIONS"@[4] == 'O' && "OPTIONS"@[5] == 'N' && "OPTIONS"@[6] == 'S');
        assert(i == 0 || i == 1 || i == 2 || i == 3 || i == 4 || i == 5 || i == 6);
    }
    assert forall|i: int| 0 <= i < "TRACE"@.len() implies token_char("TRACE"@[i]) by {
        assert("TRACE"@[0] == 'T' && "TRACE"@[1] == 'R' && "TRACE"@[2] == 'A' && "TRACE"@[3] == 'C' && "TRACE"@[4] == 'E');
        assert(i == 0 || i == 1 || i == 2 || i == 3 || i == 4);
    }
    assert forall|i: int| 0 <= i < "PUT"@.len() implies token_char("PUT"@[i]) by {
        assert("PUT"@[0] == 'P' && "PUT"@[1] == 'U' && "PUT"@[2] == 'T');
        assert(i == 0 || i == 1 || i == 2);
    }
    assert forall|i: int| 0 <= i < "DELETE"@.len() implies token_char("DELETE"@[i]) by {
        assert("DELETE"@[0] == 'D' && "DELETE"@[1] == 'E' && "DELETE"@[2] == 'L' && "DELETE"@[3] == 'E' && "DELETE"@[4] == 'T' && "DELETE"@[5] == 'E');
        assert(i == 0 || i == 1 || i == 2 || i == 3 || i == 4 || i == 5);
    }
    assert forall|i: int| 0 <= i < "POST"@.len() implies token_char("POST"@[i]) by {
        assert("POST"@[0] == 'P' && "POST"@[1] == 'O' && "POST"@[2] == 'S' && "POST"@[3] == 'T');
        assert(i == 0 || i == 1 || i == 2 || i == 3);
    }
    assert forall|i: int| 0 <= i < "PATCH"@.len() implies token_char("PATCH"@[i]) by {
        assert("PATCH"@[0] == 'P' && "PATCH"@[1] == 'A' && "PATCH"@[2] == 'T' && "PATCH"@[3] == 'C' && "PATCH"@[4] == 'H');
        assert(i == 0 || i == 1 || i == 2 || i == 3 || i == 4);
    }
    assert forall|i: int| 0 <= i < "CONNECT"@.len() implies token_char("CONNECT"@[i]) by {
        assert("CONNECT"@[0] == 'C' && "CONNECT"@[1] == 'O' && "CONNECT"@[2] == 'N' && "CONNECT"@[3] == 'N' && "CONNECT"@[4] == 'E' && "CONNECT"@[5] == 'C' && "CONNECT"@[6] == 'T');
        assert(i == 0 || i == 1 || i == 2 || i == 3 || i == 4 || i == 5 || i == 6);
    }
}

/// The method spelled by `v[lo..hi]`, exactly as `method_of_text` gives it.
pub fn method_in_range(v: &Vec<char>, lo: usize, hi: usize) -> (r: Option<Method>)
    requires
        lo <= hi <= v.len(),
    ensures
        r == method_of_text(v@.subrange(lo as int, hi as int)),
{
    if range_eq_str(v, lo, hi, "GET") {
        Some(Method::GET)
    } else if range_eq_str(v, lo, hi, "HEAD") {
        Some(Method::HEAD)
    } else if range_eq_str(v, lo, hi, "OPTIONS") {
        Some(Method::OPTIONS)
    } else if range_eq_str(v, lo, hi, "TRACE") {
        Some(Method::TRACE)
    } else if range_eq_str(v, lo, hi, "PUT") {
        Some(Method::PUT)
    } else if range_eq_str(v, lo, hi, "DELETE") {
        Some(Method::DELETE)
    } else if range_eq_str(v, lo, hi, "POST") {
        Some(Method::POST)
    } else if range_eq_str(v, lo, hi, "PATCH") {
        Some(Method::PATCH)
    } else if range_eq_str(v, lo, hi, "CONNECT") {
        Some(Method::CONNECT)
    } else {
        None
    }
}

impl Method {
    /// Parses the exact, case-sensitive spelling of a method.
    pub fn parse(s: &str) -> (r: Result<Method, ParseError>)
        ensures
            r == (match method_of_text(s@) {
                Some(m) => Ok(m),
                None => Err(ParseError::UnknownMethod),
            }),
    {
        let v = chars_of(s);
        assert(v@.subrange(0, v@.len() as int) =~= s@);
        match method_in_range(&v, 0, v.len()) {
            Some(m) => Ok(m),
            None => Err(ParseError::UnknownMethod),
        }
    }

    /// The wire spelling of this method.
    pub fn as_str(&self) -> (r: &'static str)
        ensures
            r@ == method_text(*self),
    {
        match self {
            Method::GET => "GET",
            Method::HEAD => "HEAD",
            Method::OPTIONS => "OPTIONS",
            Method::TRACE => "TRACE",
            Method::PUT => "PUT",
            Method::DELETE => "DELETE",
            Method::POST => "POST",
            Method::PATCH => "PATCH",
            Method::CONNECT => "CONNECT",
        }
    }
}

} // verus!
