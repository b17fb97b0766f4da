//! The layout shared by requests and responses: a start line, header lines,
//! a blank line and a body.
//!
//! Lines end at a line feed; a carriage return just before it belongs to the
//! line ending. The first line that is empty once that carriage return is
//! dropped ends the header block, and everything after it is the body.

use vstd::prelude::*;
use crate::error::ParseError;
use crate::headers::{
    HeaderEntry, HeaderName, Headers, header_in_range, header_line, header_of_text, header_text,
    headers_text, insert_entry, keys_unique, lemma_header_text_is_token,
    lemma_header_text_round_trip, lemma_key_index_bounds,
};
use crate::text::{
    chars_of, find_between, find_char, find_in, has_char, lemma_find_char_at, lemma_find_char_bounds,
    slice_of, token_char,
};

verus! {

/// A line without the carriage return that may end it.
pub open spec fn strip_cr(l: Seq<char>) -> Seq<char> {
    if l.len() > 0 && l.last() == '\r' {
        l.drop_last()
    } else {
        l
    }
}

/// Where the line that starts at `p` and ends at `e` is followed by the next one.
pub open spec fn after_line(s: Seq<char>, p: int, e: int) -> int {
    if p <= e < s.len() {
        e + 1
    } else {
        s.len() as int
    }
}

/// A header line of a message: the name runs up to the first `:`, and one space
/// after it is dropped from the value. A name that is not known drops the line;
/// a line without `:` is malformed.
pub open spec fn header_entry(line: Seq<char>) -> Result<Option<HeaderEntry>, ParseError> {
    let c = find_char(line, ':', 0);
    if c >= line.len() {
        Err(ParseError::MalformedHeaderLine)
    } else {
        let rest = line.subrange(c + 1, line.len() as int);
        let value = if rest.len() > 0 && rest[0] == ' ' {
            rest.subrange(1, rest.len() as int)
        } else {
            rest
        };
        match header_of_text(line.subrange(0, c)) {
            Some(h) => Ok(Some((h, value))),
            None => Ok(None),
        }
    }
}

/// Reads header lines from `p` on into `acc`, up to the blank line; gives the
/// headers and where the body starts.
pub open spec fn parse_lines(s: Seq<char>, p: int, acc: Seq<HeaderEntry>) -> Result<
    (Seq<HeaderEntry>, int),
    ParseError,
>
    decreases s.len() - p,
{
    if p < 0 || p >= s.len() {
        Ok((acc, s.len() as int))
    } else {
        let e = find_char(s, '\n', p);
        let line = strip_cr(s.subrange(p, e));
        if line.len() == 0 {
            Ok((acc, after_line(s, p, e)))
        } else {
            match header_entry(line) {
                Err(x) => Err(x),
                Ok(None) => parse_lines(s, after_line(s, p, e), acc),
                Ok(Some(en)) => parse_lines(s, after_line(s, p, e), insert_entry(acc, en.0, en.1)),
            }
        }
    }
}

/// The start line of a message.
pub open spec fn start_line(s: Seq<char>) -> Seq<char> {
    strip_cr(s.subrange(0, find_char(s, '\n', 0)))
}

/// The headers and the body that follow the start line.
pub open spec fn decode_head(s: Seq<char>) -> Result<(Seq<HeaderEntry>, Seq<char>), ParseError> {
    let e0 = find_char(s, '\n', 0);
    match parse_lines(s, after_line(s, 0, e0), Seq::empty()) {
        Ok((h, b)) => Ok((h, s.subrange(b, s.len() as int))),
        Err(x) => Err(x),
    }
}

/// The wire form of a message: start line, header block, an empty line ended by
/// `\r\n`, body.
pub open spec fn message_text(start: Seq<char>, h: Seq<HeaderEntry>, body: Seq<char>) -> Seq<char> {
    start + seq!['\n'] + headers_text(h) + seq!['\r', '\n'] + body
}

/// A start line that reads back as itself: no line feed, no final carriage return.
pub open spec fn line_clean(l: Seq<char>) -> bool {
    !has_char(l, '\n') && !(l.len() > 0 && l.last() == '\r')
}

/// Headers that read back as themselves: unique names, values without line breaks.
pub open spec fn headers_clean(h: Seq<HeaderEntry>) -> bool {
    &&& keys_unique(h)
    &&& forall|i: int|
        0 <= i < h.len() ==> !has_char(#[trigger] h[i].1, '\n') && !has_char(h[i].1, '\r')
}

/// The entry line `<Name>: <value>` of a clean value reads back as that entry.
pub proof fn lemma_header_entry_of_line(e: HeaderEntry)
    requires
        !has_char(e.1, '\r'),
        !has_char(e.1, '\n'),
    ensures
        header_entry(header_text(e.0) + seq![':', ' '] + e.1) == Ok::<Option<HeaderEntry>, ParseError>(
            Some(e),
        ),
{
    let t = header_text(e.0);
    let line = t + seq![':', ' '] + e.1;
    lemma_header_text_is_token(e.0);
    lemma_header_text_round_trip(e.0);
    assert forall|k: int| 0 <= k < t.len() implies line[k] != ':' by {
        assert(line[k] == t[k]);
        assert(token_char(t[k]));
    }
    assert(line[t.len() as int] == ':');
    lemma_find_char_at(line, ':', 0, t.len() as int);
    assert(line.subrange(0, t.len() as int) =~= t);
    let rest = line.subrange(t.len() + 1 as int, line.len() as int);
    assert(rest =~= seq![' '] + e.1);
    assert(rest.subrange(1, rest.len() as int) =~= e.1);
}

/// A clean message reads its header lines back exactly.
proof fn lemma_parse_lines_clean(
    s: Seq<char>,
    p: int,
    acc: Seq<HeaderEntry>,
    rest: Seq<HeaderEntry>,
    body: Seq<char>,
)
    requires
        0 <= p <= s.len(),
        s.subrange(p, s.len() as int) == headers_text(rest) + seq!['\r', '\n'] + body,
        headers_clean(acc + rest),
    ensures
        parse_lines(s, p, acc) == Ok::<(Seq<HeaderEntry>, int), ParseError>(
            (acc + rest, s.len() - body.len()),
        ),
    decreases rest.len(),
{
    let tail = s.subrange(p, s.len() as int);
    if rest.len() == 0 {
        assert(headers_text(rest) == Seq::<char>::empty());
        assert(tail =~= seq!['\r', '\n'] + body);
        assert(tail[0] == '\r');
        assert(tail[1] == '\n');
        assert(tail.len() == s.len() - p);
        assert(s[p] == tail[0]);
        assert(s[p + 1] == tail[1]);
        lemma_find_char_at(s, '\n', p, p + 1);
        assert(s.subrange(p, p + 1) =~= seq!['\r']);
        assert(strip_cr(s.subrange(p, p + 1)) =~= Seq::<char>::empty());
        assert(acc + rest =~= acc);
    } else {
        let e = rest[0];
        let seg = header_line(e);
        let more = rest.drop_first();
        let n = seg.len() as int;
        assert(headers_text(rest) == seg + headers_text(more));
        assert(tail =~= seg + (headers_text(more) + seq!['\r', '\n'] + body));
        assert((acc + rest)[acc.len() as int] == e);
        assert(!has_char(e.1, '\n') && !has_char(e.1, '\r'));
        lemma_header_text_is_token(e.0);
        let t = header_text(e.0);
        assert forall|k: int| p <= k < p + n - 1 implies s[k] != '\n' by {
            assert(s[k] == tail[k - p]);
            assert(tail[k - p] == seg[k - p]);
            if k - p < t.len() {
                assert(seg[k - p] == t[k - p]);
                assert(token_char(t[k - p]));
            } else if k - p >= t.len() + 2 {
                assert(seg[k - p] == e.1[k - p - t.len() - 2]);
            }
        }
        assert(s[p + n - 1] == tail[n - 1]);
        assert(seg[n - 1] == '\n');
        lemma_find_char_at(s, '\n', p, p + n - 1);
        let line = s.subrange(p, p + n - 1);
        assert(line =~= t + seq![':', ' '] + e.1);
        if e.1.len() > 0 {
            assert(line.last() == e.1[e.1.len() - 1]);
        }
        assert(strip_cr(line) == line);
        lemma_header_entry_of_line(e);
        // the new entry's name is not among those read so far
        assert forall|k: int| 0 <= k < acc.len() implies acc[k].0 != e.0 by {
            assert((acc + rest)[k] == acc[k]);
        }
        lemma_key_index_bounds(acc, e.0, 0);
        assert(insert_entry(acc, e.0, e.1) == acc.push(e));
        assert(acc.push(e) + more =~= acc + rest);
        assert(s.subrange(p + n, s.len() as int) =~= tail.subrange(n, tail.len() as int));
        assert(tail.subrange(n, tail.len() as int) =~= headers_text(more) + seq!['\r', '\n'] + body);
        assert(s.subrange(p + n, s.len() as int) =~= headers_text(more) + seq!['\r', '\n'] + body);
        lemma_parse_lines_clean(s, p + n, acc.push(e), more, body);
    }
}

/// A message built from a clean start line and clean headers decodes back to its
/// start line, headers and body.
pub proof fn lemma_message_round_trip(start: Seq<char>, h: Seq<HeaderEntry>, body: Seq<char>)
    requires
        line_clean(start),
        headers_clean(h),
    ensures
        start_line(message_text(start, h, body)) == start,
        decode_head(message_text(start, h, body)) == Ok::<(Seq<HeaderEntry>, Seq<char>), ParseError>(
            (h, body),
        ),
{
    let s = message_text(start, h, body);
    let l = start.len() as int;
    assert forall|k: int| 0 <= k < l implies s[k] != '\n' by {
        assert(s[k] == start[k]);
    }
    assert(s[l] == '\n');
    lemma_find_char_at(s, '\n', 0, l);
    assert(s.subrange(0, l) =~= start);
    assert(s.subrange(l + 1, s.len() as int) =~= headers_text(h) + seq!['\r', '\n'] + body);
    assert(Seq::<HeaderEntry>::empty() + h =~= h);
    lemma_parse_lines_clean(s, l + 1, Seq::empty(), h, body);
    assert(s.subrange(s.len() - body.len(), s.len() as int) =~= body);
}

/// Decodes the header lines and the body of a message; `v` holds the characters of `s`.
pub fn decode_head_of(s: &str, v: &Vec<char>) -> (r: Result<(Headers, String), ParseError>)
    requires
        v@ == s@,
    ensures
        match r {
            Ok((h, b)) => decode_head(v@) == Ok::<(Seq<HeaderEntry>, Seq<char>), ParseError>(
                (h@, b@),
            ),
            Err(e) => decode_head(v@) == Err::<(Seq<HeaderEntry>, Seq<char>), ParseError>(e),
        },
{
    let e0 = find_in(v, '\n', 0);
    proof {
        lemma_find_char_bounds(v@, '\n', 0);
    }
    let mut p: usize = if e0 < v.len() {
        e0 + 1
    } else {
        v.len()
    };
    let mut headers = Headers::new();
    let ghost whole = parse_lines(v@, after_line(v@, 0, e0 as int), Seq::empty());
    assert(find_char(v@, '\n', 0) == e0);
    assert(decode_head(v@) == match whole {
        Ok((h, b)) => Ok((h, v@.subrange(b, v@.len() as int))),
        Err(x) => Err(x),
    });
    while p < v.len()
        invariant
            p <= v.len(),
            v@ == s@,
            parse_lines(v@, p as int, headers@) == whole,
            whole == parse_lines(v@, after_line(v@, 0, e0 as int), Seq::empty()),
            decode_head(v@) == match whole {
                Ok((h, b)) => Ok((h, v@.subrange(b, v@.len() as int))),
                Err(x) => Err(x),
            },
        decreases v.len() - p,
    {
        let e = find_in(v, '\n', p);
        proof {
            lemma_find_char_bounds(v@, '\n', p as int);
        }
        let hi = if e > p && v[e - 1] == '\r' {
            e - 1
        } else {
            e
        };
        assert(strip_cr(v@.subrange(p as int, e as int)) =~= v@.subrange(p as int, hi as int));
        let next = if e < v.len() {
            e + 1
        } else {
            v.len()
        };
        if hi == p {
            assert(parse_lines(v@, p as int, headers@) == Ok::<(Seq<HeaderEntry>, int), ParseError>((headers@, next as int)));
            assert(v@.subrange(next as int, v@.len() as int) == s@.subrange(next as int, s@.len() as int));
            return Ok((headers, slice_of(s, next, v.len())));
        }
        match header_entry_in(s, v, p, hi) {
            Err(x) => {
                assert(parse_lines(v@, p as int, headers@) == Err::<(Seq<HeaderEntry>, int), ParseError>(x));
                return Err(x);
            },
            Ok(None) => {},
            Ok(Some((name, value))) => {
                headers.insert(name, value);
            },
        }
        p = next;
    }
    proof {
        assert(v@.subrange(v@.len() as int, v@.len() as int) =~= Seq::<char>::empty());
    }
    Ok((headers, String::new()))
}

/// Reads the header line `v[lo..hi]` as `header_entry` does.
pub fn header_entry_in(s: &str, v: &Vec<char>, lo: usize, hi: usize) -> (r: Result<
    Option<(HeaderName, String)>,
    ParseError,
>)
    requires
        v@ == s@,
        lo <= hi <= v.len(),
    ensures
        match r {
            Ok(Some((h, x))) => header_entry(v@.subrange(lo as int, hi as int)) == Ok::<
                Option<HeaderEntry>,
                ParseError,
            >(Some((h, x@))),
            Ok(None) => header_entry(v@.subrange(lo as int, hi as int)) == Ok::<
                Option<HeaderEntry>,
                ParseError,
            >(None),
            Err(e) => header_entry(v@.subrange(lo as int, hi as int)) == Err::<
                Option<HeaderEntry>,
                ParseError,
            >(e),
        },
{
    let ghost line = v@.subrange(lo as int, hi as int);
    let c = find_between(v, ':', lo, hi);
    if c >= hi {
        return Err(ParseError::MalformedHeaderLine);
    }
    assert(line.subrange(0, c - lo) =~= v@.subrange(lo as int, c as int));
    let start = if c + 1 < hi && v[c + 1] == ' ' {
        c + 2
    } else {
        c + 1
    };
    let ghost rest = line.subrange(c - lo + 1, line.len() as int);
    assert(rest.len() > 0 ==> rest[0] == v@[c + 1]);
    assert(v@.subrange(start as int, hi as int) =~= if rest.len() > 0 && rest[0] == ' ' {
        rest.subrange(1, rest.len() as int)
    } else {
        rest
    });
    match header_in_range(v, lo, c) {
        Some(h) => Ok(Some((h, slice_of(s, start, hi)))),
        None => Ok(None),
    }
}

/// The index of the first `": "` in `l` at or after `i`, or `l.len()` if there is none.
pub open spec fn find_colon_space(l: Seq<char>, i: int) -> int
    decreases l.len() - i,
{
    if i < 0 || i + 1 >= l.len() {
        l.len() as int
    } else if l[i] == ':' && l[i + 1] == ' ' {
        i
    } else {
        find_colon_space(l, i + 1)
    }
}

/// A line of a bare header block: split on the first `": "`; a line without it,
/// or with a name that is not known, gives nothing.
pub open spec fn block_entry(l: Seq<char>) -> Option<HeaderEntry> {
    let i = find_colon_space(l, 0);
    if i >= l.len() {
        None
    } else {
        match header_of_text(l.subrange(0, i)) {
            Some(h) => Some((h, l.subrange(i + 2, l.len() as int))),
            None => None,
        }
    }
}

/// Reads the lines of a bare header block from `p` on into `acc`.
pub open spec fn block_headers(s: Seq<char>, p: int, acc: Seq<HeaderEntry>) -> Seq<HeaderEntry>
    decreases s.len() - p,
{
    if p < 0 || p >= s.len() {
        acc
    } else {
        let e = find_char(s, '\n', p);
        let next = match block_entry(strip_cr(s.subrange(p, e))) {
            Some(en) => insert_entry(acc, en.0, en.1),
            None => acc,
        };
        block_headers(s, after_line(s, p, e), next)
    }
}

/// `find_colon_space` stops at the first `": "` from `i` on.
proof fn lemma_find_colon_space_at(l: Seq<char>, i: int, j: int)
    requires
        0 <= i <= j,
        j + 1 < l.len(),
        l[j] == ':' && l[j + 1] == ' ',
        forall|k: int| i <= k < j ==> l[k] != ':',
    ensures
        find_colon_space(l, i) == j,
    decreases j - i,
{
    if i < j {
        lemma_find_colon_space_at(l, i + 1, j);
    }
}

/// A written header block reads back line by line.
proof fn lemma_block_headers_clean(s: Seq<char>, p: int, acc: Seq<HeaderEntry>, rest: Seq<HeaderEntry>)
    requires
        0 <= p <= s.len(),
        s.subrange(p, s.len() as int) == headers_text(rest),
        headers_clean(acc + rest),
    ensures
        block_headers(s, p, acc) == acc + rest,
    decreases rest.len(),
{
    if rest.len() == 0 {
        assert(acc + rest =~= acc);
        assert(s.subrange(p, s.len() as int).len() == 0);
    } else {
        let tail = s.subrange(p, s.len() as int);
        let e = rest[0];
        let seg = header_line(e);
        let more = rest.drop_first();
        let n = seg.len() as int;
        let t = header_text(e.0);
        assert(headers_text(rest) == seg + headers_text(more));
        assert(tail =~= seg + headers_text(more));
        assert((acc + rest)[acc.len() as int] == e);
        assert(!has_char(e.1, '\n') && !has_char(e.1, '\r'));
        lemma_header_text_is_token(e.0);
        lemma_header_text_round_trip(e.0);
        assert forall|k: int| p <= k < p + n - 1 implies s[k] != '\n' by {
            assert(s[k] == tail[k - p]);
            assert(tail[k - p] == seg[k - p]);
            if k - p < t.len() {
                assert(seg[k - p] == t[k - p]);
                assert(token_char(t[k - p]));
            } else if k - p >= t.len() + 2 {
                assert(seg[k - p] == e.1[k - p - t.len() - 2]);
            }
        }
        assert(s[p + n - 1] == tail[n - 1]);
        lemma_find_char_at(s, '\n', p, p + n - 1);
        let line = s.subrange(p, p + n - 1);
        assert(line =~= t + seq![':', ' '] + e.1);
        if e.1.len() > 0 {
            assert(line.last() == e.1[e.1.len() - 1]);
        }
        assert(strip_cr(line) == line);
        assert forall|k: int| 0 <= k < t.len() implies line[k] != ':' by {
            assert(line[k] == t[k]);
            assert(token_char(t[k]));
        }
        lemma_find_colon_space_at(line, 0, t.len() as int);
        assert(line.subrange(0, t.len() as int) =~= t);
        assert(line.subrange(t.len() + 2 as int, line.len() as int) =~= e.1);
        assert forall|k: int| 0 <= k < acc.len() implies acc[k].0 != e.0 by {
            assert((acc + rest)[k] == acc[k]);
        }
        lemma_key_index_bounds(acc, e.0, 0);
        assert(insert_entry(acc, e.0, e.1) == acc.push(e));
        assert(acc.push(e) + more =~= acc + rest);
        assert(s.subrange(p + n, s.len() as int) =~= tail.subrange(n, tail.len() as int));
        assert(tail.subrange(n, tail.len() as int) =~= headers_text(more));
        lemma_block_headers_clean(s, p + n, acc.push(e), more);
    }
}

/// Reading back the wire block of headers with unique names and values without line
/// breaks gives the same headers, in the same order.
pub proof fn lemma_header_block_round_trip(h: Seq<HeaderEntry>)
    requires
        headers_clean(h),
    ensures
        block_headers(headers_text(h), 0, Seq::empty()) == h,
{
    let s = headers_text(h);
    assert(s.subrange(0, s.len() as int) =~= s);
    assert(Seq::<HeaderEntry>::empty() + h =~= h);
    lemma_block_headers_clean(s, 0, Seq::empty(), h);
}

impl Headers {
    /// Reads a bare header block: each line is split on its first `": "`, and lines
    /// that do not split or whose name is not known are dropped; a later line for
    /// the same name overwrites an earlier one.
    pub fn from_string(s: &str) -> (r: Headers)
        ensures
            r@ == block_headers(s@, 0, Seq::empty()),
    {
        let v = chars_of(s);
        let mut headers = Headers::new();
        let mut p: usize = 0;
        while p < v.len()
            invariant
                p <= v.len(),
                v@ == s@,
                block_headers(v@, p as int, headers@) == block_headers(s@, 0, Seq::empty()),
            decreases v.len() - p,
        {
            let e = find_in(&v, '\n', p);
            let hi = if e > p && v[e - 1] == '\r' {
                e - 1
            } else {
                e
            };
            assert(strip_cr(v@.subrange(p as int, e as int)) =~= v@.subrange(p as int, hi as int));
            let ghost line = v@.subrange(p as int, hi as int);
            let mut i = p;
            while hi - i > 1 && !(v[i] == ':' && v[i + 1] == ' ')
                invariant
                    p <= i <= hi,
                    hi <= v.len(),
                    line == v@.subrange(p as int, hi as int),
                    find_colon_space(line, i - p) == find_colon_space(line, 0),
                decreases hi - i,
            {
                assert(line[i - p] == v@[i as int] && line[i - p + 1] == v@[i + 1]);
                i = i + 1;
            }
            if hi - i > 1 {
                assert(line[i - p] == v@[i as int] && line[i - p + 1] == v@[i + 1]);
                assert(line.subrange(0, i - p) =~= v@.subrange(p as int, i as int));
                assert(line.subrange(i - p + 2, line.len() as int) =~= v@.subrange(i + 2, hi as int));
                match header_in_range(&v, p, i) {
                    Some(h) => {
                        headers.insert(h, slice_of(s, i + 2, hi));
                    },
                    None => {},
                }
            }
            p = if e < v.len() {
                e + 1
            } else {
                v.len()
            };
        }
        headers
    }
}

} // verus!
