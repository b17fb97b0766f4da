//! Character-level helpers shared by the parsers and encoders.

use vstd::prelude::*;
use vstd::std_specs::iter::IteratorSpec;

verus! {

/// The index of the first `c` in `s` at or after `i`, or `s.len()` if there is none.
pub open spec fn find_char(s: Seq<char>, c: char, i: int) -> int
    decreases s.len() - i,
{
    if i < 0 || i >= s.len() {
        s.len() as int
    } else if s[i] == c {
        i
    } else {
        find_char(s, c, i + 1)
    }
}

/// A character allowed in a method or header name: an ASCII letter, a digit or `-`.
pub open spec fn token_char(c: char) -> bool {
    ('A' <= c && c <= 'Z') || ('a' <= c && c <= 'z') || ('0' <= c && c <= '9') || c == '-'
}

/// Whether every character of `s` is a `token_char`.
pub open spec fn is_token(s: Seq<char>) -> bool {
    forall|i: int| 0 <= i < s.len() ==> token_char(#[trigger] s[i])
}

/// Whether `c` occurs in `s`.
pub open spec fn has_char(s: Seq<char>, c: char) -> bool {
    exists|i: int| 0 <= i < s.len() && s[i] == c
}

/// The characters of `s`, in order.
pub fn chars_of(s: &str) -> (r: Vec<char>)
    ensures
        r@ == s@,
{
    let mut v: Vec<char> = Vec::new();
    for c in iter: s.chars()
        invariant
            v@ == iter.seq().take(iter.index() as int),
    {
        v.push(c);
    }
    assert(v@ =~= s@);
    v
}

/// Whether `v[lo..hi]` spells exactly `lit`.
pub fn range_eq_str(v: &Vec<char>, lo: usize, hi: usize, lit: &str) -> (r: bool)
    requires
        lo <= hi <= v.len(),
    ensures
        r == (v@.subrange(lo as int, hi as int) == lit@),
{
    let n = lit.unicode_len();
    if hi - lo != n {
        return false;
    }
    let mut i: usize = 0;
    while i < n
        invariant
            i <= n,
            n == lit@.len(),
            hi - lo == n,
            lo <= hi <= v.len(),
            forall|j: int| 0 <= j < i ==> v@[lo + j] == lit@[j],
        decreases n - i,
    {
        if v[lo + i] != lit.get_char(i) {
            assert(v@.subrange(lo as int, hi as int)[i as int] != lit@[i as int]);
            return false;
        }
        i = i + 1;
    }
    assert(v@.subrange(lo as int, hi as int) =~= lit@);
    true
}

/// The index of the first `c` in `v` at or after `from`, or `v.len()`.
pub fn find_in(v: &Vec<char>, c: char, from: usize) -> (r: usize)
    requires
        from <= v.len(),
    ensures
        from <= r <= v.len(),
        r as int == find_char(v@, c, from as int),
{
    let mut i = from;
    while i < v.len() && v[i] != c
        invariant
            from <= i <= v.len(),
            find_char(v@, c, i as int) == find_char(v@, c, from as int),
        decreases v.len() - i,
    {
        i = i + 1;
    }
    i
}

/// The part of `s` between character indices `lo` and `hi`, as an owned string.
pub fn slice_of(s: &str, lo: usize, hi: usize) -> (r: String)
    requires
        lo <= hi <= s@.len(),
    ensures
        r@ == s@.subrange(lo as int, hi as int),
{
    s.substring_char(lo, hi).to_owned()
}

/// The index of the first `c` in `v[lo..hi]`, counted from `lo`, or `hi`.
pub fn find_between(v: &Vec<char>, c: char, lo: usize, hi: usize) -> (r: usize)
    requires
        lo <= hi <= v.len(),
    ensures
        lo <= r <= hi,
        r - lo == find_char(v@.subrange(lo as int, hi as int), c, 0),
{
    let ghost sub = v@.subrange(lo as int, hi as int);
    let mut i = lo;
    while i < hi && v[i] != c
        invariant
            lo <= i <= hi <= v.len(),
            sub == v@.subrange(lo as int, hi as int),
            find_char(sub, c, i - lo) == find_char(sub, c, 0),
        decreases hi - i,
    {
        assert(sub[i - lo] == v@[i as int]);
        i = i + 1;
    }
    if i < hi {
        assert(sub[i - lo] == v@[i as int]);
    }
    i
}

/// The character of a decimal digit.
pub open spec fn digit_char(d: nat) -> char {
    if d == 0 {
        '0'
    } else if d == 1 {
        '1'
    } else if d == 2 {
        '2'
    } else if d == 3 {
        '3'
    } else if d == 4 {
        '4'
    } else if d == 5 {
        '5'
    } else if d == 6 {
        '6'
    } else if d == 7 {
        '7'
    } else if d == 8 {
        '8'
    } else {
        '9'
    }
}

/// The value of a decimal digit character, if it is one.
pub open spec fn digit_value(c: char) -> Option<nat> {
    if '0' <= c && c <= '9' {
        Some((c as nat - '0' as nat) as nat)
    } else {
        None
    }
}

/// The decimal spelling of `n`, without leading zeros.
pub open spec fn decimal_text(n: nat) -> Seq<char>
    decreases n,
{
    if n < 10 {
        seq![digit_char(n)]
    } else {
        decimal_text(n / 10).push(digit_char(n % 10))
    }
}

/// The spelling of one decimal digit.
fn digit_str(d: usize) -> (r: &'static str)
    requires
        d < 10,
    ensures
        r@ == seq![digit_char(d as nat)],
{
    proof {
        reveal_strlit("0");
        reveal_strlit("1");
        reveal_strlit("2");
        reveal_strlit("3");
        reveal_strlit("4");
        reveal_strlit("5");
        reveal_strlit("6");
        reveal_strlit("7");
        reveal_strlit("8");
        reveal_strlit("9");
    }
    let r = if d == 0 {
        "0"
    } else if d == 1 {
        "1"
    } else if d == 2 {
        "2"
    } else if d == 3 {
        "3"
    } else if d == 4 {
        "4"
    } else if d == 5 {
        "5"
    } else if d == 6 {
        "6"
    } else if d == 7 {
        "7"
    } else if d == 8 {
        "8"
    } else {
        "9"
    };
    assert(r@ =~= seq![digit_char(d as nat)]);
    r
}

/// The decimal spelling of `n`.
pub fn decimal(n: usize) -> (r: String)
    ensures
        r@ == decimal_text(n as nat),
    decreases n,
{
    if n < 10 {
        digit_str(n).to_owned()
    } else {
        let mut r = decimal(n / 10);
        r.append(digit_str(n % 10));
        r
    }
}

/// A three-digit number is spelled by its three digits.
pub proof fn lemma_decimal_three_digits(n: nat)
    requires
        100 <= n <= 999,
    ensures
        decimal_text(n) == seq![digit_char(n / 100), digit_char((n / 10) % 10), digit_char(n % 10)],
{
    assert(10 <= n / 10 < 100);
    assert(1 <= n / 100 < 10);
    assert((n / 10) / 10 == n / 100);
    assert(decimal_text(n / 100) == seq![digit_char(n / 100)]);
    assert(decimal_text(n / 10) == decimal_text(n / 100).push(digit_char((n / 10) % 10)));
    assert(decimal_text(n) == decimal_text(n / 10).push(digit_char(n % 10)));
    assert(decimal_text(n) =~= seq![digit_char(n / 100), digit_char((n / 10) % 10), digit_char(n % 10)]);
}

/// Reading back the character of a digit gives the digit.
pub proof fn lemma_digit_value(d: nat)
    requires
        d < 10,
    ensures
        digit_value(digit_char(d)) == Some(d),
{
}

/// Searching a sub-range from a later start is searching the whole range from there.
pub proof fn lemma_find_char_shift(v: Seq<char>, c: char, lo: int, mid: int, hi: int)
    requires
        0 <= lo <= mid <= hi <= v.len(),
    ensures
        find_char(v.subrange(mid, hi), c, 0) + (mid - lo) == find_char(v.subrange(lo, hi), c, mid - lo),
    decreases hi - mid,
{
    if mid < hi {
        assert(v.subrange(mid, hi)[0] == v.subrange(lo, hi)[mid - lo]);
        if v[mid] != c {
            lemma_find_char_shift(v, c, lo, mid + 1, hi);
            assert(v.subrange(mid + 1, hi) =~= v.subrange(mid, hi).subrange(1, hi - mid));
            lemma_find_char_from(v.subrange(mid, hi), v.subrange(mid + 1, hi), c);
        }
    }
}

/// Searching a sequence past its first element is searching its tail.
pub proof fn lemma_find_char_from(s: Seq<char>, t: Seq<char>, c: char)
    requires
        s.len() > 0,
        t == s.subrange(1, s.len() as int),
    ensures
        find_char(s, c, 1) == find_char(t, c, 0) + 1,
{
    lemma_find_char_tail(s, t, c, 1);
}

/// `find_char` on a sequence and on its tail, from matching positions.
proof fn lemma_find_char_tail(s: Seq<char>, t: Seq<char>, c: char, i: int)
    requires
        s.len() > 0,
        t == s.subrange(1, s.len() as int),
        1 <= i <= s.len(),
    ensures
        find_char(s, c, i) == find_char(t, c, i - 1) + 1,
    decreases s.len() - i,
{
    if i < s.len() {
        assert(s[i] == t[i - 1]);
        if s[i] != c {
            lemma_find_char_tail(s, t, c, i + 1);
        }
    }
}

/// `find_char` stops at the first `c` from `i` on.
pub proof fn lemma_find_char_at(s: Seq<char>, c: char, i: int, j: int)
    requires
        0 <= i <= j <= s.len(),
        j < s.len() ==> s[j] == c,
        forall|k: int| i <= k < j ==> s[k] != c,
    ensures
        find_char(s, c, i) == j,
    decreases j - i,
{
    if i < j {
        lemma_find_char_at(s, c, i + 1, j);
    }
}

/// `find_char` from `i` lands between `i` and the length, and on a `c` if before the end.
pub proof fn lemma_find_char_bounds(s: Seq<char>, c: char, i: int)
    requires
        0 <= i <= s.len(),
    ensures
        i <= find_char(s, c, i) <= s.len(),
        find_char(s, c, i) < s.len() ==> s[find_char(s, c, i)] == c,
        forall|k: int| i <= k < find_char(s, c, i) ==> s[k] != c,
    decreases s.len() - i,
{
    if i < s.len() && s[i] != c {
        lemma_find_char_bounds(s, c, i + 1);
    }
}

} // verus!
