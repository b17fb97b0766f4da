//! Protocol versions of the form `<name>/<version>`.

use vstd::prelude::*;
use crate::error::ParseError;
use crate::text::{chars_of, find_between, find_char, has_char, lemma_find_char_at, lemma_find_char_shift, slice_of};

verus! {

/// The model of a version: its name and its version number, as characters.
pub type VersionModel = (Seq<char>, Seq<char>);

/// The wire form `<name>/<version>`.
pub open spec fn version_text(v: VersionModel) -> Seq<char> {
    v.0 + seq!['/'] + v.1
}

/// Splits `s` on `/` into exactly two parts, if it has exactly one `/`.
pub open spec fn version_of_text(s: Seq<char>) -> Option<VersionModel> {
    let a = find_char(s, '/', 0);
    if a < s.len() && find_char(s, '/', a + 1) == s.len() {
        Some((s.subrange(0, a), s.subrange(a + 1, s.len() as int)))
    } else {
        None
    }
}

/// A protocol version such as `HTTP/1.1`.
pub struct Version {
    pub name: String,
    pub version: String,
}

impl View for Version {
    type V = VersionModel;

    open spec fn view(&self) -> VersionModel {
        (self.name@, self.version@)
    }
}

impl Clone for Version {
    fn clone(&self) -> (r: Self)
        ensures
            r@ == self@,
    {
        Version { name: self.name.clone(), version: self.version.clone() }
    }
}

/// The version spelled by `v[lo..hi]`, read out of `s`, whose characters `v` holds.
pub fn version_in_range(s: &str, v: &Vec<char>, lo: usize, hi: usize) -> (r: Option<Version>)
    requires
        v@ == s@,
        lo <= hi <= v.len(),
    ensures
        match r {
            Some(x) => version_of_text(v@.subrange(lo as int, hi as int)) == Some(x@),
            None => version_of_text(v@.subrange(lo as int, hi as int)) is None,
        },
{
    let ghost t = v@.subrange(lo as int, hi as int);
    let a = find_between(v, '/', lo, hi);
    if a >= hi {
        return None;
    }
    let b = find_between(v, '/', a + 1, hi);
    proof {
        lemma_find_char_shift(v@, '/', lo as int, (a + 1) as int, hi as int);
    }
    if b < hi {
        return None;
    }
    assert(t.subrange(0, a - lo) =~= v@.subrange(lo as int, a as int));
    assert(t.subrange(a - lo + 1, t.len() as int) =~= v@.subrange(a + 1, hi as int));
    Some(Version { name: slice_of(s, lo, a), version: slice_of(s, a + 1, hi) })
}

/// Version parts that survive a start line: no `/`, space or line break.
pub open spec fn version_clean(v: VersionModel) -> bool {
    &&& !has_char(v.0, '/') && !has_char(v.0, ' ') && !has_char(v.0, '\n') && !has_char(v.0, '\r')
    &&& !has_char(v.1, '/') && !has_char(v.1, ' ') && !has_char(v.1, '\n') && !has_char(v.1, '\r')
}

/// A clean version reads back from its wire form.
pub proof fn lemma_version_round_trip(v: VersionModel)
    requires
        version_clean(v),
    ensures
        version_of_text(version_text(v)) == Some(v),
{
    let t = version_text(v);
    let a = v.0.len() as int;
    assert forall|k: int| 0 <= k < a implies t[k] != '/' by {
        assert(t[k] == v.0[k]);
    }
    assert(t[a] == '/');
    lemma_find_char_at(t, '/', 0, a);
    assert forall|k: int| a + 1 <= k < t.len() implies t[k] != '/' by {
        assert(t[k] == v.1[k - a - 1]);
    }
    lemma_find_char_at(t, '/', a + 1, t.len() as int);
    assert(t.subrange(0, a) =~= v.0);
    assert(t.subrange(a + 1, t.len() as int) =~= v.1);
}

impl Version {
    /// A version from its two parts.
    pub fn new(name: String, version: String) -> (r: Self)
        ensures
            r.name == name,
            r.version == version,
    {
        Version { name, version }
    }

    /// Parses `<name>/<version>`: the text must hold exactly one `/`.
    pub fn parse(s: &str) -> (r: Result<Version, ParseError>)
        ensures
            match r {
                Ok(v) => version_of_text(s@) == Some(v@),
                Err(e) => version_of_text(s@) is None && e == ParseError::UnknownVersionFormat,
            },
    {
        let v = chars_of(s);
        assert(v@.subrange(0, v@.len() as int) =~= s@);
        match version_in_range(s, &v, 0, v.len()) {
            Some(x) => Ok(x),
            None => Err(ParseError::UnknownVersionFormat),
        }
    }

    /// The wire form `<name>/<version>`.
    pub fn to_string(&self) -> (r: String)
        ensures
            r@ == version_text(self@),
    {
        proof {
            reveal_strlit("/");
        }
        let mut out = self.name.clone();
        out.append("/");
        out.append(self.version.as_str());
        assert(out@ =~= version_text(self@));
        out
    }
}

} // verus!
