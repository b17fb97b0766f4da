//! Routes of the page server: which URL paths serve a page or a static file.

use vstd::prelude::*;
use crate::text::{chars_of, range_eq_str, slice_of};

verus! {

/// Whether `s` begins with `p`.
pub open spec fn starts_with(s: Seq<char>, p: Seq<char>) -> bool {
    p.len() <= s.len() && s.subrange(0, p.len() as int) == p
}

/// Whether `s` ends with `p`.
pub open spec fn ends_with(s: Seq<char>, p: Seq<char>) -> bool {
    p.len() <= s.len() && s.subrange(s.len() - p.len(), s.len() as int) == p
}

/// The page directory as routes are cut from it: `./` in front unless it is there,
/// `/` behind unless it is there; `./` itself stays as it is.
pub open spec fn site_dir_text(d: Seq<char>) -> Seq<char> {
    let lead = if d != "./"@ && !starts_with(d, "./"@) {
        "./"@
    } else {
        Seq::empty()
    };
    let tail = if d != "./"@ && !ends_with(d, "/"@) {
        "/"@
    } else {
        Seq::empty()
    };
    lead + d + tail
}

/// `s` from `i` on, with each occurrence of `pat` (left to right, not overlapping)
/// replaced by `rep`. An empty pattern replaces nothing.
pub open spec fn replace_from(s: Seq<char>, pat: Seq<char>, rep: Seq<char>, i: int) -> Seq<char>
    decreases s.len() - i,
{
    if i < 0 || i >= s.len() {
        Seq::empty()
    } else if pat.len() > 0 && i + pat.len() <= s.len() && s.subrange(i, i + pat.len()) == pat {
        rep + replace_from(s, pat, rep, i + pat.len())
    } else {
        seq![s[i]] + replace_from(s, pat, rep, i + 1)
    }
}

/// `s` with every trailing `.html` taken off.
pub open spec fn trim_html(s: Seq<char>) -> Seq<char>
    decreases s.len(),
{
    if s.len() >= 5 && ends_with(s, ".html"@) {
        trim_html(s.subrange(0, s.len() - 5))
    } else {
        s
    }
}

/// The routes of a page at path `page` under the directory `dir` (as `site_dir`
/// gives it): the path with the directory replaced by `/`; that route without
/// `.html`; and for an index page, the route of its directory with and, when more
/// than `/` is left, without the final `/`.
pub open spec fn page_routes_model(page: Seq<char>, dir: Seq<char>) -> Seq<Seq<char>> {
    let route = replace_from(page, dir, "/"@, 0);
    let short = trim_html(route);
    if ends_with(short, "/index"@) {
        let alias = short.subrange(0, short.len() - 5);
        let bare = alias.subrange(0, alias.len() - 1);
        if bare.len() > 1 {
            seq![route, short, alias, bare]
        } else {
            seq![route, short, alias]
        }
    } else {
        seq![route, short]
    }
}

/// The index of the last `c` in `s`, or `-1`.
pub open spec fn last_index_of(s: Seq<char>, c: char, n: int) -> int
    decreases n,
{
    if n <= 0 {
        -1
    } else if s[n - 1] == c {
        n - 1
    } else {
        last_index_of(s, c, n - 1)
    }
}

/// The route of a static file: `/static/` and what follows the last `/` of its path
/// (with no `/`, the path from its second character on).
pub open spec fn static_route_text(path: Seq<char>) -> Seq<char> {
    let last = last_index_of(path, '/', path.len() as int);
    let from = if last < 0 {
        1
    } else {
        last + 1
    };
    "/static/"@ + if from <= path.len() {
        path.subrange(from, path.len() as int)
    } else {
        Seq::empty()
    }
}

/// Whether `v` begins with `p`.
fn has_prefix(v: &Vec<char>, p: &str) -> (r: bool)
    ensures
        r == starts_with(v@, p@),
{
    let n = p.unicode_len();
    n <= v.len() && range_eq_str(v, 0, n, p)
}

/// Whether `v` ends with `p`.
fn has_suffix(v: &Vec<char>, p: &str) -> (r: bool)
    ensures
        r == ends_with(v@, p@),
{
    let n = p.unicode_len();
    n <= v.len() && range_eq_str(v, v.len() - n, v.len(), p)
}

/// Whether a file path names a page: it ends with `.html`.
pub fn is_page(path: &str) -> (r: bool)
    ensures
        r == ends_with(path@, ".html"@),
{
    let v = chars_of(path);
    has_suffix(&v, ".html")
}

/// The page directory as routes are cut from it.
pub fn site_dir(dir: &str) -> (r: String)
    ensures
        r@ == site_dir_text(dir@),
{
    let v = chars_of(dir);
    let exact = range_eq_str(&v, 0, v.len(), "./");
    assert(v@.subrange(0, v@.len() as int) =~= dir@);
    let mut out = if !exact && !has_prefix(&v, "./") {
        "./".to_owned()
    } else {
        String::new()
    };
    out.append(dir);
    if !exact && !has_suffix(&v, "/") {
        out.append("/");
    }
    assert(out@ =~= site_dir_text(dir@));
    out
}

/// `s` with each occurrence of `pat` replaced by `rep`.
pub fn replace_all(s: &str, pat: &str, rep: &str) -> (r: String)
    ensures
        r@ == replace_from(s@, pat@, rep@, 0),
{
    let v = chars_of(s);
    let n = pat.unicode_len();
    let mut out = String::new();
    let mut run: usize = 0;
    let mut i: usize = 0;
    while i < v.len()
        invariant
            run <= i <= v.len(),
            v@ == s@,
            n == pat@.len(),
            out@ + v@.subrange(run as int, i as int) + replace_from(v@, pat@, rep@, i as int)
                == replace_from(v@, pat@, rep@, 0),
        decreases v.len() - i,
    {
        if n > 0 && n <= v.len() - i && range_eq_str(&v, i, i + n, pat) {
            let piece = slice_of(s, run, i);
            out.append(piece.as_str());
            out.append(rep);
            assert(v@.subrange((i + n) as int, (i + n) as int) =~= Seq::<char>::empty());
            assert(out@ + v@.subrange((i + n) as int, (i + n) as int) + replace_from(v@, pat@, rep@, (i + n) as int)
                =~= (out@ + rep@).subrange(0, out@.len() as int) + replace_from(v@, pat@, rep@, (i + n) as int));
            i = i + n;
            run = i;
        } else {
            assert(v@.subrange(run as int, i + 1) =~= v@.subrange(run as int, i as int) + seq![v@[i as int]]);
            i = i + 1;
        }
    }
    let piece = slice_of(s, run, v.len());
    out.append(piece.as_str());
    assert(out@ =~= replace_from(v@, pat@, rep@, 0));
    out
}

/// `s` with every trailing `.html` taken off.
pub fn trim_html_suffix(s: &str) -> (r: String)
    ensures
        r@ == trim_html(s@),
{
    let v = chars_of(s);
    let mut end = v.len();
    assert(v@.subrange(0, end as int) =~= s@);
    while end >= 5 && range_eq_str(&v, end - 5, end, ".html")
        invariant
            end <= v.len(),
            v@ == s@,
            trim_html(v@.subrange(0, end as int)) == trim_html(s@),
        decreases end,
    {
        let ghost cur = v@.subrange(0, end as int);
        assert(cur.subrange(cur.len() - 5, cur.len() as int) =~= v@.subrange(end - 5, end as int));
        assert(cur.subrange(0, cur.len() - 5) =~= v@.subrange(0, end - 5));
        end = end - 5;
    }
    proof {
        reveal_strlit(".html");
        let cur = v@.subrange(0, end as int);
        if end >= 5 {
            assert(cur.subrange(cur.len() - 5, cur.len() as int) =~= v@.subrange(end - 5, end as int));
        }
        assert(trim_html(cur) == cur);
    }
    slice_of(s, 0, end)
}

/// The routes of the page at `page` under the directory `dir`.
pub fn page_routes(page: &str, dir: &str) -> (r: Vec<String>)
    ensures
        r@.map_values(|x: String| x@) == page_routes_model(page@, dir@),
{
    proof {
        reveal_strlit("/index");
    }
    let route = replace_all(page, dir, "/");
    let short = trim_html_suffix(route.as_str());
    let sv = chars_of(short.as_str());
    let mut routes: Vec<String> = Vec::new();
    routes.push(route.clone());
    routes.push(short.clone());
    if has_suffix(&sv, "/index") {
        let alias = slice_of(short.as_str(), 0, sv.len() - 5);
        let bare = slice_of(short.as_str(), 0, sv.len() - 6);
        assert(alias@.subrange(0, alias@.len() - 1) =~= bare@);
        let long_enough = sv.len() - 6 > 1;
        routes.push(alias);
        if long_enough {
            routes.push(bare);
        }
    }
    assert(routes@.map_values(|x: String| x@) =~= page_routes_model(page@, dir@));
    routes
}

/// The route of a static file at `path`.
pub fn static_route(path: &str) -> (r: String)
    ensures
        r@ == static_route_text(path@),
{
    let v = chars_of(path);
    let mut n = v.len();
    while n > 0 && v[n - 1] != '/'
        invariant
            n <= v.len(),
            v@ == path@,
            last_index_of(v@, '/', n as int) == last_index_of(v@, '/', v@.len() as int),
        decreases n,
    {
        n = n - 1;
    }
    let from = if n == 0 {
        1
    } else {
        n
    };
    let mut out = "/static/".to_owned();
    if from <= v.len() {
        let tail = slice_of(path, from, v.len());
        out.append(tail.as_str());
    }
    assert(out@ =~= static_route_text(path@));
    out
}

} // verus!
