//! The marker-delimited regions of generated files that are re-rendered in
//! place when a project's versions change.
//!
//! A region starts on the line after the one holding
//! `mcpify:versions:begin` and ends at the start of the first later line
//! holding `mcpify:versions:end`; everything outside it is kept as is.

use vstd::prelude::*;
use vstd::string::*;

verus! {

pub const BEGIN_MARKER: &'static str = "mcpify:versions:begin";
pub const END_MARKER: &'static str = "mcpify:versions:end";

/// One region to re-render: the project-relative file and its new body.
#[derive(Debug)]
pub struct RegionPatch {
    pub path: String,
    pub body: String,
}

/// `pat` occurs in `s` starting at index `i`.
pub open spec fn occurs_at(s: Seq<char>, pat: Seq<char>, i: int) -> bool {
    0 <= i && i + pat.len() <= s.len() && s.subrange(i, i + pat.len()) == pat
}

/// The first index at or after `from` where `pat` occurs.
pub open spec fn find_from(s: Seq<char>, pat: Seq<char>, from: int) -> Option<int>
    decreases s.len() - from,
{
    if from < 0 || from >= s.len() || from + pat.len() > s.len() {
        None
    } else if occurs_at(s, pat, from) {
        Some(from)
    } else {
        find_from(s, pat, from + 1)
    }
}

/// The first index at or after `from` holding `c`.
pub open spec fn find_char_from(s: Seq<char>, c: char, from: int) -> Option<int>
    decreases s.len() - from,
{
    if from < 0 || from >= s.len() {
        None
    } else if s[from] == c {
        Some(from)
    } else {
        find_char_from(s, c, from + 1)
    }
}

/// The start of the line holding index `e`, looking no further back than `lo`.
pub open spec fn line_start(s: Seq<char>, lo: int, e: int) -> int
    decreases e - lo,
{
    if e <= lo {
        lo
    } else if s[e - 1] == '\n' {
        e
    } else {
        line_start(s, lo, e - 1)
    }
}

/// Where the region of `s` starts and ends, when `s` holds both markers.
pub open spec fn region_bounds(s: Seq<char>) -> Option<(int, int)> {
    match find_from(s, BEGIN_MARKER@, 0) {
        None => None,
        Some(b) => match find_char_from(s, '\n', b + BEGIN_MARKER@.len()) {
            None => None,
            Some(nl) => match find_from(s, END_MARKER@, nl + 1) {
                None => None,
                Some(e) => Some((nl + 1, line_start(s, nl + 1, e))),
            },
        },
    }
}

/// `s` with its region replaced by `body`; `None` when a marker is missing.
pub open spec fn spec_replace_region(s: Seq<char>, body: Seq<char>) -> Option<Seq<char>> {
    match region_bounds(s) {
        None => None,
        Some((start, end)) => Some(s.take(start) + body + s.skip(end)),
    }
}

fn occurs_at_exec(s: &str, n: usize, pat: &str, m: usize, i: usize) -> (r: bool)
    requires
        n == s@.len(),
        m == pat@.len(),
        i + m <= n,
    ensures
        r == occurs_at(s@, pat@, i as int),
{
    let mut k: usize = 0;
    while k < m
        invariant
            n == s@.len(),
            m == pat@.len(),
            i + m <= n,
            k <= m,
            forall|j: int| 0 <= j < k ==> s@[i + j] == pat@[j],
        decreases m - k,
    {
        if s.get_char(i + k) != pat.get_char(k) {
            assert(s@.subrange(i as int, i + m)[k as int] != pat@[k as int]);
            return false;
        }
        k = k + 1;
    }
    assert(s@.subrange(i as int, i + m) =~= pat@);
    true
}

fn find_from_exec(s: &str, pat: &str, from: usize) -> (r: Option<usize>)
    ensures
        match r {
            Some(i) => find_from(s@, pat@, from as int) == Some(i as int),
            None => find_from(s@, pat@, from as int) is None,
        },
{
    let n = s.unicode_len();
    let m = pat.unicode_len();
    let mut i = from;
    while i < n && m <= n - i
        invariant
            n == s@.len(),
            m == pat@.len(),
            from <= i,
            find_from(s@, pat@, from as int) == find_from(s@, pat@, i as int),
        decreases n - i + 1,
    {
        if occurs_at_exec(s, n, pat, m, i) {
            return Some(i);
        }
        i = i + 1;
    }
    None
}

fn find_char_from_exec(s: &str, c: char, from: usize) -> (r: Option<usize>)
    ensures
        match r {
            Some(i) => find_char_from(s@, c, from as int) == Some(i as int),
            None => find_char_from(s@, c, from as int) is None,
        },
{
    let n = s.unicode_len();
    let mut i = from;
    while i < n
        invariant
            n == s@.len(),
            from <= i,
            find_char_from(s@, c, from as int) == find_char_from(s@, c, i as int),
        decreases n - i,
    {
        if s.get_char(i) == c {
            return Some(i);
        }
        i = i + 1;
    }
    None
}

fn line_start_exec(s: &str, lo: usize, e: usize) -> (r: usize)
    requires
        e <= s@.len(),
    ensures
        r as int == line_start(s@, lo as int, e as int),
{
    let mut k = e;
    while k > lo && s.get_char(k - 1) != '\n'
        invariant
            k <= e <= s@.len(),
            line_start(s@, lo as int, e as int) == line_start(s@, lo as int, k as int),
        decreases k,
    {
        k = k - 1;
    }
    if k <= lo {
        lo
    } else {
        k
    }
}

/// Replaces the region of `contents` with `body`; `None` when `contents`
/// lacks a marker.
pub fn replace_marked_region(contents: &str, body: &str) -> (r: Option<String>)
    ensures
        match r {
            Some(t) => spec_replace_region(contents@, body@) == Some(t@),
            None => spec_replace_region(contents@, body@) is None,
        },
{
    let b = match find_from_exec(contents, BEGIN_MARKER, 0) {
        Some(b) => b,
        None => return None,
    };
    let begin_len = BEGIN_MARKER.unicode_len();
    proof {
        lemma_find_from_in_bounds(contents@, BEGIN_MARKER@, 0);
    }
    let n = contents.unicode_len();
    let nl = match find_char_from_exec(contents, '\n', b + begin_len) {
        Some(nl) => nl,
        None => return None,
    };
    proof {
        lemma_find_char_from_in_bounds(contents@, '\n', b + BEGIN_MARKER@.len());
    }
    let e = match find_from_exec(contents, END_MARKER, nl + 1) {
        Some(e) => e,
        None => return None,
    };
    proof {
        lemma_find_from_in_bounds(contents@, BEGIN_MARKER@, 0);
        lemma_find_char_from_in_bounds(contents@, '\n', b + BEGIN_MARKER@.len());
        lemma_find_from_in_bounds(contents@, END_MARKER@, nl + 1);
        lemma_line_start_in_bounds(contents@, nl + 1, e as int);
    }
    let start = nl + 1;
    let end = line_start_exec(contents, start, e);
    let mut out = contents.substring_char(0, start).to_owned();
    out.append(body);
    out.append(contents.substring_char(end, n));
    assert(contents@.subrange(0, start as int) =~= contents@.take(start as int));
    assert(contents@.subrange(end as int, n as int) =~= contents@.skip(end as int));
    Some(out)
}

pub proof fn lemma_find_from_in_bounds(s: Seq<char>, pat: Seq<char>, from: int)
    ensures
        find_from(s, pat, from) matches Some(i) ==> from <= i && i + pat.len() <= s.len() && occurs_at(
            s,
            pat,
            i,
        ),
    decreases s.len() - from,
{
    if !(from < 0 || from >= s.len() || from + pat.len() > s.len()) && !occurs_at(s, pat, from) {
        lemma_find_from_in_bounds(s, pat, from + 1);
    }
}

pub proof fn lemma_find_char_from_in_bounds(s: Seq<char>, c: char, from: int)
    ensures
        find_char_from(s, c, from) matches Some(i) ==> from <= i < s.len() && s[i] == c,
    decreases s.len() - from,
{
    if !(from < 0 || from >= s.len()) && s[from] != c {
        lemma_find_char_from_in_bounds(s, c, from + 1);
    }
}

pub proof fn lemma_line_start_in_bounds(s: Seq<char>, lo: int, e: int)
    requires
        lo <= e,
    ensures
        lo <= line_start(s, lo, e) <= e,
    decreases e - lo,
{
    if e > lo && s[e - 1] != '\n' {
        lemma_line_start_in_bounds(s, lo, e - 1);
    }
}

proof fn lemma_find_from_first(s: Seq<char>, pat: Seq<char>, from: int)
    requires
        0 <= from,
        pat.len() > 0,
    ensures
        find_from(s, pat, from) matches Some(i) ==> forall|j: int| from <= j < i ==> !occurs_at(s, pat, j),
        find_from(s, pat, from) is None ==> forall|j: int| from <= j ==> !occurs_at(s, pat, j),
    decreases s.len() - from,
{
    if !(from >= s.len() || from + pat.len() > s.len()) && !occurs_at(s, pat, from) {
        lemma_find_from_first(s, pat, from + 1);
    }
}

proof fn lemma_find_from_is(s: Seq<char>, pat: Seq<char>, from: int, i: int)
    requires
        0 <= from <= i,
        pat.len() > 0,
        occurs_at(s, pat, i),
        forall|j: int| from <= j < i ==> !occurs_at(s, pat, j),
    ensures
        find_from(s, pat, from) == Some(i),
    decreases i - from,
{
    if from < i {
        lemma_find_from_is(s, pat, from + 1, i);
    }
}

proof fn lemma_find_char_from_first(s: Seq<char>, c: char, from: int)
    requires
        0 <= from,
    ensures
        find_char_from(s, c, from) matches Some(i) ==> forall|j: int| from <= j < i ==> s[j] != c,
    decreases s.len() - from,
{
    if from < s.len() && s[from] != c {
        lemma_find_char_from_first(s, c, from + 1);
    }
}

proof fn lemma_find_char_from_is(s: Seq<char>, c: char, from: int, i: int)
    requires
        0 <= from <= i < s.len(),
        s[i] == c,
        forall|j: int| from <= j < i ==> s[j] != c,
    ensures
        find_char_from(s, c, from) == Some(i),
    decreases i - from,
{
    if from < i {
        lemma_find_char_from_is(s, c, from + 1, i);
    }
}

proof fn lemma_line_start_props(s: Seq<char>, lo: int, e: int)
    requires
        0 <= lo <= e <= s.len(),
    ensures
        lo <= line_start(s, lo, e) <= e,
        line_start(s, lo, e) == lo || s[line_start(s, lo, e) - 1] == '\n',
        forall|k: int| line_start(s, lo, e) <= k < e ==> s[k] != '\n',
    decreases e - lo,
{
    if e > lo && s[e - 1] != '\n' {
        lemma_line_start_props(s, lo, e - 1);
    }
}

proof fn lemma_line_start_is(s: Seq<char>, lo: int, e: int, r: int)
    requires
        0 <= lo <= r <= e <= s.len(),
        r == lo || s[r - 1] == '\n',
        forall|k: int| r <= k < e ==> s[k] != '\n',
    ensures
        line_start(s, lo, e) == r,
    decreases e - lo,
{
    if e > lo && s[e - 1] != '\n' {
        lemma_line_start_is(s, lo, e - 1, r);
    }
}

/// Where the region of `s` starts (0 when `s` lacks a marker).
pub open spec fn region_start(s: Seq<char>) -> int {
    match region_bounds(s) {
        Some((start, _)) => start,
        None => 0,
    }
}

/// A body that can stand in a region: empty or ending with a line break,
/// and free of the end marker.
pub open spec fn is_region_body(body: Seq<char>) -> bool {
    &&& (body.len() == 0 || body.last() == '\n')
    &&& forall|j: int| !occurs_at(body, END_MARKER@, j)
}

/// After a region is replaced by a well-formed body, both markers are still
/// found and the region holds exactly that body; so replacing it again is
/// the same as replacing the original region with the newer body, and
/// re-rendering with an unchanged body changes nothing.
pub proof fn law_region_replace_again(s: Seq<char>, body: Seq<char>, body2: Seq<char>)
    requires
        region_bounds(s) is Some,
        is_region_body(body),
    ensures
        ({
            let t = spec_replace_region(s, body)->0;
            let start = region_start(s);
            &&& region_bounds(t) == Some((start, start + body.len()))
            &&& spec_replace_region(t, body2) == spec_replace_region(s, body2)
            &&& spec_replace_region(t, body) == Some(t)
        }),
{
    reveal_strlit("mcpify:versions:begin");
    reveal_strlit("mcpify:versions:end");
    let bm = BEGIN_MARKER@;
    let em = END_MARKER@;
    assert(bm.len() > 0 && em.len() > 0);
    let b = find_from(s, bm, 0)->0;
    lemma_find_from_in_bounds(s, bm, 0);
    lemma_find_from_first(s, bm, 0);
    let nl = find_char_from(s, '\n', b + bm.len())->0;
    lemma_find_char_from_in_bounds(s, '\n', b + bm.len());
    lemma_find_char_from_first(s, '\n', b + bm.len());
    let start = nl + 1;
    let e = find_from(s, em, start)->0;
    lemma_find_from_in_bounds(s, em, start);
    lemma_find_from_first(s, em, start);
    lemma_line_start_props(s, start, e);
    let end = line_start(s, start, e);
    assert(region_bounds(s) == Some((start, end)));
    let t = s.take(start) + body + s.skip(end);
    let bl = body.len() as int;
    let shift = start + bl - end;
    assert(t.len() == s.len() + shift);
    assert forall|k: int| 0 <= k < start implies t[k] == s[k] by {}
    assert forall|k: int| start + bl <= k < t.len() implies t[k] == s[k - shift] by {}
    // The begin marker and the line break after it are where they were.
    assert forall|j: int| 0 <= j <= b implies occurs_at(t, bm, j) == occurs_at(s, bm, j) by {
        assert(t.subrange(j, j + bm.len()) =~= s.subrange(j, j + bm.len()));
    }
    lemma_find_from_is(t, bm, 0, b);
    assert forall|k: int| b + bm.len() <= k <= nl implies t[k] == s[k] by {}
    lemma_find_char_from_is(t, '\n', b + bm.len(), nl);
    // The end marker is the first one of the tail, moved by the body's growth.
    let e2 = e + shift;
    assert(t.subrange(e2, e2 + em.len()) =~= s.subrange(e, e + em.len()));
    assert forall|j: int| start <= j < e2 implies !occurs_at(t, em, j) by {
        if occurs_at(t, em, j) {
            if j + em.len() <= start + bl {
                assert(body.subrange(j - start, j - start + em.len()) =~= t.subrange(j, j + em.len()));
                assert(occurs_at(body, em, j - start));
            } else if j < start + bl {
                let k = start + bl - 1 - j;
                assert(t.subrange(j, j + em.len())[k] == t[start + bl - 1]);
                assert(t[start + bl - 1] == body.last());
                assert(em[k] != '\n');
            } else {
                assert(t.subrange(j, j + em.len()) =~= s.subrange(j - shift, j - shift + em.len()));
                assert(occurs_at(s, em, j - shift));
            }
        }
    }
    lemma_find_from_is(t, em, start, e2);
    // The region of `t` ends right after the body.
    assert forall|k: int| start + bl <= k < e2 implies t[k] != '\n' by {
        assert(t[k] == s[k - shift]);
    }
    if bl > 0 {
        assert(t[start + bl - 1] == body.last());
    }
    lemma_line_start_is(t, start, e2, start + bl);
    assert(region_bounds(t) == Some((start, start + bl)));
    assert(t.take(start) + body2 + t.skip(start + bl) =~= s.take(start) + body2 + s.skip(end));
    assert(t.take(start) + body + t.skip(start + bl) =~= t);
}

} // verus!
