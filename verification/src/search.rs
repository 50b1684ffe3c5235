//! Offset-precise search over an artifact's content.
//!
//! Matching is read-only and line-based: a hit names its 1-based line, the
//! character range of the match within that line, the matched text, a
//! context window of whole lines around it, and the nearest enclosing
//! heading. Structural scoping classifies each line as a heading, body text
//! or part of a fenced code block before matching.

use vstd::prelude::*;

use crate::text::line_count;
use crate::text::newline_count;
use crate::text::subrange_chars;

verus! {

/// How the query is interpreted.
#[derive(Clone, Copy, PartialEq, Eq, Structural, Debug)]
pub enum MatchKind {
    Exact,
    Regex,
    Fuzzy,
}

/// Which structural regions of the document are searched.
#[derive(Clone, Copy, PartialEq, Eq, Structural, Debug)]
pub enum SearchScope {
    All,
    Headings,
    Body,
    CodeBlocks,
}

/// The structural class of one line.
#[derive(Clone, Copy, PartialEq, Eq, Structural, Debug)]
pub enum LineClass {
    Heading,
    Body,
    Code,
}

/// A line table is well formed for `content` when its entries are exactly
/// the maximal newline-free ranges of the content, in order.
pub open spec fn table_wf(content: Seq<char>, table: Seq<(usize, usize)>) -> bool {
    &&& table.len() == line_count(content)
    &&& forall|i: int|
        0 <= i < table.len() ==> {
            let (a, b) = #[trigger] table[i];
            &&& a <= b <= content.len()
            &&& (i == 0 ==> a == 0)
            &&& (i > 0 ==> a == table[i - 1].1 + 1 && table[i - 1].1 < content.len()
                && content[a - 1] == '\n')
            &&& (i == table.len() - 1 ==> b == content.len())
            &&& (i < table.len() - 1 ==> b < content.len() && content[b as int] == '\n')
            &&& forall|j: int| a <= j < b ==> content[j] != '\n'
        }
}

/// Compute the line table of `content`: the start and end offset of each
/// line, excluding the newline that terminates it.
#[verifier::spinoff_prover]
#[verifier::rlimit(100)]
pub fn line_table(content: &[char]) -> (table: Vec<(usize, usize)>)
    requires
        content@.len() < usize::MAX,
    ensures
        table_wf(content@, table@),
{
    let mut table: Vec<(usize, usize)> = Vec::new();
    if content.len() == 0 {
        return table;
    }
    let mut start: usize = 0;
    let mut i: usize = 0;
    while i < content.len()
        invariant
            start <= i <= content@.len(),
            content@.len() < usize::MAX,
            table@.len() == newline_count(content@.take(i as int)),
            forall|k: int|
                0 <= k < table@.len() ==> {
                    let (a, b) = #[trigger] table@[k];
                    &&& a <= b < content@.len()
                    &&& (k == 0 ==> a == 0)
                    &&& (k > 0 ==> a == table@[k - 1].1 + 1 && table@[k - 1].1 < content@.len()
                        && content@[a - 1] == '\n')
                    &&& content@[b as int] == '\n'
                    &&& forall|j: int| a <= j < b ==> content@[j] != '\n'
                },
            table@.len() > 0 ==> start == table@[table@.len() - 1].1 + 1,
            table@.len() == 0 ==> start == 0,
            forall|j: int| start <= j < i ==> content@[j] != '\n',
        decreases content@.len() - i,
    {
        proof {
            assert(content@.take(i + 1).drop_last() =~= content@.take(i as int));
            assert(content@.take(i + 1).last() == content@[i as int]);
        }
        if content[i] == '\n' {
            table.push((start, i));
            start = i + 1;
        }
        i = i + 1;
    }
    table.push((start, content.len()));
    proof {
        assert(content@.take(content@.len() as int) =~= content@);
    }
    table
}

/// Is the line `[a, b)` a code fence (three backquotes at its start)?
pub open spec fn is_fence_line(content: Seq<char>, a: int, b: int) -> bool {
    b - a >= 3 && content[a] == '`' && content[a + 1] == '`' && content[a + 2] == '`'
}

/// How many fence lines precede line `i`.
pub open spec fn fences_before(content: Seq<char>, table: Seq<(usize, usize)>, i: int) -> nat
    decreases i,
{
    if i <= 0 {
        0
    } else {
        fences_before(content, table, i - 1) + if is_fence_line(
            content,
            table[i - 1].0 as int,
            table[i - 1].1 as int,
        ) {
            1nat
        } else {
            0nat
        }
    }
}

/// The structural class of line `i`: fence lines and lines between an odd
/// number of fences are code; other lines starting with `#` are headings;
/// the rest is body text.
pub open spec fn line_class_of(content: Seq<char>, table: Seq<(usize, usize)>, i: int) -> LineClass {
    let a = table[i].0 as int;
    let b = table[i].1 as int;
    if is_fence_line(content, a, b) || fences_before(content, table, i) % 2 == 1 {
        LineClass::Code
    } else if a < b && content[a] == '#' {
        LineClass::Heading
    } else {
        LineClass::Body
    }
}

/// Does a line of class `class` fall inside the search scope?
pub open spec fn in_scope(class: LineClass, scope: SearchScope) -> bool {
    match scope {
        SearchScope::All => true,
        SearchScope::Headings => class == LineClass::Heading,
        SearchScope::Body => class == LineClass::Body,
        SearchScope::CodeBlocks => class == LineClass::Code,
    }
}

/// Classify every line of the table.
#[verifier::rlimit(100)]
pub fn classify_lines(content: &[char], table: &Vec<(usize, usize)>) -> (classes: Vec<LineClass>)
    requires
        table_wf(content@, table@),
    ensures
        classes@.len() == table@.len(),
        forall|i: int|
            0 <= i < table@.len() ==> #[trigger] classes@[i] == line_class_of(
                content@,
                table@,
                i,
            ),
{
    let mut classes: Vec<LineClass> = Vec::new();
    let mut fences: u64 = 0;
    let mut i: usize = 0;
    while i < table.len()
        invariant
            table_wf(content@, table@),
            i <= table@.len(),
            classes@.len() == i,
            fences == fences_before(content@, table@, i as int),
            fences <= i,
            forall|k: int|
                0 <= k < i ==> #[trigger] classes@[k] == line_class_of(content@, table@, k),
        decreases table@.len() - i,
    {
        let (a, b) = table[i];
        let fence = b - a >= 3 && content[a] == '`' && content[a + 1] == '`' && content[a + 2]
            == '`';
        if fence || fences % 2 == 1 {
            classes.push(LineClass::Code);
        } else if a < b && content[a] == '#' {
            classes.push(LineClass::Heading);
        } else {
            classes.push(LineClass::Body);
        }
        if fence {
            fences = fences + 1;
        }
        i = i + 1;
    }
    classes
}

/// Does `q` occur at absolute position `p` of the content?
pub open spec fn match_at(content: Seq<char>, q: Seq<char>, p: int) -> bool {
    content.subrange(p, p + q.len()) == q
}

/// The hits of `q` within line `li` spanning `[?, b)`, starting at or after
/// position `p`, each as `(line, match start)`, ascending. An empty query
/// yields no hits.
pub open spec fn line_hits(li: int, content: Seq<char>, q: Seq<char>, p: int, b: int) -> Seq<
    (int, int),
>
    decreases b - p,
{
    if q.len() == 0 || p + q.len() > b {
        Seq::empty()
    } else {
        let rest = line_hits(li, content, q, p + 1, b);
        if match_at(content, q, p) {
            seq![(li, p)] + rest
        } else {
            rest
        }
    }
}

/// All exact hits in the first `i` lines that lie in scope, in line order
/// and, within a line, in position order.
pub open spec fn exact_hits_upto(
    content: Seq<char>,
    table: Seq<(usize, usize)>,
    q: Seq<char>,
    scope: SearchScope,
    i: int,
) -> Seq<(int, int)>
    decreases i,
{
    if i <= 0 {
        Seq::empty()
    } else {
        let prev = exact_hits_upto(content, table, q, scope, i - 1);
        if in_scope(line_class_of(content, table, i - 1), scope) {
            prev + line_hits(i - 1, content, q, table[i - 1].0 as int, table[i - 1].1 as int)
        } else {
            prev
        }
    }
}

/// The integer view of a list of hit pairs.
pub open spec fn hit_pairs(s: Seq<(usize, usize)>) -> Seq<(int, int)> {
    s.map_values(|t: (usize, usize)| (t.0 as int, t.1 as int))
}

/// Does `q` occur at position `p`?
fn match_here(content: &[char], q: &[char], p: usize) -> (r: bool)
    requires
        p + q@.len() <= content@.len(),
    ensures
        r == match_at(content@, q@, p as int),
{
    let n = content.len();
    let mut k: usize = 0;
    while k < q.len()
        invariant
            k <= q@.len(),
            n == content@.len(),
            p + q@.len() <= content@.len(),
            forall|j: int| 0 <= j < k ==> content@[p + j] == q@[j],
        decreases q@.len() - k,
    {
        if content[p + k] != q[k] {
            proof {
                assert(content@.subrange(p as int, p + q@.len())[k as int] != q@[k as int]);
            }
            return false;
        }
        k = k + 1;
    }
    proof {
        assert(content@.subrange(p as int, p + q@.len()) =~= q@);
    }
    true
}

/// Collect all exact hits of `q` in the lines in scope, as
/// `(line index, absolute match start)`, ascending.
#[verifier::rlimit(100)]
fn exact_search(
    content: &[char],
    table: &Vec<(usize, usize)>,
    classes: &Vec<LineClass>,
    q: &[char],
    scope: SearchScope,
) -> (hits: Vec<(usize, usize)>)
    requires
        table_wf(content@, table@),
        classes@.len() == table@.len(),
        forall|i: int|
            0 <= i < table@.len() ==> #[trigger] classes@[i] == line_class_of(content@, table@, i),
    ensures
        hit_pairs(hits@) == exact_hits_upto(
            content@,
            table@,
            q@,
            scope,
            table@.len() as int,
        ),
        forall|k: int|
            0 <= k < hits@.len() ==> {
                let (hl, hs) = #[trigger] hits@[k];
                &&& hl < table@.len()
                &&& table@[hl as int].0 <= hs
                &&& hs + q@.len() <= table@[hl as int].1
            },
{
    let mut hits: Vec<(usize, usize)> = Vec::new();
    let mut li: usize = 0;
    while li < table.len()
        invariant
            table_wf(content@, table@),
            classes@.len() == table@.len(),
            forall|i: int|
                0 <= i < table@.len() ==> #[trigger] classes@[i] == line_class_of(
                    content@,
                    table@,
                    i,
                ),
            li <= table@.len(),
            hit_pairs(hits@) == exact_hits_upto(content@, table@, q@, scope, li as int),
            forall|k: int|
                0 <= k < hits@.len() ==> {
                    let (hl, hs) = #[trigger] hits@[k];
                    &&& hl < table@.len()
                    &&& table@[hl as int].0 <= hs
                    &&& hs + q@.len() <= table@[hl as int].1
                },
        decreases table@.len() - li,
    {
        let scope_ok = match scope {
            SearchScope::All => true,
            SearchScope::Headings => classes[li] == LineClass::Heading,
            SearchScope::Body => classes[li] == LineClass::Body,
            SearchScope::CodeBlocks => classes[li] == LineClass::Code,
        };
        if scope_ok {
            let ghost prev = hit_pairs(hits@);
            let (a, b) = table[li];
            if q.len() > 0 && q.len() <= b - a {
                let last = b - q.len();
                let mut p: usize = a;
                while p <= last
                    invariant
                        table_wf(content@, table@),
                        li < table@.len(),
                        (a, b) == table@[li as int],
                        0 < q@.len() <= b - a,
                        last == b - q@.len(),
                        a <= p <= last + 1,
                        b <= content@.len(),
                        hit_pairs(hits@) + line_hits(li as int, content@, q@, p as int, b as int)
                            == prev + line_hits(li as int, content@, q@, a as int, b as int),
                        forall|k: int|
                            0 <= k < hits@.len() ==> {
                                let (hl, hs) = #[trigger] hits@[k];
                                &&& hl < table@.len()
                                &&& table@[hl as int].0 <= hs
                                &&& hs + q@.len() <= table@[hl as int].1
                            },
                    decreases last + 1 - p,
                {
                    let ghost before = hit_pairs(hits@);
                    if match_here(content, q, p) {
                        hits.push((li, p));
                        proof {
                            assert(hit_pairs(hits@) =~= before.push((li as int, p as int)));
                            assert(hit_pairs(hits@) + line_hits(
                                li as int,
                                content@,
                                q@,
                                p + 1,
                                b as int,
                            ) =~= before + (seq![(li as int, p as int)] + line_hits(
                                li as int,
                                content@,
                                q@,
                                p + 1,
                                b as int,
                            )));
                        }
                    }
                    p = p + 1;
                }
                proof {
                    assert(hit_pairs(hits@) =~= prev + line_hits(
                        li as int,
                        content@,
                        q@,
                        a as int,
                        b as int,
                    ));
                }
            } else {
                proof {
                    assert(hit_pairs(hits@) =~= prev + line_hits(
                        li as int,
                        content@,
                        q@,
                        a as int,
                        b as int,
                    ));
                }
            }
        }
        proof {
            assert(hit_pairs(hits@) =~= exact_hits_upto(content@, table@, q@, scope, li + 1));
        }
        li = li + 1;
    }
    hits
}

/// Does the pattern match the whole text? The pattern language is a small
/// regular-expression subset: a literal character matches itself, `.`
/// matches any single character, and a character followed by `*` matches
/// zero or more repetitions of it.
pub open spec fn re_match(p: Seq<char>, t: Seq<char>) -> bool
    decreases t.len(), p.len(),
{
    if p.len() == 0 {
        t.len() == 0
    } else if p.len() >= 2 && p[1] == '*' {
        ||| re_match(p.skip(2), t)
        ||| (t.len() > 0 && (p[0] == '.' || p[0] == t[0]) && re_match(p, t.skip(1)))
    } else {
        t.len() > 0 && (p[0] == '.' || p[0] == t[0]) && re_match(p.skip(1), t.skip(1))
    }
}

/// Decide `re_match(pat@.skip(pi), text@.subrange(lo, hi))`.
#[verifier::rlimit(100)]
fn re_match_exec(pat: &[char], pi: usize, text: &[char], lo: usize, hi: usize) -> (r: bool)
    requires
        pi <= pat@.len(),
        lo <= hi <= text@.len(),
    ensures
        r == re_match(pat@.skip(pi as int), text@.subrange(lo as int, hi as int)),
    decreases hi - lo, pat@.len() - pi,
{
    let ghost p = pat@.skip(pi as int);
    let ghost t = text@.subrange(lo as int, hi as int);
    if pi == pat.len() {
        proof {
            assert(p.len() == 0);
        }
        lo == hi
    } else if pi + 1 < pat.len() && pat[pi + 1] == '*' {
        proof {
            assert(p.len() >= 2 && p[1] == pat@[pi + 1]);
            assert(p.skip(2) =~= pat@.skip(pi + 2));
        }
        if re_match_exec(pat, pi + 2, text, lo, hi) {
            return true;
        }
        if lo < hi && (pat[pi] == '.' || pat[pi] == text[lo]) {
            proof {
                assert(t.len() > 0 && t[0] == text@[lo as int] && p[0] == pat@[pi as int]);
                assert(t.skip(1) =~= text@.subrange(lo + 1, hi as int));
            }
            re_match_exec(pat, pi, text, lo + 1, hi)
        } else {
            false
        }
    } else {
        if lo < hi && (pat[pi] == '.' || pat[pi] == text[lo]) {
            proof {
                assert(t.len() > 0 && t[0] == text@[lo as int] && p[0] == pat@[pi as int]);
                assert(p.skip(1) =~= pat@.skip(pi + 1));
                assert(t.skip(1) =~= text@.subrange(lo + 1, hi as int));
            }
            re_match_exec(pat, pi + 1, text, lo + 1, hi)
        } else {
            proof {
                assert(t.len() > 0 ==> t[0] == text@[lo as int]);
                assert(p[0] == pat@[pi as int]);
            }
            false
        }
    }
}

/// The least end `e` in `[e0, b]` such that the pattern matches
/// `content[p..e]`, if any.
pub open spec fn re_end_from(q: Seq<char>, content: Seq<char>, p: int, e0: int, b: int) -> Option<
    int,
>
    decreases b + 1 - e0,
{
    if e0 > b {
        None
    } else if re_match(q, content.subrange(p, e0)) {
        Some(e0)
    } else {
        re_end_from(q, content, p, e0 + 1, b)
    }
}

/// The pattern hits within line `li` spanning `[?, b)`, starting at or
/// after `p`: for each start position, the shortest match beginning there,
/// as `(line, start, end)`, ascending by start.
pub open spec fn re_line_hits(li: int, q: Seq<char>, content: Seq<char>, p: int, b: int) -> Seq<
    (int, int, int),
>
    decreases b - p + 1,
{
    if p > b {
        Seq::empty()
    } else {
        let rest = re_line_hits(li, q, content, p + 1, b);
        match re_end_from(q, content, p, p, b) {
            Some(e) => seq![(li, p, e)] + rest,
            None => rest,
        }
    }
}

/// All pattern hits in the first `i` lines that lie in scope.
pub open spec fn re_hits_upto(
    content: Seq<char>,
    table: Seq<(usize, usize)>,
    q: Seq<char>,
    scope: SearchScope,
    i: int,
) -> Seq<(int, int, int)>
    decreases i,
{
    if i <= 0 {
        Seq::empty()
    } else {
        let prev = re_hits_upto(content, table, q, scope, i - 1);
        if in_scope(line_class_of(content, table, i - 1), scope) {
            prev + re_line_hits(
                i - 1,
                q,
                content,
                table[i - 1].0 as int,
                table[i - 1].1 as int,
            )
        } else {
            prev
        }
    }
}

/// The integer view of a list of hit triples.
pub open spec fn hit_triples(s: Seq<(usize, usize, usize)>) -> Seq<(int, int, int)> {
    s.map_values(|t: (usize, usize, usize)| (t.0 as int, t.1 as int, t.2 as int))
}

/// Find the shortest pattern match starting at `p`, ending at or before `b`.
#[verifier::rlimit(100)]
fn re_find_end(q: &[char], content: &[char], p: usize, b: usize) -> (r: Option<usize>)
    requires
        p <= b <= content@.len(),
    ensures
        match r {
            Some(e) => Some(e as int) == re_end_from(q@, content@, p as int, p as int, b as int)
                && p <= e <= b,
            None => re_end_from(q@, content@, p as int, p as int, b as int) is None,
        },
{
    let mut e: usize = p;
    loop
        invariant
            p <= e <= b,
            b <= content@.len(),
            re_end_from(q@, content@, p as int, p as int, b as int) == re_end_from(
                q@,
                content@,
                p as int,
                e as int,
                b as int,
            ),
        decreases b - e,
    {
        if re_match_exec(q, 0, content, p, e) {
            proof {
                assert(q@.skip(0) =~= q@);
            }
            return Some(e);
        }
        proof {
            assert(q@.skip(0) =~= q@);
        }
        if e == b {
            proof {
                assert(re_end_from(q@, content@, p as int, e + 1, b as int) is None);
            }
            return None;
        }
        e = e + 1;
    }
}

/// Collect the pattern hits of one line, scanning every start position.
#[verifier::rlimit(100)]
fn regex_line_scan(content: &[char], q: &[char], li: usize, a: usize, b: usize) -> (hits: Vec<
    (usize, usize, usize),
>)
    requires
        a <= b <= content@.len(),
    ensures
        hit_triples(hits@) == re_line_hits(li as int, q@, content@, a as int, b as int),
        forall|k: int|
            0 <= k < hits@.len() ==> {
                let (hl, hs, he) = #[trigger] hits@[k];
                hl == li && a <= hs <= he <= b
            },
{
    let mut hits: Vec<(usize, usize, usize)> = Vec::new();
    let mut p: usize = a;
    loop
        invariant
            a <= p <= b,
            b <= content@.len(),
            hit_triples(hits@) + re_line_hits(li as int, q@, content@, p as int, b as int)
                == re_line_hits(li as int, q@, content@, a as int, b as int),
            forall|k: int|
                0 <= k < hits@.len() ==> {
                    let (hl, hs, he) = #[trigger] hits@[k];
                    hl == li && a <= hs <= he <= b
                },
        decreases b - p,
    {
        let ghost before = hit_triples(hits@);
        match re_find_end(q, content, p, b) {
            Some(e) => {
                hits.push((li, p, e));
                proof {
                    assert(hit_triples(hits@) =~= before.push((li as int, p as int, e as int)));
                    assert(hit_triples(hits@) + re_line_hits(
                        li as int,
                        q@,
                        content@,
                        p + 1,
                        b as int,
                    ) =~= before + (seq![(li as int, p as int, e as int)] + re_line_hits(
                        li as int,
                        q@,
                        content@,
                        p + 1,
                        b as int,
                    )));
                }
            },
            None => {},
        }
        if p == b {
            proof {
                assert(re_line_hits(li as int, q@, content@, p + 1, b as int) == Seq::<(
                    int,
                    int,
                    int,
                )>::empty());
            }
            return hits;
        }
        p = p + 1;
    }
}

/// Collect all pattern hits in the lines in scope, as
/// `(line index, absolute start, absolute end)`, ascending.
fn regex_search(
    content: &[char],
    table: &Vec<(usize, usize)>,
    classes: &Vec<LineClass>,
    q: &[char],
    scope: SearchScope,
) -> (hits: Vec<(usize, usize, usize)>)
    requires
        table_wf(content@, table@),
        classes@.len() == table@.len(),
        forall|i: int|
            0 <= i < table@.len() ==> #[trigger] classes@[i] == line_class_of(content@, table@, i),
    ensures
        hit_triples(hits@) == re_hits_upto(content@, table@, q@, scope, table@.len() as int),
        forall|k: int|
            0 <= k < hits@.len() ==> {
                let (hl, hs, he) = #[trigger] hits@[k];
                &&& hl < table@.len()
                &&& table@[hl as int].0 <= hs <= he <= table@[hl as int].1
            },
{
    let mut hits: Vec<(usize, usize, usize)> = Vec::new();
    let mut li: usize = 0;
    while li < table.len()
        invariant
            table_wf(content@, table@),
            classes@.len() == table@.len(),
            forall|i: int|
                0 <= i < table@.len() ==> #[trigger] classes@[i] == line_class_of(
                    content@,
                    table@,
                    i,
                ),
            li <= table@.len(),
            hit_triples(hits@) == re_hits_upto(content@, table@, q@, scope, li as int),
            forall|k: int|
                0 <= k < hits@.len() ==> {
                    let (hl, hs, he) = #[trigger] hits@[k];
                    &&& hl < table@.len()
                    &&& table@[hl as int].0 <= hs <= he <= table@[hl as int].1
                },
        decreases table@.len() - li,
    {
        let scope_ok = match scope {
            SearchScope::All => true,
            SearchScope::Headings => classes[li] == LineClass::Heading,
            SearchScope::Body => classes[li] == LineClass::Body,
            SearchScope::CodeBlocks => classes[li] == LineClass::Code,
        };
        if scope_ok {
            let ghost prev = hit_triples(hits@);
            let (a, b) = table[li];
            let mut line_hits_vec = regex_line_scan(content, q, li, a, b);
            let ghost found = hit_triples(line_hits_vec@);
            hits.append(&mut line_hits_vec);
            proof {
                assert(hit_triples(hits@) =~= prev + found);
            }
        }
        proof {
            assert(hit_triples(hits@) =~= re_hits_upto(content@, table@, q@, scope, li + 1));
        }
        li = li + 1;
    }
    hits
}

/// The index of the nearest heading line at or before line `i`, if any.
pub open spec fn section_line_of(
    content: Seq<char>,
    table: Seq<(usize, usize)>,
    i: int,
) -> Option<int>
    decreases i + 1,
{
    if line_class_of(content, table, i) == LineClass::Heading {
        Some(i)
    } else if i <= 0 {
        None
    } else {
        section_line_of(content, table, i - 1)
    }
}

/// A section line, when there is one, lies at or before the line asked
/// about.
proof fn lemma_section_in_range(content: Seq<char>, table: Seq<(usize, usize)>, i: int)
    requires
        0 <= i,
    ensures
        match section_line_of(content, table, i) {
            Some(s) => 0 <= s <= i,
            None => true,
        },
    decreases i + 1,
{
    if line_class_of(content, table, i) == LineClass::Heading {
    } else if i > 0 {
        lemma_section_in_range(content, table, i - 1);
    }
}

/// Compute, for every line, the nearest heading at or before it.
fn section_lines(
    content: &[char],
    table: &Vec<(usize, usize)>,
    classes: &Vec<LineClass>,
) -> (sections: Vec<Option<usize>>)
    requires
        table_wf(content@, table@),
        classes@.len() == table@.len(),
        forall|i: int|
            0 <= i < table@.len() ==> #[trigger] classes@[i] == line_class_of(content@, table@, i),
    ensures
        sections@.len() == table@.len(),
        forall|i: int|
            0 <= i < table@.len() ==> #[trigger] sections@[i] == match section_line_of(
                content@,
                table@,
                i,
            ) {
                Some(s) => Some(s as usize),
                None => None::<usize>,
            },
{
    let mut sections: Vec<Option<usize>> = Vec::new();
    let mut i: usize = 0;
    while i < table.len()
        invariant
            table_wf(content@, table@),
            classes@.len() == table@.len(),
            forall|k: int|
                0 <= k < table@.len() ==> #[trigger] classes@[k] == line_class_of(
                    content@,
                    table@,
                    k,
                ),
            i <= table@.len(),
            sections@.len() == i,
            forall|k: int|
                0 <= k < i ==> #[trigger] sections@[k] == match section_line_of(
                    content@,
                    table@,
                    k,
                ) {
                    Some(s) => Some(s as usize),
                    None => None::<usize>,
                },
        decreases table@.len() - i,
    {
        if classes[i] == LineClass::Heading {
            sections.push(Some(i));
        } else if i == 0 {
            sections.push(None);
        } else {
            let prev = sections[i - 1];
            sections.push(prev);
        }
        i = i + 1;
    }
    sections
}

/// Does the character `c` occur in `content[a..b)`?
pub open spec fn char_in(content: Seq<char>, a: int, b: int, c: char) -> bool {
    exists|j: int| a <= j < b && content[j] == c
}

/// The fuzzy score of a line: how many of the query's characters, counted
/// by position, occur somewhere in the line.
pub open spec fn fuzzy_score(content: Seq<char>, a: int, b: int, q: Seq<char>) -> nat
    decreases q.len(),
{
    if q.len() == 0 {
        0
    } else {
        fuzzy_score(content, a, b, q.drop_last()) + if char_in(content, a, b, q.last()) {
            1nat
        } else {
            0nat
        }
    }
}

/// Does `c` occur in `content[a..b)`?
fn line_has_char(content: &[char], a: usize, b: usize, c: char) -> (r: bool)
    requires
        a <= b <= content@.len(),
    ensures
        r == char_in(content@, a as int, b as int, c),
{
    let mut j: usize = a;
    while j < b
        invariant
            a <= j <= b <= content@.len(),
            forall|k: int| a <= k < j ==> content@[k] != c,
        decreases b - j,
    {
        if content[j] == c {
            return true;
        }
        j = j + 1;
    }
    false
}

/// Compute a line's fuzzy score.
fn score_line(content: &[char], a: usize, b: usize, q: &[char]) -> (s: usize)
    requires
        a <= b <= content@.len(),
    ensures
        s == fuzzy_score(content@, a as int, b as int, q@),
        s <= q@.len(),
{
    let mut s: usize = 0;
    let mut qi: usize = 0;
    while qi < q.len()
        invariant
            qi <= q@.len(),
            a <= b <= content@.len(),
            s == fuzzy_score(content@, a as int, b as int, q@.take(qi as int)),
            s <= qi,
        decreases q@.len() - qi,
    {
        proof {
            assert(q@.take(qi + 1).drop_last() =~= q@.take(qi as int));
            assert(q@.take(qi + 1).last() == q@[qi as int]);
        }
        if line_has_char(content, a, b, q[qi]) {
            s = s + 1;
        }
        qi = qi + 1;
    }
    proof {
        assert(q@.take(q@.len() as int) =~= q@);
    }
    s
}

/// The fuzzy score of every line, zeroed for lines outside the scope.
pub open spec fn scoped_scores(
    content: Seq<char>,
    table: Seq<(usize, usize)>,
    q: Seq<char>,
    scope: SearchScope,
) -> Seq<nat> {
    Seq::new(
        table.len(),
        |i: int|
            if in_scope(line_class_of(content, table, i), scope) {
                fuzzy_score(content, table[i].0 as int, table[i].1 as int, q)
            } else {
                0
            },
    )
}

/// The index of the first maximal score.
pub open spec fn best_line(scores: Seq<nat>) -> int
    decreases scores.len(),
{
    if scores.len() <= 1 {
        0
    } else {
        let b = best_line(scores.drop_last());
        if scores.last() > scores[b] {
            scores.len() - 1
        } else {
            b
        }
    }
}

/// The ranked line indices: repeatedly the first line of maximal positive
/// score, each taken once, at most `k` of them — descending score order
/// with line order as tie-break.
pub open spec fn top_lines(scores: Seq<nat>, k: int) -> Seq<int>
    decreases k,
{
    if k <= 0 || scores.len() == 0 {
        Seq::empty()
    } else {
        let b = best_line(scores);
        if scores[b] == 0 {
            Seq::empty()
        } else {
            seq![b] + top_lines(scores.update(b, 0), k - 1)
        }
    }
}

/// The natural-number view of a score list.
pub open spec fn score_views(s: Seq<usize>) -> Seq<nat> {
    s.map_values(|x: usize| x as nat)
}

/// The integer view of a list of indices.
pub open spec fn index_views(s: Seq<usize>) -> Seq<int> {
    s.map_values(|x: usize| x as int)
}

/// Find the index of the first maximal score.
fn argmax(scores: &Vec<usize>) -> (r: usize)
    requires
        scores@.len() > 0,
    ensures
        r as int == best_line(score_views(scores@)),
        r < scores@.len(),
{
    let mut best: usize = 0;
    let mut i: usize = 1;
    while i < scores.len()
        invariant
            1 <= i <= scores@.len(),
            best < i,
            best as int == best_line(score_views(scores@).take(i as int)),
        decreases scores@.len() - i,
    {
        proof {
            assert(score_views(scores@).take(i + 1).drop_last() =~= score_views(scores@).take(
                i as int,
            ));
            assert(score_views(scores@).take(i + 1).last() == score_views(scores@)[i as int]);
        }
        if scores[i] > scores[best] {
            best = i;
        }
        i = i + 1;
    }
    proof {
        assert(score_views(scores@).take(scores@.len() as int) =~= score_views(scores@));
    }
    best
}

/// Select the ranked lines, as `top_lines` describes them.
fn top_k(scores: Vec<usize>, k: usize) -> (ids: Vec<usize>)
    ensures
        index_views(ids@) == top_lines(score_views(scores@), k as int),
{
    let ghost scores0 = score_views(scores@);
    let mut pool = scores;
    let mut ids: Vec<usize> = Vec::new();
    let mut taken: usize = 0;
    while taken < k
        invariant
            taken <= k,
            pool@.len() == scores0.len(),
            scores0 == score_views(scores@),
            index_views(ids@) + top_lines(score_views(pool@), k - taken) == top_lines(
                scores0,
                k as int,
            ),
        decreases k - taken,
    {
        if pool.len() == 0 {
            proof {
                assert(score_views(pool@).len() == 0);
                assert(top_lines(score_views(pool@), k - taken) == Seq::<int>::empty());
                assert(index_views(ids@) =~= index_views(ids@) + Seq::<int>::empty());
                assert(index_views(ids@) == top_lines(scores0, k as int));
            }
            return ids;
        }
        let b = argmax(&pool);
        if pool[b] == 0 {
            proof {
                assert(score_views(pool@)[b as int] == 0);
                assert(top_lines(score_views(pool@), k - taken) == Seq::<int>::empty());
                assert(index_views(ids@) =~= index_views(ids@) + Seq::<int>::empty());
                assert(index_views(ids@) == top_lines(scores0, k as int));
            }
            return ids;
        }
        let ghost pre_ids = index_views(ids@);
        let ghost pre_scores = score_views(pool@);
        ids.push(b);
        pool[b] = 0;
        proof {
            assert(score_views(pool@) =~= pre_scores.update(b as int, 0nat));
            assert(index_views(ids@) =~= pre_ids.push(b as int));
            assert(top_lines(pre_scores, k - taken) == seq![b as int] + top_lines(
                pre_scores.update(b as int, 0nat),
                k - taken - 1,
            ));
            assert(pre_ids.push(b as int) + top_lines(score_views(pool@), k - (taken + 1))
                =~= pre_ids + (seq![b as int] + top_lines(
                pre_scores.update(b as int, 0nat),
                k - taken - 1,
            )));
        }
        taken = taken + 1;
    }
    proof {
        assert(top_lines(score_views(pool@), 0) == Seq::<int>::empty());
        assert(index_views(ids@) =~= index_views(ids@) + Seq::<int>::empty());
    }
    ids
}

/// The first maximum lies inside the list.
proof fn lemma_best_line_in_range(scores: Seq<nat>)
    requires
        scores.len() > 0,
    ensures
        0 <= best_line(scores) < scores.len(),
    decreases scores.len(),
{
    if scores.len() > 1 {
        lemma_best_line_in_range(scores.drop_last());
    }
}

/// Ranked lines are valid indices, and at most `k` are returned.
proof fn lemma_top_lines_in_range(scores: Seq<nat>, k: int)
    ensures
        forall|j: int|
            0 <= j < top_lines(scores, k).len() ==> 0 <= #[trigger] top_lines(scores, k)[j]
                < scores.len(),
        k >= 0 ==> top_lines(scores, k).len() <= k,
    decreases k,
{
    if k <= 0 || scores.len() == 0 {
    } else {
        let b = best_line(scores);
        lemma_best_line_in_range(scores);
        if scores[b] == 0 {
        } else {
            lemma_top_lines_in_range(scores.update(b, 0nat), k - 1);
        }
    }
}

/// Line ranges never move left: entry starts and ends are monotone in the
/// line index.
proof fn lemma_table_monotone(content: Seq<char>, table: Seq<(usize, usize)>, i: int, j: int)
    requires
        table_wf(content, table),
        0 <= i <= j < table.len(),
    ensures
        table[i].0 <= table[j].0,
        table[i].1 <= table[j].1,
        table[i].0 <= table[j].1,
    decreases j - i,
{
    if i < j {
        lemma_table_monotone(content, table, i, j - 1);
        assert(table[j].0 == table[j - 1].1 + 1);
    }
}

/// One entry of the line table is determined by the content.
proof fn lemma_table_entry_unique(
    content: Seq<char>,
    t1: Seq<(usize, usize)>,
    t2: Seq<(usize, usize)>,
    i: int,
)
    requires
        table_wf(content, t1),
        table_wf(content, t2),
        0 <= i < t1.len(),
    ensures
        t1[i] == t2[i],
    decreases i,
{
    assert(t1.len() == t2.len());
    if i > 0 {
        lemma_table_entry_unique(content, t1, t2, i - 1);
    }
    let a = t1[i].0;
    let b1 = t1[i].1 as int;
    let b2 = t2[i].1 as int;
    assert(t2[i].0 == a);
    if b1 < b2 {
        assert(i < t1.len() - 1) by {
            if i == t1.len() - 1 {
                assert(b1 == content.len());
            }
        }
        assert(content[b1] == '\n');
        assert(a <= b1 < b2);
        assert(content[b1] != '\n');
    }
    if b2 < b1 {
        assert(i < t2.len() - 1) by {
            if i == t2.len() - 1 {
                assert(b2 == content.len());
            }
        }
        assert(content[b2] == '\n');
        assert(a <= b2 < b1);
        assert(content[b2] != '\n');
    }
}

/// Law: the line table of a content is unique — any two well-formed tables
/// for the same content are equal, so contracts stated over one hold over
/// every other.
pub proof fn lemma_table_unique(
    content: Seq<char>,
    t1: Seq<(usize, usize)>,
    t2: Seq<(usize, usize)>,
)
    requires
        table_wf(content, t1),
        table_wf(content, t2),
    ensures
        t1 == t2,
{
    assert forall|i: int| 0 <= i < t1.len() implies t1[i] == t2[i] by {
        lemma_table_entry_unique(content, t1, t2, i);
    }
    assert(t1 =~= t2);
}

/// One search result: its 1-based line, the match's character range within
/// that line, the matched text, a window of whole context lines, and the
/// nearest enclosing heading line, if any.
pub struct SearchHit {
    pub line: usize,
    pub char_start: usize,
    pub char_end: usize,
    pub text: Vec<char>,
    pub context: Vec<char>,
    pub section: Option<Vec<char>>,
}

/// Extend `(line, start)` pairs to `(line, start, end)` triples for a match
/// of length `qlen`.
pub open spec fn widen_pairs(s: Seq<(int, int)>, qlen: int) -> Seq<(int, int, int)> {
    s.map_values(|t: (int, int)| (t.0, t.1, t.1 + qlen))
}

/// The exact hits as `(line, start, end)` triples.
pub open spec fn exact_tuples(
    content: Seq<char>,
    table: Seq<(usize, usize)>,
    q: Seq<char>,
    scope: SearchScope,
) -> Seq<(int, int, int)> {
    widen_pairs(exact_hits_upto(content, table, q, scope, table.len() as int), q.len() as int)
}

/// The fuzzy hits: each ranked line as a whole-line triple.
pub open spec fn fuzzy_tuples(
    content: Seq<char>,
    table: Seq<(usize, usize)>,
    q: Seq<char>,
    scope: SearchScope,
    max: int,
) -> Seq<(int, int, int)> {
    top_lines(scoped_scores(content, table, q, scope), max).map_values(
        |li: int| (li, table[li].0 as int, table[li].1 as int),
    )
}

/// The triples a search must report, already capped at `max`.
pub open spec fn expected_tuples(
    content: Seq<char>,
    table: Seq<(usize, usize)>,
    q: Seq<char>,
    kind: MatchKind,
    scope: SearchScope,
    max: int,
) -> Seq<(int, int, int)> {
    match kind {
        MatchKind::Exact => {
            let t = exact_tuples(content, table, q, scope);
            t.take(if max < t.len() {
                max
            } else {
                t.len() as int
            })
        },
        MatchKind::Regex => {
            let t = re_hits_upto(content, table, q, scope, table.len() as int);
            t.take(if max < t.len() {
                max
            } else {
                t.len() as int
            })
        },
        MatchKind::Fuzzy => fuzzy_tuples(content, table, q, scope, max),
    }
}

/// The first line of the context window around line `li`.
pub open spec fn context_lo(li: int, ctx: int) -> int {
    if li >= ctx {
        li - ctx
    } else {
        0
    }
}

/// The last line of the context window around line `li`, with `n` lines.
pub open spec fn context_hi(li: int, ctx: int, n: int) -> int {
    if li + ctx <= n - 1 {
        li + ctx
    } else {
        n - 1
    }
}

/// Does one reported hit faithfully render the triple `t`?
pub open spec fn hit_matches(
    content: Seq<char>,
    table: Seq<(usize, usize)>,
    ctx: int,
    t: (int, int, int),
    h: SearchHit,
) -> bool {
    let li = t.0;
    let a = table[li].0 as int;
    let lo = context_lo(li, ctx);
    let hi = context_hi(li, ctx, table.len() as int);
    &&& h.line == li + 1
    &&& h.char_start == t.1 - a
    &&& h.char_end == t.2 - a
    &&& h.text@ == content.subrange(t.1, t.2)
    &&& h.context@ == content.subrange(table[lo].0 as int, table[hi].1 as int)
    &&& match section_line_of(content, table, li) {
        Some(sl) => h.section is Some && (h.section->0)@ == content.subrange(
            table[sl].0 as int,
            table[sl].1 as int,
        ),
        None => h.section is None,
    }
}

/// The whole search contract: the hits render exactly the expected triples.
pub open spec fn results_match(
    content: Seq<char>,
    table: Seq<(usize, usize)>,
    q: Seq<char>,
    kind: MatchKind,
    scope: SearchScope,
    ctx: int,
    max: int,
    hits: Seq<SearchHit>,
) -> bool {
    let expect = expected_tuples(content, table, q, kind, scope, max);
    &&& hits.len() == expect.len()
    &&& forall|i: int|
        0 <= i < hits.len() ==> hit_matches(content, table, ctx, expect[i], #[trigger] hits[i])
}

/// Collect the exact hits as capped-ready triples.
#[verifier::loop_isolation(false)]
#[verifier::rlimit(100)]
fn exact_triples_exec(
    content: &[char],
    table: &Vec<(usize, usize)>,
    classes: &Vec<LineClass>,
    query: &[char],
    scope: SearchScope,
) -> (tuples: Vec<(usize, usize, usize)>)
    requires
        table_wf(content@, table@),
        classes@.len() == table@.len(),
        forall|i: int|
            0 <= i < table@.len() ==> #[trigger] classes@[i] == line_class_of(content@, table@, i),
    ensures
        hit_triples(tuples@) == exact_tuples(content@, table@, query@, scope),
        forall|k: int|
            0 <= k < tuples@.len() ==> {
                let (hl, hs, he) = #[trigger] tuples@[k];
                &&& hl < table@.len()
                &&& table@[hl as int].0 <= hs <= he <= table@[hl as int].1
            },
{
    let pairs = exact_search(content, &table, &classes, query, scope);
    let mut tuples: Vec<(usize, usize, usize)> = Vec::new();
    let mut j: usize = 0;
    while j < pairs.len()
        invariant
            j <= pairs@.len(),
            hit_triples(tuples@) == widen_pairs(hit_pairs(pairs@).take(j as int), query@.len() as int),
            forall|k: int|
                0 <= k < tuples@.len() ==> {
                    let (hl, hs, he) = #[trigger] tuples@[k];
                    &&& hl < table@.len()
                    &&& table@[hl as int].0 <= hs <= he <= table@[hl as int].1
                },
        decreases pairs@.len() - j,
    {
        let (li, s) = pairs[j];
        let ghost before = hit_triples(tuples@);
        tuples.push((li, s, s + query.len()));
        proof {
            assert(hit_triples(tuples@) =~= before.push((li as int, s as int, s + query@.len())));
            assert(hit_pairs(pairs@)[j as int] == (li as int, s as int));
            assert(hit_pairs(pairs@).take(j + 1) =~= hit_pairs(pairs@).take(j as int).push(
                (li as int, s as int),
            ));
            assert(widen_pairs(hit_pairs(pairs@).take(j + 1), query@.len() as int) =~= widen_pairs(
                hit_pairs(pairs@).take(j as int),
                query@.len() as int,
            ).push((li as int, s as int, s + query@.len())));
        }
        j = j + 1;
    }
    proof {
        assert(hit_pairs(pairs@).take(pairs@.len() as int) =~= hit_pairs(pairs@));
    }
    tuples
}

/// Compute the scoped fuzzy scores of every line.
fn scoped_scores_exec(
    content: &[char],
    table: &Vec<(usize, usize)>,
    classes: &Vec<LineClass>,
    query: &[char],
    scope: SearchScope,
) -> (scores: Vec<usize>)
    requires
        table_wf(content@, table@),
        classes@.len() == table@.len(),
        forall|i: int|
            0 <= i < table@.len() ==> #[trigger] classes@[i] == line_class_of(content@, table@, i),
    ensures
        score_views(scores@) == scoped_scores(content@, table@, query@, scope),
{
    let mut scores: Vec<usize> = Vec::new();
    let mut li: usize = 0;
    while li < table.len()
        invariant
            table_wf(content@, table@),
            classes@.len() == table@.len(),
            forall|i: int|
                0 <= i < table@.len() ==> #[trigger] classes@[i] == line_class_of(
                    content@,
                    table@,
                    i,
                ),
            li <= table@.len(),
            scores@.len() == li,
            forall|i: int|
                0 <= i < li ==> #[trigger] score_views(scores@)[i] == scoped_scores(
                    content@,
                    table@,
                    query@,
                    scope,
                )[i],
        decreases table@.len() - li,
    {
        let in_range = match scope {
            SearchScope::All => true,
            SearchScope::Headings => classes[li] == LineClass::Heading,
            SearchScope::Body => classes[li] == LineClass::Body,
            SearchScope::CodeBlocks => classes[li] == LineClass::Code,
        };
        let ghost before_views = score_views(scores@);
        if in_range {
            let (a, b) = table[li];
            let sc = score_line(content, a, b, query);
            scores.push(sc);
            proof {
                assert(score_views(scores@) =~= before_views.push(sc as nat));
            }
        } else {
            scores.push(0);
            proof {
                assert(score_views(scores@) =~= before_views.push(0nat));
            }
        }
        li = li + 1;
    }
    proof {
        assert(score_views(scores@) =~= scoped_scores(content@, table@, query@, scope));
    }
    scores
}

/// Collect the fuzzy hits: the ranked lines as whole-line triples.
#[verifier::loop_isolation(false)]
#[verifier::rlimit(100)]
fn fuzzy_triples_exec(
    content: &[char],
    table: &Vec<(usize, usize)>,
    classes: &Vec<LineClass>,
    query: &[char],
    scope: SearchScope,
    max_results: usize,
) -> (tuples: Vec<(usize, usize, usize)>)
    requires
        table_wf(content@, table@),
        classes@.len() == table@.len(),
        forall|i: int|
            0 <= i < table@.len() ==> #[trigger] classes@[i] == line_class_of(content@, table@, i),
    ensures
        hit_triples(tuples@) == fuzzy_tuples(content@, table@, query@, scope, max_results as int),
        hit_triples(tuples@).len() <= max_results,
        forall|k: int|
            0 <= k < tuples@.len() ==> {
                let (hl, hs, he) = #[trigger] tuples@[k];
                &&& hl < table@.len()
                &&& table@[hl as int].0 <= hs <= he <= table@[hl as int].1
            },
{
    let scores = scoped_scores_exec(content, table, classes, query, scope);
    let ghost spec_scores = score_views(scores@);
    proof {
        assert(spec_scores.len() == table@.len());
    }
    let ids = top_k(scores, max_results);
    proof {
        lemma_top_lines_in_range(spec_scores, max_results as int);
    }
    let ghost expect_all = fuzzy_tuples(content@, table@, query@, scope, max_results as int);
    let mut tuples: Vec<(usize, usize, usize)> = Vec::new();
    let mut j: usize = 0;
    proof {
        assert(expect_all.len() == ids@.len());
    }
    while j < ids.len()
        invariant
            j <= ids@.len(),
            hit_triples(tuples@) == expect_all.take(j as int),
            forall|k: int|
                0 <= k < tuples@.len() ==> {
                    let (hl, hs, he) = #[trigger] tuples@[k];
                    &&& hl < table@.len()
                    &&& table@[hl as int].0 <= hs <= he <= table@[hl as int].1
                },
        decreases ids@.len() - j,
    {
        let li = ids[j];
        proof {
            assert(index_views(ids@)[j as int] == li as int);
        }
        let (a, b) = table[li];
        let ghost before = hit_triples(tuples@);
        tuples.push((li, a, b));
        proof {
            assert(hit_triples(tuples@) =~= before.push((li as int, a as int, b as int)));
            assert(expect_all[j as int] == (li as int, a as int, b as int));
            assert(expect_all.take(j + 1) =~= expect_all.take(j as int).push(
                expect_all[j as int],
            ));
        }
        j = j + 1;
    }
    proof {
        assert(expect_all.take(expect_all.len() as int) =~= expect_all);
        lemma_top_lines_in_range(spec_scores, max_results as int);
    }
    tuples
}

/// Render each triple as a full search hit with its context and section.
#[verifier::loop_isolation(false)]
#[verifier::rlimit(100)]
fn build_hits(
    content: &[char],
    table: &Vec<(usize, usize)>,
    sections: &Vec<Option<usize>>,
    tuples: &Vec<(usize, usize, usize)>,
    context_lines: usize,
) -> (hits: Vec<SearchHit>)
    requires
        table_wf(content@, table@),
        table@.len() > 0,
        sections@.len() == table@.len(),
        forall|i: int|
            0 <= i < table@.len() ==> #[trigger] sections@[i] == match section_line_of(
                content@,
                table@,
                i,
            ) {
                Some(s) => Some(s as usize),
                None => None::<usize>,
            },
        forall|k: int|
            0 <= k < tuples@.len() ==> {
                let (hl, hs, he) = #[trigger] tuples@[k];
                &&& hl < table@.len()
                &&& table@[hl as int].0 <= hs <= he <= table@[hl as int].1
            },
    ensures
        hits@.len() == tuples@.len(),
        forall|i: int|
            0 <= i < hits@.len() ==> hit_matches(
                content@,
                table@,
                context_lines as int,
                hit_triples(tuples@)[i],
                #[trigger] hits@[i],
            ),
{
    let mut hits: Vec<SearchHit> = Vec::new();
    let n = table.len();
    let mut j: usize = 0;
    while j < tuples.len()
        invariant
            j <= tuples@.len(),
            hits@.len() == j,
            forall|i: int|
                0 <= i < j ==> hit_matches(
                    content@,
                    table@,
                    context_lines as int,
                    hit_triples(tuples@)[i],
                    #[trigger] hits@[i],
                ),
        decreases tuples@.len() - j,
    {
        let (li, s, e) = tuples[j];
        let (a, _line_end) = table[li];
        proof {
            lemma_table_monotone(content@, table@, li as int, n - 1);
        }
        let text = subrange_chars(content, s, e);
        let lo = if li >= context_lines {
            li - context_lines
        } else {
            0
        };
        let hi = if n - 1 - li <= context_lines {
            n - 1
        } else {
            li + context_lines
        };
        proof {
            lemma_table_monotone(content@, table@, lo as int, hi as int);
            lemma_table_monotone(content@, table@, hi as int, n - 1);
        }
        let (ctx_a, _lo_end) = table[lo];
        let (_hi_start, ctx_b) = table[hi];
        let context = subrange_chars(content, ctx_a, ctx_b);
        proof {
            lemma_section_in_range(content@, table@, li as int);
        }
        let section: Option<Vec<char>> = match sections[li] {
            Some(sl) => {
                proof {
                    assert(section_line_of(content@, table@, li as int) == Some(sl as int));
                }
                let (sa, sb) = table[sl];
                Some(subrange_chars(content, sa, sb))
            },
            None => None,
        };
        hits.push(
            SearchHit { line: li + 1, char_start: s - a, char_end: e - a, text, context, section },
        );
        j = j + 1;
    }
    hits
}

/// Truncate the tuples to at most `max` entries.
fn cap_tuples(tuples: Vec<(usize, usize, usize)>, max: usize) -> (r: Vec<(usize, usize, usize)>)
    ensures
        hit_triples(r@) == ({
            let t = hit_triples(tuples@);
            t.take(
                if max < t.len() {
                    max as int
                } else {
                    t.len() as int
                },
            )
        }),
        forall|k: int| 0 <= k < r@.len() ==> #[trigger] r@[k] == tuples@[k],
{
    let mut r = tuples;
    let ghost pre = hit_triples(r@);
    r.truncate(max);
    proof {
        if max < pre.len() {
            assert(hit_triples(r@) =~= pre.take(max as int));
        } else {
            assert(pre.take(pre.len() as int) =~= pre);
        }
    }
    r
}

/// The capped raw tuples of each match kind are exactly the expected ones.
proof fn lemma_capped_is_expected(
    content: Seq<char>,
    table: Seq<(usize, usize)>,
    q: Seq<char>,
    kind: MatchKind,
    scope: SearchScope,
    max: int,
    raw: Seq<(int, int, int)>,
    capped: Seq<(int, int, int)>,
)
    requires
        max >= 0,
        capped == raw.take(
            if max < raw.len() {
                max
            } else {
                raw.len() as int
            },
        ),
        kind == MatchKind::Exact ==> raw == exact_tuples(content, table, q, scope),
        kind == MatchKind::Regex ==> raw == re_hits_upto(content, table, q, scope, table.len() as int),
        kind == MatchKind::Fuzzy ==> raw == fuzzy_tuples(content, table, q, scope, max) && raw.len()
            <= max,
    ensures
        capped == expected_tuples(content, table, q, kind, scope, max),
{
    if kind == MatchKind::Fuzzy {
        assert(raw.take(raw.len() as int) =~= raw);
    }
}

/// A result list that matches one well-formed line table matches every
/// well-formed line table, since the table is unique.
proof fn lemma_results_for_all_tables(
    content: Seq<char>,
    mytable: Seq<(usize, usize)>,
    q: Seq<char>,
    kind: MatchKind,
    scope: SearchScope,
    ctx: int,
    max: int,
    hits: Seq<SearchHit>,
)
    requires
        table_wf(content, mytable),
        results_match(content, mytable, q, kind, scope, ctx, max, hits),
    ensures
        forall|t2: Seq<(usize, usize)>|
            table_wf(content, t2) ==> results_match(content, t2, q, kind, scope, ctx, max, hits),
{
    assert forall|t2: Seq<(usize, usize)>| table_wf(content, t2) implies results_match(
        content,
        t2,
        q,
        kind,
        scope,
        ctx,
        max,
        hits,
    ) by {
        lemma_table_unique(content, mytable, t2);
    }
}

/// Search `content` for `query`, read-only. The hits render exactly the
/// expected triples of the chosen match kind, in order, capped at
/// `max_results`; this holds over the (unique) line table of the content.
#[verifier::rlimit(100)]
pub fn search_content(
    content: &[char],
    query: &[char],
    kind: MatchKind,
    scope: SearchScope,
    context_lines: usize,
    max_results: usize,
) -> (hits: Vec<SearchHit>)
    requires
        content@.len() < usize::MAX,
    ensures
        forall|table: Seq<(usize, usize)>|
            table_wf(content@, table) ==> results_match(
                content@,
                table,
                query@,
                kind,
                scope,
                context_lines as int,
                max_results as int,
                hits@,
            ),
{
    let table = line_table(content);
    let classes = classify_lines(content, &table);
    let sections = section_lines(content, &table, &classes);
    let raw: Vec<(usize, usize, usize)> = match kind {
        MatchKind::Exact => exact_triples_exec(content, &table, &classes, query, scope),
        MatchKind::Regex => regex_search(content, &table, &classes, query, scope),
        MatchKind::Fuzzy => fuzzy_triples_exec(
            content,
            &table,
            &classes,
            query,
            scope,
            max_results,
        ),
    };
    let ghost raw_seq = raw@;
    let ghost raw_view = hit_triples(raw@);
    let tuples = cap_tuples(raw, max_results);
    proof {
        assert(tuples@.len() == hit_triples(tuples@).len());
        assert(raw_seq.len() == raw_view.len());
        assert forall|k: int| 0 <= k < tuples@.len() implies {
            let (hl, hs, he) = #[trigger] tuples@[k];
            &&& hl < table@.len()
            &&& table@[hl as int].0 <= hs <= he <= table@[hl as int].1
        } by {
            assert(tuples@[k] == raw_seq[k]);
        }
        lemma_capped_is_expected(
            content@,
            table@,
            query@,
            kind,
            scope,
            max_results as int,
            raw_view,
            hit_triples(tuples@),
        );
    }
    let hits: Vec<SearchHit> = if table.len() == 0 {
        proof {
            assert(hit_triples(tuples@).len() == 0);
        }
        Vec::new()
    } else {
        build_hits(content, &table, &sections, &tuples, context_lines)
    };
    proof {
        lemma_results_for_all_tables(
            content@,
            table@,
            query@,
            kind,
            scope,
            context_lines as int,
            max_results as int,
            hits@,
        );
    }
    hits
}

} // verus!
