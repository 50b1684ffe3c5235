//! Character-sequence operations shared by the edit engine and search.
//!
//! Content is a sequence of Unicode scalar values; offsets into it are
//! character offsets, never byte offsets.

use vstd::prelude::*;

verus! {

/// The content that results from removing `[start, end)` and inserting `ins`
/// in its place.
pub open spec fn splice(s: Seq<char>, start: int, end: int, ins: Seq<char>) -> Seq<char> {
    s.subrange(0, start) + ins + s.subrange(end, s.len() as int)
}

/// Number of newline characters in `s`.
pub open spec fn newline_count(s: Seq<char>) -> nat
    decreases s.len(),
{
    if s.len() == 0 {
        0
    } else {
        newline_count(s.drop_last()) + if s.last() == '\n' {
            1nat
        } else {
            0nat
        }
    }
}

/// Number of lines in `s`: zero for empty content, otherwise one more than
/// the number of newline characters.
pub open spec fn line_count(s: Seq<char>) -> nat {
    if s.len() == 0 {
        0
    } else {
        newline_count(s) + 1
    }
}

/// Copy out the characters of `[start, end)`.
pub fn subrange_chars(content: &[char], start: usize, end: usize) -> (r: Vec<char>)
    requires
        start <= end <= content@.len(),
    ensures
        r@ == content@.subrange(start as int, end as int),
{
    let mut r: Vec<char> = Vec::new();
    let mut i: usize = start;
    while i < end
        invariant
            start <= i <= end <= content@.len(),
            r@ == content@.subrange(start as int, i as int),
        decreases end - i,
    {
        r.push(content[i]);
        proof {
            assert(content@.subrange(start as int, i + 1) =~= content@.subrange(
                start as int,
                i as int,
            ).push(content@[i as int]));
        }
        i = i + 1;
    }
    r
}

/// Splice `ins` over the range `[start, end)` of `content`.
pub fn splice_chars(content: &[char], start: usize, end: usize, ins: &[char]) -> (r: Vec<char>)
    requires
        start <= end <= content@.len(),
    ensures
        r@ == splice(content@, start as int, end as int, ins@),
        r@.len() == content@.len() - (end - start) + ins@.len(),
{
    let mut r: Vec<char> = Vec::new();
    let mut i: usize = 0;
    while i < start
        invariant
            i <= start <= end <= content@.len(),
            r@ == content@.subrange(0, i as int),
        decreases start - i,
    {
        r.push(content[i]);
        proof {
            assert(content@.subrange(0, i + 1) =~= content@.subrange(0, i as int).push(
                content@[i as int],
            ));
        }
        i = i + 1;
    }
    let mut j: usize = 0;
    while j < ins.len()
        invariant
            j <= ins@.len(),
            start <= end <= content@.len(),
            r@ == content@.subrange(0, start as int) + ins@.take(j as int),
        decreases ins@.len() - j,
    {
        r.push(ins[j]);
        proof {
            assert(ins@.take(j + 1) =~= ins@.take(j as int).push(ins@[j as int]));
            assert(content@.subrange(0, start as int) + ins@.take(j + 1) =~= (content@.subrange(
                0,
                start as int,
            ) + ins@.take(j as int)).push(ins@[j as int]));
        }
        j = j + 1;
    }
    proof {
        assert(ins@.take(ins@.len() as int) =~= ins@);
    }
    let mut k: usize = end;
    while k < content.len()
        invariant
            end <= k <= content@.len(),
            start <= end,
            r@ == content@.subrange(0, start as int) + ins@ + content@.subrange(
                end as int,
                k as int,
            ),
        decreases content@.len() - k,
    {
        r.push(content[k]);
        proof {
            assert(content@.subrange(end as int, k + 1) =~= content@.subrange(
                end as int,
                k as int,
            ).push(content@[k as int]));
            assert(content@.subrange(0, start as int) + ins@ + content@.subrange(end as int, k + 1)
                =~= (content@.subrange(0, start as int) + ins@ + content@.subrange(
                end as int,
                k as int,
            )).push(content@[k as int]));
        }
        k = k + 1;
    }
    r
}

/// Compare two character slices for equality of their contents.
pub fn chars_eq(a: &[char], b: &[char]) -> (r: bool)
    ensures
        r == (a@ == b@),
{
    if a.len() != b.len() {
        return false;
    }
    let mut i: usize = 0;
    while i < a.len()
        invariant
            a@.len() == b@.len(),
            i <= a@.len(),
            forall|j: int| 0 <= j < i ==> a@[j] == b@[j],
        decreases a@.len() - i,
    {
        if a[i] != b[i] {
            return false;
        }
        i = i + 1;
    }
    proof {
        assert(a@ =~= b@);
    }
    true
}

/// Count the lines of `content` as `line_count` defines them.
pub fn count_lines(content: &[char]) -> (n: usize)
    requires
        content@.len() < usize::MAX,
    ensures
        n == line_count(content@),
{
    if content.len() == 0 {
        return 0;
    }
    let mut n: usize = 0;
    let mut i: usize = 0;
    while i < content.len()
        invariant
            i <= content@.len(),
            n == newline_count(content@.take(i as int)),
            n <= i,
        decreases content@.len() - i,
    {
        proof {
            assert(content@.take(i + 1).drop_last() =~= content@.take(i as int));
            assert(content@.take(i + 1).last() == content@[i as int]);
        }
        if content[i] == '\n' {
            n = n + 1;
        }
        i = i + 1;
    }
    proof {
        assert(content@.take(content@.len() as int) =~= content@);
    }
    n + 1
}

} // verus!
