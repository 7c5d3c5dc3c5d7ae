//! Literal find-and-replace on character sequences.
//!
//! The specification [`replaced`] defines the result of replacing, left to
//! right, every non-overlapping occurrence of a pattern; [`replace_all`] is
//! the verified executable counterpart.

use vstd::prelude::*;

verus! {

/// `p` occurs in `s` at character position `i`.
pub open spec fn occurs_at(s: Seq<char>, p: Seq<char>, i: int) -> bool {
    0 <= i && i + p.len() <= s.len() && s.subrange(i, i + p.len() as int) == p
}

/// The result of replacing, left to right, every non-overlapping occurrence
/// of `p` in `s` with `r`.
///
/// Scanning from the front: where `p` matches, `r` is emitted and the scan
/// resumes after the matched characters (occurrences never overlap); where it
/// does not, the character is kept. An empty pattern is a no-op by policy:
/// it never matches, and `s` is returned unchanged.
pub open spec fn replaced(s: Seq<char>, p: Seq<char>, r: Seq<char>) -> Seq<char>
    decreases s.len(),
{
    if p.len() == 0 || s.len() < p.len() {
        s
    } else if s.subrange(0, p.len() as int) == p {
        r + replaced(s.subrange(p.len() as int, s.len() as int), p, r)
    } else {
        seq![s[0]] + replaced(s.subrange(1, s.len() as int), p, r)
    }
}

proof fn lemma_replaced_match(s: Seq<char>, p: Seq<char>, r: Seq<char>)
    requires
        1 <= p.len() <= s.len(),
        s.subrange(0, p.len() as int) == p,
    ensures
        replaced(s, p, r) == r + replaced(s.skip(p.len() as int), p, r),
{
    assert(s.subrange(p.len() as int, s.len() as int) =~= s.skip(p.len() as int));
}

proof fn lemma_replaced_miss(s: Seq<char>, p: Seq<char>, r: Seq<char>)
    requires
        p.len() >= 1,
        s.len() >= 1,
        !occurs_at(s, p, 0),
    ensures
        replaced(s, p, r) == seq![s[0]] + replaced(s.skip(1), p, r),
{
    if s.len() < p.len() {
        assert(s.skip(1).len() < p.len());
        assert(replaced(s.skip(1), p, r) == s.skip(1));
        assert(seq![s[0]] + s.skip(1) =~= s);
    } else {
        assert(s.subrange(0, 0 + p.len() as int) != p);
        assert(s.subrange(1, s.len() as int) =~= s.skip(1));
    }
}

/// When a non-empty pattern `p` occurs nowhere in `s`, replacement leaves `s`
/// unchanged.
pub proof fn lemma_replaced_absent(s: Seq<char>, p: Seq<char>, r: Seq<char>)
    requires
        p.len() >= 1,
        forall|i: int| !occurs_at(s, p, i),
    ensures
        replaced(s, p, r) == s,
    decreases s.len(),
{
    if s.len() == 0 {
    } else {
        assert(!occurs_at(s, p, 0));
        lemma_replaced_miss(s, p, r);
        assert forall|i: int| !occurs_at(s.skip(1), p, i) by {
            if 0 <= i && i + p.len() <= s.skip(1).len() {
                assert(s.skip(1).subrange(i, i + p.len() as int) =~= s.subrange(
                    i + 1,
                    i + 1 + p.len() as int,
                ));
                assert(!occurs_at(s, p, i + 1));
            }
        }
        lemma_replaced_absent(s.skip(1), p, r);
        assert(seq![s[0]] + s.skip(1) =~= s);
    }
}

/// Replacement takes occurrences left to right: where the leftmost
/// occurrence of `p` in `s` stands at `i`, everything before `i` is kept,
/// `r` stands in place of the occurrence, and replacement continues after
/// the matched characters — occurrences never overlap.
pub proof fn lemma_replaced_first_occurrence(s: Seq<char>, p: Seq<char>, r: Seq<char>, i: int)
    requires
        p.len() >= 1,
        occurs_at(s, p, i),
        forall|j: int| j < i ==> !occurs_at(s, p, j),
    ensures
        replaced(s, p, r) == s.subrange(0, i) + r + replaced(s.skip(i + p.len()), p, r),
    decreases i,
{
    if i == 0 {
        lemma_replaced_match(s, p, r);
        assert(s.subrange(0, 0) + r + replaced(s.skip(p.len() as int), p, r) =~= r + replaced(
            s.skip(p.len() as int),
            p,
            r,
        ));
    } else {
        assert(!occurs_at(s, p, 0));
        lemma_replaced_miss(s, p, r);
        let tail = s.skip(1);
        assert(tail.subrange(i - 1, i - 1 + p.len() as int) =~= s.subrange(i, i + p.len() as int));
        assert(occurs_at(tail, p, i - 1));
        assert forall|j: int| j < i - 1 implies !occurs_at(tail, p, j) by {
            if 0 <= j && j + p.len() <= tail.len() {
                assert(tail.subrange(j, j + p.len() as int) =~= s.subrange(
                    j + 1,
                    j + 1 + p.len() as int,
                ));
                assert(!occurs_at(s, p, j + 1));
            }
        }
        lemma_replaced_first_occurrence(tail, p, r, i - 1);
        assert(tail.skip(i - 1 + p.len()) =~= s.skip(i + p.len()));
        assert(seq![s[0]] + (tail.subrange(0, i - 1) + r + replaced(s.skip(i + p.len()), p, r))
            =~= s.subrange(0, i) + r + replaced(s.skip(i + p.len()), p, r));
    }
}

/// Whether the characters of `p` appear in `s` starting at character
/// position `i`.
fn matches_at(s: &str, p: &str, i: usize) -> (b: bool)
    requires
        i + p@.len() <= s@.len(),
        s@.len() <= usize::MAX,
    ensures
        b == occurs_at(s@, p@, i as int),
{
    let m = p.unicode_len();
    let mut j: usize = 0;
    while j < m
        invariant
            m == p@.len(),
            i + m <= s@.len(),
            s@.len() <= usize::MAX,
            j <= m,
            forall|k: int| 0 <= k < j ==> s@[i + k] == p@[k],
        decreases m - j,
    {
        if s.get_char(i + j) != p.get_char(j) {
            proof {
                let sub = s@.subrange(i as int, i as int + m as int);
                assert(sub[j as int] == s@[i + j]);
            }
            return false;
        }
        j += 1;
    }
    proof {
        assert(s@.subrange(i as int, i as int + m as int) =~= p@);
    }
    true
}

/// Replace every non-overlapping occurrence of `pattern` in `input` with
/// `replacement`, scanning left to right. An empty pattern is a no-op.
pub fn replace_all(input: &str, pattern: &str, replacement: &str) -> (out: String)
    ensures
        out@ == replaced(input@, pattern@, replacement@),
{
    let ghost s = input@;
    let ghost p = pattern@;
    let ghost r = replacement@;
    let n = input.unicode_len();
    let m = pattern.unicode_len();
    if m == 0 {
        return input.to_owned();
    }
    let mut out = String::new();
    let mut i: usize = 0;
    proof {
        assert(s.skip(0) =~= s);
        assert(out@ + replaced(s, p, r) =~= replaced(s, p, r));
    }
    while i < n
        invariant
            s == input@,
            p == pattern@,
            r == replacement@,
            n == s.len(),
            m == p.len(),
            1 <= m,
            i <= n,
            replaced(s, p, r) == out@ + replaced(s.skip(i as int), p, r),
        decreases n - i,
    {
        let ghost u = s.skip(i as int);
        if m <= n - i && matches_at(input, pattern, i) {
            out.append(replacement);
            proof {
                assert(u.subrange(0, p.len() as int) =~= s.subrange(i as int, i as int
                    + p.len() as int));
                assert(occurs_at(u, p, 0));
                lemma_replaced_match(u, p, r);
                assert(u.skip(p.len() as int) =~= s.skip(i + m));
                assert(out@ + replaced(s.skip(i + m), p, r) =~= replaced(s, p, r));
            }
            i += m;
        } else {
            proof {
                if m <= n - i {
                    assert(u.subrange(0, p.len() as int) =~= s.subrange(i as int, i as int
                        + p.len() as int));
                }
                assert(!occurs_at(u, p, 0));
            }
            let c = input.substring_char(i, i + 1);
            out.append(c);
            proof {
                lemma_replaced_miss(u, p, r);
                assert(u.skip(1) =~= s.skip(i + 1));
                assert(c@ =~= seq![u[0]]);
                assert(out@ + replaced(s.skip(i + 1), p, r) =~= replaced(s, p, r));
            }
            i += 1;
        }
    }
    proof {
        assert(s.skip(n as int) =~= Seq::<char>::empty());
        assert(out@ + replaced(s.skip(n as int), p, r) =~= out@);
    }
    out
}

} // verus!
