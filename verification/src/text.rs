//! Verified text primitives: pattern matching at a position, substring
//! search, and string equality, all stated over character sequences.

use vstd::prelude::*;

verus! {

/// `p` occurs in `s` starting at character position `at`.
pub open spec fn is_match_at(s: Seq<char>, p: Seq<char>, at: int) -> bool {
    &&& 0 <= at
    &&& at + p.len() <= s.len()
    &&& s.subrange(at, at + p.len()) == p
}

/// `p` occurs somewhere in `s`.
pub open spec fn contains_seq(s: Seq<char>, p: Seq<char>) -> bool {
    exists|at: int| is_match_at(s, p, at)
}

/// Whether `pattern` occurs in `text` at character position `at`.
pub fn match_at(text: &str, pattern: &str, at: usize) -> (r: bool)
    ensures
        r == is_match_at(text@, pattern@, at as int),
{
    let n = text.unicode_len();
    let m = pattern.unicode_len();
    if at > n || m > n - at {
        return false;
    }
    let mut j: usize = 0;
    while j < m
        invariant
            at + m <= n,
            n == text@.len(),
            m == pattern@.len(),
            j <= m,
            forall|i: int| 0 <= i < j ==> text@[at + i] == pattern@[i],
        decreases m - j,
    {
        if text.get_char(at + j) != pattern.get_char(j) {
            proof {
                if is_match_at(text@, pattern@, at as int) {
                    assert(text@.subrange(at as int, at + pattern@.len())[j as int] == text@[at
                        + j]);
                }
            }
            return false;
        }
        j += 1;
    }
    proof {
        assert(text@.subrange(at as int, at + pattern@.len()) =~= pattern@);
    }
    true
}

/// Whether `pattern` occurs anywhere in `text`.
pub fn contains_str(text: &str, pattern: &str) -> (r: bool)
    ensures
        r == contains_seq(text@, pattern@),
{
    let n = text.unicode_len();
    let m = pattern.unicode_len();
    if m > n {
        return false;
    }
    if m == 0 {
        proof {
            assert(text@.subrange(0, 0) =~= pattern@);
            assert(is_match_at(text@, pattern@, 0));
        }
        return true;
    }
    let mut at: usize = 0;
    while at <= n - m
        invariant
            1 <= m <= n,
            n == text@.len(),
            m == pattern@.len(),
            at <= n - m + 1,
            forall|i: int| 0 <= i < at ==> !is_match_at(text@, pattern@, i),
        decreases n - m - at + 1,
    {
        if match_at(text, pattern, at) {
            return true;
        }
        at += 1;
    }
    assert forall|i: int| !is_match_at(text@, pattern@, i) by {
        if 0 <= i && i + pattern@.len() <= text@.len() {
            assert(0 <= i < at);
        }
    }
    false
}

/// Whether `a` and `b` hold the same characters.
pub fn str_eq(a: &str, b: &str) -> (r: bool)
    ensures
        r == (a@ == b@),
{
    let n = a.unicode_len();
    let m = b.unicode_len();
    if n != m {
        return false;
    }
    let r = match_at(a, b, 0);
    proof {
        assert(a@.subrange(0, a@.len() as int) =~= a@);
        if a@ == b@ {
            assert(is_match_at(a@, b@, 0));
        }
    }
    r
}

} // verus!
