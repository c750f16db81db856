//! Comparisons of strings, character by character.
use vstd::prelude::*;
use vstd::string::*;

verus! {

pub open spec fn is_prefix_of(p: Seq<char>, s: Seq<char>) -> bool {
    p.len() <= s.len() && s.subrange(0, p.len() as int) == p
}

/// `p` occurs in `s` starting at position `at`.
pub open spec fn occurs_at(p: Seq<char>, s: Seq<char>, at: int) -> bool {
    0 <= at && at + p.len() <= s.len() && s.subrange(at, at + p.len()) == p
}

pub open spec fn contains_text(s: Seq<char>, p: Seq<char>) -> bool {
    exists|at: int| occurs_at(p, s, at)
}

/// Whether `s` begins with `p`.
pub fn starts_with_text(s: &str, p: &str) -> (r: bool)
    ensures
        r == is_prefix_of(p@, s@),
{
    let n = p.unicode_len();
    let m = s.unicode_len();
    if n > m {
        return false;
    }
    let mut i: usize = 0;
    while i < n
        invariant
            n == p@.len(),
            m == s@.len(),
            n <= m,
            i <= n,
            forall|k: int| 0 <= k < i ==> s@[k] == p@[k],
        decreases n - i,
    {
        if s.get_char(i) != p.get_char(i) {
            assert(s@.subrange(0, n as int)[i as int] != p@[i as int]);
            return false;
        }
        i += 1;
    }
    assert(s@.subrange(0, n as int) =~= p@);
    true
}

/// Whether `s` and `t` hold the same characters.
pub fn text_eq(s: &str, t: &str) -> (r: bool)
    ensures
        r == (s@ == t@),
{
    if s.unicode_len() != t.unicode_len() {
        return false;
    }
    let r = starts_with_text(s, t);
    assert(s@.subrange(0, t@.len() as int) =~= s@);
    r
}

/// Whether `p` occurs in `s` at position `at`.
fn occurs_at_exec(s: &str, p: &str, at: usize) -> (r: bool)
    requires
        at + p@.len() <= s@.len(),
    ensures
        r == occurs_at(p@, s@, at as int),
{
    let n = p.unicode_len();
    let m = s.unicode_len();
    let mut i: usize = 0;
    while i < n
        invariant
            n == p@.len(),
            m == s@.len(),
            at + n <= s@.len(),
            i <= n,
            forall|k: int| 0 <= k < i ==> s@[at + k] == p@[k],
        decreases n - i,
    {
        if s.get_char(at + i) != p.get_char(i) {
            assert(s@.subrange(at as int, at + n)[i as int] != p@[i as int]);
            return false;
        }
        i += 1;
    }
    assert(s@.subrange(at as int, at + n) =~= p@);
    true
}

/// Whether `p` occurs anywhere in `s`.
pub fn contains(s: &str, p: &str) -> (r: bool)
    ensures
        r == contains_text(s@, p@),
{
    let n = p.unicode_len();
    let m = s.unicode_len();
    if n > m {
        assert forall|at: int| !occurs_at(p@, s@, at) by {}
        return false;
    }
    let mut at: usize = 0;
    while at <= m - n
        invariant
            n == p@.len(),
            m == s@.len(),
            n <= m,
            at <= m - n + 1,
            forall|k: int| 0 <= k < at ==> !occurs_at(p@, s@, k),
        decreases m - n + 1 - at,
    {
        if occurs_at_exec(s, p, at) {
            return true;
        }
        if at == m - n {
            assert forall|k: int| !occurs_at(p@, s@, k) by {
                if 0 <= k && k + n <= m {
                    assert(k <= at);
                }
            }
            return false;
        }
        at += 1;
    }
    assert forall|k: int| !occurs_at(p@, s@, k) by {
        if 0 <= k && k + n <= m {
            assert(k < at);
        }
    }
    false
}

} // verus!
