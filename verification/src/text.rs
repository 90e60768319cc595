//! Character-level searches in strings.
use vstd::prelude::*;

verus! {

/// Whether `s` begins with `prefix`.
pub open spec fn seq_starts_with(s: Seq<char>, prefix: Seq<char>) -> bool {
    prefix.len() <= s.len() && s.subrange(0, prefix.len() as int) == prefix
}

/// Whether `pattern` occurs in `s` at index `at`.
pub open spec fn occurs_at(s: Seq<char>, pattern: Seq<char>, at: int) -> bool {
    0 <= at && at + pattern.len() <= s.len() && s.subrange(at, at + pattern.len()) == pattern
}

/// Whether `pattern` occurs anywhere in `s`.
pub open spec fn seq_contains(s: Seq<char>, pattern: Seq<char>) -> bool {
    exists|at: int| #[trigger] occurs_at(s, pattern, at)
}

/// Whether `pattern` occurs in `s` at character index `at`.
fn matches_at(s: &str, s_len: usize, pattern: &str, p_len: usize, at: usize) -> (found: bool)
    requires
        s_len == s@.len(),
        p_len == pattern@.len(),
        at + p_len <= s_len,
    ensures
        found == occurs_at(s@, pattern@, at as int),
{
    let mut j: usize = 0;
    while j < p_len
        invariant
            s_len == s@.len(),
            p_len == pattern@.len(),
            at + p_len <= s_len,
            j <= p_len,
            forall|k: int| 0 <= k < j ==> s@[at + k] == pattern@[k],
        decreases p_len - j,
    {
        if s.get_char(at + j) != pattern.get_char(j) {
            proof {
                assert(s@.subrange(at as int, at + p_len)[j as int] != pattern@[j as int]);
            }
            return false;
        }
        j = j + 1;
    }
    proof {
        assert(s@.subrange(at as int, at + p_len) =~= pattern@);
    }
    true
}

/// Whether `s` begins with `prefix`, as `str::starts_with` answers it.
pub fn str_starts_with(s: &str, prefix: &str) -> (found: bool)
    ensures
        found == seq_starts_with(s@, prefix@),
{
    let s_len = s.unicode_len();
    let p_len = prefix.unicode_len();
    if p_len > s_len {
        return false;
    }
    matches_at(s, s_len, prefix, p_len, 0)
}

/// Whether `pattern` occurs in `s`, as `str::contains` answers it.
pub fn str_contains(s: &str, pattern: &str) -> (found: bool)
    ensures
        found == seq_contains(s@, pattern@),
{
    let s_len = s.unicode_len();
    let p_len = pattern.unicode_len();
    if p_len > s_len {
        return false;
    }
    let last = s_len - p_len;
    let mut at: usize = 0;
    while at < last
        invariant
            s_len == s@.len(),
            p_len == pattern@.len(),
            last == s_len - p_len,
            at <= last,
            forall|i: int| 0 <= i < at ==> !occurs_at(s@, pattern@, i),
        decreases last - at,
    {
        if matches_at(s, s_len, pattern, p_len, at) {
            return true;
        }
        at = at + 1;
    }
    let found = matches_at(s, s_len, pattern, p_len, last);
    proof {
        if !found {
            assert forall|i: int| !occurs_at(s@, pattern@, i) by {
                if 0 <= i < at {
                }
            }
        }
    }
    found
}

} // verus!
