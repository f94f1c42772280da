//! Verified helpers for comparing and searching character strings.
use vstd::prelude::*;

verus! {

/// Character-by-character string equality, proved equivalent to equality of
/// the two views.
pub fn str_eq(a: &str, b: &str) -> (r: bool)
    ensures
        r == (a@ == b@),
{
    let a_len = a.unicode_len();
    let b_len = b.unicode_len();
    if a_len != b_len {
        proof {
            assert(a@ != b@) by {
                if a@ == b@ {
                    assert(a@.len() == b@.len());
                }
            }
        }
        return false;
    }
    let mut i: usize = 0;
    while i < a_len
        invariant
            i <= a_len,
            a_len == a@.len(),
            b_len == b@.len(),
            a_len == b_len,
            forall|j: int| 0 <= j < i ==> a@[j] == b@[j],
        decreases a_len - i,
    {
        if a.get_char(i) != b.get_char(i) {
            proof {
                assert(a@ != b@) by {
                    if a@ == b@ {
                        assert(a@[i as int] == b@[i as int]);
                    }
                }
            }
            return false;
        }
        i += 1;
    }
    proof {
        assert(a@ =~= b@);
    }
    true
}

/// Whether `pat` occurs as a contiguous subsequence of `s` starting at `i`.
pub open spec fn matches_at(s: Seq<char>, pat: Seq<char>, i: int) -> bool {
    0 <= i && i + pat.len() <= s.len() && s.subrange(i, i + pat.len() as int) == pat
}

/// Whether `pat` occurs anywhere as a contiguous subsequence of `s`.
pub open spec fn contains_seq(s: Seq<char>, pat: Seq<char>) -> bool {
    exists|i: int| matches_at(s, pat, i)
}

/// Whether `pat` matches `s` at position `start`, by comparing characters.
fn str_matches_at(s: &str, pat: &str, start: usize) -> (r: bool)
    requires
        start + pat@.len() <= s@.len(),
        s@.len() <= usize::MAX,
    ensures
        r == matches_at(s@, pat@, start as int),
{
    let pat_len = pat.unicode_len();
    let mut k: usize = 0;
    while k < pat_len
        invariant
            start + pat@.len() <= s@.len(),
            s@.len() <= usize::MAX,
            k <= pat_len,
            pat_len == pat@.len(),
            forall|j: int| 0 <= j < k ==> s@[start + j] == pat@[j],
        decreases pat_len - k,
    {
        if s.get_char(start + k) != pat.get_char(k) {
            proof {
                assert(!matches_at(s@, pat@, start as int)) by {
                    if matches_at(s@, pat@, start as int) {
                        assert(s@.subrange(start as int, start + pat@.len() as int)[k as int]
                            == pat@[k as int]);
                    }
                }
            }
            return false;
        }
        k += 1;
    }
    proof {
        assert(s@.subrange(start as int, start + pat@.len() as int) =~= pat@);
    }
    true
}

/// Substring search, proved equivalent to `contains_seq` on the views.
pub fn str_contains(s: &str, pat: &str) -> (r: bool)
    ensures
        r == contains_seq(s@, pat@),
{
    let s_len = s.unicode_len();
    let pat_len = pat.unicode_len();
    if pat_len == 0 {
        proof {
            assert(s@.subrange(0, 0) =~= pat@);
            assert(matches_at(s@, pat@, 0));
        }
        return true;
    }
    if pat_len > s_len {
        proof {
            assert(!contains_seq(s@, pat@)) by {
                if contains_seq(s@, pat@) {
                    let i = choose|i: int| matches_at(s@, pat@, i);
                    assert(i + pat@.len() <= s@.len());
                }
            }
        }
        return false;
    }
    let mut start: usize = 0;
    while start <= s_len - pat_len
        invariant
            1 <= pat_len <= s_len,
            s_len == s@.len(),
            pat_len == pat@.len(),
            start <= s_len - pat_len + 1,
            forall|i: int| 0 <= i < start ==> !matches_at(s@, pat@, i),
        decreases s_len - start,
    {
        if str_matches_at(s, pat, start) {
            return true;
        }
        start += 1;
    }
    proof {
        assert(!contains_seq(s@, pat@)) by {
            if contains_seq(s@, pat@) {
                let i = choose|i: int| matches_at(s@, pat@, i);
                assert(0 <= i < start);
            }
        }
    }
    false
}

} // verus!
