//! Verified helpers for comparing and searching room-name strings.

use vstd::prelude::*;
use vstd::string::StrSliceExecFns;

verus! {

/// The characters of `needle` appear in `hay` starting at position `at`.
pub open spec fn matches_at(hay: Seq<char>, needle: Seq<char>, at: int) -> bool {
    0 <= at && at + needle.len() <= hay.len() && hay.subrange(at, at + needle.len()) == needle
}

/// `needle` occurs as a contiguous run of characters somewhere in `hay`.
pub open spec fn seq_contains(hay: Seq<char>, needle: Seq<char>) -> bool {
    exists|i: int| matches_at(hay, needle, i)
}

/// Character-by-character equality of two string slices.
pub fn str_eq(a: &str, b: &str) -> (r: bool)
    ensures
        r == (a@ == b@),
{
    let a_len = a.unicode_len();
    let b_len = b.unicode_len();
    if a_len != b_len {
        return false;
    }
    let mut i: usize = 0;
    while i < a_len
        invariant
            0 <= i <= a_len,
            a_len == a@.len(),
            a_len == b@.len(),
            forall|j: int| 0 <= j < i ==> a@[j] == b@[j],
        decreases a_len - i,
    {
        if a.get_char(i) != b.get_char(i) {
            return false;
        }
        i += 1;
    }
    proof {
        assert(a@ =~= b@);
    }
    true
}

/// Substring search: true exactly when `needle` occurs somewhere in `hay`.
pub fn str_contains(hay: &str, needle: &str) -> (r: bool)
    ensures
        r == seq_contains(hay@, needle@),
{
    let h_len = hay.unicode_len();
    let n_len = needle.unicode_len();
    if n_len > h_len {
        return false;
    }
    if n_len == 0 {
        proof {
            assert(hay@.subrange(0, 0 + needle@.len() as int) =~= needle@);
            assert(matches_at(hay@, needle@, 0));
        }
        return true;
    }
    let mut i: usize = 0;
    while i <= h_len - n_len
        invariant
            0 <= i <= h_len - n_len + 1,
            1 <= n_len <= h_len,
            h_len == hay@.len(),
            n_len == needle@.len(),
            forall|k: int| 0 <= k < i ==> !matches_at(hay@, needle@, k),
        decreases h_len - i,
    {
        let mut j: usize = 0;
        let mut mismatch = false;
        while j < n_len
            invariant
                0 <= j <= n_len,
                i + n_len <= h_len,
                h_len == hay@.len(),
                n_len == needle@.len(),
                !mismatch ==> forall|t: int| 0 <= t < j ==> hay@[i + t] == needle@[t],
                mismatch ==> !matches_at(hay@, needle@, i as int),
            decreases n_len - j,
        {
            if hay.get_char(i + j) != needle.get_char(j) {
                proof {
                    if matches_at(hay@, needle@, i as int) {
                        assert(hay@.subrange(i as int, i + needle@.len())[j as int]
                            == needle@[j as int]);
                    }
                }
                mismatch = true;
                j = n_len;
            } else {
                j += 1;
            }
        }
        if !mismatch {
            proof {
                assert(hay@.subrange(i as int, i + needle@.len()) =~= needle@);
                assert(matches_at(hay@, needle@, i as int));
            }
            return true;
        }
        i += 1;
    }
    proof {
        assert forall|k: int| !matches_at(hay@, needle@, k) by {
            if 0 <= k && k + needle@.len() <= hay@.len() {
                assert(k < i);
            }
        }
    }
    false
}

} // verus!
