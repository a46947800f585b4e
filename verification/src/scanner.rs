//! Byte-pattern ("signature") scanning over snapshots of memory regions.

use vstd::prelude::*;

verus! {

/// One entry of a byte pattern: a concrete byte, or a wildcard that matches
/// any byte.
#[derive(Clone, Copy, PartialEq, Eq, Structural, Debug)]
pub struct PatternByte {
    /// The byte this entry requires; ignored when `wildcard` holds.
    pub value: u8,
    /// True when any byte is accepted at this position.
    pub wildcard: bool,
}

/// An ordered byte pattern with wildcard positions, fixed per watched field.
pub struct Pattern {
    /// The entries, in the order they must appear in memory.
    pub entries: Vec<PatternByte>,
}

/// The pattern matches the bytes of `data` starting at position `at`.
pub open spec fn bytes_match_at(data: Seq<u8>, pat: Seq<PatternByte>, at: int) -> bool {
    &&& 0 <= at
    &&& at + pat.len() <= data.len()
    &&& forall|j: int| 0 <= j < pat.len() ==> pat[j].wildcard || data[at + j] == pat[j].value
}

/// The pattern matches somewhere in `data`.
pub open spec fn has_match(data: Seq<u8>, pat: Seq<PatternByte>) -> bool {
    exists|i: int| bytes_match_at(data, pat, i)
}

/// One scannable segment of the attached process's address space, as read on
/// this resolution attempt. `bytes` is `None` when the segment was unreadable;
/// such a segment is skipped, never an error.
pub struct Region {
    /// The address the segment starts at.
    pub base: u64,
    /// A snapshot of the segment's bytes, or `None` if reading it failed.
    pub bytes: Option<Vec<u8>>,
}

/// A readable region in which the pattern matches somewhere.
pub open spec fn region_has_match(r: Region, pat: Seq<PatternByte>) -> bool {
    r.bytes matches Some(b) && has_match(b@, pat)
}

/// Find the first position of `data` where the whole pattern matches.
pub fn scan_bytes(data: &Vec<u8>, pat: &Pattern) -> (r: Option<usize>)
    ensures
        match r {
            Some(i) => bytes_match_at(data@, pat.entries@, i as int) && forall|i2: int|
                0 <= i2 < i ==> !bytes_match_at(data@, pat.entries@, i2),
            None => !has_match(data@, pat.entries@),
        },
{
    let d_len = data.len();
    let p_len = pat.entries.len();
    if p_len > d_len {
        return None;
    }
    if p_len == 0 {
        return Some(0);
    }
    let mut i: usize = 0;
    while i <= d_len - p_len
        invariant
            0 <= i <= d_len - p_len + 1,
            1 <= p_len <= d_len,
            d_len == data@.len(),
            p_len == pat.entries@.len(),
            forall|k: int| 0 <= k < i ==> !bytes_match_at(data@, pat.entries@, k),
        decreases d_len - i,
    {
        let mut j: usize = 0;
        let mut mismatch = false;
        while j < p_len
            invariant
                0 <= j <= p_len,
                i + p_len <= d_len,
                d_len == data@.len(),
                p_len == pat.entries@.len(),
                !mismatch ==> forall|t: int|
                    0 <= t < j ==> pat.entries@[t].wildcard || data@[i + t] == pat.entries@[t].value,
                mismatch ==> !bytes_match_at(data@, pat.entries@, i as int),
            decreases p_len - j,
        {
            let entry = pat.entries[j];
            if !entry.wildcard && data[i + j] != entry.value {
                mismatch = true;
                j = p_len;
            } else {
                j += 1;
            }
        }
        if !mismatch {
            return Some(i);
        }
        i += 1;
    }
    proof {
        assert forall|k: int| !bytes_match_at(data@, pat.entries@, k) by {
            if 0 <= k && k + pat.entries@.len() <= data@.len() {
                assert(k < i);
            }
        }
    }
    None
}

/// Scan the regions in the order given and return the region index and offset
/// of the first full match, skipping unreadable regions. `None` is a normal
/// outcome: no region held the pattern.
pub fn scan_regions(regions: &Vec<Region>, pat: &Pattern) -> (r: Option<(usize, usize)>)
    ensures
        match r {
            Some(ki) => {
                &&& (ki.0 as int) < regions@.len()
                &&& regions@[ki.0 as int].bytes matches Some(b) && bytes_match_at(
                    b@,
                    pat.entries@,
                    ki.1 as int,
                ) && forall|i2: int| 0 <= i2 < ki.1 ==> !bytes_match_at(b@, pat.entries@, i2)
                &&& forall|k2: int| 0 <= k2 < ki.0 ==> !region_has_match(regions@[k2], pat.entries@)
            },
            None => forall|k2: int|
                0 <= k2 < regions@.len() ==> !region_has_match(regions@[k2], pat.entries@),
        },
{
    let mut k: usize = 0;
    let n = regions.len();
    while k < n
        invariant
            0 <= k <= n,
            n == regions@.len(),
            forall|k2: int| 0 <= k2 < k ==> !region_has_match(regions@[k2], pat.entries@),
        decreases n - k,
    {
        match &regions[k].bytes {
            Some(data) => {
                match scan_bytes(data, pat) {
                    Some(i) => {
                        return Some((k, i));
                    },
                    None => {},
                }
            },
            None => {},
        }
        k += 1;
    }
    None
}

} // verus!
