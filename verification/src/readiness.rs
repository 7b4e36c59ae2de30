//! Readiness detection: a line of subprocess output proves the server is
//! ready exactly when it contains the configured marker as a contiguous,
//! case-sensitive byte sequence.

use vstd::prelude::*;

verus! {

/// `marker` occurs in `line` starting at index `i`.
pub open spec fn occurs_at(line: Seq<u8>, marker: Seq<u8>, i: int) -> bool {
    0 <= i && i + marker.len() <= line.len()
        && line.subrange(i, i + marker.len()) == marker
}

/// `line` contains `marker` as a contiguous subsequence.
pub open spec fn contains_marker(line: Seq<u8>, marker: Seq<u8>) -> bool {
    exists|i: int| occurs_at(line, marker, i)
}

/// `marker` matches `line` at position `i`, byte for byte.
fn matches_at(line: &Vec<u8>, marker: &Vec<u8>, i: usize) -> (r: bool)
    requires
        i + marker@.len() <= line@.len(),
    ensures
        r == occurs_at(line@, marker@, i as int),
{
    let n = line.len();
    let m = marker.len();
    let mut j: usize = 0;
    while j < m
        invariant
            n == line@.len(),
            m == marker@.len(),
            i + m <= n,
            j <= m,
            forall|k: int| 0 <= k < j ==> line@[i + k] == marker@[k],
        decreases m - j,
    {
        if line[i + j] != marker[j] {
            proof {
                assert(line@.subrange(i as int, i + marker@.len())[j as int]
                    == line@[i + j]);
            }
            return false;
        }
        j += 1;
    }
    proof {
        assert(line@.subrange(i as int, i + marker@.len()) =~= marker@);
    }
    true
}

/// A line of server output signals readiness exactly when it contains the
/// marker; there is no partial or case-insensitive matching.
pub fn line_is_ready(line: &Vec<u8>, marker: &Vec<u8>) -> (r: bool)
    ensures
        r == contains_marker(line@, marker@),
{
    let n = line.len();
    let m = marker.len();
    if m == 0 {
        proof {
            assert(line@.subrange(0, 0) =~= marker@);
            assert(occurs_at(line@, marker@, 0));
        }
        return true;
    }
    if m > n {
        return false;
    }
    let last = n - m;
    let mut i: usize = 0;
    while i <= last
        invariant
            n == line@.len(),
            m == marker@.len(),
            1 <= m <= n,
            last == n - m,
            i <= last + 1,
            forall|k: int| 0 <= k < i ==> !occurs_at(line@, marker@, k),
        decreases last + 1 - i,
    {
        if matches_at(line, marker, i) {
            return true;
        }
        i += 1;
    }
    false
}

} // verus!
