//! Substring scanning over character sequences.
//!
//! The compositor event stream and the session environment values are
//! both interpreted by substring containment alone, so this module is
//! the common ground of the watcher and the session detector.

use vstd::prelude::*;
use vstd::string::StrSliceExecFns;

verus! {

/// The needle occurs in the haystack starting at position `i`.
pub open spec fn spec_match_at(haystack: Seq<char>, needle: Seq<char>, i: int) -> bool {
    0 <= i && i + needle.len() <= haystack.len() && haystack.subrange(
        i,
        i + needle.len(),
    ) == needle
}

/// The needle occurs somewhere in the haystack.
pub open spec fn spec_contains(haystack: Seq<char>, needle: Seq<char>) -> bool {
    exists|i: int| spec_match_at(haystack, needle, i)
}

/// Compares the needle against the haystack at one position.
fn match_at(haystack: &str, needle: &str, i: usize, h_len: usize, n_len: usize) -> (r: bool)
    requires
        h_len == haystack@.len(),
        n_len == needle@.len(),
        i + n_len <= h_len,
    ensures
        r == spec_match_at(haystack@, needle@, i as int),
{
    let mut k: usize = 0;
    while k < n_len
        invariant
            h_len == haystack@.len(),
            n_len == needle@.len(),
            i + n_len <= h_len,
            k <= n_len,
            forall|l: int| 0 <= l < k ==> haystack@[i + l] == needle@[l],
        decreases n_len - k,
    {
        if haystack.get_char(i + k) != needle.get_char(k) {
            assert(haystack@.subrange(i as int, i + needle@.len())[k as int] == haystack@[i + k]);
            return false;
        }
        k = k + 1;
    }
    assert(haystack@.subrange(i as int, i + needle@.len()) =~= needle@);
    true
}

/// Whether `needle` occurs in `haystack` as a contiguous run of characters.
pub fn str_contains(haystack: &str, needle: &str) -> (r: bool)
    ensures
        r == spec_contains(haystack@, needle@),
{
    let h_len = haystack.unicode_len();
    let n_len = needle.unicode_len();
    if n_len > h_len {
        assert(forall|i: int| !spec_match_at(haystack@, needle@, i));
        return false;
    }
    if n_len == 0 {
        assert(haystack@.subrange(0, 0) =~= needle@);
        assert(spec_match_at(haystack@, needle@, 0));
        return true;
    }
    let end = h_len - n_len;
    let mut i: usize = 0;
    while i <= end
        invariant
            h_len == haystack@.len(),
            n_len == needle@.len(),
            1 <= n_len <= h_len,
            end == h_len - n_len,
            i <= end + 1,
            forall|j: int| 0 <= j < i ==> !spec_match_at(haystack@, needle@, j),
        decreases end + 1 - i,
    {
        if match_at(haystack, needle, i, h_len, n_len) {
            return true;
        }
        i = i + 1;
    }
    assert(forall|j: int| !spec_match_at(haystack@, needle@, j));
    false
}

} // verus!
