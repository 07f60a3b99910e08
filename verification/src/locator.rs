//! Pattern locator: exact substring search over a read-only code region,
//! used once at startup to find an integration point whose address varies
//! across host builds.

use vstd::prelude::*;

verus! {

/// The needle matches the haystack starting at offset `i`.
pub open spec fn matches_at(haystack: Seq<u8>, needle: Seq<u8>, i: int) -> bool {
    &&& 0 <= i
    &&& i + needle.len() <= haystack.len()
    &&& forall|j: int| 0 <= j < needle.len() ==> haystack[i + j] == needle[j]
}

/// Returns the lowest offset at which `needle` occurs in `haystack`,
/// or `None` when it occurs nowhere.  Callers must pass a nonempty
/// needle: a scan for an empty signature is meaningless.
pub fn find_subsequence(haystack: &[u8], needle: &[u8]) -> (r: Option<usize>)
    requires
        needle@.len() >= 1,
    ensures
        match r {
            Some(i) => matches_at(haystack@, needle@, i as int)
                && (forall|j: int| 0 <= j < i ==> !matches_at(haystack@, needle@, j)),
            None => forall|j: int| !matches_at(haystack@, needle@, j),
        },
{
    if needle.len() > haystack.len() {
        return None;
    }
    let mut i: usize = 0;
    while i <= haystack.len() - needle.len()
        invariant
            needle.len() <= haystack.len(),
            i <= haystack.len() - needle.len() + 1,
            forall|j: int| 0 <= j < i ==> !matches_at(haystack@, needle@, j),
        decreases haystack.len() - needle.len() + 1 - i,
    {
        let mut k: usize = 0;
        let mut mismatch: bool = false;
        while k < needle.len()
            invariant
                needle.len() <= haystack.len(),
                i + needle.len() <= haystack.len(),
                k <= needle.len(),
                !mismatch ==> forall|j: int| 0 <= j < k ==> haystack@[i + j] == needle@[j],
                mismatch ==> !matches_at(haystack@, needle@, i as int),
            decreases needle.len() - k,
        {
            if haystack[i + k] != needle[k] {
                mismatch = true;
                k = needle.len();
            } else {
                k = k + 1;
            }
        }
        if !mismatch {
            return Some(i);
        }
        i = i + 1;
    }
    None
}

/// Resolves the integration offset: the lowest occurrence of `signature`
/// in `region`, or `default` when the signature is absent (non-fatal; the
/// caller proceeds with a statically configured fallback).  The flag says
/// whether the scan succeeded.
pub fn resolve_offset(region: &[u8], signature: &[u8], default: usize) -> (r: (usize, bool))
    requires
        signature@.len() >= 1,
    ensures
        r.1 ==> matches_at(region@, signature@, r.0 as int)
            && (forall|j: int| 0 <= j < r.0 ==> !matches_at(region@, signature@, j)),
        !r.1 ==> r.0 == default && (forall|j: int| !matches_at(region@, signature@, j)),
{
    match find_subsequence(region, signature) {
        Some(offset) => (offset, true),
        None => (default, false),
    }
}

} // verus!
