//! Byte strings as the operating system sees them.
//!
//! Paths, arguments and environment entries travel to the child process as
//! null-terminated byte strings, so a value is acceptable only when it has
//! no interior null byte: an embedded null would silently truncate the
//! value, and a confinement policy that matches on raw bytes would then
//! see a different string than the caller supplied.

use vstd::prelude::*;

verus! {

/// A byte string is null-free when no byte of it is zero.
pub open spec fn nul_free(s: Seq<u8>) -> bool {
    forall|i: int| 0 <= i < s.len() ==> s[i] != 0u8
}

/// Every byte string of a sequence is null-free.
pub open spec fn all_nul_free(s: Seq<Seq<u8>>) -> bool {
    forall|i: int| 0 <= i < s.len() ==> nul_free(#[trigger] s[i])
}

/// The mathematical views of a list of byte strings.
pub open spec fn views_of(s: Seq<Vec<u8>>) -> Seq<Seq<u8>> {
    s.map_values(|v: Vec<u8>| v@)
}

/// The mathematical views of a list of key/value byte-string pairs.
pub open spec fn pair_views_of(s: Seq<(Vec<u8>, Vec<u8>)>) -> Seq<(Seq<u8>, Seq<u8>)> {
    s.map_values(|p: (Vec<u8>, Vec<u8>)| (p.0@, p.1@))
}

/// Decides whether a byte string is free of interior null bytes.
pub fn check_nul_free(b: &Vec<u8>) -> (r: bool)
    ensures
        r == nul_free(b@),
{
    let mut i: usize = 0;
    while i < b.len()
        invariant
            i <= b.len(),
            forall|j: int| 0 <= j < i ==> b@[j] != 0u8,
        decreases b.len() - i,
    {
        if b[i] == 0 {
            return false;
        }
        i += 1;
    }
    true
}

/// Byte-for-byte equality of two byte strings.
pub fn bytes_eq(a: &Vec<u8>, b: &Vec<u8>) -> (r: bool)
    ensures
        r == (a@ == b@),
{
    if a.len() != b.len() {
        return false;
    }
    let mut i: usize = 0;
    while i < a.len()
        invariant
            a@.len() == b@.len(),
            i <= a.len(),
            forall|j: int| 0 <= j < i ==> a@[j] == b@[j],
        decreases a.len() - i,
    {
        if a[i] != b[i] {
            return false;
        }
        i += 1;
    }
    proof {
        assert(a@ =~= b@);
    }
    true
}

} // verus!
