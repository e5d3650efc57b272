//! Key material: the artifacts that key generation hands out, and fixed-size
//! copies of raw key bytes.

use vstd::prelude::*;

verus! {

/// One named piece of generated key material.
pub struct KeyArtifact {
    /// The name the artifact is stored under.
    pub name: &'static str,
    /// Its content.
    pub bytes: Vec<u8>,
}

/// The 32 bytes of `s` as an array.
pub fn copy_32(s: &[u8]) -> (r: [u8; 32])
    requires
        s@.len() == 32,
    ensures
        r@ == s@,
{
    let mut r = [0u8; 32];
    let mut i: usize = 0;
    while i < 32
        invariant
            s@.len() == 32,
            0 <= i <= 32,
            forall|j: int| 0 <= j < i ==> r@[j] == s@[j],
        decreases 32 - i,
    {
        r[i] = s[i];
        i = i + 1;
    }
    assert(r@ =~= s@);
    r
}

/// The 12 bytes of `s` as an array.
pub fn copy_12(s: &[u8]) -> (r: [u8; 12])
    requires
        s@.len() == 12,
    ensures
        r@ == s@,
{
    let mut r = [0u8; 12];
    let mut i: usize = 0;
    while i < 12
        invariant
            s@.len() == 12,
            0 <= i <= 12,
            forall|j: int| 0 <= j < i ==> r@[j] == s@[j],
        decreases 12 - i,
    {
        r[i] = s[i];
        i = i + 1;
    }
    assert(r@ =~= s@);
    r
}

/// The 64 bytes of `s` as an array.
pub fn copy_64(s: &[u8]) -> (r: [u8; 64])
    requires
        s@.len() == 64,
    ensures
        r@ == s@,
{
    let mut r = [0u8; 64];
    let mut i: usize = 0;
    while i < 64
        invariant
            s@.len() == 64,
            0 <= i <= 64,
            forall|j: int| 0 <= j < i ==> r@[j] == s@[j],
        decreases 64 - i,
    {
        r[i] = s[i];
        i = i + 1;
    }
    assert(r@ =~= s@);
    r
}

} // verus!
