//! Keyed BLAKE3: a 32-byte secret signs a byte string with its keyed digest.

use crate::error::TextError;
use crate::keys::{copy_32, KeyArtifact};
use crate::primitives::{blake3_keyed, keyed_hash, random_secret};
use vstd::prelude::*;
use vstd::slice::slice_to_vec;

verus! {

/// The name under which a generated keyed-hash secret is handed out.
pub open spec fn blake3_key_name() -> Seq<char> {
    "blake3.key"@
}

/// Compares two byte strings in time that depends on their lengths only:
/// every byte pair is looked at, whatever an earlier pair held, so the time
/// taken tells nothing about where two digests first differ.
pub fn constant_time_eq(a: &[u8], b: &[u8]) -> (r: bool)
    ensures
        r == (a@ == b@),
{
    if a.len() != b.len() {
        return false;
    }
    let mut diff: u8 = 0;
    let mut i: usize = 0;
    while i < a.len()
        invariant
            a@.len() == b@.len(),
            0 <= i <= a@.len(),
            (diff == 0) == (forall|j: int| 0 <= j < i ==> a@[j] == b@[j]),
        decreases a@.len() - i,
    {
        let x: u8 = a[i];
        let y: u8 = b[i];
        let d: u8 = x ^ y;
        assert((d == 0) == (x == y)) by (bit_vector)
            requires
                d == x ^ y,
        ;
        let next: u8 = diff | d;
        assert((next == 0) == (diff == 0 && d == 0)) by (bit_vector)
            requires
                next == diff | d,
        ;
        diff = next;
        i = i + 1;
    }
    proof {
        if diff == 0 {
            assert(a@ =~= b@);
        }
    }
    diff == 0
}

/// Keyed BLAKE3 under a 32-byte secret.
pub struct Blake3 {
    key: [u8; 32],
}

impl View for Blake3 {
    type V = Seq<u8>;

    /// The secret.
    closed spec fn view(&self) -> Seq<u8> {
        self.key@
    }
}

impl Blake3 {
    /// Holds the given secret.
    pub fn new(key: [u8; 32]) -> (r: Self)
        ensures
            r@ == key@,
    {
        Self { key }
    }

    /// Holds the given bytes as the secret when there are exactly 32 of them.
    pub fn try_new(key: &[u8]) -> (r: Result<Self, TextError>)
        ensures
            key@.len() == 32 <==> r is Ok,
            r matches Ok(b) ==> b@ == key@,
            r matches Err(e) ==> e == TextError::InvalidKeyLength,
    {
        if key.len() != 32 {
            return Err(TextError::InvalidKeyLength);
        }
        Ok(Self::new(copy_32(key)))
    }

    /// The keyed digest of `data`: 32 bytes.
    pub fn sign(&self, data: &[u8]) -> (r: Vec<u8>)
        ensures
            r@ == blake3_keyed(self@, data@),
            r@.len() == 32,
    {
        let digest = keyed_hash(&self.key, data);
        slice_to_vec(digest.as_slice())
    }

    /// Whether `sig` is the keyed digest of `data`; a signature of another
    /// length is simply not it. The comparison takes the same time wherever
    /// the two differ.
    pub fn verify(&self, data: &[u8], sig: &[u8]) -> (r: bool)
        ensures
            r == (blake3_keyed(self@, data@) == sig@),
    {
        let digest = keyed_hash(&self.key, data);
        constant_time_eq(digest.as_slice(), sig)
    }

    /// The key set that hands out `secret` as a keyed-hash secret.
    pub fn key_set(secret: [u8; 32]) -> (r: Vec<KeyArtifact>)
        ensures
            r@.len() == 1,
            r@[0].name@ == blake3_key_name(),
            r@[0].bytes@ == secret@,
    {
        let mut set: Vec<KeyArtifact> = Vec::new();
        set.push(KeyArtifact { name: "blake3.key", bytes: slice_to_vec(secret.as_slice()) });
        set
    }

    /// A fresh 32-byte secret from the operating system's secure generator.
    pub fn generate() -> (r: Vec<KeyArtifact>)
        ensures
            r@.len() == 1,
            r@[0].name@ == blake3_key_name(),
            r@[0].bytes@.len() == 32,
    {
        Self::key_set(random_secret())
    }
}

} // verus!
