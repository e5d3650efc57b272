//! Ed25519 signatures: a 32-byte seed signs, the 32-byte encoded point of its
//! verifying key checks.

use crate::error::TextError;
use crate::keys::{copy_32, copy_64, KeyArtifact};
use crate::primitives::{
    ed25519_accepts, ed25519_check, ed25519_decodes, ed25519_point, ed25519_public,
    ed25519_public_key, ed25519_random_seed, ed25519_sign, ed25519_signature, signed_and_accepted,
};
use vstd::prelude::*;
use vstd::slice::slice_to_vec;

verus! {

/// The name under which a generated signing seed is handed out.
pub open spec fn ed25519_signing_name() -> Seq<char> {
    "ed25519.sk"@
}

/// The name under which a generated verifying key is handed out.
pub open spec fn ed25519_verifying_name() -> Seq<char> {
    "ed25519.pk"@
}

/// The length of an Ed25519 signature.
pub const SIGNATURE_LEN: usize = 64;

/// An Ed25519 signer, held as the 32-byte seed its signing key derives from.
pub struct Ed25519Signer {
    seed: [u8; 32],
}

impl View for Ed25519Signer {
    type V = Seq<u8>;

    /// The seed.
    closed spec fn view(&self) -> Seq<u8> {
        self.seed@
    }
}

impl Ed25519Signer {
    /// Holds the given seed.
    pub fn new(seed: [u8; 32]) -> (r: Self)
        ensures
            r@ == seed@,
    {
        Self { seed }
    }

    /// Holds the given bytes as the seed when there are exactly 32 of them.
    pub fn try_new(key: &[u8]) -> (r: Result<Self, TextError>)
        ensures
            key@.len() == 32 <==> r is Ok,
            r matches Ok(s) ==> s@ == key@,
            r matches Err(e) ==> e == TextError::InvalidKeyLength,
    {
        if key.len() != 32 {
            return Err(TextError::InvalidKeyLength);
        }
        Ok(Self::new(copy_32(key)))
    }

    /// The 64-byte signature of `data`.
    pub fn sign(&self, data: &[u8]) -> (r: Vec<u8>)
        ensures
            r@ == ed25519_signature(self@, data@),
            r@.len() == SIGNATURE_LEN,
    {
        let sig = ed25519_sign(&self.seed, data);
        slice_to_vec(sig.as_slice())
    }

    /// The key set that hands out `seed` and the verifying key derived from
    /// it, signing key first.
    pub fn key_set(seed: [u8; 32]) -> (r: Vec<KeyArtifact>)
        ensures
            r@.len() == 2,
            r@[0].name@ == ed25519_signing_name(),
            r@[0].bytes@ == seed@,
            r@[1].name@ == ed25519_verifying_name(),
            r@[1].bytes@ == ed25519_public(seed@),
            r@[1].bytes@.len() == 32,
            ed25519_point(r@[1].bytes@),
            forall|d: Seq<u8>|
                #![trigger ed25519_signature(seed@, d)]
                signed_and_accepted(r@[1].bytes@, d, ed25519_signature(seed@, d)),
    {
        let public = ed25519_public_key(&seed);
        let mut set: Vec<KeyArtifact> = Vec::new();
        set.push(KeyArtifact { name: "ed25519.sk", bytes: slice_to_vec(seed.as_slice()) });
        set.push(KeyArtifact { name: "ed25519.pk", bytes: slice_to_vec(public.as_slice()) });
        set
    }

    /// A fresh seed from the operating system's secure generator, and its
    /// verifying key.
    pub fn generate() -> (r: Vec<KeyArtifact>)
        ensures
            r@.len() == 2,
            r@[0].name@ == ed25519_signing_name(),
            r@[0].bytes@.len() == 32,
            r@[1].name@ == ed25519_verifying_name(),
            r@[1].bytes@ == ed25519_public(r@[0].bytes@),
            r@[1].bytes@.len() == 32,
            ed25519_point(r@[1].bytes@),
            forall|d: Seq<u8>|
                #![trigger ed25519_signature(r@[0].bytes@, d)]
                signed_and_accepted(r@[1].bytes@, d, ed25519_signature(r@[0].bytes@, d)),
    {
        Self::key_set(ed25519_random_seed())
    }
}

/// An Ed25519 verifier, held as the 32-byte encoding of a curve point.
pub struct Ed25519Verifier {
    key: [u8; 32],
}

impl View for Ed25519Verifier {
    type V = Seq<u8>;

    /// The encoded verifying key.
    closed spec fn view(&self) -> Seq<u8> {
        self.key@
    }
}

impl Ed25519Verifier {
    /// The held bytes always decode to a point.
    #[verifier::type_invariant]
    spec fn decodes(&self) -> bool {
        ed25519_point(self.key@)
    }

    /// Holds the given encoded point.
    pub fn new(key: [u8; 32]) -> (r: Self)
        requires
            ed25519_point(key@),
        ensures
            r@ == key@,
    {
        Self { key }
    }

    /// Holds the given bytes as a verifying key when there are exactly 32 of
    /// them and they decode to a point.
    pub fn try_new(key: &[u8]) -> (r: Result<Self, TextError>)
        ensures
            r matches Ok(v) ==> v@ == key@,
            key@.len() != 32 ==> r == Err::<Self, TextError>(TextError::InvalidKeyLength),
            key@.len() == 32 && !ed25519_point(key@) ==> r == Err::<Self, TextError>(
                TextError::InvalidKeyEncoding,
            ),
            key@.len() == 32 && ed25519_point(key@) ==> r is Ok,
    {
        if key.len() != 32 {
            return Err(TextError::InvalidKeyLength);
        }
        let bytes = copy_32(key);
        if !ed25519_decodes(&bytes) {
            return Err(TextError::InvalidKeyEncoding);
        }
        Ok(Self::new(bytes))
    }

    /// Whether `sig` is a valid signature of `data` under this key; a
    /// signature that is not 64 bytes long is malformed.
    pub fn verify(&self, data: &[u8], sig: &[u8]) -> (r: Result<bool, TextError>)
        ensures
            sig@.len() != SIGNATURE_LEN ==> r == Err::<bool, TextError>(
                TextError::InvalidSignatureEncoding,
            ),
            sig@.len() == SIGNATURE_LEN ==> r == Ok::<bool, TextError>(
                ed25519_accepts(self@, data@, sig@),
            ),
    {
        if sig.len() != SIGNATURE_LEN {
            return Err(TextError::InvalidSignatureEncoding);
        }
        proof {
            use_type_invariant(self);
        }
        let sig = copy_64(sig);
        Ok(ed25519_check(&self.key, data, &sig))
    }
}

} // verus!
