//! ChaCha20-Poly1305: authenticated encryption under a 32-byte key and a
//! 12-byte nonce, with a 16-byte tag appended to the ciphertext.

use crate::error::TextError;
use crate::keys::{copy_12, copy_32, KeyArtifact};
use crate::primitives::{
    chacha_decrypt, chacha_encrypt, chacha_open, chacha_random_key, chacha_random_nonce,
    chacha_seal, CHACHA_MAX_INPUT,
};
use vstd::prelude::*;
use vstd::slice::slice_to_vec;

verus! {

/// The name under which a generated cipher key is handed out.
pub open spec fn chacha_key_name() -> Seq<char> {
    "chacha20poly1305.key"@
}

/// The name under which a generated nonce is handed out.
pub open spec fn chacha_nonce_name() -> Seq<char> {
    "chacha20poly1305.nonce"@
}

/// The length of the authentication tag that ends every ciphertext.
pub const TAG_LEN: usize = 16;

/// The outcome of decrypting `ct`: the plaintext when its tag checks.
pub open spec fn open_result(key: Seq<u8>, nonce: Seq<u8>, ct: Seq<u8>) -> Result<
    Seq<u8>,
    TextError,
> {
    match chacha_open(key, nonce, ct) {
        Some(p) => Ok(p),
        None => Err(TextError::AuthenticationFailure),
    }
}

/// A ChaCha20-Poly1305 cipher bound to one key and one nonce.
///
/// Nothing here stops a caller from encrypting two different plaintexts
/// under the same key and nonce; doing so gives up confidentiality, and
/// keeping each pair for one message is the caller's duty.
pub struct ChaCha20Poly1305cryptor {
    key: [u8; 32],
    nonce: [u8; 12],
}

impl ChaCha20Poly1305cryptor {
    /// The key.
    pub closed spec fn key(&self) -> Seq<u8> {
        self.key@
    }

    /// The nonce.
    pub closed spec fn nonce(&self) -> Seq<u8> {
        self.nonce@
    }

    /// Holds the given key and nonce.
    pub fn new(key: [u8; 32], nonce: [u8; 12]) -> (r: Self)
        ensures
            r.key() == key@,
            r.nonce() == nonce@,
    {
        Self { key, nonce }
    }

    /// Holds the given bytes as key and nonce when the key has 32 bytes and
    /// the nonce 12; the key is checked first.
    pub fn try_new(key: &[u8], nonce: &[u8]) -> (r: Result<Self, TextError>)
        ensures
            r matches Ok(c) ==> c.key() == key@ && c.nonce() == nonce@,
            key@.len() != 32 ==> r == Err::<Self, TextError>(TextError::InvalidKeyLength),
            key@.len() == 32 && nonce@.len() != 12 ==> r == Err::<Self, TextError>(
                TextError::InvalidNonceLength,
            ),
            key@.len() == 32 && nonce@.len() == 12 ==> r is Ok,
    {
        if key.len() != 32 {
            return Err(TextError::InvalidKeyLength);
        }
        if nonce.len() != 12 {
            return Err(TextError::InvalidNonceLength);
        }
        Ok(Self::new(copy_32(key), copy_12(nonce)))
    }

    /// Encrypts and authenticates all of `data` at once: the ciphertext is as
    /// long as `data` followed by the tag, and decrypting it gives `data`.
    pub fn encrypt(&self, data: &[u8]) -> (r: Vec<u8>)
        requires
            data@.len() < CHACHA_MAX_INPUT,
        ensures
            r@ == chacha_seal(self.key(), self.nonce(), data@),
            r@.len() == data@.len() + TAG_LEN,
            open_result(self.key(), self.nonce(), r@) == Ok::<Seq<u8>, TextError>(data@),
    {
        match chacha_encrypt(&self.key, &self.nonce, data) {
            Some(ct) => ct,
            // The cipher refuses only inputs at or over its limit, which the
            // precondition rules out.
            None => Vec::new(),
        }
    }

    /// Checks the tag of `ct` and only then gives back the plaintext; any
    /// mismatch of key, nonce or content is an authentication failure.
    pub fn decrypt(&self, ct: &[u8]) -> (r: Result<Vec<u8>, TextError>)
        ensures
            r matches Ok(p) ==> open_result(self.key(), self.nonce(), ct@) == Ok::<
                Seq<u8>,
                TextError,
            >(p@),
            r matches Err(e) ==> open_result(self.key(), self.nonce(), ct@) == Err::<
                Seq<u8>,
                TextError,
            >(e),
    {
        match chacha_decrypt(&self.key, &self.nonce, ct) {
            Some(p) => Ok(p),
            None => Err(TextError::AuthenticationFailure),
        }
    }

    /// The key set that hands out `key` and `nonce`, key first.
    pub fn key_set(key: [u8; 32], nonce: [u8; 12]) -> (r: Vec<KeyArtifact>)
        ensures
            r@.len() == 2,
            r@[0].name@ == chacha_key_name(),
            r@[0].bytes@ == key@,
            r@[1].name@ == chacha_nonce_name(),
            r@[1].bytes@ == nonce@,
    {
        let mut set: Vec<KeyArtifact> = Vec::new();
        set.push(KeyArtifact { name: "chacha20poly1305.key", bytes: slice_to_vec(key.as_slice()) });
        set.push(
            KeyArtifact { name: "chacha20poly1305.nonce", bytes: slice_to_vec(nonce.as_slice()) },
        );
        set
    }

    /// A fresh key and a fresh nonce, drawn independently from the operating
    /// system's secure generator.
    pub fn generate() -> (r: Vec<KeyArtifact>)
        ensures
            r@.len() == 2,
            r@[0].name@ == chacha_key_name(),
            r@[0].bytes@.len() == 32,
            r@[1].name@ == chacha_nonce_name(),
            r@[1].bytes@.len() == 12,
    {
        let key = chacha_random_key();
        let nonce = chacha_random_nonce();
        Self::key_set(key, nonce)
    }
}

} // verus!
