//! The dispatcher: one entry point per operation, routed by format to the
//! algorithm that offers it.
//!
//! Each entry point is stateless: its result depends on its arguments alone
//! (and, for `process_generate`, on the secure random source).

use crate::aead::{chacha_key_name, chacha_nonce_name, open_result, ChaCha20Poly1305cryptor};
use crate::error::TextError;
use crate::format::TextSignFormat;
use crate::keyed_hash::{blake3_key_name, Blake3};
use crate::keys::KeyArtifact;
use crate::primitives::{
    blake3_keyed, chacha_seal, ed25519_accepts, ed25519_point, ed25519_public, ed25519_signature,
    signed_and_accepted, CHACHA_MAX_INPUT,
};
use crate::signature::{
    ed25519_signing_name, ed25519_verifying_name, Ed25519Signer, Ed25519Verifier,
};
use vstd::prelude::*;

verus! {

/// A byte-vector result seen as a sequence of bytes.
pub open spec fn bytes_result(r: Result<Vec<u8>, TextError>) -> Result<Seq<u8>, TextError> {
    match r {
        Ok(v) => Ok(v@),
        Err(e) => Err(e),
    }
}

/// What signing `data` with `key` under `format` gives.
pub open spec fn sign_result(data: Seq<u8>, key: Seq<u8>, format: TextSignFormat) -> Result<
    Seq<u8>,
    TextError,
> {
    match format {
        TextSignFormat::Blake3 => if key.len() != 32 {
            Err(TextError::InvalidKeyLength)
        } else {
            Ok(blake3_keyed(key, data))
        },
        TextSignFormat::Ed25519 => if key.len() != 32 {
            Err(TextError::InvalidKeyLength)
        } else {
            Ok(ed25519_signature(key, data))
        },
        TextSignFormat::ChaCha20Poly1305 => Err(TextError::UnsupportedOperation),
    }
}

/// What verifying `sig` over `data` with `key` under `format` gives.
pub open spec fn verify_result(
    data: Seq<u8>,
    key: Seq<u8>,
    sig: Seq<u8>,
    format: TextSignFormat,
) -> Result<bool, TextError> {
    match format {
        TextSignFormat::Blake3 => if key.len() != 32 {
            Err(TextError::InvalidKeyLength)
        } else {
            Ok(blake3_keyed(key, data) == sig)
        },
        TextSignFormat::Ed25519 => if key.len() != 32 {
            Err(TextError::InvalidKeyLength)
        } else if !ed25519_point(key) {
            Err(TextError::InvalidKeyEncoding)
        } else if sig.len() != 64 {
            Err(TextError::InvalidSignatureEncoding)
        } else {
            Ok(ed25519_accepts(key, data, sig))
        },
        TextSignFormat::ChaCha20Poly1305 => Err(TextError::UnsupportedOperation),
    }
}

/// What encrypting `data` with `key` and `nonce` under `format` gives.
pub open spec fn encrypt_result(
    data: Seq<u8>,
    key: Seq<u8>,
    nonce: Seq<u8>,
    format: TextSignFormat,
) -> Result<Seq<u8>, TextError> {
    match format {
        TextSignFormat::ChaCha20Poly1305 => if key.len() != 32 {
            Err(TextError::InvalidKeyLength)
        } else if nonce.len() != 12 {
            Err(TextError::InvalidNonceLength)
        } else {
            Ok(chacha_seal(key, nonce, data))
        },
        _ => Err(TextError::UnsupportedOperation),
    }
}

/// What decrypting `ct` with `key` and `nonce` under `format` gives.
pub open spec fn decrypt_result(
    ct: Seq<u8>,
    key: Seq<u8>,
    nonce: Seq<u8>,
    format: TextSignFormat,
) -> Result<Seq<u8>, TextError> {
    match format {
        TextSignFormat::ChaCha20Poly1305 => if key.len() != 32 {
            Err(TextError::InvalidKeyLength)
        } else if nonce.len() != 12 {
            Err(TextError::InvalidNonceLength)
        } else {
            open_result(key, nonce, ct)
        },
        _ => Err(TextError::UnsupportedOperation),
    }
}

/// `set` is the key set that `format` makes from the random `secret` (a
/// seed, for Ed25519) and, for the cipher, the random `nonce`.
pub open spec fn key_set_from(
    format: TextSignFormat,
    secret: Seq<u8>,
    nonce: Seq<u8>,
    set: Seq<KeyArtifact>,
) -> bool {
    match format {
        TextSignFormat::Blake3 => {
            &&& set.len() == 1
            &&& set[0].name@ == blake3_key_name()
            &&& set[0].bytes@ == secret
        },
        TextSignFormat::Ed25519 => {
            &&& set.len() == 2
            &&& set[0].name@ == ed25519_signing_name()
            &&& set[0].bytes@ == secret
            &&& set[1].name@ == ed25519_verifying_name()
            &&& set[1].bytes@ == ed25519_public(secret)
        },
        TextSignFormat::ChaCha20Poly1305 => {
            &&& set.len() == 2
            &&& set[0].name@ == chacha_key_name()
            &&& set[0].bytes@ == secret
            &&& set[1].name@ == chacha_nonce_name()
            &&& set[1].bytes@ == nonce
        },
    }
}

/// `set` is a well-formed key set of `format`: the artifacts it names, in
/// order, with the lengths the format needs; for Ed25519 a verifying key
/// that decodes and accepts what the signing seed signs.
pub open spec fn is_key_set(format: TextSignFormat, set: Seq<KeyArtifact>) -> bool {
    match format {
        TextSignFormat::Blake3 => {
            &&& set.len() == 1
            &&& set[0].name@ == blake3_key_name()
            &&& set[0].bytes@.len() == 32
        },
        TextSignFormat::Ed25519 => {
            &&& set.len() == 2
            &&& set[0].name@ == ed25519_signing_name()
            &&& set[0].bytes@.len() == 32
            &&& set[1].name@ == ed25519_verifying_name()
            &&& set[1].bytes@.len() == 32
            &&& set[1].bytes@ == ed25519_public(set[0].bytes@)
            &&& ed25519_point(set[1].bytes@)
            &&& forall|d: Seq<u8>|
                #![trigger ed25519_signature(set[0].bytes@, d)]
                signed_and_accepted(set[1].bytes@, d, ed25519_signature(set[0].bytes@, d))
        },
        TextSignFormat::ChaCha20Poly1305 => {
            &&& set.len() == 2
            &&& set[0].name@ == chacha_key_name()
            &&& set[0].bytes@.len() == 32
            &&& set[1].name@ == chacha_nonce_name()
            &&& set[1].bytes@.len() == 12
        },
    }
}

/// Signs `data` with `key` under `format`: a 32-byte keyed digest for
/// Blake3, a 64-byte signature for Ed25519 (the key being the seed).
pub fn process_sign(data: &[u8], key: &[u8], format: TextSignFormat) -> (r: Result<
    Vec<u8>,
    TextError,
>)
    ensures
        bytes_result(r) == sign_result(data@, key@, format),
        r matches Ok(s) ==> s@.len() == if format == TextSignFormat::Blake3 {
            32int
        } else {
            64int
        },
{
    match format {
        TextSignFormat::Blake3 => match Blake3::try_new(key) {
            Ok(signer) => Ok(signer.sign(data)),
            Err(e) => Err(e),
        },
        TextSignFormat::Ed25519 => match Ed25519Signer::try_new(key) {
            Ok(signer) => Ok(signer.sign(data)),
            Err(e) => Err(e),
        },
        TextSignFormat::ChaCha20Poly1305 => Err(TextError::UnsupportedOperation),
    }
}

/// Checks `sig` over `data` with `key` under `format`. A signature that does
/// not verify gives `Ok(false)`; only malformed input is an error.
pub fn process_verify(data: &[u8], key: &[u8], sig: &[u8], format: TextSignFormat) -> (r: Result<
    bool,
    TextError,
>)
    ensures
        r == verify_result(data@, key@, sig@, format),
{
    match format {
        TextSignFormat::Blake3 => match Blake3::try_new(key) {
            Ok(verifier) => Ok(verifier.verify(data, sig)),
            Err(e) => Err(e),
        },
        TextSignFormat::Ed25519 => match Ed25519Verifier::try_new(key) {
            Ok(verifier) => verifier.verify(data, sig),
            Err(e) => Err(e),
        },
        TextSignFormat::ChaCha20Poly1305 => Err(TextError::UnsupportedOperation),
    }
}

/// The key set of `format` built from given random material: `secret` is
/// the keyed-hash secret, the signing seed or the cipher key; `nonce` is
/// used by the cipher only.
pub fn generate_from(format: TextSignFormat, secret: [u8; 32], nonce: [u8; 12]) -> (r: Vec<
    KeyArtifact,
>)
    ensures
        key_set_from(format, secret@, nonce@, r@),
        is_key_set(format, r@),
{
    match format {
        TextSignFormat::Blake3 => Blake3::key_set(secret),
        TextSignFormat::Ed25519 => Ed25519Signer::key_set(secret),
        TextSignFormat::ChaCha20Poly1305 => ChaCha20Poly1305cryptor::key_set(secret, nonce),
    }
}

/// Fresh key material for `format` from the operating system's secure
/// generator: one secret for Blake3, a signing seed and its verifying key
/// for Ed25519, a key and a nonce for the cipher.
pub fn process_generate(format: TextSignFormat) -> (r: Result<Vec<KeyArtifact>, TextError>)
    ensures
        r matches Ok(set) && is_key_set(format, set@),
{
    match format {
        TextSignFormat::Blake3 => Ok(Blake3::generate()),
        TextSignFormat::Ed25519 => Ok(Ed25519Signer::generate()),
        TextSignFormat::ChaCha20Poly1305 => Ok(ChaCha20Poly1305cryptor::generate()),
    }
}

/// Encrypts `data` with `key` and `nonce` under `format`. The ciphertext is
/// the plaintext's length plus a 16-byte tag, and decrypting it with the same
/// key and nonce gives `data` back.
pub fn process_encrypt(data: &[u8], key: &[u8], nonce: &[u8], format: TextSignFormat) -> (r: Result<
    Vec<u8>,
    TextError,
>)
    requires
        format == TextSignFormat::ChaCha20Poly1305 ==> data@.len() < CHACHA_MAX_INPUT,
    ensures
        bytes_result(r) == encrypt_result(data@, key@, nonce@, format),
        r matches Ok(c) ==> {
            &&& c@.len() == data@.len() + 16
            &&& decrypt_result(c@, key@, nonce@, format) == Ok::<Seq<u8>, TextError>(data@)
        },
{
    match format {
        TextSignFormat::ChaCha20Poly1305 => match ChaCha20Poly1305cryptor::try_new(key, nonce) {
            Ok(cipher) => Ok(cipher.encrypt(data)),
            Err(e) => Err(e),
        },
        _ => Err(TextError::UnsupportedOperation),
    }
}

/// Decrypts `ct` with `key` and `nonce` under `format`, releasing the
/// plaintext only when the tag checks.
pub fn process_decrypt(ct: &[u8], key: &[u8], nonce: &[u8], format: TextSignFormat) -> (r: Result<
    Vec<u8>,
    TextError,
>)
    ensures
        bytes_result(r) == decrypt_result(ct@, key@, nonce@, format),
{
    match format {
        TextSignFormat::ChaCha20Poly1305 => match ChaCha20Poly1305cryptor::try_new(key, nonce) {
            Ok(cipher) => cipher.decrypt(ct),
            Err(e) => Err(e),
        },
        _ => Err(TextError::UnsupportedOperation),
    }
}

/// Under Blake3, what a 32-byte key signs, the same key verifies: signing
/// succeeds, and checking that signature over the same data gives `true`.
pub proof fn lemma_keyed_hash_sign_then_verify(data: Seq<u8>, key: Seq<u8>)
    requires
        key.len() == 32,
    ensures
        sign_result(data, key, TextSignFormat::Blake3) matches Ok(sig) && verify_result(
            data,
            key,
            sig,
            TextSignFormat::Blake3,
        ) == Ok::<bool, TextError>(true),
{
}

/// Under Blake3 a key that is one byte short is refused, whatever the data.
pub proof fn lemma_keyed_hash_short_key(data: Seq<u8>, key: Seq<u8>)
    requires
        key.len() == 31,
    ensures
        sign_result(data, key, TextSignFormat::Blake3) == Err::<Seq<u8>, TextError>(
            TextError::InvalidKeyLength,
        ),
{
}

/// Encrypting with a valid key and an 11-byte nonce is refused for the
/// nonce's length, whatever the data.
pub proof fn lemma_short_nonce(data: Seq<u8>, key: Seq<u8>, nonce: Seq<u8>)
    requires
        key.len() == 32,
        nonce.len() == 11,
    ensures
        encrypt_result(data, key, nonce, TextSignFormat::ChaCha20Poly1305) == Err::<
            Seq<u8>,
            TextError,
        >(TextError::InvalidNonceLength),
{
}

/// A generated Ed25519 pair works together: whatever the data, signing it
/// with the generated seed succeeds, and the generated verifying key accepts
/// that signature.
pub proof fn lemma_generated_pair_verifies(set: Seq<KeyArtifact>, data: Seq<u8>)
    requires
        is_key_set(TextSignFormat::Ed25519, set),
    ensures
        sign_result(data, set[0].bytes@, TextSignFormat::Ed25519) matches Ok(sig)
            && verify_result(data, set[1].bytes@, sig, TextSignFormat::Ed25519) == Ok::<
            bool,
            TextError,
        >(true),
{
    assert(signed_and_accepted(set[1].bytes@, data, ed25519_signature(set[0].bytes@, data)));
}

/// Encryption is not an operation of Blake3: asking for it is refused, for
/// every key, nonce and data.
pub proof fn lemma_keyed_hash_cannot_encrypt(data: Seq<u8>, key: Seq<u8>, nonce: Seq<u8>)
    ensures
        encrypt_result(data, key, nonce, TextSignFormat::Blake3) == Err::<Seq<u8>, TextError>(
            TextError::UnsupportedOperation,
        ),
{
}

} // verus!
