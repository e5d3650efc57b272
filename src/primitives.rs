//! The calls into the cryptographic and random-number crates.
//!
//! Each function here is trusted: its body makes one call into an outside
//! crate and its contract says what that crate guarantees. Results that are
//! a function of the arguments alone but take pages to define (a digest, a
//! signature, a ciphertext) are named by a spec function without a body.

use base64::engine::general_purpose::{STANDARD, URL_SAFE, URL_SAFE_NO_PAD};
use base64::Engine;
use chacha20poly1305::aead::{Aead, AeadCore, KeyInit};
use chacha20poly1305::{ChaCha20Poly1305, Key, Nonce};
use ed25519::signature::{Signer, Verifier};
use ed25519_dalek::{Signature, SigningKey, VerifyingKey};
use rand::seq::SliceRandom;
use rand::RngCore;
use crate::format::Base64Format;
use vstd::prelude::*;

verus! {

/// The keyed BLAKE3 digest of `data` under the 32-byte `key`.
pub uninterp spec fn blake3_keyed(key: Seq<u8>, data: Seq<u8>) -> Seq<u8>;

/// The Ed25519 signature of `data` under the signing key derived from `seed`.
pub uninterp spec fn ed25519_signature(seed: Seq<u8>, data: Seq<u8>) -> Seq<u8>;

/// The encoded verifying key that belongs to the signing key derived from `seed`.
pub uninterp spec fn ed25519_public(seed: Seq<u8>) -> Seq<u8>;

/// Whether 32 bytes decode to a point of the curve, that is, to a verifying key.
pub uninterp spec fn ed25519_point(key: Seq<u8>) -> bool;

/// Whether the verifying key `key` accepts `sig` as a signature of `data`.
pub uninterp spec fn ed25519_accepts(key: Seq<u8>, data: Seq<u8>, sig: Seq<u8>) -> bool;

/// The ChaCha20-Poly1305 ciphertext of `data` (no associated data), tag appended.
pub uninterp spec fn chacha_seal(key: Seq<u8>, nonce: Seq<u8>, data: Seq<u8>) -> Seq<u8>;

/// The plaintext that a ChaCha20-Poly1305 ciphertext opens to, or `None` when
/// its tag does not check under `key` and `nonce`.
pub uninterp spec fn chacha_open(key: Seq<u8>, nonce: Seq<u8>, ct: Seq<u8>) -> Option<Seq<u8>>;

/// The base64 text of `data` in the alphabet and padding of `format`.
pub uninterp spec fn base64_encoded(format: Base64Format, data: Seq<u8>) -> Seq<char>;

/// The bytes that a base64 text in `format` stands for, or `None` when it is
/// not a valid text of that format.
pub uninterp spec fn base64_decoded(format: Base64Format, text: Seq<char>) -> Option<Seq<u8>>;

/// The length of the base64 text of `n` bytes: four characters per three
/// bytes, the last group padded to four unless the format has no padding.
pub open spec fn base64_len(format: Base64Format, n: nat) -> nat {
    let tail: nat = if n % 3 == 0 {
        0
    } else if format == Base64Format::NoPadding {
        n % 3 + 1
    } else {
        4
    };
    4 * (n / 3) + tail
}

/// The length from which base64 refuses an input: the length of its output
/// would overflow.
pub const BASE64_MAX_INPUT: usize = usize::MAX / 4 * 3;

/// The lower-case form of a text, character by character.
pub uninterp spec fn lower_of(s: Seq<char>) -> Seq<char>;

/// `sig` is a 64-byte signature of `data` that the verifying key `key` accepts.
pub open spec fn signed_and_accepted(key: Seq<u8>, data: Seq<u8>, sig: Seq<u8>) -> bool {
    sig.len() == 64 && ed25519_accepts(key, data, sig)
}

/// The length below which ChaCha20-Poly1305 accepts a plaintext: its block
/// counter is 32 bits wide and counts 64-byte blocks.
pub const CHACHA_MAX_INPUT: u64 = 274877906880;

/// Relies on `blake3::keyed_hash`: the 32-byte keyed digest of the input,
/// which depends on key and input alone.
#[verifier::external_body]
pub(crate) fn keyed_hash(key: &[u8; 32], data: &[u8]) -> (r: [u8; 32])
    ensures
        r@ == blake3_keyed(key@, data@),
{
    *blake3::keyed_hash(key, data).as_bytes()
}

/// Relies on `Signer::sign` of ed25519-dalek's `SigningKey`, built from the
/// seed by `SigningKey::from_bytes`: Ed25519 signatures are deterministic.
#[verifier::external_body]
pub(crate) fn ed25519_sign(seed: &[u8; 32], data: &[u8]) -> (r: [u8; 64])
    ensures
        r@ == ed25519_signature(seed@, data@),
{
    SigningKey::from_bytes(seed).sign(data).to_bytes()
}

/// Relies on `SigningKey::verifying_key` of ed25519-dalek: the verifying key
/// of a seed is a valid encoded point, and it accepts every signature that
/// the signing key of that seed makes, each of them 64 bytes long.
#[verifier::external_body]
pub(crate) fn ed25519_public_key(seed: &[u8; 32]) -> (r: [u8; 32])
    ensures
        r@ == ed25519_public(seed@),
        ed25519_point(r@),
        forall|d: Seq<u8>|
            #![trigger ed25519_signature(seed@, d)]
            signed_and_accepted(r@, d, ed25519_signature(seed@, d)),
{
    SigningKey::from_bytes(seed).verifying_key().to_bytes()
}

/// Relies on `VerifyingKey::from_bytes` of ed25519-dalek: whether the bytes
/// decompress to a curve point depends on the bytes alone.
#[verifier::external_body]
pub(crate) fn ed25519_decodes(key: &[u8; 32]) -> (r: bool)
    ensures
        r == ed25519_point(key@),
{
    VerifyingKey::from_bytes(key).is_ok()
}

/// Relies on `Verifier::verify` of ed25519-dalek's `VerifyingKey`; the key
/// is decoded by `VerifyingKey::from_bytes`, which succeeds on a valid point,
/// and the signature is read by `Signature::from_bytes`, which takes any 64
/// bytes.
#[verifier::external_body]
pub(crate) fn ed25519_check(key: &[u8; 32], data: &[u8], sig: &[u8; 64]) -> (r: bool)
    requires
        ed25519_point(key@),
    ensures
        r == ed25519_accepts(key@, data@, sig@),
{
    match VerifyingKey::from_bytes(key) {
        Ok(k) => k.verify(data, &Signature::from_bytes(sig)).is_ok(),
        Err(_) => false,
    }
}

/// Relies on `SigningKey::generate` of ed25519-dalek with rand's `OsRng`:
/// a fresh seed from the operating system's secure generator.
#[verifier::external_body]
pub(crate) fn ed25519_random_seed() -> (r: [u8; 32]) {
    SigningKey::generate(&mut rand::rngs::OsRng).to_bytes()
}

/// Relies on `RngCore::fill_bytes` of rand's `OsRng`: 32 bytes from the
/// operating system's secure generator.
#[verifier::external_body]
pub(crate) fn random_secret() -> (r: [u8; 32]) {
    let mut secret = [0u8; 32];
    rand::rngs::OsRng.fill_bytes(&mut secret);
    secret
}

/// Relies on `Aead::encrypt` of `ChaCha20Poly1305` with no associated data:
/// it fails only on an input of `CHACHA_MAX_INPUT` bytes or more; otherwise
/// the ciphertext is the input's length plus a 16-byte tag, and `decrypt`
/// with the same key and nonce gives the input back.
#[verifier::external_body]
pub(crate) fn chacha_encrypt(key: &[u8; 32], nonce: &[u8; 12], data: &[u8]) -> (r: Option<Vec<u8>>)
    ensures
        data@.len() < CHACHA_MAX_INPUT ==> r is Some,
        r matches Some(c) ==> {
            &&& c@ == chacha_seal(key@, nonce@, data@)
            &&& c@.len() == data@.len() + 16
            &&& chacha_open(key@, nonce@, c@) == Some(data@)
        },
{
    ChaCha20Poly1305::new(Key::from_slice(key)).encrypt(Nonce::from_slice(nonce), data).ok()
}

/// Relies on `Aead::decrypt` of `ChaCha20Poly1305` with no associated data:
/// it returns the plaintext only when the tag checks, and the outcome
/// depends on key, nonce and ciphertext alone.
#[verifier::external_body]
pub(crate) fn chacha_decrypt(key: &[u8; 32], nonce: &[u8; 12], ct: &[u8]) -> (r: Option<Vec<u8>>)
    ensures
        r is None <==> chacha_open(key@, nonce@, ct@) is None,
        r matches Some(p) ==> chacha_open(key@, nonce@, ct@) == Some(p@),
{
    ChaCha20Poly1305::new(Key::from_slice(key)).decrypt(Nonce::from_slice(nonce), ct).ok()
}

/// Relies on `KeyInit::generate_key` of `ChaCha20Poly1305` with the
/// operating system's generator: a fresh 32-byte key.
#[verifier::external_body]
pub(crate) fn chacha_random_key() -> (r: [u8; 32]) {
    ChaCha20Poly1305::generate_key(&mut chacha20poly1305::aead::OsRng).into()
}

/// Relies on `AeadCore::generate_nonce` of `ChaCha20Poly1305` with the
/// operating system's generator: a fresh 12-byte nonce.
#[verifier::external_body]
pub(crate) fn chacha_random_nonce() -> (r: [u8; 12]) {
    ChaCha20Poly1305::generate_nonce(&mut chacha20poly1305::aead::OsRng).into()
}

/// Relies on `SliceRandom::choose` of rand with `thread_rng`: `None` for an
/// empty slice, otherwise one of its elements.
#[verifier::external_body]
pub(crate) fn choose_byte(chars: &[u8]) -> (r: Option<u8>)
    ensures
        r is None <==> chars@.len() == 0,
        r matches Some(c) ==> chars@.contains(c),
{
    chars.choose(&mut rand::thread_rng()).copied()
}

/// Relies on `SliceRandom::shuffle` of rand with `thread_rng`: the elements
/// are permuted in place.
#[verifier::external_body]
pub(crate) fn shuffle_bytes(v: &mut Vec<u8>)
    ensures
        final(v)@.to_multiset() == old(v)@.to_multiset(),
{
    v.shuffle(&mut rand::thread_rng())
}

/// Relies on `Engine::encode` of base64's `STANDARD` engine: the output
/// length is fixed by the input length, and `Engine::decode` of the same
/// engine gives the input back.
#[verifier::external_body]
pub(crate) fn encode_standard(data: &[u8]) -> (r: String)
    requires
        data@.len() < BASE64_MAX_INPUT,
    ensures
        r@ == base64_encoded(Base64Format::Standard, data@),
        r@.len() == base64_len(Base64Format::Standard, data@.len()),
        base64_decoded(Base64Format::Standard, r@) == Some(data@),
{
    STANDARD.encode(data)
}

/// Relies on `Engine::encode` of base64's `URL_SAFE` engine, as for
/// `encode_standard`.
#[verifier::external_body]
pub(crate) fn encode_url_safe(data: &[u8]) -> (r: String)
    requires
        data@.len() < BASE64_MAX_INPUT,
    ensures
        r@ == base64_encoded(Base64Format::UrlSafe, data@),
        r@.len() == base64_len(Base64Format::UrlSafe, data@.len()),
        base64_decoded(Base64Format::UrlSafe, r@) == Some(data@),
{
    URL_SAFE.encode(data)
}

/// Relies on `Engine::encode` of base64's `URL_SAFE_NO_PAD` engine, as for
/// `encode_standard`.
#[verifier::external_body]
pub(crate) fn encode_url_safe_no_pad(data: &[u8]) -> (r: String)
    requires
        data@.len() < BASE64_MAX_INPUT,
    ensures
        r@ == base64_encoded(Base64Format::NoPadding, data@),
        r@.len() == base64_len(Base64Format::NoPadding, data@.len()),
        base64_decoded(Base64Format::NoPadding, r@) == Some(data@),
{
    URL_SAFE_NO_PAD.encode(data)
}

/// Relies on `Engine::decode` of base64's `STANDARD` engine: the outcome
/// depends on the text alone.
#[verifier::external_body]
pub(crate) fn decode_standard(text: &str) -> (r: Option<Vec<u8>>)
    ensures
        r is None <==> base64_decoded(Base64Format::Standard, text@) is None,
        r matches Some(d) ==> base64_decoded(Base64Format::Standard, text@) == Some(d@),
{
    STANDARD.decode(text).ok()
}

/// Relies on `Engine::decode` of base64's `URL_SAFE` engine: the outcome
/// depends on the text alone.
#[verifier::external_body]
pub(crate) fn decode_url_safe(text: &str) -> (r: Option<Vec<u8>>)
    ensures
        r is None <==> base64_decoded(Base64Format::UrlSafe, text@) is None,
        r matches Some(d) ==> base64_decoded(Base64Format::UrlSafe, text@) == Some(d@),
{
    URL_SAFE.decode(text).ok()
}

/// Relies on `Engine::decode` of base64's `URL_SAFE_NO_PAD` engine: the
/// outcome depends on the text alone.
#[verifier::external_body]
pub(crate) fn decode_url_safe_no_pad(text: &str) -> (r: Option<Vec<u8>>)
    ensures
        r is None <==> base64_decoded(Base64Format::NoPadding, text@) is None,
        r matches Some(d) ==> base64_decoded(Base64Format::NoPadding, text@) == Some(d@),
{
    URL_SAFE_NO_PAD.decode(text).ok()
}

/// Relies on `str::to_lowercase`: the result depends on the text alone.
#[verifier::external_body]
pub(crate) fn lowercase(s: &str) -> (r: String)
    ensures
        r@ == lower_of(s@),
{
    s.to_lowercase()
}

} // verus!
