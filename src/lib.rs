//! A small multi-algorithm engine for signing, verifying, encrypting and
//! decrypting byte strings, together with key generation, base64 text, and
//! a password generator.
//!
//! Three algorithm families sit behind one set of entry points in [`text`]:
//! keyed BLAKE3 (sign, verify), Ed25519 (sign, verify) and ChaCha20-Poly1305
//! (encrypt, decrypt); each of them also generates fresh key material.

pub mod aead;
pub mod encoding;
pub mod error;
pub mod format;
pub mod genpass;
pub mod keyed_hash;
pub mod keys;
pub mod opts;
pub mod primitives;
pub mod signature;
pub mod text;

pub use aead::ChaCha20Poly1305cryptor;
pub use encoding::{process_decode, process_encode};
pub use error::TextError;
pub use format::{same_text, Base64Format, OutputFormat, TextSignFormat};
pub use genpass::{process as process_genpass, Generator};
pub use keyed_hash::{constant_time_eq, Blake3};
pub use keys::KeyArtifact;
pub use opts::{
    Base64DecodeOpts, Base64EncodeOpts, Base64Opts, Base64SubCommand, CsvOpts, GenpassOpts,
    TextDecryptOpts, TextEncryptOpts, TextKeyGenerateOpts, TextOpts, TextSignOpts,
    TextSubCommand, TextVerifyOpts,
};
pub use signature::{Ed25519Signer, Ed25519Verifier};
pub use text::{
    generate_from, lemma_generated_pair_verifies, lemma_keyed_hash_cannot_encrypt,
    lemma_keyed_hash_short_key, lemma_keyed_hash_sign_then_verify, lemma_short_nonce,
    process_decrypt, process_encrypt, process_generate, process_sign, process_verify,
};
