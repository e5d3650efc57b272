use vstd::prelude::*;

verus! {

/// Every way in which an operation of the engine can fail.
#[derive(Debug, Clone, Copy, PartialEq, Eq, Structural)]
pub enum TextError {
    /// A key (or a signing seed) does not have the length its algorithm needs.
    InvalidKeyLength,
    /// A verifying key does not decode to a point of the curve.
    InvalidKeyEncoding,
    /// A nonce does not have the length the cipher needs.
    InvalidNonceLength,
    /// A signature does not have the length its algorithm produces.
    InvalidSignatureEncoding,
    /// An authenticated ciphertext failed its tag check.
    AuthenticationFailure,
    /// The format does not offer the requested operation.
    UnsupportedOperation,
}

} // verus!
