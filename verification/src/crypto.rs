//! Segment decryption: AES-128 (CBC and ECB, PKCS#7 padding) and ChaCha20.
use vstd::prelude::*;

pub mod aes;
pub mod chacha20;

verus! {

/// Why a segment could not be decrypted.
#[derive(Debug, Clone, Copy, PartialEq, Eq, Structural)]
pub enum CryptoError {
    /// The key or the IV/nonce does not have the cipher's length.
    InvalidLength,
}

#[verifier::external_type_specification]
#[verifier::external_body]
pub struct ExInvalidLength(::chacha20::cipher::InvalidLength);

} // verus!
