//! Core of a secure messaging client for an anonymous store-and-forward
//! transport: hybrid public-key encryption, challenge-response
//! authentication, and the envelope protocol that multiplexes every flow
//! over a single inbound stream.

use vstd::prelude::*;

pub mod crypto;
pub mod envelope;
pub mod hexfmt;
pub mod jsontext;
pub mod screen;
pub mod session;
mod textutil;

verus! {

/// Failure of a cryptographic operation.
#[derive(Debug, Clone, Copy, PartialEq, Eq, Structural)]
pub enum CryptoError {
    /// An underlying primitive (key generation, signing, key agreement)
    /// failed.
    Primitive,
    /// A payload field could not be decoded (hex, base64, or key material).
    Malformed,
    /// Authenticated decryption rejected the ciphertext.
    AuthenticationFailure,
}

} // verus!
