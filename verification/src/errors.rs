//! Error taxonomy.
//!
//! Cryptographic failures are surfaced to the caller and never silently
//! treated as empty plaintext; routing failures produce an observable
//! failure envelope rather than a silent drop.

use vstd::prelude::*;

verus! {

/// A failure of a cryptographic operation.
#[derive(Clone, Copy, Debug, PartialEq, Eq, Structural)]
pub enum CryptoError {
    /// A peer public key did not decode to a valid point on the curve,
    /// or a private scalar was out of range.
    InvalidPeerKey,
    /// The authentication tag of a ciphertext did not verify.
    AuthenticationFailed,
    /// A ciphertext was shorter than the nonce it must start with.
    Truncated,
    /// The operating system's secure random source failed.
    RandomUnavailable,
}

/// A failure of a client-side protocol operation.
#[derive(Clone, Copy, Debug, PartialEq, Eq, Structural)]
pub enum ClientError {
    /// No session key has been derived for that peer yet.
    HandshakeIncomplete,
    /// A relayed message was not valid base64.
    BadEncoding,
    /// Decryption failed; the inner error says how.
    Crypto(CryptoError),
}

/// A failure of the relay itself (as opposed to a routing failure, which is
/// reported to the requesting client in a failure envelope).
#[derive(Clone, Copy, Debug, PartialEq, Eq, Structural)]
pub enum RelayError {
    /// Every connection identity has been handed out.
    IdsExhausted,
}

impl CryptoError {
    /// A short human-readable description.
    pub fn describe(&self) -> (r: &'static str)
    {
        match self {
            CryptoError::InvalidPeerKey => "invalid peer key",
            CryptoError::AuthenticationFailed => "authentication failed",
            CryptoError::Truncated => "ciphertext shorter than nonce",
            CryptoError::RandomUnavailable => "secure random source unavailable",
        }
    }
}

} // verus!
