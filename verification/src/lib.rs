//! End-to-end encrypted messaging over an untrusted relay.
//!
//! Clients establish pairwise session keys with ECDH (NIST P-256) and
//! HKDF-SHA-256, and exchange AES-256-GCM ciphertexts through a relay that
//! routes envelopes by connection identity without ever seeing plaintext.
//!
//! The crate is organised leaf-first:
//! - [`errors`]: the error taxonomy shared by all components;
//! - [`util`]: verified byte-vector helpers;
//! - [`cipher`]: authenticated encryption with a fresh random nonce per call;
//! - [`exchange`]: key generation, Diffie-Hellman, and key derivation;
//! - [`crypto`]: a facade bundling a key pair with its derived shared secret;
//! - [`session`]: the client's cache of one session key per peer;
//! - [`envelope`]: the frame schema the relay and clients exchange;
//! - [`registry`]: the relay's identity, name and key records;
//! - [`relay`]: the per-connection state machine and message router;
//! - [`client`]: the client-side protocol decisions.

pub mod cipher;
pub mod client;
pub mod crypto;
pub mod envelope;
pub mod errors;
pub mod exchange;
pub mod registry;
pub mod relay;
pub mod session;
pub mod util;
