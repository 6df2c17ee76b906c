//! A facade bundling an ephemeral key pair with the most recently derived
//! Diffie-Hellman shared secret, mirroring the client's historical calling
//! convention: generate once, derive against a peer, read the secret back,
//! turn it into a symmetric key, then seal and open payloads with it.
//!
//! A shared secret is usable only after exactly one successful
//! `derive_session_key` call; reading it before that is ruled out by
//! contract, not silently tolerated.

use vstd::prelude::*;

use crate::cipher;
use crate::cipher::{SymmetricKey, MAX_PLAINTEXT_LEN, NONCE_LEN, TAG_LEN};
use crate::errors::CryptoError;
use crate::exchange;
use crate::exchange::{p256_accepts, public_of, shared_point, KeyPair, PUBLIC_LEN, SCALAR_LEN};
use crate::util::copy_bytes;

verus! {

/// An ephemeral key pair together with the shared secret most recently
/// derived from a peer's public key, if any.
pub struct Crypto {
    key_pair: KeyPair,
    shared_secret: Option<Vec<u8>>,
}

impl Crypto {
    /// The serialized public point of this instance's key pair.
    pub closed spec fn spec_public(&self) -> Seq<u8> {
        self.key_pair.spec_public()
    }

    /// The private scalar, visible to specifications only.
    pub closed spec fn spec_scalar(&self) -> Seq<u8> {
        self.key_pair.scalar()
    }

    /// Whether a shared secret has been derived.
    pub closed spec fn spec_has_secret(&self) -> bool {
        self.shared_secret is Some
    }

    /// The derived shared secret (meaningful only once derived).
    pub closed spec fn spec_secret(&self) -> Seq<u8> {
        match self.shared_secret {
            Some(s) => s@,
            None => Seq::empty(),
        }
    }

    /// A stored shared secret always holds exactly 32 bytes.
    #[verifier::type_invariant]
    spec fn inv(&self) -> bool {
        match self.shared_secret {
            Some(s) => s@.len() == SCALAR_LEN,
            None => true,
        }
    }

    /// Generate a new elliptic-curve key pair; the public key is the
    /// uncompressed SEC1 encoding of the pair's point, and no secret is
    /// derived yet. Fails only when the secure random source is unavailable.
    pub fn new() -> (r: Result<Crypto, CryptoError>)
        ensures
            r matches Ok(c) ==> {
                &&& !c.spec_has_secret()
                &&& c.spec_public() == public_of(c.spec_scalar())
                &&& c.spec_public().len() == PUBLIC_LEN
                &&& c.spec_public()[0] == 4u8
            },
            r matches Err(e) ==> e == CryptoError::RandomUnavailable,
    {
        match exchange::generate() {
            Ok(key_pair) => Ok(Crypto { key_pair, shared_secret: None }),
            Err(e) => Err(e),
        }
    }

    /// The public key for this instance: the uncompressed SEC1 encoding of
    /// the pair's point.
    pub fn public_key(&self) -> (r: &Vec<u8>)
        ensures
            r@ == self.spec_public(),
            r@ == public_of(self.spec_scalar()),
            r@.len() == PUBLIC_LEN,
            r@[0] == 4u8,
    {
        self.key_pair.public_key()
    }

    /// Derive and store the shared secret with the peer whose serialized
    /// public key is given; this succeeds exactly when p256 accepts the two
    /// encodings. Overwrites any previously derived secret. Fails fast with
    /// `InvalidPeerKey` on a malformed peer key, leaving the instance
    /// unchanged — it never falls back to a default secret.
    pub fn derive_session_key(&mut self, peer_public_key: &Vec<u8>) -> (r: Result<(), CryptoError>)
        ensures
            final(self).spec_public() == old(self).spec_public(),
            r is Ok <==> p256_accepts(old(self).spec_scalar(), peer_public_key@),
            r is Ok ==> {
                &&& final(self).spec_has_secret()
                &&& final(self).spec_secret() == shared_point(
                    old(self).spec_public(),
                    peer_public_key@,
                )
            },
            r matches Err(e) ==> e == CryptoError::InvalidPeerKey && *final(self) == *old(self),
    {
        proof {
            use_type_invariant(&*self);
        }
        match exchange::derive_shared(&self.key_pair, peer_public_key) {
            Ok(secret) => {
                self.shared_secret = Some(secret);
                Ok(())
            },
            Err(e) => Err(e),
        }
    }

    /// Whether a shared secret has been derived yet; callers must check this
    /// before asking for the secret.
    pub fn has_shared_secret(&self) -> (r: bool)
        ensures
            r == self.spec_has_secret(),
    {
        self.shared_secret.is_some()
    }

    /// The derived shared secret, for storage keyed by peer identity.
    /// Reading it before a successful `derive_session_key` is a programming
    /// error, excluded by contract.
    pub fn get_shared_secret(&self) -> (r: Vec<u8>)
        requires
            self.spec_has_secret(),
        ensures
            r@ == self.spec_secret(),
            r@.len() == SCALAR_LEN,
    {
        proof {
            use_type_invariant(self);
        }
        match &self.shared_secret {
            Some(s) => copy_bytes(s),
            None => {
                assert(false);
                Vec::new()
            },
        }
    }

    /// The symmetric session key for a shared secret, derived with
    /// HKDF-SHA-256 under the fixed protocol salt.
    pub fn create_symmetric_key(shared_secret: &Vec<u8>) -> (r: SymmetricKey)
        ensures
            r@ == exchange::session_key_of(shared_secret@),
            r.wf(),
    {
        exchange::derive_symmetric_key(shared_secret)
    }

    /// Seal a plaintext under a symmetric key with a fresh random nonce; the
    /// nonce is prepended to the returned ciphertext.
    pub fn encrypt_with_key(key: &SymmetricKey, plaintext: &Vec<u8>) -> (r: Result<
        Vec<u8>,
        CryptoError,
    >)
        requires
            key.wf(),
            plaintext@.len() <= MAX_PLAINTEXT_LEN,
        ensures
            r matches Ok(c) ==> {
                &&& c@.len() == NONCE_LEN + plaintext@.len() + TAG_LEN
                &&& cipher::open_spec(key@, c@) == Ok::<Seq<u8>, CryptoError>(plaintext@)
            },
            r matches Err(e) ==> e == CryptoError::RandomUnavailable,
    {
        cipher::seal(key, plaintext)
    }

    /// Open a ciphertext (nonce-prefixed) under a symmetric key, failing
    /// closed on truncation or tag mismatch.
    pub fn decrypt_with_key(key: &SymmetricKey, ciphertext: &Vec<u8>) -> (r: Result<
        Vec<u8>,
        CryptoError,
    >)
        requires
            key.wf(),
        ensures
            r matches Ok(p) ==> cipher::open_spec(key@, ciphertext@) == Ok::<
                Seq<u8>,
                CryptoError,
            >(p@),
            r matches Err(e) ==> cipher::open_spec(key@, ciphertext@) == Err::<
                Seq<u8>,
                CryptoError,
            >(e),
    {
        cipher::open(key, ciphertext)
    }
}

} // verus!
