//! Key establishment: ephemeral NIST P-256 key pairs, Diffie-Hellman shared
//! secrets, and HKDF-SHA-256 derivation of the symmetric session key.
//!
//! The Diffie-Hellman value is a function of the *unordered pair* of the two
//! public points, which is exactly why both ends of a session derive the same
//! key: see [`lemma_key_agreement`]. A malformed peer key fails fast with a
//! distinguishable error and is never silently replaced by a default key.

use vstd::prelude::*;

use crate::cipher::{random_bytes, SymmetricKey};
use crate::errors::CryptoError;
use p256::elliptic_curve::sec1::ToEncodedPoint;

verus! {

/// Byte length of a P-256 private scalar.
pub const SCALAR_LEN: usize = 32;

/// Byte length of an uncompressed SEC1 P-256 public point.
pub const PUBLIC_LEN: usize = 65;

/// The uncompressed SEC1 encoding of the public point that corresponds to a
/// 32-byte private scalar.
pub uninterp spec fn public_of(scalar: Seq<u8>) -> Seq<u8>;

/// The Diffie-Hellman shared value, as a function of the *set* of the two
/// public points: phrasing it over a set is what makes its symmetry in the
/// two points a provable fact rather than an article of faith at each call.
pub uninterp spec fn dh_of(public_points: Set<Seq<u8>>) -> Seq<u8>;

/// Whether p256 accepts this pair of encodings for a Diffie-Hellman
/// exchange: the 32-byte scalar is nonzero and below the curve order, and
/// the peer bytes decode to a valid, non-identity point on the curve. Both
/// checks are deterministic in the bytes alone, which is what lets the
/// contracts say when a key exchange is owed success, not only what holds
/// when it succeeds.
pub uninterp spec fn p256_accepts(scalar: Seq<u8>, peer: Seq<u8>) -> bool;

/// The shared secret two parties with public points `p` and `q` arrive at.
pub open spec fn shared_point(p: Seq<u8>, q: Seq<u8>) -> Seq<u8> {
    dh_of(set![p, q])
}

/// What HKDF-SHA-256 expands a shared secret into under a salt: 32 bytes,
/// a function of salt and input keying material alone.
pub uninterp spec fn kdf_of(salt: Seq<u8>, ikm: Seq<u8>) -> Seq<u8>;

/// The fixed, protocol-wide, non-secret HKDF salt. It must be the same
/// constant on both ends of a session, never per-message randomness, or the
/// two ends would derive different keys.
pub open spec fn protocol_salt_spec() -> Seq<u8> {
    seq![101u8, 120u8, 97u8, 109u8, 112u8, 108u8, 101u8, 45u8, 115u8, 97u8, 108u8, 116u8]
}

/// The protocol salt as bytes (the ASCII of "example-salt").
pub fn protocol_salt() -> (r: Vec<u8>)
    ensures
        r@ == protocol_salt_spec(),
{
    let mut r: Vec<u8> = Vec::new();
    r.push(101);
    r.push(120);
    r.push(97);
    r.push(109);
    r.push(112);
    r.push(108);
    r.push(101);
    r.push(45);
    r.push(115);
    r.push(97);
    r.push(108);
    r.push(116);
    assert(r@ =~= protocol_salt_spec());
    r
}

/// Relies on p256's `SecretKey::from_slice` and
/// `PublicKey::to_encoded_point(false)`: the uncompressed SEC1 encoding (65
/// bytes, leading tag 0x04) of the public point for this scalar, a function
/// of the scalar alone; fails when the scalar is zero or not below the curve
/// order.
#[verifier::external_body]
fn p256_public_key(scalar: &Vec<u8>) -> (r: Option<Vec<u8>>)
    requires
        scalar@.len() == SCALAR_LEN,
    ensures
        r matches Some(p) ==> {
            &&& p@ == public_of(scalar@)
            &&& p@.len() == PUBLIC_LEN
            &&& p@[0] == 4u8
        },
{
    let secret = match p256::SecretKey::from_slice(scalar) {
        Ok(s) => s,
        Err(_) => return None,
    };
    Some(secret.public_key().to_encoded_point(false).as_bytes().to_vec())
}

/// Relies on p256's ECDH (`SecretKey::from_slice`,
/// `PublicKey::from_sec1_bytes`, `ecdh::diffie_hellman`): the 32-byte shared
/// secret is the x-coordinate of the peer point multiplied by the scalar.
/// P-256 has prime order and cofactor 1, so each accepted point determines
/// its scalar and a*(b*G) equals b*(a*G): the secret is a function of the
/// unordered pair of the two public points, which is what `dh_of` over a set
/// states. Fails exactly when either input does not decode (an off-curve
/// point, the identity, or an out-of-range scalar) — which is `p256_accepts`
/// of the two byte strings — never falling back to a default value.
#[verifier::external_body]
fn p256_diffie_hellman(scalar: &Vec<u8>, peer_public: &Vec<u8>) -> (r: Option<Vec<u8>>)
    requires
        scalar@.len() == SCALAR_LEN,
    ensures
        r is Some <==> p256_accepts(scalar@, peer_public@),
        r matches Some(s) ==> {
            &&& s@ == dh_of(set![public_of(scalar@), peer_public@])
            &&& s@.len() == SCALAR_LEN
        },
{
    let secret = match p256::SecretKey::from_slice(scalar) {
        Ok(s) => s,
        Err(_) => return None,
    };
    let peer = match p256::PublicKey::from_sec1_bytes(peer_public) {
        Ok(p) => p,
        Err(_) => return None,
    };
    let shared = p256::ecdh::diffie_hellman(secret.to_nonzero_scalar(), peer.as_affine());
    Some(shared.raw_secret_bytes().to_vec())
}

/// Relies on ring's HKDF-SHA-256 (`Salt::extract`, `Prk::expand` to
/// `AES_256_GCM`'s 32-byte key length, `Okm::fill`): deterministic in the
/// salt and the input keying material.
#[verifier::external_body]
fn hkdf_sha256(salt: &Vec<u8>, ikm: &Vec<u8>) -> (r: Vec<u8>)
    ensures
        r@ == kdf_of(salt@, ikm@),
        r@.len() == 32,
{
    let salt = ring::hkdf::Salt::new(ring::hkdf::HKDF_SHA256, salt);
    let mut okm = [0u8; 32];
    salt.extract(ikm).expand(&[], &ring::aead::AES_256_GCM).unwrap().fill(&mut okm).unwrap();
    okm.to_vec()
}

/// An ephemeral key pair: a 32-byte private scalar, never exposed, and the
/// uncompressed SEC1 encoding of its public point. One per client process
/// lifetime.
pub struct KeyPair {
    private_scalar: Vec<u8>,
    public_point: Vec<u8>,
}

impl KeyPair {
    /// The private scalar, visible to specifications only.
    pub closed spec fn scalar(&self) -> Seq<u8> {
        self.private_scalar@
    }

    /// The serialized public point.
    pub closed spec fn spec_public(&self) -> Seq<u8> {
        self.public_point@
    }

    /// Every key pair ever constructed carries the public point of its own
    /// scalar.
    #[verifier::type_invariant]
    pub closed spec fn wf(&self) -> bool {
        &&& self.scalar().len() == SCALAR_LEN
        &&& self.spec_public() == public_of(self.scalar())
        &&& self.spec_public().len() == PUBLIC_LEN
        &&& self.spec_public()[0] == 4u8
    }

    /// The public key for this pair, as sent to the relay on registration.
    pub fn public_key(&self) -> (r: &Vec<u8>)
        ensures
            r@ == self.spec_public(),
            r@ == public_of(self.scalar()),
            r@.len() == PUBLIC_LEN,
            r@[0] == 4u8,
    {
        proof {
            use_type_invariant(self);
        }
        &self.public_point
    }
}

/// Generate a fresh ephemeral key pair from the secure random source.
/// Fails only when that source is unavailable (a drawn scalar outside the
/// curve order is redrawn; eight misses in a row is treated the same way,
/// a chance too small to ever see).
pub fn generate() -> (r: Result<KeyPair, CryptoError>)
    ensures
        r matches Ok(kp) ==> {
            &&& kp.scalar().len() == SCALAR_LEN
            &&& kp.spec_public() == public_of(kp.scalar())
            &&& kp.spec_public().len() == PUBLIC_LEN
            &&& kp.spec_public()[0] == 4u8
        },
        r matches Err(e) ==> e == CryptoError::RandomUnavailable,
{
    for attempt in 0..8usize {
        match random_bytes(SCALAR_LEN) {
            None => {
                return Err(CryptoError::RandomUnavailable);
            },
            Some(scalar) => {
                match p256_public_key(&scalar) {
                    Some(public_point) => {
                        return Ok(KeyPair { private_scalar: scalar, public_point });
                    },
                    None => {},
                }
            },
        }
    }
    Err(CryptoError::RandomUnavailable)
}

/// Diffie-Hellman: the shared secret between this pair's private scalar and
/// a peer's public point. Succeeds exactly when p256 accepts the two
/// encodings, and fails fast with `InvalidPeerKey` when the peer key does
/// not decode to a valid point on the curve.
pub fn derive_shared(kp: &KeyPair, peer_public: &Vec<u8>) -> (r: Result<Vec<u8>, CryptoError>)
    ensures
        r is Ok <==> p256_accepts(kp.scalar(), peer_public@),
        r matches Ok(s) ==> {
            &&& s@ == shared_point(kp.spec_public(), peer_public@)
            &&& s@.len() == SCALAR_LEN
        },
        r matches Err(e) ==> e == CryptoError::InvalidPeerKey,
{
    proof {
        use_type_invariant(kp);
    }
    match p256_diffie_hellman(&kp.private_scalar, peer_public) {
        Some(s) => Ok(s),
        None => Err(CryptoError::InvalidPeerKey),
    }
}

/// The symmetric session key both ends of a session derive: HKDF-SHA-256 of
/// the shared secret under the fixed protocol salt.
pub open spec fn session_key_of(shared: Seq<u8>) -> Seq<u8> {
    kdf_of(protocol_salt_spec(), shared)
}

/// Derive the 32-byte symmetric session key from a Diffie-Hellman shared
/// secret, under the fixed protocol salt.
pub fn derive_symmetric_key(shared: &Vec<u8>) -> (r: SymmetricKey)
    ensures
        r@ == session_key_of(shared@),
        r.wf(),
{
    let salt = protocol_salt();
    SymmetricKey::from_bytes(hkdf_sha256(&salt, shared))
}

/// ECDH key agreement: the shared point, and with it the derived session
/// key, is symmetric in the two public points — each party derives the same
/// key from its own scalar and the other's public point.
pub proof fn lemma_key_agreement(pub_a: Seq<u8>, pub_b: Seq<u8>)
    ensures
        shared_point(pub_a, pub_b) == shared_point(pub_b, pub_a),
        session_key_of(shared_point(pub_a, pub_b)) == session_key_of(shared_point(pub_b, pub_a)),
{
    assert(set![pub_a, pub_b] =~= set![pub_b, pub_a]);
}

} // verus!
