//! Authenticated encryption of byte payloads under a 32-byte symmetric key.
//!
//! `seal` draws a fresh, unpredictable 96-bit nonce for every call (a fixed
//! or repeated nonce under the same key would break confidentiality), seals
//! the plaintext with AES-256-GCM and no associated data, and prepends the
//! nonce to the output. `open` splits the leading 12 bytes back off, decrypts
//! and verifies the rest, and fails closed: an authentication-tag mismatch or
//! a too-short input yields an error, never partial plaintext.

use vstd::prelude::*;

use crate::errors::CryptoError;
use crate::util::{concat_bytes, copy_bytes, slice_bytes};
use ring::rand::SecureRandom;

verus! {

/// Byte length of the nonce that precedes every sealed message.
pub const NONCE_LEN: usize = 12;

/// Byte length of the authentication tag the AEAD appends.
pub const TAG_LEN: usize = 16;

/// Byte length of a symmetric key.
pub const KEY_LEN: usize = 32;

/// Largest plaintext a single sealed message may carry; safely below
/// AES-GCM's per-message input limit, so sealing a plaintext within it
/// never fails.
pub const MAX_PLAINTEXT_LEN: usize = 0xFFFF_FFFF;

/// What AES-256-GCM sealing returns: ciphertext followed by its 16-byte tag,
/// a function of the key, the nonce and the plaintext alone.
pub uninterp spec fn gcm_seal(key: Seq<u8>, nonce: Seq<u8>, plaintext: Seq<u8>) -> Seq<u8>;

/// What AES-256-GCM opening returns: the plaintext when the tag verifies,
/// nothing otherwise; a function of the key, the nonce and the input alone.
pub uninterp spec fn gcm_open(key: Seq<u8>, nonce: Seq<u8>, ciphertext: Seq<u8>) -> Option<Seq<u8>>;

/// Relies on ring's `LessSafeKey::seal_in_place_append_tag` with
/// `AES_256_GCM`: deterministic in key, nonce and plaintext; appends a
/// 16-byte tag; opening the result under the same key and nonce returns the
/// plaintext. Never fails for inputs within the length limit.
#[verifier::external_body]
fn aead_seal(key: &Vec<u8>, nonce: &Vec<u8>, plaintext: &Vec<u8>) -> (r: Vec<u8>)
    requires
        key@.len() == KEY_LEN,
        nonce@.len() == NONCE_LEN,
        plaintext@.len() <= MAX_PLAINTEXT_LEN,
    ensures
        r@ == gcm_seal(key@, nonce@, plaintext@),
        r@.len() == plaintext@.len() + TAG_LEN,
        gcm_open(key@, nonce@, r@) == Some(plaintext@),
{
    let unbound = ring::aead::UnboundKey::new(&ring::aead::AES_256_GCM, key).unwrap();
    let sealing = ring::aead::LessSafeKey::new(unbound);
    let n = ring::aead::Nonce::try_assume_unique_for_key(nonce).unwrap();
    let mut buf = plaintext.clone();
    sealing.seal_in_place_append_tag(n, ring::aead::Aad::empty(), &mut buf).unwrap();
    buf
}

/// Relies on ring's `LessSafeKey::open_in_place` with `AES_256_GCM`:
/// verifies the trailing 16-byte tag and decrypts, or fails; deterministic
/// in key, nonce and input.
#[verifier::external_body]
fn aead_open(key: &Vec<u8>, nonce: &Vec<u8>, ciphertext: &Vec<u8>) -> (r: Option<Vec<u8>>)
    requires
        key@.len() == KEY_LEN,
        nonce@.len() == NONCE_LEN,
    ensures
        r matches Some(p) ==> gcm_open(key@, nonce@, ciphertext@) == Some(p@),
        r is None ==> gcm_open(key@, nonce@, ciphertext@) is None,
{
    let unbound = ring::aead::UnboundKey::new(&ring::aead::AES_256_GCM, key).unwrap();
    let opening = ring::aead::LessSafeKey::new(unbound);
    let n = ring::aead::Nonce::try_assume_unique_for_key(nonce).unwrap();
    let mut buf = ciphertext.clone();
    match opening.open_in_place(n, ring::aead::Aad::empty(), &mut buf) {
        Ok(plain) => Some(plain.to_vec()),
        Err(_) => None,
    }
}

/// Relies on ring's `SystemRandom::fill`: fills a buffer with
/// cryptographically secure random bytes, or reports that the source is
/// unavailable. Nothing is promised of the bytes themselves.
#[verifier::external_body]
pub(crate) fn random_bytes(n: usize) -> (r: Option<Vec<u8>>)
    ensures
        r matches Some(b) ==> b@.len() == n,
{
    let mut buf = vec![0u8; n];
    match ring::rand::SystemRandom::new().fill(&mut buf) {
        Ok(()) => Some(buf),
        Err(_) => None,
    }
}

/// A 32-byte symmetric key. Key material is held privately; contracts speak
/// of it through the view.
pub struct SymmetricKey {
    bytes: Vec<u8>,
}

impl View for SymmetricKey {
    type V = Seq<u8>;

    closed spec fn view(&self) -> Seq<u8> {
        self.bytes@
    }
}

impl SymmetricKey {
    /// A key is well-formed when it holds exactly 32 bytes of material.
    pub open spec fn wf(&self) -> bool {
        self@.len() == KEY_LEN
    }

    /// Wrap 32 bytes of key material.
    pub fn from_bytes(bytes: Vec<u8>) -> (r: SymmetricKey)
        requires
            bytes@.len() == KEY_LEN,
        ensures
            r@ == bytes@,
            r.wf(),
    {
        SymmetricKey { bytes }
    }

    /// An independent copy of the key, for caching one per peer.
    pub fn duplicate(&self) -> (r: SymmetricKey)
        ensures
            r@ == self@,
    {
        SymmetricKey { bytes: copy_bytes(&self.bytes) }
    }
}

/// What `open` returns, as a function of the key and the framed input:
/// inputs shorter than the nonce are rejected outright; otherwise the
/// leading 12 bytes are the nonce and the rest must open under it.
pub open spec fn open_spec(key: Seq<u8>, input: Seq<u8>) -> Result<Seq<u8>, CryptoError> {
    if input.len() < NONCE_LEN {
        Err(CryptoError::Truncated)
    } else {
        match gcm_open(key, input.subrange(0, NONCE_LEN as int), input.subrange(NONCE_LEN as int, input.len() as int)) {
            Some(p) => Ok(p),
            None => Err(CryptoError::AuthenticationFailed),
        }
    }
}

/// Seal `plaintext` under `key` with the given 96-bit nonce, which is
/// prepended to the output. Callers must never pass the same nonce twice for
/// one key; `seal` draws a fresh random nonce instead.
pub fn seal_with_nonce(key: &SymmetricKey, nonce: &Vec<u8>, plaintext: &Vec<u8>) -> (r: Vec<u8>)
    requires
        key.wf(),
        nonce@.len() == NONCE_LEN,
        plaintext@.len() <= MAX_PLAINTEXT_LEN,
    ensures
        r@.len() == NONCE_LEN + plaintext@.len() + TAG_LEN,
        r@.subrange(0, NONCE_LEN as int) == nonce@,
        open_spec(key@, r@) == Ok::<Seq<u8>, CryptoError>(plaintext@),
{
    let sealed = aead_seal(&key.bytes, nonce, plaintext);
    let out = concat_bytes(nonce, &sealed);
    proof {
        assert(out@.subrange(0, NONCE_LEN as int) =~= nonce@);
        assert(out@.subrange(NONCE_LEN as int, out@.len() as int) =~= sealed@);
    }
    out
}

/// Authenticated encryption: seals `plaintext` under `key` with a fresh
/// random nonce, prepended to the output. The output always opens back to
/// exactly the plaintext under the same key. Fails only when the secure
/// random source is unavailable.
pub fn seal(key: &SymmetricKey, plaintext: &Vec<u8>) -> (r: Result<Vec<u8>, CryptoError>)
    requires
        key.wf(),
        plaintext@.len() <= MAX_PLAINTEXT_LEN,
    ensures
        r matches Ok(c) ==> {
            &&& c@.len() == NONCE_LEN + plaintext@.len() + TAG_LEN
            &&& open_spec(key@, c@) == Ok::<Seq<u8>, CryptoError>(plaintext@)
        },
        r matches Err(e) ==> e == CryptoError::RandomUnavailable,
{
    match random_bytes(NONCE_LEN) {
        Some(nonce) => Ok(seal_with_nonce(key, &nonce, plaintext)),
        None => Err(CryptoError::RandomUnavailable),
    }
}

/// Authenticated decryption: splits the leading 12 bytes as the nonce,
/// decrypts and verifies the remainder. Fails closed, and distinguishes a
/// too-short input (`Truncated`) from a tag mismatch
/// (`AuthenticationFailed`).
pub fn open(key: &SymmetricKey, input: &Vec<u8>) -> (r: Result<Vec<u8>, CryptoError>)
    requires
        key.wf(),
    ensures
        r matches Ok(p) ==> open_spec(key@, input@) == Ok::<Seq<u8>, CryptoError>(p@),
        r matches Err(e) ==> open_spec(key@, input@) == Err::<Seq<u8>, CryptoError>(e),
{
    if input.len() < NONCE_LEN {
        return Err(CryptoError::Truncated);
    }
    let nonce = slice_bytes(input, 0, NONCE_LEN);
    let body = slice_bytes(input, NONCE_LEN, input.len());
    match aead_open(&key.bytes, &nonce, &body) {
        Some(p) => Ok(p),
        None => Err(CryptoError::AuthenticationFailed),
    }
}

} // verus!
