use p2p_sparse_messaging::cipher::SymmetricKey;
use p2p_sparse_messaging::crypto::Crypto;
use p2p_sparse_messaging::errors::CryptoError;
use p2p_sparse_messaging::exchange;

use std::collections::HashSet;

fn fixed_key() -> SymmetricKey {
    SymmetricKey::from_bytes(vec![7u8; 32])
}

#[test]
fn generate_public_key_is_uncompressed_sec1() {
    let kp = exchange::generate().expect("random source available");
    let public = kp.public_key();
    assert_eq!(public.len(), 65);
    assert_eq!(public[0], 4u8);
}

#[test]
fn ecdh_shared_secrets_agree() {
    let mut a = Crypto::new().expect("random source available");
    let mut b = Crypto::new().expect("random source available");
    let public_a = a.public_key().clone();
    let public_b = b.public_key().clone();

    a.derive_session_key(&public_b).expect("valid peer key");
    b.derive_session_key(&public_a).expect("valid peer key");

    assert_eq!(a.get_shared_secret(), b.get_shared_secret());
}

#[test]
fn ecdh_derived_keys_interoperate() {
    let mut a = Crypto::new().expect("random source available");
    let mut b = Crypto::new().expect("random source available");
    let public_a = a.public_key().clone();
    let public_b = b.public_key().clone();
    a.derive_session_key(&public_b).expect("valid peer key");
    b.derive_session_key(&public_a).expect("valid peer key");

    let key_a = Crypto::create_symmetric_key(&a.get_shared_secret());
    let key_b = Crypto::create_symmetric_key(&b.get_shared_secret());

    let plaintext = b"message for the other end".to_vec();
    let sealed = Crypto::encrypt_with_key(&key_a, &plaintext).expect("sealing succeeds");
    let opened = Crypto::decrypt_with_key(&key_b, &sealed).expect("the peer's key opens it");
    assert_eq!(opened, plaintext);
}

#[test]
fn shared_secrets_differ_between_pairs() {
    let mut a = Crypto::new().expect("random source available");
    let mut b = Crypto::new().expect("random source available");
    let mut c = Crypto::new().expect("random source available");
    let public_b = b.public_key().clone();
    let public_c = c.public_key().clone();
    let public_a = a.public_key().clone();

    a.derive_session_key(&public_b).expect("valid peer key");
    let ab = a.get_shared_secret();
    a.derive_session_key(&public_c).expect("valid peer key");
    let ac = a.get_shared_secret();
    assert_ne!(ab, ac);

    b.derive_session_key(&public_a).expect("valid peer key");
    assert_eq!(ab, b.get_shared_secret());
}

#[test]
fn seal_open_round_trip() {
    let key = fixed_key();
    let plaintext = b"hello world".to_vec();
    let sealed = Crypto::encrypt_with_key(&key, &plaintext).expect("sealing succeeds");
    let opened = Crypto::decrypt_with_key(&key, &sealed).expect("round trip");
    assert_eq!(opened, plaintext);
}

#[test]
fn seal_round_trips_empty_plaintext() {
    let key = fixed_key();
    let plaintext: Vec<u8> = Vec::new();
    let sealed = Crypto::encrypt_with_key(&key, &plaintext).expect("sealing succeeds");
    assert_eq!(sealed.len(), 12 + 16);
    let opened = Crypto::decrypt_with_key(&key, &sealed).expect("round trip");
    assert_eq!(opened, plaintext);
}

#[test]
fn seal_output_length_is_nonce_plus_body_plus_tag() {
    let key = fixed_key();
    let plaintext = b"0123456789".to_vec();
    let sealed = Crypto::encrypt_with_key(&key, &plaintext).expect("sealing succeeds");
    assert_eq!(sealed.len(), 12 + plaintext.len() + 16);
}

#[test]
fn open_rejects_truncated_input() {
    let key = fixed_key();
    for len in [0usize, 1, 5, 11] {
        let input = vec![0u8; len];
        assert_eq!(
            Crypto::decrypt_with_key(&key, &input),
            Err(CryptoError::Truncated)
        );
    }
}

#[test]
fn open_rejects_nonce_only_input() {
    let key = fixed_key();
    let input = vec![0u8; 12];
    assert_eq!(
        Crypto::decrypt_with_key(&key, &input),
        Err(CryptoError::AuthenticationFailed)
    );
}

#[test]
fn any_single_bit_flip_fails_authentication() {
    let key = fixed_key();
    let plaintext = b"attack at dawn".to_vec();
    let sealed = Crypto::encrypt_with_key(&key, &plaintext).expect("sealing succeeds");
    for i in 0..sealed.len() {
        for bit in 0..8u8 {
            let mut tampered = sealed.clone();
            tampered[i] ^= 1 << bit;
            assert_eq!(
                Crypto::decrypt_with_key(&key, &tampered),
                Err(CryptoError::AuthenticationFailed),
                "flip of bit {} in byte {} must fail closed",
                bit,
                i
            );
        }
    }
}

#[test]
fn nonces_never_repeat_over_many_seals() {
    let key = fixed_key();
    let mut nonces: HashSet<Vec<u8>> = HashSet::new();
    for i in 0..10_000u32 {
        let plaintext = i.to_be_bytes().to_vec();
        let sealed = Crypto::encrypt_with_key(&key, &plaintext).expect("sealing succeeds");
        let nonce = sealed[..12].to_vec();
        assert!(nonces.insert(nonce), "nonce repeated at seal {}", i);
    }
    assert_eq!(nonces.len(), 10_000);
}

#[test]
fn seal_with_nonce_is_deterministic_and_prefixes_nonce() {
    let key = fixed_key();
    let nonce = vec![5u8; 12];
    let plaintext = b"fixed nonce".to_vec();
    let first = p2p_sparse_messaging::cipher::seal_with_nonce(&key, &nonce, &plaintext);
    let second = p2p_sparse_messaging::cipher::seal_with_nonce(&key, &nonce, &plaintext);
    assert_eq!(first, second);
    assert_eq!(&first[..12], &nonce[..]);
    assert_ne!(&first[12..12 + plaintext.len()], &plaintext[..]);
    let opened = Crypto::decrypt_with_key(&key, &first).expect("round trip");
    assert_eq!(opened, plaintext);
}

#[test]
fn open_with_wrong_key_fails() {
    let key1 = fixed_key();
    let key2 = SymmetricKey::from_bytes(vec![8u8; 32]);
    let sealed = Crypto::encrypt_with_key(&key1, &b"secret".to_vec()).expect("sealing succeeds");
    assert_eq!(
        Crypto::decrypt_with_key(&key2, &sealed),
        Err(CryptoError::AuthenticationFailed)
    );
}

#[test]
fn derive_session_key_rejects_malformed_peer_keys() {
    let mut a = Crypto::new().expect("random source available");
    assert_eq!(
        a.derive_session_key(&vec![1u8, 2, 3]),
        Err(CryptoError::InvalidPeerKey)
    );
    assert_eq!(
        a.derive_session_key(&vec![0u8; 65]),
        Err(CryptoError::InvalidPeerKey)
    );
    let mut off_curve = vec![4u8; 65];
    off_curve[64] = 99;
    assert_eq!(
        a.derive_session_key(&off_curve),
        Err(CryptoError::InvalidPeerKey)
    );
    assert!(!a.has_shared_secret());
}

#[test]
fn shared_secret_only_after_derive() {
    let mut a = Crypto::new().expect("random source available");
    let b = Crypto::new().expect("random source available");
    assert!(!a.has_shared_secret());
    let public_b = b.public_key().clone();
    a.derive_session_key(&public_b).expect("valid peer key");
    assert!(a.has_shared_secret());
    assert_eq!(a.get_shared_secret().len(), 32);
}

#[test]
fn symmetric_key_derivation_is_deterministic() {
    let secret = vec![42u8; 32];
    let key1 = Crypto::create_symmetric_key(&secret);
    let key2 = Crypto::create_symmetric_key(&secret);
    let sealed = Crypto::encrypt_with_key(&key1, &b"same key".to_vec()).expect("sealing succeeds");
    assert_eq!(
        Crypto::decrypt_with_key(&key2, &sealed).expect("deterministic derivation"),
        b"same key".to_vec()
    );
}

#[test]
fn symmetric_key_derivation_is_not_identity() {
    let secret = vec![42u8; 32];
    let derived = Crypto::create_symmetric_key(&secret);
    let raw = SymmetricKey::from_bytes(secret);
    let sealed = Crypto::encrypt_with_key(&derived, &b"whitened".to_vec()).expect("sealing succeeds");
    assert_eq!(
        Crypto::decrypt_with_key(&raw, &sealed),
        Err(CryptoError::AuthenticationFailed)
    );
}

#[test]
fn error_descriptions_are_distinct() {
    let all = [
        CryptoError::InvalidPeerKey,
        CryptoError::AuthenticationFailed,
        CryptoError::Truncated,
        CryptoError::RandomUnavailable,
    ];
    let mut seen: HashSet<&str> = HashSet::new();
    for e in all {
        assert!(seen.insert(e.describe()));
    }
}
