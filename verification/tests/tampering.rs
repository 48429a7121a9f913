use rust_file_crypto::cipher::{decrypt_bytes, encrypt_bytes};
use rust_file_crypto::errors::CryptoError;
use rust_file_crypto::keys::Key256;

fn fresh_key() -> Key256 {
    Key256::generate().expect("random source available")
}

#[test]
fn any_single_bit_flip_in_sealed_region_fails() {
    let key = fresh_key();
    let plaintext = b"abc".to_vec();
    let container = encrypt_bytes(&key, &plaintext).expect("encrypt");
    for byte in 12..container.len() {
        for bit in 0..8 {
            let mut tampered = container.clone();
            tampered[byte] ^= 1u8 << bit;
            let r = decrypt_bytes(&key, &tampered);
            assert_eq!(r, Err(CryptoError::AuthenticationFailed));
        }
    }
}

#[test]
fn nonce_bit_flip_fails_too() {
    let key = fresh_key();
    let plaintext = b"abc".to_vec();
    let container = encrypt_bytes(&key, &plaintext).expect("encrypt");
    for byte in 0..12 {
        let mut tampered = container.clone();
        tampered[byte] ^= 0x01;
        let r = decrypt_bytes(&key, &tampered);
        assert_eq!(r, Err(CryptoError::AuthenticationFailed));
    }
}

#[test]
fn wrong_key_is_rejected() {
    let k1 = fresh_key();
    let k2 = fresh_key();
    assert_ne!(k1.as_bytes(), k2.as_bytes());
    let plaintext = b"for k1 only".to_vec();
    let container = encrypt_bytes(&k1, &plaintext).expect("encrypt");
    let r = decrypt_bytes(&k2, &container);
    assert_eq!(r, Err(CryptoError::AuthenticationFailed));
}

#[test]
fn shorter_than_a_nonce_is_malformed() {
    let key = fresh_key();
    for len in 0..12 {
        let short = vec![0u8; len];
        let r = decrypt_bytes(&key, &short);
        assert_eq!(r, Err(CryptoError::MalformedContainer));
    }
}

#[test]
fn nonce_alone_or_truncated_tag_fails_authentication() {
    let key = fresh_key();
    for len in 12..(12 + 16) {
        let data = vec![0u8; len];
        let r = decrypt_bytes(&key, &data);
        assert_eq!(r, Err(CryptoError::AuthenticationFailed));
    }
}

#[test]
fn nonces_are_distinct_across_encryptions() {
    let key = fresh_key();
    let plaintext = b"same plaintext every time".to_vec();
    let mut nonces: Vec<Vec<u8>> = Vec::new();
    for _ in 0..16 {
        let container = encrypt_bytes(&key, &plaintext).expect("encrypt");
        nonces.push(container[..12].to_vec());
    }
    for i in 0..nonces.len() {
        for j in (i + 1)..nonces.len() {
            assert_ne!(nonces[i], nonces[j]);
        }
    }
}
