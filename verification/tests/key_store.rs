use rust_file_crypto::errors::CryptoError;
use rust_file_crypto::keys::{get_or_create, Key256, StoredKey, KEY_LEN};

#[test]
fn exactly_32_bytes_make_a_key() {
    let bytes: Vec<u8> = (0u8..32).collect();
    let key = Key256::from_bytes(bytes.clone()).expect("32 bytes");
    assert_eq!(key.as_bytes(), &bytes);
}

#[test]
fn other_lengths_are_invalid_key_material() {
    for len in [0usize, 1, 16, 31, 33, 64] {
        let r = Key256::from_bytes(vec![0u8; len]);
        assert!(matches!(r, Err(CryptoError::InvalidKeyMaterial)));
    }
}

#[test]
fn generated_keys_have_the_right_length_and_differ() {
    let k1 = Key256::generate().expect("random source available");
    let k2 = Key256::generate().expect("random source available");
    assert_eq!(k1.as_bytes().len(), KEY_LEN);
    assert_eq!(k2.as_bytes().len(), KEY_LEN);
    assert_ne!(k1.as_bytes(), k2.as_bytes());
}

#[test]
fn a_fresh_key_persisted_verbatim_is_reused_byte_identical() {
    let first = get_or_create(None).expect("random source available");
    let fresh = match first {
        StoredKey::Fresh(k) => k,
        StoredKey::Existing(_) => panic!("nothing was stored"),
    };
    let stored = fresh.as_bytes().clone();
    let second = get_or_create(Some(stored.clone())).expect("valid stored key");
    match second {
        StoredKey::Existing(k) => assert_eq!(k.as_bytes(), &stored),
        StoredKey::Fresh(_) => panic!("the stored key must be reused"),
    }
}

#[test]
fn stored_contents_of_wrong_length_are_rejected() {
    for len in [0usize, 31, 33] {
        let r = get_or_create(Some(vec![0u8; len]));
        assert!(matches!(r, Err(CryptoError::InvalidKeyMaterial)));
    }
}
