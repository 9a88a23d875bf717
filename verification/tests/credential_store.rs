use mustel::base64::{base64_decode, base64_encode};
use mustel::credential_store::CredentialStore;
use mustel::error::MustelError;

fn store() -> CredentialStore {
    CredentialStore::from_key_bytes(vec![7u8; 32]).unwrap()
}

fn security_message(r: Result<String, MustelError>) -> String {
    match r {
        Err(MustelError::Security(m)) => m,
        other => panic!("expected a security error, got {:?}", other),
    }
}

#[test]
fn test_encrypt_decrypt_password() {
    let store = store();
    let original = "SuperSecretP@ssw0rd!2026";
    let encrypted = store.encrypt_password(original).unwrap();
    assert!(!encrypted.is_empty());
    assert_ne!(original, encrypted);

    let decrypted = store.decrypt_password(&encrypted).unwrap();
    assert_eq!(original, decrypted);
}

#[test]
fn key_file_must_hold_32_bytes() {
    match CredentialStore::from_key_bytes(vec![1u8; 31]) {
        Err(MustelError::Security(m)) => assert_eq!(m, "Invalid key file length"),
        _ => panic!("a short key must be refused"),
    }
    assert!(CredentialStore::from_key_bytes(vec![1u8; 33]).is_err());
}

#[test]
fn empty_password_round_trips_as_empty() {
    let store = store();
    assert_eq!(store.encrypt_password("").unwrap(), "");
    assert_eq!(store.decrypt_password("").unwrap(), "");
}

#[test]
fn record_layout_is_version_nonce_ciphertext() {
    let store = store();
    let enc = store.encrypt_password("abc").unwrap();
    let raw = base64_decode(&enc);
    assert_eq!(raw[0], 2);
    // version byte, 12-byte nonce, 3 bytes of ciphertext and a 16-byte tag
    assert_eq!(raw.len(), 1 + 12 + 3 + 16);
    assert_eq!(enc.len(), 4 * ((raw.len() + 2) / 3));
}

#[test]
fn fresh_nonce_each_time() {
    let store = store();
    let a = store.encrypt_password("same").unwrap();
    let b = store.encrypt_password("same").unwrap();
    assert_ne!(a, b);
    assert_eq!(store.decrypt_password(&a).unwrap(), "same");
    assert_eq!(store.decrypt_password(&b).unwrap(), "same");
}

#[test]
fn wrong_key_is_refused() {
    let enc = store().encrypt_password("secret").unwrap();
    let other = CredentialStore::from_key_bytes(vec![9u8; 32]).unwrap();
    assert_eq!(
        security_message(other.decrypt_password(&enc)),
        "Decryption failed (wrong key or corrupted data)"
    );
}

#[test]
fn decryption_errors_by_record_shape() {
    let store = store();
    assert_eq!(security_message(store.decrypt_password(&base64_encode(&[2u8; 5]))), "Encrypted data too short");
    let mut legacy = vec![1u8];
    legacy.extend_from_slice(&[0u8; 20]);
    assert!(security_message(store.decrypt_password(&base64_encode(&legacy))).starts_with("Legacy unencrypted credentials detected."));
    let mut unknown = vec![7u8];
    unknown.extend_from_slice(&[0u8; 20]);
    assert_eq!(security_message(store.decrypt_password(&base64_encode(&unknown))), "Unknown encryption version: 7");
}

#[test]
fn base64_round_trip_and_known_values() {
    assert_eq!(base64_encode(b"Man"), "TWFu");
    assert_eq!(base64_encode(b"Ma"), "TWE=");
    assert_eq!(base64_encode(b"M"), "TQ==");
    assert_eq!(base64_encode(b""), "");
    let data: Vec<u8> = (0u8..=255).collect();
    assert_eq!(base64_decode(&base64_encode(&data)), data);
    assert_eq!(base64_decode("TWFu"), b"Man".to_vec());
}
