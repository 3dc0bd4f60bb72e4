use aes_gcm::aead::{Aead, KeyInit};
use base64::Engine;
use noponto::vault::{decrypt_data, encrypt_data, encrypt_with_nonce, load_config, StoredValue, VaultError};

const KEY: &[u8; 32] = b"0123456789abcdef0123456789abcdef";
const CONFIG: &str = "{\"employeeId\":\"42\",\"accessToken\":\"tok\",\"client\":\"c\",\"uid\":\"u@x\",\"uuid\":\"id\"}";

#[test]
fn round_trip_with_random_nonce() {
    let blob = encrypt_data(KEY, CONFIG).unwrap();
    assert_ne!(blob, CONFIG);
    assert_eq!(decrypt_data(KEY, &blob).unwrap(), CONFIG);
}

#[test]
fn round_trip_of_unicode_and_empty_text() {
    for s in ["", "Olá, jornada ⏰ completa 🎉", "x"] {
        let blob = encrypt_data(KEY, s).unwrap();
        assert_eq!(decrypt_data(KEY, &blob).unwrap(), s);
    }
}

#[test]
fn two_encryptions_differ() {
    let a = encrypt_data(KEY, CONFIG).unwrap();
    let b = encrypt_data(KEY, CONFIG).unwrap();
    assert_ne!(a, b);
}

#[test]
fn blob_layout_is_nonce_then_ciphertext() {
    let nonce = [7u8; 12];
    let blob = encrypt_with_nonce(KEY, &nonce, "hi").unwrap();
    let bytes = base64::engine::general_purpose::STANDARD.decode(&blob).unwrap();
    assert_eq!(bytes.len(), 12 + 2 + 16);
    assert_eq!(&bytes[..12], &nonce);
    let cipher = aes_gcm::Aes256Gcm::new(KEY.into());
    let plain = cipher.decrypt(aes_gcm::Nonce::from_slice(&nonce), &bytes[12..]).unwrap();
    assert_eq!(plain, b"hi");
    assert_eq!(encrypt_with_nonce(KEY, &nonce, "hi").unwrap(), blob);
    assert_ne!(encrypt_with_nonce(KEY, &[8u8; 12], "hi").unwrap(), blob);
}

#[test]
fn tampering_with_any_byte_is_detected() {
    let blob = encrypt_with_nonce(KEY, &[1u8; 12], CONFIG).unwrap();
    let bytes = base64::engine::general_purpose::STANDARD.decode(&blob).unwrap();
    for i in 0..bytes.len() {
        let mut t = bytes.clone();
        t[i] ^= 0x01;
        let text = base64::engine::general_purpose::STANDARD.encode(&t);
        assert_eq!(decrypt_data(KEY, &text), Err(VaultError::Decrypt));
    }
}

#[test]
fn wrong_key_is_a_decrypt_error() {
    let blob = encrypt_data(KEY, CONFIG).unwrap();
    let other: &[u8; 32] = b"fedcba9876543210fedcba9876543210";
    assert_eq!(decrypt_data(other, &blob), Err(VaultError::Decrypt));
}

#[test]
fn malformed_base64_is_rejected() {
    assert_eq!(decrypt_data(KEY, "not base64!"), Err(VaultError::Base64));
    assert_eq!(decrypt_data(KEY, "QUJD="), Err(VaultError::Base64));
}

#[test]
fn blob_shorter_than_nonce_is_rejected() {
    assert_eq!(decrypt_data(KEY, "QUJD"), Err(VaultError::TooShort));
    assert_eq!(decrypt_data(KEY, ""), Err(VaultError::TooShort));
}

#[test]
fn non_utf8_plaintext_is_rejected() {
    let nonce = [3u8; 12];
    let cipher = aes_gcm::Aes256Gcm::new(KEY.into());
    let ct = cipher.encrypt(aes_gcm::Nonce::from_slice(&nonce), &[0xffu8, 0xfe][..]).unwrap();
    let mut bytes = nonce.to_vec();
    bytes.extend(ct);
    let text = base64::engine::general_purpose::STANDARD.encode(&bytes);
    assert_eq!(decrypt_data(KEY, &text), Err(VaultError::Utf8));
}

#[test]
fn empty_store_loads_empty_config_every_time() {
    assert_eq!(load_config(KEY, &StoredValue::Absent), Ok(String::new()));
    assert_eq!(load_config(KEY, &StoredValue::Absent), Ok(String::new()));
}

#[test]
fn stored_blob_loads_its_config() {
    let blob = encrypt_data(KEY, CONFIG).unwrap();
    assert_eq!(load_config(KEY, &StoredValue::Text(blob)), Ok(CONFIG.to_string()));
    assert_eq!(load_config(KEY, &StoredValue::Text("QUJD".to_string())), Err(VaultError::TooShort));
}

#[test]
fn stored_value_that_is_not_text_is_an_error() {
    assert_eq!(load_config(KEY, &StoredValue::Other), Err(VaultError::NotText));
}

#[test]
fn tampered_stored_blob_does_not_load() {
    let blob = encrypt_data(KEY, CONFIG).unwrap();
    let mut bytes = base64::engine::general_purpose::STANDARD.decode(&blob).unwrap();
    let last = bytes.len() - 1;
    bytes[last] ^= 0x80;
    let text = base64::engine::general_purpose::STANDARD.encode(&bytes);
    assert_eq!(load_config(KEY, &StoredValue::Text(text)), Err(VaultError::Decrypt));
}

#[test]
fn blob_length_is_nonce_text_and_tag() {
    for s in ["", "abc", "jornada ⏰"] {
        let blob = encrypt_data(KEY, s).unwrap();
        let bytes = base64::engine::general_purpose::STANDARD.decode(&blob).unwrap();
        assert_eq!(bytes.len(), 12 + s.len() + 16);
    }
}
