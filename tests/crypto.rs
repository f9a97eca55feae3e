use ployer::config::AppConfig;
use ployer::crypto::{decrypt, encrypt, generate_key, seal_with_nonce, CryptoError};

#[test]
fn test_encrypt_decrypt() {
    let key = generate_key();
    let plaintext = "Hello, World!";

    let encrypted = encrypt(plaintext, &key).unwrap();
    let decrypted = decrypt(&encrypted, &key).unwrap();

    assert_eq!(plaintext, decrypted);
}

#[test]
fn test_different_nonces() {
    let key = generate_key();
    let plaintext = "test";

    let encrypted1 = encrypt(plaintext, &key).unwrap();
    let encrypted2 = encrypt(plaintext, &key).unwrap();

    assert_ne!(encrypted1, encrypted2);

    assert_eq!(decrypt(&encrypted1, &key).unwrap(), plaintext);
    assert_eq!(decrypt(&encrypted2, &key).unwrap(), plaintext);
}

#[test]
fn test_wrong_key() {
    let key1 = generate_key();
    let key2 = generate_key();
    let plaintext = "secret";

    let encrypted = encrypt(plaintext, &key1).unwrap();
    let result = decrypt(&encrypted, &key2);

    assert!(result.is_err());
}

#[test]
fn sealed_text_is_not_the_plaintext() {
    let key = [7u8; 32];
    let sealed = encrypt("abc", &key).unwrap();
    assert_ne!(sealed, "abc");
    // 12 nonce bytes + 3 plaintext bytes + 16 tag bytes, in padded base64
    assert_eq!(sealed.len(), 44);
}

#[test]
fn empty_and_unicode_round_trip() {
    let key = [1u8; 32];
    for p in ["", "ünïcødé ✓", "line\nbreak"] {
        let c = encrypt(p, &key).unwrap();
        assert_eq!(decrypt(&c, &key).unwrap(), p);
    }
}

#[test]
fn decrypt_error_kinds() {
    let key = [3u8; 32];
    assert_eq!(decrypt("%%%not base64%%%", &key), Err(CryptoError::InvalidBase64));
    assert_eq!(decrypt("AAAA", &key), Err(CryptoError::TooShort));
    // 12 zero nonce bytes and 16 bytes that are no valid tag
    assert_eq!(decrypt("AAAAAAAAAAAAAAAAAAAAAAAAAAAAAAAAAAAAAA==", &key), Err(CryptoError::DecryptionFailed));
    let c = encrypt("x", &key).unwrap();
    let mut bytes = c.into_bytes();
    bytes[20] = if bytes[20] == b'A' { b'B' } else { b'A' };
    let tampered = String::from_utf8(bytes).unwrap();
    assert!(decrypt(&tampered, &key).is_err());
}

#[test]
fn secret_key_is_sha256_of_the_secret() {
    let cfg = AppConfig::default();
    let k = cfg.get_secret_key();
    // SHA-256 of "change-me-in-production"
    let expected = <sha2::Sha256 as sha2::Digest>::digest(b"change-me-in-production");
    assert_eq!(&k[..], &expected[..]);
    let mut other = cfg.clone();
    other.auth.jwt_secret = "another".to_string();
    assert_ne!(other.get_secret_key(), k);
}

#[test]
fn values_sealed_under_the_config_key_open_under_it() {
    let key = AppConfig::default().get_secret_key();
    let c = encrypt("DATABASE_URL=postgres://x", &key).unwrap();
    assert_eq!(decrypt(&c, &key).unwrap(), "DATABASE_URL=postgres://x");
}

#[test]
fn seals_under_distinct_nonces_differ() {
    let key = [8u8; 32];
    let a = seal_with_nonce("same", &key, &[0u8; 12]).unwrap();
    let b = seal_with_nonce("same", &key, &[1u8; 12]).unwrap();
    let a2 = seal_with_nonce("same", &key, &[0u8; 12]).unwrap();
    assert_ne!(a, b);
    assert_eq!(a, a2);
    assert_eq!(decrypt(&a, &key).unwrap(), "same");
    assert_eq!(decrypt(&b, &key).unwrap(), "same");
    // 12 + 4 + 16 bytes of padded base64
    assert_eq!(a.len(), 44);
}
