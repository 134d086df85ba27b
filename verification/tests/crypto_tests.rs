use obscura::crypto::aead::{decrypt_with_key, encrypt_with_key, AeadKey, AeadResult};
use obscura::crypto::kdf::{
    clamp, cost_from_override, derive_key, resolve_kdf_costs, KdfParams, KdfResult,
};
use obscura::util::errors::ObscuraError;

#[test]
fn aead_round_trip_returns_plaintext() {
    let key = AeadKey::from_bytes([7u8; 32]);
    let sealed = encrypt_with_key(b"sk-test-42", &key, b"").unwrap();
    assert_eq!(sealed.ciphertext.len(), 10 + 16);
    assert_ne!(&sealed.ciphertext[..10], b"sk-test-42");
    let opened = decrypt_with_key(&sealed.ciphertext, &key, &sealed.nonce, b"").unwrap();
    assert_eq!(opened, b"sk-test-42".to_vec());
}

#[test]
fn aead_with_fixed_nonce_is_deterministic() {
    let key = AeadKey::from_bytes([1u8; 32]);
    let a = AeadResult::encrypt_with_nonce(b"hello", &key, [9u8; 24], b"aad").unwrap();
    let b = AeadResult::encrypt_with_nonce(b"hello", &key, [9u8; 24], b"aad").unwrap();
    assert_eq!(a.nonce, [9u8; 24]);
    assert_eq!(a.ciphertext, b.ciphertext);
    let c = AeadResult::encrypt_with_nonce(b"hello", &key, [8u8; 24], b"aad").unwrap();
    assert_ne!(a.ciphertext, c.ciphertext);
}

#[test]
fn aead_rejects_wrong_key_nonce_aad_and_tampering() {
    let key = AeadKey::from_bytes([7u8; 32]);
    let other = AeadKey::from_bytes([8u8; 32]);
    let sealed = encrypt_with_key(b"secret", &key, b"ctx").unwrap();
    assert_eq!(
        decrypt_with_key(&sealed.ciphertext, &other, &sealed.nonce, b"ctx"),
        Err(ObscuraError::DecryptionFailed)
    );
    assert_eq!(
        decrypt_with_key(&sealed.ciphertext, &key, &sealed.nonce, b"other"),
        Err(ObscuraError::DecryptionFailed)
    );
    let mut nonce = sealed.nonce;
    nonce[0] ^= 1;
    assert_eq!(
        decrypt_with_key(&sealed.ciphertext, &key, &nonce, b"ctx"),
        Err(ObscuraError::DecryptionFailed)
    );
    let mut tampered = sealed.ciphertext.clone();
    tampered[0] ^= 1;
    assert_eq!(
        decrypt_with_key(&tampered, &key, &sealed.nonce, b"ctx"),
        Err(ObscuraError::DecryptionFailed)
    );
    assert_eq!(
        decrypt_with_key(&[1, 2, 3], &key, &sealed.nonce, b"ctx"),
        Err(ObscuraError::DecryptionFailed)
    );
    assert_eq!(
        decrypt_with_key(&sealed.ciphertext[..15], &key, &sealed.nonce, b"ctx"),
        Err(ObscuraError::DecryptionFailed)
    );
    assert_eq!(
        decrypt_with_key(&[], &key, &sealed.nonce, b"ctx"),
        Err(ObscuraError::DecryptionFailed)
    );
}

#[test]
fn aead_nonces_are_fresh() {
    let key = AeadKey::from_bytes([7u8; 32]);
    let a = encrypt_with_key(b"same", &key, b"").unwrap();
    let b = encrypt_with_key(b"same", &key, b"").unwrap();
    assert_ne!(a.nonce, b.nonce);
    assert_ne!(a.ciphertext, b.ciphertext);
}

#[test]
fn key_bytes_and_zeroize() {
    let mut key = AeadKey::from_bytes([5u8; 32]);
    assert_eq!(key.as_bytes(), &[5u8; 32]);
    let copy = key.clone();
    key.zeroize();
    assert_eq!(key.as_bytes(), &[0u8; 32]);
    assert_eq!(copy.as_bytes(), &[5u8; 32]);
    assert_ne!(AeadKey::new().as_bytes(), AeadKey::new().as_bytes());
}

#[test]
fn clamp_moves_values_into_range() {
    assert_eq!(clamp(5, 10, 20), 10);
    assert_eq!(clamp(25, 10, 20), 20);
    assert_eq!(clamp(15, 10, 20), 15);
    assert_eq!(clamp(10, 10, 20), 10);
    assert_eq!(clamp(20, 10, 20), 20);
}

#[test]
fn kdf_costs_default_and_overridden() {
    assert_eq!(resolve_kdf_costs(None, None), (131_072, 2));
    assert_eq!(resolve_kdf_costs(Some("70000"), Some("3")), (70_000, 3));
    assert_eq!(resolve_kdf_costs(Some("1"), Some("0")), (65_536, 1));
    assert_eq!(resolve_kdf_costs(Some("99999999"), Some("100")), (524_288, 6));
    assert_eq!(resolve_kdf_costs(Some("abc"), Some("")), (131_072, 2));
    assert_eq!(resolve_kdf_costs(Some("-5"), Some("2.5")), (131_072, 2));
    assert_eq!(cost_from_override(None, 1, 6, 2), 2);
    assert_eq!(cost_from_override(Some(9), 1, 6, 2), 6);
}

#[test]
fn kdf_params_are_clamped() {
    let params = KdfParams::with_salt([3u8; 16], 10, 100);
    assert_eq!(params.memory_kib, 65_536);
    assert_eq!(params.time, 6);
    assert_eq!(params.lanes, 1);
    assert_eq!(params.salt, [3u8; 16]);
    let fresh = KdfParams::new(131_072, 2);
    assert_eq!((fresh.memory_kib, fresh.time, fresh.lanes), (131_072, 2, 1));
    assert_ne!(fresh.salt, KdfParams::new(131_072, 2).salt);
    let odd = KdfParams { salt: [0u8; 16], memory_kib: 1_000_000, time: 0, lanes: 2 };
    let fixed = odd.clamped();
    assert_eq!((fixed.memory_kib, fixed.time, fixed.lanes), (524_288, 1, 2));
}

#[test]
fn derive_key_is_deterministic_and_salted() {
    let params = KdfParams::with_salt([3u8; 16], 65_536, 1);
    let a = derive_key("correct horse battery", &params).unwrap();
    let b = derive_key("correct horse battery", &params).unwrap();
    assert_eq!(a, b);
    assert_ne!(a, [0u8; 32]);
    let c = derive_key("correct horse batterz", &params).unwrap();
    assert_ne!(a, c);
    let other = KdfParams::with_salt([4u8; 16], 65_536, 1);
    assert_ne!(a, derive_key("correct horse battery", &other).unwrap());
}

#[test]
fn derive_key_retries_at_the_memory_floor() {
    let low = KdfParams { salt: [3u8; 16], memory_kib: 4, time: 1, lanes: 1 };
    let floor = KdfParams { salt: [3u8; 16], memory_kib: 65_536, time: 1, lanes: 1 };
    assert_eq!(derive_key("passphrase", &low), derive_key("passphrase", &floor));
}

#[test]
fn derive_key_fails_on_unusable_costs() {
    let no_lanes = KdfParams { salt: [3u8; 16], memory_kib: 65_536, time: 1, lanes: 0 };
    assert_eq!(derive_key("passphrase", &no_lanes), Err(ObscuraError::EncryptionFailed));
    let no_time = KdfParams { salt: [3u8; 16], memory_kib: 65_536, time: 0, lanes: 1 };
    assert_eq!(derive_key("passphrase", &no_time), Err(ObscuraError::EncryptionFailed));
    let many = KdfParams { salt: [3u8; 16], memory_kib: 65_536, time: 1, lanes: u32::MAX };
    assert_eq!(derive_key("passphrase", &many), Err(ObscuraError::EncryptionFailed));
    let wide = KdfParams { salt: [3u8; 16], memory_kib: 65_536, time: 1, lanes: 8_193 };
    assert_eq!(derive_key("passphrase", &wide), Err(ObscuraError::EncryptionFailed));
    let huge = KdfParams { salt: [3u8; 16], memory_kib: 524_289, time: 1, lanes: 1 };
    assert_eq!(derive_key("passphrase", &huge), Err(ObscuraError::EncryptionFailed));
    let slow = KdfParams { salt: [3u8; 16], memory_kib: 65_536, time: 7, lanes: 1 };
    assert_eq!(derive_key("passphrase", &slow), Err(ObscuraError::EncryptionFailed));
}

#[test]
fn kdf_result_keeps_its_parameters() {
    let params = KdfParams::with_salt([3u8; 16], 65_536, 1);
    let derived = KdfResult::derive_with_params("passphrase", &params).ok().unwrap();
    assert_eq!(derived.key, derive_key("passphrase", &params).unwrap());
    assert_eq!(derived.params.salt, params.salt);
    let mut fresh = KdfResult::derive("passphrase", 65_536, 1).ok().unwrap();
    assert_eq!(fresh.key, derive_key("passphrase", &fresh.params).unwrap());
    fresh.zeroize();
    assert_eq!(fresh.key, [0u8; 32]);
    assert_eq!(fresh.params.salt, [0u8; 16]);
}
