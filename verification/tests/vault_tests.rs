use obscura::crypto::aead::AeadKey;
use obscura::crypto::kdf::{derive_key, KdfParams as CryptoKdfParams};
use obscura::util::encoding::{decode_exact, encode, encode_short, to_array, utf8_text};
use obscura::util::errors::ObscuraError;
use obscura::vault::file::{
    create_vault_file, decrypt_vault, decrypt_vault_with_dek, encrypt_and_save_vault,
    read_vault_file, unwrap_dek, wrap_dek, VaultRead,
};
use obscura::vault::model::{
    decrypt_value, encrypt_value, EncryptedData, KdfParams, KdfParamsInner, VaultBody, VaultFile,
};

const EMPTY_MAP: &[u8] = b"{\"aliases\":{}}";

fn flip_first(text: &str) -> String {
    let mut chars: Vec<char> = text.chars().collect();
    chars[0] = if chars[0] == 'A' { 'B' } else { 'A' };
    chars.into_iter().collect()
}

fn small_vault(passphrase: &str) -> VaultFile {
    create_vault_file(passphrase, 65_536, 1, EMPTY_MAP).unwrap()
}

#[test]
fn base64_known_values() {
    assert_eq!(encode_short(&[3u8; 16]), "AwMDAwMDAwMDAwMDAwMDAw==");
    assert_eq!(encode(b"hello world~"), Some("aGVsbG8gd29ybGR+".to_string()));
    assert_eq!(encode(b""), Some(String::new()));
    assert_eq!(decode_exact::<16>("AwMDAwMDAwMDAwMDAwMDAw=="), Some([3u8; 16]));
    assert_eq!(decode_exact::<15>("AwMDAwMDAwMDAwMDAwMDAw=="), None);
    assert_eq!(decode_exact::<16>("not base64!"), None);
    assert_eq!(decode_exact::<0>(""), Some([]));
}

#[test]
fn to_array_checks_length() {
    assert_eq!(to_array::<3>(&[1, 2, 3]), Some([1, 2, 3]));
    assert_eq!(to_array::<3>(&[1, 2]), None);
    assert_eq!(to_array::<3>(&[1, 2, 3, 4]), None);
}

#[test]
fn utf8_text_accepts_only_valid_utf8() {
    assert_eq!(utf8_text("päss".as_bytes().to_vec()), Some("päss".to_string()));
    assert_eq!(utf8_text(vec![0xff, 0xfe]), None);
    assert_eq!(utf8_text(Vec::new()), Some(String::new()));
}

#[test]
fn value_round_trip() {
    let dek = AeadKey::from_bytes([9u8; 32]);
    let sealed = encrypt_value("sk-test-42", &dek).unwrap();
    assert_ne!(sealed.ciphertext_b64, "sk-test-42");
    assert_eq!(decrypt_value(&sealed, &dek), Ok("sk-test-42".to_string()));
    let other = AeadKey::from_bytes([8u8; 32]);
    assert_eq!(decrypt_value(&sealed, &other), Err(ObscuraError::DecryptionFailed));
}

#[test]
fn value_envelopes_use_fresh_nonces() {
    let dek = AeadKey::from_bytes([9u8; 32]);
    let a = encrypt_value("same", &dek).unwrap();
    let b = encrypt_value("same", &dek).unwrap();
    assert_ne!(a.nonce_b64, b.nonce_b64);
    assert_ne!(a.ciphertext_b64, b.ciphertext_b64);
}

#[test]
fn malformed_envelopes_fail_opaquely() {
    let dek = AeadKey::from_bytes([9u8; 32]);
    let good = encrypt_value("value", &dek).unwrap();
    let bad_nonce = EncryptedData {
        nonce_b64: "***".to_string(),
        ciphertext_b64: good.ciphertext_b64.clone(),
    };
    assert_eq!(decrypt_value(&bad_nonce, &dek), Err(ObscuraError::DecryptionFailed));
    let short_nonce = EncryptedData {
        nonce_b64: encode_short(&[1u8; 12]),
        ciphertext_b64: good.ciphertext_b64.clone(),
    };
    assert_eq!(decrypt_value(&short_nonce, &dek), Err(ObscuraError::DecryptionFailed));
    let bad_ciphertext = EncryptedData {
        nonce_b64: good.nonce_b64.clone(),
        ciphertext_b64: "%%%".to_string(),
    };
    assert_eq!(decrypt_value(&bad_ciphertext, &dek), Err(ObscuraError::DecryptionFailed));
    let not_text = EncryptedData::seal(&[0xff, 0xfe], &dek, b"").unwrap();
    assert_eq!(decrypt_value(&not_text, &dek), Err(ObscuraError::DecryptionFailed));
}

#[test]
fn dek_wrap_round_trip() {
    let dek = AeadKey::from_bytes([5u8; 32]);
    let kek = [6u8; 32];
    let wrapped = wrap_dek(&dek, &kek).unwrap();
    let back = unwrap_dek(&wrapped, &kek).unwrap();
    assert_eq!(back.as_bytes(), dek.as_bytes());
    assert!(unwrap_dek(&wrapped, &[7u8; 32]).is_err());
    let again = wrap_dek(&dek, &kek).unwrap();
    assert_ne!(wrapped.nonce_b64, again.nonce_b64);
}

#[test]
fn unwrap_dek_rejects_wrong_length() {
    let kek = [6u8; 32];
    let kek_key = AeadKey::from_bytes(kek);
    let short = EncryptedData::seal(&[1u8; 31], &kek_key, b"").unwrap();
    assert!(matches!(unwrap_dek(&short, &kek), Err(ObscuraError::DecryptionFailed)));
    let long = EncryptedData::seal(&[1u8; 33], &kek_key, b"").unwrap();
    assert!(matches!(unwrap_dek(&long, &kek), Err(ObscuraError::DecryptionFailed)));
}

#[test]
fn kdf_record_round_trip_and_clamping() {
    let params = CryptoKdfParams::with_salt([3u8; 16], 131_072, 2);
    let record = KdfParams::from_crypto(&params);
    assert_eq!(record.alg, "argon2id");
    assert_eq!(record.salt_b64, "AwMDAwMDAwMDAwMDAwMDAw==");
    assert_eq!(record.params, KdfParamsInner { mem_kib: 131_072, time: 2, lanes: 1 });
    let back = record.to_crypto().unwrap();
    assert_eq!(back.salt, [3u8; 16]);
    assert_eq!((back.memory_kib, back.time, back.lanes), (131_072, 2, 1));

    let wild = KdfParams {
        alg: "argon2id".to_string(),
        salt_b64: "AwMDAwMDAwMDAwMDAwMDAw==".to_string(),
        params: KdfParamsInner { mem_kib: 8, time: 99, lanes: 3 },
    };
    let read = wild.to_crypto().unwrap();
    assert_eq!((read.memory_kib, read.time, read.lanes), (65_536, 6, 3));

    let broken = KdfParams {
        alg: "argon2id".to_string(),
        salt_b64: "AAAA".to_string(),
        params: KdfParamsInner { mem_kib: 65_536, time: 1, lanes: 1 },
    };
    assert!(broken.to_crypto().is_none());
}

#[test]
fn vault_file_assembly() {
    let params = CryptoKdfParams::with_salt([3u8; 16], 65_536, 1);
    let wrapped = EncryptedData { nonce_b64: "n".to_string(), ciphertext_b64: "c".to_string() };
    let body = VaultBody { nonce_b64: "bn".to_string(), ciphertext_b64: "bc".to_string() };
    let file =
        VaultFile::assemble(params, wrapped.clone(), body.clone(), "2024-01-01T00:00:00+00:00".to_string());
    assert_eq!(file.version, 1);
    assert_eq!(file.created_at, "2024-01-01T00:00:00+00:00");
    assert_eq!(file.kdf.alg, "argon2id");
    assert_eq!(file.dek_wrapped, wrapped);
    assert_eq!(file.body, body);
    let header = file.header();
    assert_eq!(header.version, 1);
    assert_eq!(header.kdf, file.kdf);
    assert_eq!(header.dek_wrapped, wrapped);
    let other = VaultBody { nonce_b64: "x".to_string(), ciphertext_b64: "y".to_string() };
    let replaced = file.with_body(other.clone());
    assert_eq!(replaced.body, other);
    assert_eq!(replaced.created_at, file.created_at);
    assert_eq!(replaced.kdf, file.kdf);
    let fresh = VaultFile::new(params, wrapped, body);
    assert_eq!(fresh.version, 1);
    assert!(fresh.created_at.contains('T'));
}

#[test]
fn create_then_open_with_same_passphrase() {
    let file = small_vault("correct horse battery");
    assert_eq!(file.version, 1);
    assert_eq!(file.kdf.alg, "argon2id");
    assert_eq!(file.kdf.params, KdfParamsInner { mem_kib: 65_536, time: 1, lanes: 1 });
    assert_eq!(decode_exact::<16>(&file.kdf.salt_b64).map(|s| s.len()), Some(16));
    assert!(decode_exact::<24>(&file.dek_wrapped.nonce_b64).is_some());
    assert!(decode_exact::<48>(&file.dek_wrapped.ciphertext_b64).is_some());
    assert!(decode_exact::<24>(&file.body.nonce_b64).is_some());
    assert!(decode_exact::<30>(&file.body.ciphertext_b64).is_some());
    let clamped = create_vault_file("correct horse battery", 1, 0, EMPTY_MAP).unwrap();
    assert_eq!(clamped.kdf.params, KdfParamsInner { mem_kib: 65_536, time: 1, lanes: 1 });
    let (dek, body) = decrypt_vault(&file, "correct horse battery").unwrap();
    assert_eq!(body, EMPTY_MAP.to_vec());
    assert_eq!(decrypt_vault_with_dek(&file, &dek), Ok(EMPTY_MAP.to_vec()));
    let kek = derive_key("correct horse battery", &file.kdf.to_crypto().unwrap()).unwrap();
    assert_eq!(unwrap_dek(&file.dek_wrapped, &kek).unwrap().as_bytes(), dek.as_bytes());
}

#[test]
fn wrong_passphrase_fails_and_changes_nothing() {
    let file = small_vault("correct horse battery");
    let before = file.clone();
    assert!(matches!(
        decrypt_vault(&file, "correct horse batterz"),
        Err(ObscuraError::DecryptionFailed)
    ));
    assert_eq!(file, before);
}

#[test]
fn tampered_wrapped_key_fails() {
    let mut file = small_vault("correct horse battery");
    file.dek_wrapped.ciphertext_b64 = flip_first(&file.dek_wrapped.ciphertext_b64);
    assert!(matches!(
        decrypt_vault(&file, "correct horse battery"),
        Err(ObscuraError::DecryptionFailed)
    ));
}

#[test]
fn tampered_wrapped_key_nonce_fails() {
    let mut file = small_vault("correct horse battery");
    file.dek_wrapped.nonce_b64 = flip_first(&file.dek_wrapped.nonce_b64);
    assert!(matches!(
        decrypt_vault(&file, "correct horse battery"),
        Err(ObscuraError::DecryptionFailed)
    ));
}

#[test]
fn tampered_salt_fails() {
    let mut file = small_vault("correct horse battery");
    file.kdf.salt_b64 = flip_first(&file.kdf.salt_b64);
    assert!(matches!(
        decrypt_vault(&file, "correct horse battery"),
        Err(ObscuraError::DecryptionFailed)
    ));
}

#[test]
fn tampered_body_fails() {
    let file = small_vault("correct horse battery");
    let (dek, _) = decrypt_vault(&file, "correct horse battery").unwrap();
    let mut bad_text = file.clone();
    bad_text.body.ciphertext_b64 = flip_first(&file.body.ciphertext_b64);
    assert_eq!(decrypt_vault_with_dek(&bad_text, &dek), Err(ObscuraError::DecryptionFailed));
    let mut bad_nonce = file.clone();
    bad_nonce.body.nonce_b64 = flip_first(&file.body.nonce_b64);
    assert_eq!(decrypt_vault_with_dek(&bad_nonce, &dek), Err(ObscuraError::DecryptionFailed));
    assert!(matches!(
        decrypt_vault(&bad_text, "correct horse battery"),
        Err(ObscuraError::DecryptionFailed)
    ));
}

#[test]
fn saving_refreshes_the_body_nonce_and_keeps_the_header() {
    let file = small_vault("correct horse battery");
    let (dek, _) = decrypt_vault(&file, "correct horse battery").unwrap();
    let json = b"{\"aliases\":{\"A\":1}}";
    let first = encrypt_and_save_vault(&file, json, &dek).unwrap();
    let second = encrypt_and_save_vault(&file, json, &dek).unwrap();
    assert_ne!(first.body.nonce_b64, second.body.nonce_b64);
    assert_ne!(first.body.nonce_b64, file.body.nonce_b64);
    assert_eq!(first.header(), file.header());
    assert_eq!(decrypt_vault_with_dek(&first, &dek), Ok(json.to_vec()));
    let (again, body) = decrypt_vault(&second, "correct horse battery").unwrap();
    assert_eq!(again.as_bytes(), dek.as_bytes());
    assert_eq!(body, json.to_vec());
}

#[test]
fn two_vaults_differ_in_salt_key_and_nonces() {
    let a = small_vault("correct horse battery");
    let b = small_vault("correct horse battery");
    assert_ne!(a.kdf.salt_b64, b.kdf.salt_b64);
    assert_ne!(a.dek_wrapped.nonce_b64, b.dek_wrapped.nonce_b64);
    assert_ne!(a.body.nonce_b64, b.body.nonce_b64);
}

#[test]
fn read_vault_file_accepts_version_one_only() {
    assert_eq!(read_vault_file(VaultRead::Missing), Err(ObscuraError::VaultNotFound));
    assert_eq!(read_vault_file(VaultRead::Malformed), Err(ObscuraError::InvalidVaultFormat));
    let params = CryptoKdfParams::with_salt([3u8; 16], 65_536, 1);
    let wrapped = EncryptedData { nonce_b64: "n".to_string(), ciphertext_b64: "c".to_string() };
    let body = VaultBody { nonce_b64: "bn".to_string(), ciphertext_b64: "bc".to_string() };
    let file = VaultFile::assemble(params, wrapped, body, "t".to_string());
    assert_eq!(read_vault_file(VaultRead::Parsed(file.clone())), Ok(file.clone()));
    let mut newer = file.clone();
    newer.version = 2;
    assert_eq!(read_vault_file(VaultRead::Parsed(newer)), Err(ObscuraError::InvalidVaultFormat));
    let mut zero = file;
    zero.version = 0;
    assert_eq!(read_vault_file(VaultRead::Parsed(zero)), Err(ObscuraError::InvalidVaultFormat));
}
