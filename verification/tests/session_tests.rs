use obscura::cmd::lock::{handle_lock, lock_is_scoped, LockArgs};
use obscura::cmd::unlock::{check_timeout, handle_unlock, UnlockArgs};
use obscura::crypto::aead::AeadKey;
use obscura::session::{SessionData, SessionFile, SessionStore, SessionWrite};
use obscura::util::clock::Timestamp;
use obscura::util::errors::ObscuraError;
use obscura::vault::file::create_vault_file;

fn at(secs: i64) -> Timestamp {
    Timestamp { secs, nanos: 0 }
}

fn dek() -> AeadKey {
    AeadKey::from_bytes([21u8; 32])
}

fn stored(session: &mut SessionFile, key: &str, now: Timestamp, ttl: u64) {
    SessionStore::store_dek_at(session, key.to_string(), key.to_string(), &dek(), now, ttl).unwrap();
}

fn fetched(session: &mut SessionFile, key: &str, now: Timestamp) -> Option<[u8; 32]> {
    SessionStore::fetch_dek_at(session, key, now).0.unwrap().map(|k| *k.as_bytes())
}

#[test]
fn timestamps_compare_by_seconds_then_nanoseconds() {
    let a = Timestamp { secs: 10, nanos: 5 };
    assert!(Timestamp { secs: 11, nanos: 0 }.after(&a));
    assert!(Timestamp { secs: 10, nanos: 6 }.after(&a));
    assert!(!a.after(&a));
    assert!(!Timestamp { secs: 10, nanos: 4 }.after(&a));
    assert!(!Timestamp { secs: 9, nanos: 999 }.after(&a));
}

#[test]
fn store_writes_an_rfc3339_expiration() {
    let mut session = SessionFile::new();
    stored(&mut session, "/v", at(0), 1);
    let entry = session.get("/v").unwrap();
    assert_eq!(entry.expires_at, "1970-01-01T00:01:00+00:00");
    assert_eq!(entry.vault_path, "/v");
    assert_eq!(entry.dek_b64, "FRUVFRUVFRUVFRUVFRUVFRUVFRUVFRUVFRUVFRUVFRU=");
    stored(&mut session, "/w", Timestamp { secs: 1_700_000_000, nanos: 500_000_000 }, 60);
    assert_eq!(session.get("/w").unwrap().expires_at, "2023-11-14T23:13:20.500+00:00");
}

#[test]
fn fetch_returns_the_key_until_the_ttl_has_passed() {
    let mut session = SessionFile::new();
    stored(&mut session, "/v", at(1000), 1);
    assert_eq!(fetched(&mut session, "/v", at(1000)), Some([21u8; 32]));
    assert_eq!(fetched(&mut session, "/v", at(1059)), Some([21u8; 32]));
    assert_eq!(
        fetched(&mut session, "/v", Timestamp { secs: 1059, nanos: 999_999_999 }),
        Some([21u8; 32])
    );
    assert_eq!(fetched(&mut session, "/v", at(1060)), None);
    assert!(session.get("/v").is_none());
    assert_eq!(fetched(&mut session, "/v", at(1000)), None);
}

#[test]
fn fetch_after_a_minute_and_a_second_misses() {
    let mut session = SessionFile::new();
    stored(&mut session, "/v", at(0), 1);
    assert_eq!(fetched(&mut session, "/v", at(0)), Some([21u8; 32]));
    assert_eq!(fetched(&mut session, "/v", at(61)), None);
}

#[test]
fn fetch_purges_and_reports_it() {
    let mut session = SessionFile::new();
    stored(&mut session, "/old", at(0), 1);
    stored(&mut session, "/new", at(0), 10);
    let (found, dirty) = SessionStore::fetch_dek_at(&mut session, "/new", at(30));
    assert!(found.unwrap().is_some());
    assert!(!dirty);
    let (found, dirty) = SessionStore::fetch_dek_at(&mut session, "/new", at(120));
    assert!(found.unwrap().is_some());
    assert!(dirty);
    assert_eq!(session.keys(), vec!["/new".to_string()]);
    let (found, dirty) = SessionStore::fetch_dek_at(&mut session, "/absent", at(120));
    assert!(found.unwrap().is_none());
    assert!(!dirty);
}

#[test]
fn store_purges_expired_entries() {
    let mut session = SessionFile::new();
    stored(&mut session, "/old", at(0), 1);
    stored(&mut session, "/new", at(3600), 1);
    assert_eq!(session.keys(), vec!["/new".to_string()]);
}

#[test]
fn unreadable_expirations_count_as_expired() {
    let mut session = SessionFile::new();
    session.put(
        "/v".to_string(),
        SessionData {
            vault_path: "/v".to_string(),
            dek_b64: "FRUVFRUVFRUVFRUVFRUVFRUVFRUVFRUVFRUVFRUVFRU=".to_string(),
            expires_at: "soon".to_string(),
        },
    );
    assert!(session.purge(at(0)));
    assert!(session.keys().is_empty());
    assert!(!session.purge(at(0)));
}

#[test]
fn entries_written_elsewhere_are_read() {
    let mut session = SessionFile::new();
    session.put(
        "/v".to_string(),
        SessionData {
            vault_path: "/v".to_string(),
            dek_b64: "FRUVFRUVFRUVFRUVFRUVFRUVFRUVFRUVFRUVFRUVFRU=".to_string(),
            expires_at: "2024-01-01T01:00:00+01:00".to_string(),
        },
    );
    let midnight = 1_704_067_200;
    assert_eq!(fetched(&mut session, "/v", at(midnight - 1)), Some([21u8; 32]));
    assert_eq!(fetched(&mut session, "/v", at(midnight)), None);
}

#[test]
fn a_live_entry_with_a_bad_key_is_a_failure() {
    let mut session = SessionFile::new();
    session.put(
        "/v".to_string(),
        SessionData {
            vault_path: "/v".to_string(),
            dek_b64: "AAAA".to_string(),
            expires_at: "2024-01-01T00:00:00+00:00".to_string(),
        },
    );
    let (found, dirty) = SessionStore::fetch_dek_at(&mut session, "/v", at(0));
    assert!(matches!(found, Err(ObscuraError::DecryptionFailed)));
    assert!(!dirty);
}

#[test]
fn unwritable_expirations_are_refused() {
    let mut session = SessionFile::new();
    stored(&mut session, "/keep", at(0), 10);
    let far = SessionStore::store_dek_at(
        &mut session,
        "/v".to_string(),
        "/v".to_string(),
        &dek(),
        at(0),
        u64::MAX,
    );
    assert_eq!(far, Err(ObscuraError::InvalidTimeout));
    let negative = SessionStore::store_dek_at(
        &mut session,
        "/v".to_string(),
        "/v".to_string(),
        &dek(),
        at(-1),
        1,
    );
    assert_eq!(negative, Err(ObscuraError::InvalidTimeout));
    let edge = SessionStore::store_dek_at(
        &mut session,
        "/v".to_string(),
        "/v".to_string(),
        &dek(),
        at(253_402_300_800 - 60),
        1,
    );
    assert_eq!(edge, Err(ObscuraError::InvalidTimeout));
    assert_eq!(session.keys(), vec!["/keep".to_string()]);
    stored(&mut session, "/last", at(253_402_300_800 - 61), 1);
    assert_eq!(session.get("/last").unwrap().expires_at, "9999-12-31T23:59:59+00:00");
}

#[test]
fn store_and_fetch_by_the_wall_clock() {
    let mut session = SessionFile::new();
    SessionStore::store_dek(&mut session, "/v".to_string(), "/v".to_string(), &dek(), 5).unwrap();
    let (found, dirty) = SessionStore::fetch_dek(&mut session, "/v");
    assert_eq!(found.unwrap().map(|k| *k.as_bytes()), Some([21u8; 32]));
    assert!(!dirty);
    SessionStore::store_dek(&mut session, "/gone".to_string(), "/gone".to_string(), &dek(), 0)
        .unwrap();
    let (found, dirty) = SessionStore::fetch_dek(&mut session, "/gone");
    assert!(found.unwrap().is_none());
    assert!(dirty);
}

#[test]
fn storing_keeps_other_live_entries_unchanged() {
    let mut session = SessionFile::new();
    SessionStore::store_dek(&mut session, "/a".to_string(), "/a".to_string(), &dek(), 5).unwrap();
    let before = session.get("/a").unwrap().clone();
    SessionStore::store_dek(&mut session, "/b".to_string(), "/b".to_string(), &dek(), 5).unwrap();
    assert_eq!(session.get("/a"), Some(&before));
    assert_eq!(
        SessionStore::store_dek(&mut session, "/c".to_string(), "/c".to_string(), &dek(), u64::MAX),
        Err(ObscuraError::InvalidTimeout)
    );
    assert_eq!(
        SessionStore::store_dek(
            &mut session,
            "/c".to_string(),
            "/c".to_string(),
            &dek(),
            253_402_300_800 / 60
        ),
        Err(ObscuraError::InvalidTimeout)
    );
    assert_eq!(session.keys(), vec!["/a".to_string(), "/b".to_string()]);
    let (found, dirty) = SessionStore::fetch_dek(&mut session, "/absent");
    assert!(matches!(found, Ok(None)));
    assert!(!dirty);
}

#[test]
fn clearing_one_or_all() {
    let mut session = SessionFile::new();
    stored(&mut session, "/a", at(0), 10);
    stored(&mut session, "/b", at(0), 10);
    assert_eq!(SessionStore::clear(&mut session, Some("/nope")), SessionWrite::Nothing);
    assert_eq!(SessionStore::clear(&mut session, Some("/a")), SessionWrite::Save);
    assert_eq!(session.keys(), vec!["/b".to_string()]);
    assert_eq!(SessionStore::clear(&mut session, None), SessionWrite::DeleteFile);
    assert!(session.keys().is_empty());
    stored(&mut session, "/c", at(0), 10);
    assert_eq!(handle_lock(&mut session, Some("/c")), SessionWrite::Save);
    assert_eq!(handle_lock(&mut session, None), SessionWrite::DeleteFile);
    assert!(lock_is_scoped(&LockArgs { global: true, project: false }));
    assert!(lock_is_scoped(&LockArgs { global: false, project: true }));
    assert!(!lock_is_scoped(&LockArgs { global: false, project: false }));
}

#[test]
fn session_key_is_derived_from_the_identity() {
    let a = SessionStore::derive_session_key(Some("me"), Some("/home/me"), Some("box")).unwrap();
    let b = SessionStore::derive_session_key(Some("me"), Some("/home/me"), Some("box")).unwrap();
    assert_eq!(a.as_bytes(), b.as_bytes());
    let c = SessionStore::derive_session_key(Some("you"), Some("/home/me"), Some("box")).unwrap();
    assert_ne!(a.as_bytes(), c.as_bytes());
    let unknown = SessionStore::derive_session_key(None, None, None).unwrap();
    let spelled =
        SessionStore::derive_session_key(Some("unknown"), Some("unknown"), Some("unknown")).unwrap();
    assert_eq!(unknown.as_bytes(), spelled.as_bytes());
    assert_ne!(a.as_bytes(), &[0u8; 32]);
}

#[test]
fn stored_sessions_are_nonce_then_ciphertext() {
    let key = dek();
    let stored = SessionStore::encrypt_session_data(b"{\"entries\":{}}", &key).unwrap();
    assert_eq!(stored.len(), 24 + 14 + 16);
    assert_eq!(SessionStore::decrypt_session_data(&stored, &key), Ok(b"{\"entries\":{}}".to_vec()));
    let again = SessionStore::encrypt_session_data(b"{\"entries\":{}}", &key).unwrap();
    assert_ne!(stored[..24], again[..24]);
    let other = AeadKey::from_bytes([1u8; 32]);
    assert_eq!(
        SessionStore::decrypt_session_data(&stored, &other),
        Err(ObscuraError::DecryptionFailed)
    );
    assert_eq!(
        SessionStore::decrypt_session_data(&stored[..23], &key),
        Err(ObscuraError::DecryptionFailed)
    );
    assert_eq!(
        SessionStore::decrypt_session_data(&stored[..24], &key),
        Err(ObscuraError::DecryptionFailed)
    );
    let mut tampered = stored.clone();
    tampered[30] ^= 1;
    assert_eq!(
        SessionStore::decrypt_session_data(&tampered, &key),
        Err(ObscuraError::DecryptionFailed)
    );
}

#[test]
fn normalized_keys_fall_back_to_the_given_path() {
    assert_eq!(SessionStore::normalize_path(Some("/real/v"), "v"), "/real/v");
    assert_eq!(SessionStore::normalize_path(None, "v"), "v");
}

#[test]
fn unlock_rules() {
    let zero = UnlockArgs { timeout: 0, global: false, project: false };
    assert_eq!(check_timeout(&zero), Err(ObscuraError::InvalidTimeout));
    let one = UnlockArgs { timeout: 1, global: false, project: false };
    assert_eq!(check_timeout(&one), Ok(()));

    let file = create_vault_file("correct horse battery", 65_536, 1, b"{}").unwrap();
    let mut session = SessionFile::new();
    assert_eq!(
        handle_unlock(&zero, &file, "correct horse battery", &mut session, "/v".to_string(), "/v".to_string()),
        Err(ObscuraError::InvalidTimeout)
    );
    assert_eq!(
        handle_unlock(&one, &file, "wrong passphrase", &mut session, "/v".to_string(), "/v".to_string()),
        Err(ObscuraError::DecryptionFailed)
    );
    assert!(session.keys().is_empty());
    assert_eq!(
        handle_unlock(&one, &file, "correct horse battery", &mut session, "/v".to_string(), "/v".to_string()),
        Ok(())
    );
    let (found, _) = SessionStore::fetch_dek(&mut session, "/v");
    assert!(found.unwrap().is_some());
}
