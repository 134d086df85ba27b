//! The file-backed session store: data-encryption keys cached until an
//! absolute expiration time, and the sealed form in which they rest on disk.

use crate::crypto::aead::{
    decrypt_spec, decrypt_with_key, sealable_len, AeadKey, AeadResult, NONCE_LEN, TAG_LEN,
};
use crate::crypto::kdf::{argon2id, spec_argon2id, MAX_PASSWORD_LEN};
use crate::util::paths::opt_text;
use crate::util::clock::{
    format_rfc3339, now_timestamp, parse_rfc3339, spec_parse_rfc3339, Timestamp, RFC3339_END,
};
use crate::util::encoding::{decode_exact, decode_exact_spec, encode_short, to_array};
use crate::util::errors::{ObscuraError, ObscuraResult};
use crate::util::text::{lemma_take_contains, texts};
use crate::util::text_map::TextMap;
use vstd::prelude::*;
use vstd::slice::slice_subrange;
use vstd::string::*;
use vstd::utf8::*;

verus! {

/// What a cached session entry holds.
pub struct SessionDataView {
    pub vault_path: Seq<char>,
    pub dek_b64: Seq<char>,
    pub expires_at: Seq<char>,
}

/// One cached key: the vault it belongs to, the key as base64 and the
/// RFC 3339 time at which it expires.
#[derive(Debug, PartialEq, Eq)]
pub struct SessionData {
    pub vault_path: String,
    pub dek_b64: String,
    pub expires_at: String,
}

impl View for SessionData {
    type V = SessionDataView;

    open spec fn view(&self) -> SessionDataView {
        SessionDataView {
            vault_path: self.vault_path@,
            dek_b64: self.dek_b64@,
            expires_at: self.expires_at@,
        }
    }
}

impl Clone for SessionData {
    fn clone(&self) -> (res: Self)
        ensures
            res@ == self@,
    {
        SessionData {
            vault_path: self.vault_path.clone(),
            dek_b64: self.dek_b64.clone(),
            expires_at: self.expires_at.clone(),
        }
    }
}

/// Whether an entry is still good at `now`: its expiration reads as a time
/// strictly after `now`. An expiration that does not read as a time is
/// treated as passed.
pub open spec fn entry_live(entry: SessionDataView, now: Timestamp) -> bool {
    match spec_parse_rfc3339(entry.expires_at) {
        Some(expires) => expires.is_after(now),
        None => false,
    }
}

/// The entries that are still good at `now`.
pub open spec fn live_entries(entries: Map<Seq<char>, SessionDataView>, now: Timestamp) -> Map<
    Seq<char>,
    SessionDataView,
> {
    Map::new(
        |key: Seq<char>| entries.contains_key(key) && entry_live(entries[key], now),
        |key: Seq<char>| entries[key],
    )
}

/// When a key stored at `now` for `ttl_minutes` expires, or `None` where
/// that time cannot be written down.
pub open spec fn expiry_spec(now: Timestamp, ttl_minutes: u64) -> Option<Timestamp> {
    if now.writable() && now.secs + ttl_minutes * 60 < RFC3339_END {
        Some(Timestamp { secs: (now.secs + ttl_minutes * 60) as i64, nanos: now.nanos })
    } else {
        None
    }
}

/// What fetching a key yields at `now`: the key of a live entry, nothing
/// where there is no live entry, and a failure where a live entry does not
/// hold 32 bytes of base64.
pub open spec fn fetch_spec(
    entries: Map<Seq<char>, SessionDataView>,
    key: Seq<char>,
    now: Timestamp,
) -> Result<Option<Seq<u8>>, ObscuraError> {
    if entries.contains_key(key) && entry_live(entries[key], now) {
        match decode_exact_spec(entries[key].dek_b64, 32) {
            Some(dek) => Ok(Some(dek)),
            None => Err(ObscuraError::DecryptionFailed),
        }
    } else {
        Ok(None)
    }
}

/// The cached keys, by normalized vault path.
pub struct SessionFile {
    entries: TextMap<SessionData>,
}

impl View for SessionFile {
    type V = Map<Seq<char>, SessionDataView>;

    closed spec fn view(&self) -> Map<Seq<char>, SessionDataView> {
        self.entries@
    }
}

spec fn purged_prefix(
    entries: Map<Seq<char>, SessionDataView>,
    names: Seq<Seq<char>>,
    done: int,
    now: Timestamp,
) -> Map<Seq<char>, SessionDataView> {
    Map::new(
        |key: Seq<char>|
            entries.contains_key(key) && (names.take(done).contains(key) ==> entry_live(
                entries[key],
                now,
            )),
        |key: Seq<char>| entries[key],
    )
}

/// What has to happen to the stored session after an operation.
#[derive(Debug, Clone, Copy, PartialEq, Eq, Structural)]
pub enum SessionWrite {
    /// The stored session is as it should be.
    Nothing,
    /// The session changed and has to be written.
    Save,
    /// The stored session has to be removed.
    DeleteFile,
}

impl SessionFile {
    /// The vault paths in the order in which they are listed.
    pub closed spec fn names(&self) -> Seq<Seq<char>> {
        self.entries.names()
    }

    /// An empty session.
    pub fn new() -> (session: Self)
        ensures
            session@ == Map::<Seq<char>, SessionDataView>::empty(),
    {
        SessionFile { entries: TextMap::new() }
    }

    /// Stores an entry under a key, replacing what was stored there.
    pub fn put(&mut self, key: String, data: SessionData)
        ensures
            final(self)@ == old(self)@.insert(key@, data@),
    {
        self.entries.put(key, data);
    }

    /// The entry stored under a key, if there is one.
    pub fn get(&self, key: &str) -> (entry: Option<&SessionData>)
        ensures
            entry is Some <==> self@.contains_key(key@),
            entry matches Some(data) ==> data@ == self@[key@],
    {
        self.entries.get(key)
    }

    /// The keys, each once: the keys of the map and nothing else.
    pub fn keys(&self) -> (names: Vec<String>)
        ensures
            texts(names@) == self.names(),
            self.names().no_duplicates(),
            forall|name: Seq<char>| self.names().contains(name) <==> self@.contains_key(name),
    {
        self.entries.keys()
    }

    /// Drops every entry that is no longer good at `now` and says whether
    /// any was dropped.
    pub fn purge(&mut self, now: Timestamp) -> (dirty: bool)
        ensures
            final(self)@ == live_entries(old(self)@, now),
            dirty == (final(self)@ != old(self)@),
    {
        let keys = self.entries.keys();
        let ghost start = self@;
        let ghost names = texts(keys@);
        let mut dirty = false;
        let mut i: usize = 0;
        proof {
            assert(names.take(0) =~= Seq::<Seq<char>>::empty());
            assert(self@ =~= purged_prefix(start, names, 0, now));
        }
        while i < keys.len()
            invariant
                i <= keys@.len(),
                names == texts(keys@),
                start == old(self)@,
                forall|name: Seq<char>| names.contains(name) <==> start.contains_key(name),
                self@ == purged_prefix(start, names, i as int, now),
                dirty <==> exists|key: Seq<char>|
                    start.contains_key(key) && !(#[trigger] self@.contains_key(key)),
            decreases keys@.len() - i,
        {
            let ghost name = names[i as int];
            proof {
                assert(names.contains(name));
                assert(keys@[i as int]@ == name);
                lemma_take_contains(names, i as int);
            }
            let live = match self.entries.get(keys[i].as_str()) {
                Some(data) => match parse_rfc3339(data.expires_at.as_str()) {
                    Some(expires) => expires.after(&now),
                    None => false,
                },
                None => false,
            };
            if !live {
                let ghost before = self@;
                self.entries.remove(keys[i].as_str());
                proof {
                    assert(start.contains_key(name) && !self@.contains_key(name));
                    assert(before.remove(name) =~= purged_prefix(start, names, i + 1, now));
                }
                dirty = true;
            } else {
                proof {
                    assert(self@ =~= purged_prefix(start, names, i + 1, now));
                }
            }
            i = i + 1;
        }
        proof {
            assert(names.take(keys@.len() as int) =~= names);
            assert(self@ =~= live_entries(start, now));
            if !dirty {
                assert(self@ =~= start);
            }
        }
        dirty
    }
}

/// The operations of the session cache.
pub struct SessionStore;

/// The associated data under which a stored session is sealed.
pub open spec fn session_aad() -> Seq<u8> {
    encode_utf8("obscura_session"@)
}

/// The salt under which the session key is derived.
pub open spec fn session_salt() -> Seq<u8> {
    encode_utf8("obscura_session_salt"@)
}

/// The text that identifies a user to the session store: user name, home
/// directory and host name joined by `-`, each `unknown` where it is not
/// known.
pub open spec fn session_identity_spec(
    user: Option<Seq<char>>,
    home: Option<Seq<char>>,
    hostname: Option<Seq<char>>,
) -> Seq<char> {
    or_unknown(user) + seq!['-'] + or_unknown(home) + seq!['-'] + or_unknown(hostname)
}

/// A text, or `unknown` in its place.
pub open spec fn or_unknown(text: Option<Seq<char>>) -> Seq<char> {
    match text {
        Some(t) => t,
        None => "unknown"@,
    }
}

/// The stored form of a session: the 24-byte nonce followed by the
/// ciphertext. What opening it under a key yields.
pub open spec fn decrypt_session_spec(stored: Seq<u8>, key: Seq<u8>) -> Result<
    Seq<u8>,
    ObscuraError,
> {
    if stored.len() < NONCE_LEN {
        Err(ObscuraError::DecryptionFailed)
    } else {
        decrypt_spec(
            stored.skip(NONCE_LEN as int),
            key,
            stored.take(NONCE_LEN as int),
            session_aad(),
        )
    }
}

proof fn lemma_salt_len()
    ensures
        session_salt().len() == 20,
{
    reveal_strlit("obscura_session_salt");
    let chars = "obscura_session_salt"@;
    assert(is_ascii_chars(chars)) by {
        assert forall|i: int| 0 <= i < chars.len() implies 0 <= (#[trigger] chars[i]) as nat
            <= 127 by {}
    }
    is_ascii_chars_encode_utf8(chars);
}

impl SessionStore {
    /// Caches `dek` for the vault at `key` until `ttl_minutes` after `now`,
    /// after dropping what has expired. Fails, changing nothing, where the
    /// expiration cannot be written down.
    pub fn store_dek_at(
        session: &mut SessionFile,
        key: String,
        vault_path: String,
        dek: &AeadKey,
        now: Timestamp,
        ttl_minutes: u64,
    ) -> (res: ObscuraResult<()>)
        ensures
            match expiry_spec(now, ttl_minutes) {
                Some(expires) => {
                    &&& res is Ok
                    &&& final(session)@.dom() == live_entries(old(session)@, now).dom().insert(key@)
                    &&& forall|other: Seq<char>|
                        other != key@ && #[trigger] final(session)@.contains_key(other)
                            ==> final(session)@[other] == old(session)@[other]
                    &&& final(session)@[key@].vault_path == vault_path@
                    &&& decode_exact_spec(final(session)@[key@].dek_b64, 32) == Some(dek@)
                    &&& spec_parse_rfc3339(final(session)@[key@].expires_at) == Some(expires)
                },
                None => res matches Err(e) && e == ObscuraError::InvalidTimeout && final(session)@
                    == old(session)@,
            },
    {
        if now.secs < 0 || now.secs >= RFC3339_END || now.nanos >= 1_000_000_000 {
            return Err(ObscuraError::InvalidTimeout);
        }
        if ttl_minutes > (RFC3339_END as u64) / 60 {
            return Err(ObscuraError::InvalidTimeout);
        }
        let secs: i64 = now.secs + (ttl_minutes * 60) as i64;
        if secs >= RFC3339_END {
            return Err(ObscuraError::InvalidTimeout);
        }
        let expires = Timestamp { secs, nanos: now.nanos };
        let expires_at = match format_rfc3339(expires) {
            Some(text) => text,
            None => { return Err(ObscuraError::InvalidTimeout); },
        };
        session.purge(now);
        let dek_bytes = dek.as_bytes();
        let data = SessionData {
            vault_path,
            dek_b64: encode_short(dek_bytes.as_slice()),
            expires_at,
        };
        session.put(key, data);
        Ok(())
    }

    /// Caches `dek` for `ttl_minutes` from now, after dropping what has
    /// expired. Entries of other vaults are kept as they were or dropped,
    /// never changed. A lifetime that reaches beyond the year 9999 is
    /// refused whatever the clock says, and a refusal changes nothing.
    pub fn store_dek(
        session: &mut SessionFile,
        key: String,
        vault_path: String,
        dek: &AeadKey,
        ttl_minutes: u64,
    ) -> (res: ObscuraResult<()>)
        ensures
            res is Ok ==> {
                &&& final(session)@.contains_key(key@)
                &&& final(session)@[key@].vault_path == vault_path@
                &&& decode_exact_spec(final(session)@[key@].dek_b64, 32) == Some(dek@)
                &&& forall|other: Seq<char>|
                    other != key@ && #[trigger] final(session)@.contains_key(other) ==> {
                        &&& old(session)@.contains_key(other)
                        &&& final(session)@[other] == old(session)@[other]
                    }
            },
            res matches Err(e) ==> {
                &&& e == ObscuraError::InvalidTimeout
                &&& final(session)@ == old(session)@
            },
            ttl_minutes * 60 >= RFC3339_END ==> res is Err,
    {
        Self::store_dek_at(session, key, vault_path, dek, now_timestamp(), ttl_minutes)
    }

    /// Drops what has expired at `now`, then looks the key of a vault up.
    /// The second part of the result says whether anything was dropped, so
    /// that the session has to be written back.
    pub fn fetch_dek_at(session: &mut SessionFile, key: &str, now: Timestamp) -> (res: (
        ObscuraResult<Option<AeadKey>>,
        bool,
    ))
        ensures
            final(session)@ == live_entries(old(session)@, now),
            res.1 == (final(session)@ != old(session)@),
            match fetch_spec(old(session)@, key@, now) {
                Ok(Some(dek)) => res.0 matches Ok(Some(found)) && found@ == dek,
                Ok(None) => res.0 matches Ok(None),
                Err(e) => res.0 matches Err(got) && got == e,
            },
    {
        let dirty = session.purge(now);
        let found = match session.get(key) {
            Some(entry) => match decode_exact::<32>(entry.dek_b64.as_str()) {
                Some(dek) => Ok(Some(AeadKey::from_bytes(dek))),
                None => Err(ObscuraError::DecryptionFailed),
            },
            None => Ok(None),
        };
        (found, dirty)
    }

    /// Drops what has expired by now, then looks the key of a vault up. A
    /// vault without an entry has no key; the lookup fails only on an entry
    /// that does not hold 32 bytes of base64.
    pub fn fetch_dek(session: &mut SessionFile, key: &str) -> (res: (
        ObscuraResult<Option<AeadKey>>,
        bool,
    ))
        ensures
            res.1 == (final(session)@ != old(session)@),
            forall|other: Seq<char>| #[trigger]
                final(session)@.contains_key(other) ==> old(session)@.contains_key(other)
                    && final(session)@[other] == old(session)@[other],
            res.0 matches Ok(Some(found)) ==> final(session)@.contains_key(key@)
                && decode_exact_spec(final(session)@[key@].dek_b64, 32) == Some(found@),
            res.0 matches Ok(None) ==> !final(session)@.contains_key(key@),
            res.0 matches Err(e) ==> e == ObscuraError::DecryptionFailed,
            !old(session)@.contains_key(key@) ==> res.0 matches Ok(None),
            res.0 is Err ==> old(session)@.contains_key(key@) && decode_exact_spec(
                old(session)@[key@].dek_b64,
                32,
            ) is None,
            res.0 matches Ok(Some(found)) ==> old(session)@.contains_key(key@)
                && decode_exact_spec(old(session)@[key@].dek_b64, 32) == Some(found@),
    {
        Self::fetch_dek_at(session, key, now_timestamp())
    }

    /// Forgets the key of one vault, or every key. Says what has to happen
    /// to the stored session: nothing where the vault had no entry, a write
    /// where it had one, removal of the store where everything is forgotten.
    pub fn clear(session: &mut SessionFile, key: Option<&str>) -> (write: SessionWrite)
        ensures
            match key {
                Some(k) => {
                    &&& final(session)@ == old(session)@.remove(k@)
                    &&& write == if old(session)@.contains_key(k@) {
                        SessionWrite::Save
                    } else {
                        SessionWrite::Nothing
                    }
                },
                None => final(session)@ == Map::<Seq<char>, SessionDataView>::empty() && write
                    == SessionWrite::DeleteFile,
            },
    {
        match key {
            Some(k) => {
                if session.entries.remove(k).is_some() {
                    SessionWrite::Save
                } else {
                    SessionWrite::Nothing
                }
            },
            None => {
                session.entries = TextMap::new();
                SessionWrite::DeleteFile
            },
        }
    }

    /// Derives the key that seals the stored session from what identifies
    /// the user: Argon2id at its default costs over a fixed salt. The key
    /// keeps the store from casual inspection; whoever knows the user's
    /// name, home and host can derive it.
    pub fn derive_session_key(
        user: Option<&str>,
        home: Option<&str>,
        hostname: Option<&str>,
    ) -> (res: ObscuraResult<AeadKey>)
        ensures
            ({
                let identity = encode_utf8(
                    session_identity_spec(opt_text(user), opt_text(home), opt_text(hostname)),
                );
                &&& res is Ok <==> identity.len() <= MAX_PASSWORD_LEN
                &&& res matches Ok(key) ==> key@ == spec_argon2id(
                    identity,
                    session_salt(),
                    19_456,
                    2,
                    1,
                )
                &&& res matches Err(e) ==> e == ObscuraError::EncryptionFailed
            }),
    {
        let mut identity = String::from_str(
            match user {
                Some(t) => t,
                None => "unknown",
            },
        );
        identity.push('-');
        identity.append(
            match home {
                Some(t) => t,
                None => "unknown",
            },
        );
        identity.push('-');
        identity.append(
            match hostname {
                Some(t) => t,
                None => "unknown",
            },
        );
        proof {
            lemma_salt_len();
            assert(identity@ =~= session_identity_spec(
                opt_text(user),
                opt_text(home),
                opt_text(hostname),
            ));
        }
        let salt = "obscura_session_salt".as_bytes();
        match argon2id(identity.as_str().as_bytes(), salt, 19_456, 2, 1) {
            Some(key) => Ok(AeadKey::from_bytes(key)),
            None => Err(ObscuraError::EncryptionFailed),
        }
    }

    /// Seals serialized session data: the fresh nonce, then the ciphertext.
    pub fn encrypt_session_data(data: &[u8], key: &AeadKey) -> (res: ObscuraResult<Vec<u8>>)
        ensures
            res is Ok <==> sealable_len(data@.len()) && data@.len() + TAG_LEN + NONCE_LEN
                <= usize::MAX,
            res matches Ok(stored) ==> {
                &&& stored@.len() == NONCE_LEN + data@.len() + TAG_LEN
                &&& decrypt_session_spec(stored@, key@) == Ok::<Seq<u8>, ObscuraError>(data@)
            },
            res matches Err(e) ==> e == ObscuraError::EncryptionFailed,
    {
        if data.len() > usize::MAX - TAG_LEN - NONCE_LEN {
            return Err(ObscuraError::EncryptionFailed);
        }
        let sealed = AeadResult::encrypt(data, key, "obscura_session".as_bytes())?;
        let mut stored: Vec<u8> = Vec::new();
        stored.extend_from_slice(sealed.nonce.as_slice());
        stored.extend_from_slice(sealed.ciphertext.as_slice());
        proof {
            assert(stored@.take(NONCE_LEN as int) =~= sealed.nonce@);
            assert(stored@.skip(NONCE_LEN as int) =~= sealed.ciphertext@);
        }
        Ok(stored)
    }

    /// Opens stored session data.
    pub fn decrypt_session_data(encrypted_data: &[u8], key: &AeadKey) -> (res: ObscuraResult<
        Vec<u8>,
    >)
        ensures
            match decrypt_session_spec(encrypted_data@, key@) {
                Ok(data) => res matches Ok(out) && out@ == data,
                Err(e) => res matches Err(got) && got == e,
            },
    {
        if encrypted_data.len() < NONCE_LEN {
            return Err(ObscuraError::DecryptionFailed);
        }
        let nonce_part = slice_subrange(encrypted_data, 0, NONCE_LEN);
        let ciphertext = slice_subrange(encrypted_data, NONCE_LEN, encrypted_data.len());
        let nonce = match to_array::<24>(nonce_part) {
            Some(nonce) => nonce,
            None => { return Err(ObscuraError::DecryptionFailed); },
        };
        proof {
            assert(encrypted_data@.take(NONCE_LEN as int) =~= nonce@);
            assert(encrypted_data@.skip(NONCE_LEN as int) =~= ciphertext@);
        }
        decrypt_with_key(ciphertext, key, &nonce, "obscura_session".as_bytes())
    }

    /// The key under which a vault is cached: its canonical path where the
    /// path could be resolved, else the path as given.
    pub fn normalize_path(canonical: Option<&str>, path: &str) -> (key: String)
        ensures
            key@ == match canonical {
                Some(c) => c@,
                None => path@,
            },
    {
        match canonical {
            Some(c) => String::from_str(c),
            None => String::from_str(path),
        }
    }
}

/// A key stored at `start` for `ttl_minutes` is live at `now` exactly while
/// less than that time has passed.
pub proof fn lemma_session_ttl(start: Timestamp, ttl_minutes: u64, now: Timestamp)
    requires
        expiry_spec(start, ttl_minutes) is Some,
        now.nanos < 1_000_000_000,
    ensures
        expiry_spec(start, ttl_minutes)->0.is_after(now) <==> now.total_nanos()
            - start.total_nanos() < ttl_minutes * 60 * 1_000_000_000,
{
}

/// Fetching after storing gives the stored key while the entry is live, and
/// nothing once it has expired.
pub proof fn lemma_fetch_after_store(
    entries: Map<Seq<char>, SessionDataView>,
    key: Seq<char>,
    dek: Seq<u8>,
    start: Timestamp,
    ttl_minutes: u64,
    now: Timestamp,
)
    requires
        expiry_spec(start, ttl_minutes) is Some,
        now.nanos < 1_000_000_000,
        entries.contains_key(key),
        decode_exact_spec(entries[key].dek_b64, 32) == Some(dek),
        spec_parse_rfc3339(entries[key].expires_at) == expiry_spec(start, ttl_minutes),
    ensures
        fetch_spec(entries, key, now) == if now.total_nanos() - start.total_nanos() < ttl_minutes
            * 60 * 1_000_000_000 {
            Ok::<Option<Seq<u8>>, ObscuraError>(Some(dek))
        } else {
            Ok::<Option<Seq<u8>>, ObscuraError>(None)
        },
        !live_entries(entries, now).contains_key(key) <==> now.total_nanos() - start.total_nanos()
            >= ttl_minutes * 60 * 1_000_000_000,
{
    lemma_session_ttl(start, ttl_minutes, now);
}

} // verus!
