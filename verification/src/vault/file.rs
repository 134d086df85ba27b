//! Creating, opening and re-sealing a vault.

use crate::crypto::aead::AeadKey;
use crate::crypto::entropy::wipe_vec;
use crate::crypto::kdf::{
    clamp_spec, derive_key_spec, KdfResult, DEFAULT_LANES, MAX_MEMORY_KIB, MAX_PASSWORD_LEN,
    MAX_TIME, MIN_MEMORY_KIB, MIN_TIME,
};
use crate::util::encoding::{decode_exact_spec, to_array};
use crate::util::errors::{ObscuraError, ObscuraResult};
use crate::vault::aliases::get_alias_spec;
use crate::vault::model::{
    envelope_fits, holds_sealed, kdf_of_record, open_envelope_spec, AliasDataView, EncryptedData,
    Envelope, KdfParamsInner, VaultBody, VaultFile, VaultFileView, VAULT_VERSION,
};
use vstd::prelude::*;
use vstd::utf8::*;

verus! {

/// The data-encryption key inside a wrapped key, opened under the
/// key-encryption key: exactly 32 authenticated bytes, or the opaque failure.
pub open spec fn unwrap_dek_spec(dek_wrapped: Envelope, kek: Seq<u8>) -> Result<
    Seq<u8>,
    ObscuraError,
> {
    match open_envelope_spec(dek_wrapped, kek, Seq::empty()) {
        Ok(bytes) => if bytes.len() == 32 {
            Ok(bytes)
        } else {
            Err(ObscuraError::DecryptionFailed)
        },
        Err(e) => Err(e),
    }
}

/// What opening a vault with a passphrase yields: the data-encryption key
/// and the serialized alias map. The key is derived again from the stored
/// parameters, the wrapped key is opened under it, and the body under that.
/// Whichever step fails, the failure is the same.
pub open spec fn decrypt_vault_spec(file: VaultFileView, passphrase: Seq<char>) -> Result<
    (Seq<u8>, Seq<u8>),
    ObscuraError,
> {
    match kdf_of_record(file.kdf) {
        Some(params) => match derive_key_spec(passphrase, params) {
            Ok(kek) => match unwrap_dek_spec(file.dek_wrapped, kek) {
                Ok(dek) => match open_envelope_spec(file.body, dek, Seq::empty()) {
                    Ok(body) => Ok((dek, body)),
                    Err(_) => Err(ObscuraError::DecryptionFailed),
                },
                Err(_) => Err(ObscuraError::DecryptionFailed),
            },
            Err(_) => Err(ObscuraError::DecryptionFailed),
        },
        None => Err(ObscuraError::DecryptionFailed),
    }
}

/// What was found where a vault file was looked for.
pub enum VaultRead {
    /// No readable file.
    Missing,
    /// A file that is not a vault document.
    Malformed,
    /// A vault document.
    Parsed(VaultFile),
}

/// Wraps the data-encryption key under the key-encryption key, with a fresh
/// nonce and no associated data.
pub fn wrap_dek(dek: &AeadKey, kek: &[u8; 32]) -> (res: ObscuraResult<EncryptedData>)
    ensures
        res matches Ok(dek_wrapped) && unwrap_dek_spec(dek_wrapped@, kek@) == Ok::<
            Seq<u8>,
            ObscuraError,
        >(dek@) && holds_sealed(dek_wrapped@, 32),
{
    let mut kek_key = AeadKey::from_bytes(*kek);
    let aad: Vec<u8> = Vec::new();
    let dek_bytes = dek.as_bytes();
    let dek_wrapped = EncryptedData::seal(dek_bytes.as_slice(), &kek_key, aad.as_slice());
    kek_key.zeroize();
    dek_wrapped
}

/// Opens a wrapped data-encryption key under the key-encryption key.
pub fn unwrap_dek(dek_wrapped: &EncryptedData, kek: &[u8; 32]) -> (res: ObscuraResult<AeadKey>)
    ensures
        match unwrap_dek_spec(dek_wrapped@, kek@) {
            Ok(dek) => res matches Ok(key) && key@ == dek,
            Err(e) => res matches Err(got) && got == e,
        },
{
    let mut kek_key = AeadKey::from_bytes(*kek);
    let aad: Vec<u8> = Vec::new();
    let opened = dek_wrapped.open(&kek_key, aad.as_slice());
    kek_key.zeroize();
    let mut dek_bytes = opened?;
    let dek = to_array::<32>(dek_bytes.as_slice());
    wipe_vec(&mut dek_bytes);
    match dek {
        Some(dek) => Ok(AeadKey::from_bytes(dek)),
        None => Err(ObscuraError::DecryptionFailed),
    }
}

/// Builds a new vault around a serialized alias map: fresh derivation
/// parameters at the given costs, a fresh data-encryption key, the map
/// sealed under that key and the key wrapped under the passphrase's key.
/// The result is a version 1 document tagged `argon2id`, with a 16-byte
/// salt, one lane and the costs moved into their ranges, a wrapped key of
/// 48 bytes under a 24-byte nonce and a body under a 24-byte nonce; it opens
/// again with the same passphrase.
pub fn create_vault_file(passphrase: &str, memory_kib: u32, time: u32, aliases_json: &[u8]) -> (res:
    ObscuraResult<VaultFile>)
    ensures
        res is Ok <==> encode_utf8(passphrase@).len() <= MAX_PASSWORD_LEN && envelope_fits(
            aliases_json@.len(),
        ),
        res matches Ok(file) ==> {
            &&& file@.version == VAULT_VERSION
            &&& file@.kdf.alg == "argon2id"@
            &&& decode_exact_spec(file@.kdf.salt_b64, 16) is Some
            &&& file@.kdf.params == (KdfParamsInner {
                mem_kib: clamp_spec(memory_kib, MIN_MEMORY_KIB, MAX_MEMORY_KIB),
                time: clamp_spec(time, MIN_TIME, MAX_TIME),
                lanes: DEFAULT_LANES,
            })
            &&& MIN_MEMORY_KIB <= file@.kdf.params.mem_kib <= MAX_MEMORY_KIB
            &&& MIN_TIME <= file@.kdf.params.time <= MAX_TIME
            &&& holds_sealed(file@.dek_wrapped, 32)
            &&& holds_sealed(file@.body, aliases_json@.len())
            &&& decrypt_vault_spec(file@, passphrase@) is Ok
            &&& decrypt_vault_spec(file@, passphrase@)->Ok_0.1 == aliases_json@
        },
        res matches Err(e) ==> e == ObscuraError::EncryptionFailed,
{
    let mut kdf_result = KdfResult::derive(passphrase, memory_kib, time)?;
    let params = kdf_result.params;
    let mut dek = AeadKey::new();
    let body = VaultBody::seal(aliases_json, &dek);
    let dek_wrapped = wrap_dek(&dek, &kdf_result.key);
    dek.zeroize();
    kdf_result.zeroize();
    Ok(VaultFile::new(params, dek_wrapped?, body?))
}

/// Accepts what was read as a vault: a missing file is reported as such, and
/// a document that is malformed or of an unknown version is refused.
pub fn read_vault_file(read: VaultRead) -> (res: ObscuraResult<VaultFile>)
    ensures
        match read {
            VaultRead::Missing => res matches Err(e) && e == ObscuraError::VaultNotFound,
            VaultRead::Malformed => res matches Err(e) && e == ObscuraError::InvalidVaultFormat,
            VaultRead::Parsed(file) => if file.version == VAULT_VERSION {
                res matches Ok(accepted) && accepted == file
            } else {
                res matches Err(e) && e == ObscuraError::InvalidVaultFormat
            },
        },
{
    match read {
        VaultRead::Missing => Err(ObscuraError::VaultNotFound),
        VaultRead::Malformed => Err(ObscuraError::InvalidVaultFormat),
        VaultRead::Parsed(file) => if file.version == VAULT_VERSION {
            Ok(file)
        } else {
            Err(ObscuraError::InvalidVaultFormat)
        },
    }
}

/// Opens a vault with its passphrase: the data-encryption key and the
/// serialized alias map.
pub fn decrypt_vault(vault_file: &VaultFile, passphrase: &str) -> (res: ObscuraResult<
    (AeadKey, Vec<u8>),
>)
    ensures
        match decrypt_vault_spec(vault_file@, passphrase@) {
            Ok((dek, body)) => res matches Ok(opened) && opened.0@ == dek && opened.1@ == body,
            Err(e) => res matches Err(got) && got == e,
        },
{
    let kdf_params = match vault_file.kdf.to_crypto() {
        Some(params) => params,
        None => { return Err(ObscuraError::DecryptionFailed); },
    };
    let mut kdf_result = match KdfResult::derive_with_params(passphrase, &kdf_params) {
        Ok(derived) => derived,
        Err(_) => { return Err(ObscuraError::DecryptionFailed); },
    };
    let unwrapped = unwrap_dek(&vault_file.dek_wrapped, &kdf_result.key);
    kdf_result.zeroize();
    let dek = match unwrapped {
        Ok(dek) => dek,
        Err(_) => { return Err(ObscuraError::DecryptionFailed); },
    };
    match vault_file.body.open(&dek) {
        Ok(aliases_json) => Ok((dek, aliases_json)),
        Err(_) => Err(ObscuraError::DecryptionFailed),
    }
}

/// Opens the body of a vault with a data-encryption key that is already at
/// hand, skipping key derivation and unwrapping.
pub fn decrypt_vault_with_dek(vault_file: &VaultFile, dek: &AeadKey) -> (res: ObscuraResult<
    Vec<u8>,
>)
    ensures
        match open_envelope_spec(vault_file@.body, dek@, Seq::empty()) {
            Ok(body) => res matches Ok(out) && out@ == body,
            Err(e) => res matches Err(got) && got == e,
        },
        res matches Err(e) ==> e == ObscuraError::DecryptionFailed,
{
    vault_file.body.open(dek)
}

/// The vault with its body replaced by a fresh sealing of a serialized alias
/// map; everything else is kept.
pub fn encrypt_and_save_vault(vault_file: &VaultFile, aliases_json: &[u8], dek: &AeadKey) -> (res:
    ObscuraResult<VaultFile>)
    ensures
        res is Ok <==> envelope_fits(aliases_json@.len()),
        res matches Ok(updated) ==> {
            &&& updated@ == (VaultFileView { body: updated@.body, ..vault_file@ })
            &&& open_envelope_spec(updated@.body, dek@, Seq::empty()) == Ok::<
                Seq<u8>,
                ObscuraError,
            >(aliases_json@)
        },
        res matches Err(e) ==> e == ObscuraError::EncryptionFailed,
{
    let body = VaultBody::seal(aliases_json, dek)?;
    Ok(vault_file.with_body(body))
}

/// A vault that was re-sealed under its own data-encryption key opens with
/// the passphrase it opened with before, to the same key and the new body.
pub proof fn lemma_saved_vault_reopens(
    before: VaultFileView,
    after: VaultFileView,
    passphrase: Seq<char>,
    aliases_json: Seq<u8>,
)
    requires
        decrypt_vault_spec(before, passphrase) is Ok,
        after == (VaultFileView { body: after.body, ..before }),
        open_envelope_spec(after.body, decrypt_vault_spec(before, passphrase)->Ok_0.0, Seq::empty())
            == Ok::<Seq<u8>, ObscuraError>(aliases_json),
    ensures
        decrypt_vault_spec(after, passphrase) == Ok::<(Seq<u8>, Seq<u8>), ObscuraError>(
            (decrypt_vault_spec(before, passphrase)->Ok_0.0, aliases_json),
        ),
{
}

/// A secret that was stored under the key of an open vault is retrieved
/// again after the vault was saved and reopened with its passphrase: the
/// reopened vault yields the saved alias map and the same key, under which
/// the stored value decrypts to the secret.
pub proof fn lemma_round_trip(
    before: VaultFileView,
    after: VaultFileView,
    passphrase: Seq<char>,
    aliases_json: Seq<u8>,
    aliases: Map<Seq<char>, AliasDataView>,
    alias: Seq<char>,
    value: Seq<char>,
)
    requires
        decrypt_vault_spec(before, passphrase) is Ok,
        after == (VaultFileView { body: after.body, ..before }),
        open_envelope_spec(after.body, decrypt_vault_spec(before, passphrase)->Ok_0.0, Seq::empty())
            == Ok::<Seq<u8>, ObscuraError>(aliases_json),
        get_alias_spec(aliases, alias, decrypt_vault_spec(before, passphrase)->Ok_0.0) == Ok::<
            Option<Seq<char>>,
            ObscuraError,
        >(Some(value)),
    ensures
        decrypt_vault_spec(after, passphrase) is Ok,
        decrypt_vault_spec(after, passphrase)->Ok_0.1 == aliases_json,
        get_alias_spec(aliases, alias, decrypt_vault_spec(after, passphrase)->Ok_0.0) == Ok::<
            Option<Seq<char>>,
            ObscuraError,
        >(Some(value)),
{
    lemma_saved_vault_reopens(before, after, passphrase, aliases_json);
}

/// Opening a vault never reports anything but the one opaque failure.
pub proof fn lemma_opening_fails_opaquely(file: VaultFileView, passphrase: Seq<char>)
    ensures
        decrypt_vault_spec(file, passphrase) matches Err(e) ==> e == ObscuraError::DecryptionFailed,
{
}

} // verus!
