//! The vault file and the alias map it protects.

use crate::crypto::aead::{
    decrypt_spec, decrypt_with_key, encrypt_with_key, sealable_len, AeadKey, TAG_LEN,
};
use crate::crypto::kdf::{KdfParams as CryptoKdfParams, KdfSpec};
use crate::util::clock::now_rfc3339;
use crate::util::encoding::{
    base64_fits, decode_exact, decode_exact_spec, encode, encode_short, spec_base64_decode,
    spec_base64_encode, utf8_text, utf8_text_spec, base64_decode,
};
use crate::util::errors::{ObscuraError, ObscuraResult};
use vstd::prelude::*;
use vstd::string::*;
use vstd::utf8::*;

verus! {

/// The vault file version this library reads and writes.
pub const VAULT_VERSION: u32 = 1;

/// A base64-encoded nonce with the base64-encoded ciphertext sealed under it.
pub struct Envelope {
    pub nonce_b64: Seq<char>,
    pub ciphertext_b64: Seq<char>,
}

/// The plaintext that opening an envelope under `key` yields. A nonce or
/// ciphertext that is not base64, a nonce that is not 24 bytes long and a
/// failed authentication all give the same failure.
pub open spec fn open_envelope_spec(envelope: Envelope, key: Seq<u8>, aad: Seq<u8>) -> Result<
    Seq<u8>,
    ObscuraError,
> {
    match (
        decode_exact_spec(envelope.nonce_b64, 24),
        spec_base64_decode(envelope.ciphertext_b64),
    ) {
        (Some(nonce), Some(ciphertext)) => decrypt_spec(ciphertext, key, nonce, aad),
        _ => Err(ObscuraError::DecryptionFailed),
    }
}

/// Whether an envelope has the shape of a sealed plaintext of `len` bytes:
/// a nonce of 24 bytes and a ciphertext of `len` bytes and the 16-byte tag.
pub open spec fn holds_sealed(envelope: Envelope, len: nat) -> bool {
    &&& decode_exact_spec(envelope.nonce_b64, 24) is Some
    &&& decode_exact_spec(envelope.ciphertext_b64, len + TAG_LEN as nat) is Some
}

/// Whether a plaintext of `len` bytes can be sealed into an envelope.
pub open spec fn envelope_fits(len: nat) -> bool {
    sealable_len(len) && base64_fits((len + TAG_LEN) as nat)
}

/// An encrypted value: nonce and ciphertext, both as base64 text.
#[derive(Debug, PartialEq, Eq)]
pub struct EncryptedData {
    pub nonce_b64: String,
    pub ciphertext_b64: String,
}

impl View for EncryptedData {
    type V = Envelope;

    open spec fn view(&self) -> Envelope {
        Envelope { nonce_b64: self.nonce_b64@, ciphertext_b64: self.ciphertext_b64@ }
    }
}

impl Clone for EncryptedData {
    fn clone(&self) -> (res: Self)
        ensures
            res@ == self@,
    {
        EncryptedData {
            nonce_b64: self.nonce_b64.clone(),
            ciphertext_b64: self.ciphertext_b64.clone(),
        }
    }
}

impl EncryptedData {
    /// Seals `plaintext` under `key` and the given associated data, with a
    /// fresh nonce.
    pub fn seal(plaintext: &[u8], key: &AeadKey, aad: &[u8]) -> (res: ObscuraResult<Self>)
        ensures
            res is Ok <==> envelope_fits(plaintext@.len()),
            res matches Ok(sealed) ==> open_envelope_spec(sealed@, key@, aad@) == Ok::<
                Seq<u8>,
                ObscuraError,
            >(plaintext@),
            res matches Ok(sealed) ==> holds_sealed(sealed@, plaintext@.len()),
            res matches Err(e) ==> e == ObscuraError::EncryptionFailed,
    {
        let sealed = encrypt_with_key(plaintext, key, aad)?;
        let nonce_b64 = encode_short(sealed.nonce.as_slice());
        match encode(sealed.ciphertext.as_slice()) {
            Some(ciphertext_b64) => Ok(EncryptedData { nonce_b64, ciphertext_b64 }),
            None => Err(ObscuraError::EncryptionFailed),
        }
    }

    /// Opens the envelope under `key`.
    pub fn open(&self, key: &AeadKey, aad: &[u8]) -> (res: ObscuraResult<Vec<u8>>)
        ensures
            match open_envelope_spec(self@, key@, aad@) {
                Ok(plaintext) => res matches Ok(out) && out@ == plaintext,
                Err(e) => res matches Err(got) && got == e,
            },
    {
        let nonce = match decode_exact::<24>(self.nonce_b64.as_str()) {
            Some(nonce) => nonce,
            None => { return Err(ObscuraError::DecryptionFailed); },
        };
        let ciphertext = match base64_decode(self.ciphertext_b64.as_str()) {
            Some(ciphertext) => ciphertext,
            None => { return Err(ObscuraError::DecryptionFailed); },
        };
        decrypt_with_key(ciphertext.as_slice(), key, &nonce, aad)
    }
}

/// The encrypted alias map of a vault: nonce and ciphertext as base64 text.
#[derive(Debug, PartialEq, Eq)]
pub struct VaultBody {
    pub nonce_b64: String,
    pub ciphertext_b64: String,
}

impl View for VaultBody {
    type V = Envelope;

    open spec fn view(&self) -> Envelope {
        Envelope { nonce_b64: self.nonce_b64@, ciphertext_b64: self.ciphertext_b64@ }
    }
}

impl Clone for VaultBody {
    fn clone(&self) -> (res: Self)
        ensures
            res@ == self@,
    {
        VaultBody {
            nonce_b64: self.nonce_b64.clone(),
            ciphertext_b64: self.ciphertext_b64.clone(),
        }
    }
}

impl VaultBody {
    /// Seals the serialized alias map under the data-encryption key, with a
    /// fresh nonce and no associated data.
    pub fn seal(aliases_json: &[u8], dek: &AeadKey) -> (res: ObscuraResult<Self>)
        ensures
            res is Ok <==> envelope_fits(aliases_json@.len()),
            res matches Ok(body) ==> open_envelope_spec(body@, dek@, Seq::empty()) == Ok::<
                Seq<u8>,
                ObscuraError,
            >(aliases_json@),
            res matches Ok(body) ==> holds_sealed(body@, aliases_json@.len()),
            res matches Err(e) ==> e == ObscuraError::EncryptionFailed,
    {
        let aad: Vec<u8> = Vec::new();
        let sealed = EncryptedData::seal(aliases_json, dek, aad.as_slice())?;
        Ok(VaultBody { nonce_b64: sealed.nonce_b64, ciphertext_b64: sealed.ciphertext_b64 })
    }

    /// Opens the body under the data-encryption key.
    pub fn open(&self, dek: &AeadKey) -> (res: ObscuraResult<Vec<u8>>)
        ensures
            match open_envelope_spec(self@, dek@, Seq::empty()) {
                Ok(plaintext) => res matches Ok(out) && out@ == plaintext,
                Err(e) => res matches Err(got) && got == e,
            },
    {
        let aad: Vec<u8> = Vec::new();
        let envelope = EncryptedData {
            nonce_b64: self.nonce_b64.clone(),
            ciphertext_b64: self.ciphertext_b64.clone(),
        };
        envelope.open(dek, aad.as_slice())
    }
}

/// The three Argon2 costs as a vault file stores them.
#[derive(Debug, Clone, Copy, PartialEq, Eq)]
pub struct KdfParamsInner {
    pub mem_kib: u32,
    pub time: u32,
    pub lanes: u32,
}

/// What a stored key-derivation record holds.
pub struct KdfRecord {
    pub alg: Seq<char>,
    pub salt_b64: Seq<char>,
    pub params: KdfParamsInner,
}

/// The key-derivation record of a vault file.
#[derive(Debug, PartialEq, Eq)]
pub struct KdfParams {
    pub alg: String,
    pub salt_b64: String,
    pub params: KdfParamsInner,
}

impl View for KdfParams {
    type V = KdfRecord;

    open spec fn view(&self) -> KdfRecord {
        KdfRecord { alg: self.alg@, salt_b64: self.salt_b64@, params: self.params }
    }
}

impl Clone for KdfParams {
    fn clone(&self) -> (res: Self)
        ensures
            res@ == self@,
    {
        KdfParams { alg: self.alg.clone(), salt_b64: self.salt_b64.clone(), params: self.params }
    }
}

/// The derivation parameters that a stored record stands for: its salt
/// decoded, its memory and time costs moved into their valid ranges. `None`
/// where the salt is not 16 bytes of base64.
pub open spec fn kdf_of_record(record: KdfRecord) -> Option<KdfSpec> {
    match decode_exact_spec(record.salt_b64, 16) {
        Some(salt) => Some(
            (KdfSpec {
                salt,
                memory_kib: record.params.mem_kib,
                time: record.params.time,
                lanes: record.params.lanes,
            }).clamped(),
        ),
        None => None,
    }
}

impl KdfParams {
    /// The record that stores given parameters: the algorithm tag
    /// `argon2id`, the salt as base64, and the costs.
    pub open spec fn record_of(params: KdfSpec) -> KdfRecord {
        KdfRecord {
            alg: "argon2id"@,
            salt_b64: spec_base64_encode(params.salt),
            params: KdfParamsInner {
                mem_kib: params.memory_kib,
                time: params.time,
                lanes: params.lanes,
            },
        }
    }

    /// Stores `params` as a record.
    pub fn from_crypto(params: &CryptoKdfParams) -> (record: Self)
        ensures
            record@ == Self::record_of(params@),
            decode_exact_spec(record@.salt_b64, 16) == Some(params.salt@),
            params@.in_range() ==> kdf_of_record(record@) == Some(params@),
    {
        let salt = params.salt;
        KdfParams {
            alg: String::from_str("argon2id"),
            salt_b64: encode_short(salt.as_slice()),
            params: KdfParamsInner {
                mem_kib: params.memory_kib,
                time: params.time,
                lanes: params.lanes,
            },
        }
    }

    /// Reads the record back into derivation parameters.
    pub fn to_crypto(&self) -> (params: Option<CryptoKdfParams>)
        ensures
            params is Some <==> kdf_of_record(self@) is Some,
            params matches Some(p) ==> kdf_of_record(self@) == Some(p@) && p@.in_range(),
    {
        match decode_exact::<16>(self.salt_b64.as_str()) {
            Some(salt) => Some(
                (CryptoKdfParams {
                    salt,
                    memory_kib: self.params.mem_kib,
                    time: self.params.time,
                    lanes: self.params.lanes,
                }).clamped(),
            ),
            None => None,
        }
    }
}

/// What a vault header holds.
pub struct VaultHeaderView {
    pub version: u32,
    pub created_at: Seq<char>,
    pub kdf: KdfRecord,
    pub dek_wrapped: Envelope,
}

/// The part of a vault file that precedes the body.
#[derive(Debug, PartialEq, Eq)]
pub struct VaultHeader {
    pub version: u32,
    pub created_at: String,
    pub kdf: KdfParams,
    pub dek_wrapped: EncryptedData,
}

impl View for VaultHeader {
    type V = VaultHeaderView;

    open spec fn view(&self) -> VaultHeaderView {
        VaultHeaderView {
            version: self.version,
            created_at: self.created_at@,
            kdf: self.kdf@,
            dek_wrapped: self.dek_wrapped@,
        }
    }
}

impl Clone for VaultHeader {
    fn clone(&self) -> (res: Self)
        ensures
            res@ == self@,
    {
        VaultHeader {
            version: self.version,
            created_at: self.created_at.clone(),
            kdf: self.kdf.clone(),
            dek_wrapped: self.dek_wrapped.clone(),
        }
    }
}

/// What a vault file holds.
pub struct VaultFileView {
    pub version: u32,
    pub created_at: Seq<char>,
    pub kdf: KdfRecord,
    pub dek_wrapped: Envelope,
    pub body: Envelope,
}

/// A vault as it is persisted: version, creation time, key-derivation
/// record, wrapped data-encryption key and encrypted body.
#[derive(Debug, PartialEq, Eq)]
pub struct VaultFile {
    pub version: u32,
    pub created_at: String,
    pub kdf: KdfParams,
    pub dek_wrapped: EncryptedData,
    pub body: VaultBody,
}

impl View for VaultFile {
    type V = VaultFileView;

    open spec fn view(&self) -> VaultFileView {
        VaultFileView {
            version: self.version,
            created_at: self.created_at@,
            kdf: self.kdf@,
            dek_wrapped: self.dek_wrapped@,
            body: self.body@,
        }
    }
}

impl Clone for VaultFile {
    fn clone(&self) -> (res: Self)
        ensures
            res@ == self@,
    {
        VaultFile {
            version: self.version,
            created_at: self.created_at.clone(),
            kdf: self.kdf.clone(),
            dek_wrapped: self.dek_wrapped.clone(),
            body: self.body.clone(),
        }
    }
}

impl VaultFile {
    /// A version 1 vault file created now.
    pub fn new(kdf_params: CryptoKdfParams, dek_wrapped: EncryptedData, body: VaultBody) -> (file:
        Self)
        ensures
            file@.version == VAULT_VERSION,
            file@.kdf == KdfParams::record_of(kdf_params@),
            file@.dek_wrapped == dek_wrapped@,
            file@.body == body@,
            kdf_params@.in_range() ==> kdf_of_record(file@.kdf) == Some(kdf_params@),
    {
        Self::assemble(kdf_params, dek_wrapped, body, now_rfc3339())
    }

    /// A version 1 vault file with the given creation time.
    pub fn assemble(
        kdf_params: CryptoKdfParams,
        dek_wrapped: EncryptedData,
        body: VaultBody,
        created_at: String,
    ) -> (file: Self)
        ensures
            file@ == (VaultFileView {
                version: VAULT_VERSION,
                created_at: created_at@,
                kdf: KdfParams::record_of(kdf_params@),
                dek_wrapped: dek_wrapped@,
                body: body@,
            }),
            kdf_params@.in_range() ==> kdf_of_record(file@.kdf) == Some(kdf_params@),
    {
        VaultFile {
            version: VAULT_VERSION,
            created_at,
            kdf: KdfParams::from_crypto(&kdf_params),
            dek_wrapped,
            body,
        }
    }

    /// This file with its body replaced.
    pub fn with_body(&self, body: VaultBody) -> (file: Self)
        ensures
            file@ == (VaultFileView { body: body@, ..self@ }),
    {
        VaultFile {
            version: self.version,
            created_at: self.created_at.clone(),
            kdf: self.kdf.clone(),
            dek_wrapped: self.dek_wrapped.clone(),
            body,
        }
    }

    /// The header of this file.
    pub fn header(&self) -> (header: VaultHeader)
        ensures
            header@ == (VaultHeaderView {
                version: self@.version,
                created_at: self@.created_at,
                kdf: self@.kdf,
                dek_wrapped: self@.dek_wrapped,
            }),
    {
        VaultHeader {
            version: self.version,
            created_at: self.created_at.clone(),
            kdf: self.kdf.clone(),
            dek_wrapped: self.dek_wrapped.clone(),
        }
    }
}

/// What an alias entry holds.
pub struct AliasDataView {
    pub value_enc: Envelope,
    pub created_at: Seq<char>,
    pub rotated_at: Option<Seq<char>>,
}

/// One stored secret: its own encrypted value and its timestamps.
#[derive(Debug, PartialEq, Eq)]
pub struct AliasData {
    pub value_enc: EncryptedData,
    pub created_at: String,
    pub rotated_at: Option<String>,
}

/// The text of an optional string.
pub open spec fn option_text(text: Option<String>) -> Option<Seq<char>> {
    match text {
        Some(t) => Some(t@),
        None => None,
    }
}

impl View for AliasData {
    type V = AliasDataView;

    open spec fn view(&self) -> AliasDataView {
        AliasDataView {
            value_enc: self.value_enc@,
            created_at: self.created_at@,
            rotated_at: option_text(self.rotated_at),
        }
    }
}

impl Clone for AliasData {
    fn clone(&self) -> (res: Self)
        ensures
            res@ == self@,
    {
        AliasData {
            value_enc: self.value_enc.clone(),
            created_at: self.created_at.clone(),
            rotated_at: match &self.rotated_at {
                Some(t) => Some(t.clone()),
                None => None,
            },
        }
    }
}

/// The secret that an encrypted value holds under a key: the envelope
/// opened with no associated data and read as UTF-8.
pub open spec fn decrypt_value_spec(value_enc: Envelope, dek: Seq<u8>) -> Result<
    Seq<char>,
    ObscuraError,
> {
    match open_envelope_spec(value_enc, dek, Seq::empty()) {
        Ok(bytes) => match utf8_text_spec(bytes) {
            Some(text) => Ok(text),
            None => Err(ObscuraError::DecryptionFailed),
        },
        Err(e) => Err(e),
    }
}

/// Encrypts one secret under the data-encryption key, with a fresh nonce.
pub fn encrypt_value(value: &str, dek: &AeadKey) -> (res: ObscuraResult<EncryptedData>)
    ensures
        res is Ok <==> envelope_fits(encode_utf8(value@).len()),
        res matches Ok(value_enc) ==> decrypt_value_spec(value_enc@, dek@) == Ok::<
            Seq<char>,
            ObscuraError,
        >(value@),
        res matches Err(e) ==> e == ObscuraError::EncryptionFailed,
{
    let aad: Vec<u8> = Vec::new();
    proof {
        crate::util::encoding::lemma_utf8_round_trip(value@);
    }
    EncryptedData::seal(value.as_bytes(), dek, aad.as_slice())
}

/// Decrypts one secret.
pub fn decrypt_value(value_enc: &EncryptedData, dek: &AeadKey) -> (res: ObscuraResult<String>)
    ensures
        match decrypt_value_spec(value_enc@, dek@) {
            Ok(text) => res matches Ok(out) && out@ == text,
            Err(e) => res matches Err(got) && got == e,
        },
{
    let aad: Vec<u8> = Vec::new();
    let plaintext = value_enc.open(dek, aad.as_slice())?;
    match utf8_text(plaintext) {
        Some(text) => Ok(text),
        None => Err(ObscuraError::DecryptionFailed),
    }
}

} // verus!
