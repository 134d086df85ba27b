//! Authenticated encryption with a 32-byte key and a 24-byte random nonce.

use crate::crypto::entropy::{random_bytes, wipe, zeros};
use crate::util::errors::{ObscuraError, ObscuraResult};
use chacha20poly1305::aead::{Aead, AeadCore, KeyInit, Payload};
use chacha20poly1305::{Key, XChaCha20Poly1305, XNonce};
use rand::rngs::OsRng;
use vstd::prelude::*;

verus! {

/// Length of an encryption key in bytes.
pub const KEY_LEN: usize = 32;

/// Length of a nonce in bytes.
pub const NONCE_LEN: usize = 24;

/// Length of the authentication tag that sealing appends.
pub const TAG_LEN: usize = 16;

/// The ciphertext (tag included) that XChaCha20-Poly1305 produces for a
/// plaintext under a key, a nonce and associated data.
pub uninterp spec fn spec_seal(
    key: Seq<u8>,
    nonce: Seq<u8>,
    aad: Seq<u8>,
    plaintext: Seq<u8>,
) -> Seq<u8>;

/// The plaintext that XChaCha20-Poly1305 recovers from a ciphertext, or
/// `None` where authentication fails.
pub uninterp spec fn spec_open(
    key: Seq<u8>,
    nonce: Seq<u8>,
    aad: Seq<u8>,
    ciphertext: Seq<u8>,
) -> Option<Seq<u8>>;

/// Whether a plaintext of this length can be sealed: the cipher's block
/// counter is 32 bits wide and blocks are 64 bytes long.
pub open spec fn sealable_len(len: nat) -> bool {
    len / 64 < 0xFFFF_FFFF && len + TAG_LEN <= usize::MAX
}

/// Calls `AeadCore::generate_nonce` of `XChaCha20Poly1305` with `OsRng`:
/// 24 random bytes. Nothing is claimed about the bytes.
#[verifier::external_body]
fn fresh_nonce() -> (nonce: [u8; 24]) {
    XChaCha20Poly1305::generate_nonce(&mut OsRng).into()
}

/// Calls `Aead::encrypt` of `XChaCha20Poly1305`. It refuses only a message
/// of `u32::MAX` blocks or more; otherwise the result is the named
/// ciphertext, 16 bytes longer than the message, and opening it under the
/// same key, nonce and associated data gives the message back.
#[verifier::external_body]
fn seal(plaintext: &[u8], key: &[u8; 32], nonce: &[u8; 24], aad: &[u8]) -> (sealed: Option<Vec<u8>>)
    requires
        plaintext@.len() + TAG_LEN <= usize::MAX,
    ensures
        sealed is Some <==> plaintext@.len() / 64 < 0xFFFF_FFFF,
        sealed matches Some(ct) ==> {
            &&& ct@ == spec_seal(key@, nonce@, aad@, plaintext@)
            &&& ct@.len() == plaintext@.len() + TAG_LEN
            &&& spec_open(key@, nonce@, aad@, ct@) == Some(plaintext@)
        },
{
    let cipher = XChaCha20Poly1305::new(Key::from_slice(key));
    cipher.encrypt(XNonce::from_slice(nonce), Payload { msg: plaintext, aad }).ok()
}

/// Calls `Aead::decrypt` of `XChaCha20Poly1305`: the named plaintext, or
/// `None` where the cipher reports an error, which it does for every
/// ciphertext too short to hold the 16-byte tag.
#[verifier::external_body]
fn open(
    ciphertext: &[u8],
    key: &[u8; 32],
    nonce: &[u8; 24],
    aad: &[u8],
) -> (opened: Option<Vec<u8>>)
    ensures
        opened is Some <==> spec_open(key@, nonce@, aad@, ciphertext@) is Some,
        opened matches Some(pt) ==> spec_open(key@, nonce@, aad@, ciphertext@) == Some(pt@),
        ciphertext@.len() < TAG_LEN ==> opened is None,
{
    let cipher = XChaCha20Poly1305::new(Key::from_slice(key));
    cipher.decrypt(XNonce::from_slice(nonce), Payload { msg: ciphertext, aad }).ok()
}

/// A 32-byte symmetric key.
pub struct AeadKey {
    bytes: [u8; 32],
}

impl View for AeadKey {
    type V = Seq<u8>;

    closed spec fn view(&self) -> Seq<u8> {
        self.bytes@
    }
}

impl AeadKey {
    /// A fresh key from the operating system's random generator.
    pub fn new() -> (key: Self)
        ensures
            key@.len() == KEY_LEN,
    {
        AeadKey { bytes: random_bytes::<32>() }
    }

    pub fn from_bytes(bytes: [u8; 32]) -> (key: Self)
        ensures
            key@ == bytes@,
    {
        AeadKey { bytes }
    }

    pub fn as_bytes(&self) -> (bytes: &[u8; 32])
        ensures
            bytes@ == self@,
    {
        &self.bytes
    }

    /// Overwrites the key with zeros. Call it when the key is released.
    pub fn zeroize(&mut self)
        ensures
            final(self)@ == zeros(KEY_LEN as nat),
    {
        wipe(&mut self.bytes);
    }
}

impl Clone for AeadKey {
    fn clone(&self) -> (key: Self)
        ensures
            key@ == self@,
    {
        AeadKey { bytes: self.bytes }
    }
}

/// A nonce together with the ciphertext sealed under it.
pub struct AeadResult {
    pub nonce: [u8; 24],
    pub ciphertext: Vec<u8>,
}

/// What decryption returns for each input: the authenticated plaintext, or
/// the one opaque failure.
pub open spec fn decrypt_spec(
    ciphertext: Seq<u8>,
    key: Seq<u8>,
    nonce: Seq<u8>,
    aad: Seq<u8>,
) -> Result<Seq<u8>, ObscuraError> {
    match spec_open(key, nonce, aad, ciphertext) {
        Some(plaintext) => Ok(plaintext),
        None => Err(ObscuraError::DecryptionFailed),
    }
}

impl AeadResult {
    /// Seals `plaintext` under `key` with a nonce drawn freshly for this call.
    pub fn encrypt(plaintext: &[u8], key: &AeadKey, aad: &[u8]) -> (res: ObscuraResult<Self>)
        ensures
            res is Ok <==> sealable_len(plaintext@.len()),
            res matches Ok(sealed) ==> {
                &&& sealed.ciphertext@ == spec_seal(key@, sealed.nonce@, aad@, plaintext@)
                &&& sealed.ciphertext@.len() == plaintext@.len() + TAG_LEN
                &&& decrypt_spec(sealed.ciphertext@, key@, sealed.nonce@, aad@) == Ok::<
                    Seq<u8>,
                    ObscuraError,
                >(plaintext@)
            },
            res matches Err(e) ==> e == ObscuraError::EncryptionFailed,
    {
        let nonce = fresh_nonce();
        Self::encrypt_with_nonce(plaintext, key, nonce, aad)
    }

    /// Seals `plaintext` under `key` and the given nonce. The caller answers
    /// for never using a nonce twice with one key.
    pub fn encrypt_with_nonce(
        plaintext: &[u8],
        key: &AeadKey,
        nonce: [u8; 24],
        aad: &[u8],
    ) -> (res: ObscuraResult<Self>)
        ensures
            res is Ok <==> sealable_len(plaintext@.len()),
            res matches Ok(sealed) ==> {
                &&& sealed.nonce@ == nonce@
                &&& sealed.ciphertext@ == spec_seal(key@, nonce@, aad@, plaintext@)
                &&& sealed.ciphertext@.len() == plaintext@.len() + TAG_LEN
                &&& decrypt_spec(sealed.ciphertext@, key@, nonce@, aad@) == Ok::<
                    Seq<u8>,
                    ObscuraError,
                >(plaintext@)
            },
            res matches Err(e) ==> e == ObscuraError::EncryptionFailed,
    {
        if plaintext.len() > usize::MAX - TAG_LEN {
            return Err(ObscuraError::EncryptionFailed);
        }
        match seal(plaintext, key.as_bytes(), &nonce, aad) {
            Some(ciphertext) => Ok(AeadResult { nonce, ciphertext }),
            None => Err(ObscuraError::EncryptionFailed),
        }
    }

    /// Opens `ciphertext`. Tampering, a wrong key, a wrong nonce and wrong
    /// associated data are not told apart.
    pub fn decrypt(ciphertext: &[u8], key: &AeadKey, nonce: &[u8; 24], aad: &[u8]) -> (res:
        ObscuraResult<Vec<u8>>)
        ensures
            match decrypt_spec(ciphertext@, key@, nonce@, aad@) {
                Ok(plaintext) => res matches Ok(out) && out@ == plaintext,
                Err(e) => res matches Err(got) && got == e,
            },
            ciphertext@.len() < TAG_LEN ==> res is Err,
    {
        match open(ciphertext, key.as_bytes(), nonce, aad) {
            Some(plaintext) => Ok(plaintext),
            None => Err(ObscuraError::DecryptionFailed),
        }
    }
}

pub fn encrypt_with_key(plaintext: &[u8], key: &AeadKey, aad: &[u8]) -> (res: ObscuraResult<
    AeadResult,
>)
    ensures
        res is Ok <==> sealable_len(plaintext@.len()),
        res matches Ok(sealed) ==> {
            &&& sealed.ciphertext@ == spec_seal(key@, sealed.nonce@, aad@, plaintext@)
            &&& sealed.ciphertext@.len() == plaintext@.len() + TAG_LEN
            &&& decrypt_spec(sealed.ciphertext@, key@, sealed.nonce@, aad@) == Ok::<
                Seq<u8>,
                ObscuraError,
            >(plaintext@)
        },
        res matches Err(e) ==> e == ObscuraError::EncryptionFailed,
{
    AeadResult::encrypt(plaintext, key, aad)
}

pub fn decrypt_with_key(ciphertext: &[u8], key: &AeadKey, nonce: &[u8; 24], aad: &[u8]) -> (res:
    ObscuraResult<Vec<u8>>)
    ensures
        match decrypt_spec(ciphertext@, key@, nonce@, aad@) {
            Ok(plaintext) => res matches Ok(out) && out@ == plaintext,
            Err(e) => res matches Err(got) && got == e,
        },
        ciphertext@.len() < TAG_LEN ==> res is Err,
{
    AeadResult::decrypt(ciphertext, key, nonce, aad)
}

} // verus!
