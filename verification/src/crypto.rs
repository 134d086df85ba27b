//! Cryptographic primitives: authenticated encryption and key derivation.

pub mod aead;
pub mod entropy;
pub mod kdf;
