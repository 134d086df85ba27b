//! A passphrase-secured local secret vault: the cryptographic envelope, the
//! alias model, scope resolution and the key-caching rules, with their
//! behaviour stated as contracts.

pub mod agent;
pub mod cmd;
pub mod crypto;
pub mod session;
pub mod util;
pub mod vault;
