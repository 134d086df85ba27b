//! The vault: its file model, its cryptographic envelope and its scopes.

pub mod aliases;
pub mod file;
pub mod manager;
pub mod model;
