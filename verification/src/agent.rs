//! The in-memory key agent: its protocol, how a client reads its replies
//! and how the server answers requests and ages its entries.

pub mod client;
pub mod protocol;
pub mod server;
