//! The messages exchanged with the key agent.

use vstd::prelude::*;

verus! {

/// What a client asks of the agent.
#[derive(Debug, PartialEq, Eq)]
pub enum AgentRequest {
    GetDek { vault_path: String },
    StoreDek { vault_path: String, dek: Vec<u8> },
    Ping,
    Shutdown,
}

/// What the agent answers.
#[derive(Debug, PartialEq, Eq)]
pub enum AgentResponse {
    Dek { dek: Vec<u8> },
    NotFound,
    /// The request was carried out.
    Okay,
    Error(String),
}

} // verus!
