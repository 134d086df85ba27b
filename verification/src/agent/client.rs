//! The client side of the agent protocol: which request a call sends and
//! what each reply means.

use crate::agent::protocol::{AgentRequest, AgentResponse};
use crate::crypto::aead::AeadKey;
use crate::util::encoding::to_array;
use crate::util::errors::{ObscuraError, ObscuraResult};
use vstd::prelude::*;
use vstd::slice::slice_to_vec;
use vstd::string::*;

verus! {

/// The client of the key agent.
pub struct AgentClient;

/// What the reply to a key request means: a 32-byte key, no key, or a
/// failure. A transport failure is passed on as it is; every other
/// unexpected reply is the opaque decryption failure.
pub open spec fn get_dek_spec(reply: ObscuraResult<AgentResponse>) -> Result<
    Option<Seq<u8>>,
    ObscuraError,
> {
    match reply {
        Ok(AgentResponse::Dek { dek }) => if dek@.len() == 32 {
            Ok(Some(dek@))
        } else {
            Err(ObscuraError::DecryptionFailed)
        },
        Ok(AgentResponse::NotFound) => Ok(None),
        Ok(_) => Err(ObscuraError::DecryptionFailed),
        Err(e) => Err(e),
    }
}

/// What the reply to a store or shutdown request means: success on `Ok`,
/// the transport failure as it is, the opaque failure otherwise.
pub open spec fn ack_spec(reply: ObscuraResult<AgentResponse>) -> Result<(), ObscuraError> {
    match reply {
        Ok(AgentResponse::Okay) => Ok(()),
        Ok(_) => Err(ObscuraError::DecryptionFailed),
        Err(e) => Err(e),
    }
}

impl AgentClient {
    /// The request that asks for the key of a vault.
    pub fn get_dek_request(vault_path: &str) -> (request: AgentRequest)
        ensures
            request matches AgentRequest::GetDek { vault_path: path } && path@ == vault_path@,
    {
        AgentRequest::GetDek { vault_path: String::from_str(vault_path) }
    }

    /// The request that hands the key of a vault to the agent.
    pub fn store_dek_request(vault_path: &str, dek: &AeadKey) -> (request: AgentRequest)
        ensures
            request matches AgentRequest::StoreDek { vault_path: path, dek: bytes } && path@
                == vault_path@ && bytes@ == dek@,
    {
        let bytes = dek.as_bytes();
        AgentRequest::StoreDek {
            vault_path: String::from_str(vault_path),
            dek: slice_to_vec(bytes.as_slice()),
        }
    }

    /// Whether the agent is up: its socket is present and it answered a
    /// ping with `Ok`.
    pub fn is_running(socket_present: bool, reply: &ObscuraResult<AgentResponse>) -> (running: bool)
        ensures
            running == (socket_present && *reply matches Ok(AgentResponse::Okay)),
    {
        if !socket_present {
            return false;
        }
        match reply {
            Ok(AgentResponse::Okay) => true,
            _ => false,
        }
    }

    /// Reads the reply to a key request.
    pub fn get_dek(reply: ObscuraResult<AgentResponse>) -> (res: ObscuraResult<Option<AeadKey>>)
        ensures
            match get_dek_spec(reply) {
                Ok(Some(dek)) => res matches Ok(Some(key)) && key@ == dek,
                Ok(None) => res matches Ok(None),
                Err(e) => res matches Err(got) && got == e,
            },
    {
        match reply {
            Ok(AgentResponse::Dek { dek }) => match to_array::<32>(dek.as_slice()) {
                Some(bytes) => Ok(Some(AeadKey::from_bytes(bytes))),
                None => Err(ObscuraError::DecryptionFailed),
            },
            Ok(AgentResponse::NotFound) => Ok(None),
            Ok(_) => Err(ObscuraError::DecryptionFailed),
            Err(e) => Err(e),
        }
    }

    /// Reads the reply to a store request.
    pub fn store_dek(reply: ObscuraResult<AgentResponse>) -> (res: ObscuraResult<()>)
        ensures
            res == ack_spec(reply),
    {
        match reply {
            Ok(AgentResponse::Okay) => Ok(()),
            Ok(_) => Err(ObscuraError::DecryptionFailed),
            Err(e) => Err(e),
        }
    }

    /// Reads the reply to a shutdown request.
    pub fn shutdown(reply: ObscuraResult<AgentResponse>) -> (res: ObscuraResult<()>)
        ensures
            res == ack_spec(reply),
    {
        match reply {
            Ok(AgentResponse::Okay) => Ok(()),
            Ok(_) => Err(ObscuraError::DecryptionFailed),
            Err(e) => Err(e),
        }
    }
}

} // verus!
