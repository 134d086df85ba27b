//! What every command shares: whether its vault must exist, and how the
//! vault is opened.

use crate::crypto::aead::AeadKey;
use crate::util::errors::{ObscuraError, ObscuraResult};
use crate::vault::aliases::{get_alias_spec, AliasesData};
use crate::vault::file::{decrypt_vault, decrypt_vault_spec, decrypt_vault_with_dek};
use crate::vault::manager::VaultType;
use crate::vault::model::{open_envelope_spec, VaultFile};
use vstd::prelude::*;
use vstd::string::*;

verus! {

/// The commands that operate on a vault.
#[derive(Debug, Clone, Copy, PartialEq, Eq, Structural)]
pub enum Command {
    Add,
    Get,
    List,
    Remove,
    Delete,
    Rotate,
    Export,
    Import,
    Run,
    Unlock,
}

/// How a command may go on once its vault was looked for.
#[derive(Debug, Clone, Copy, PartialEq, Eq, Structural)]
pub enum VaultAccess {
    /// The vault is there.
    Ready,
    /// The global vault is missing and is created first.
    CreateGlobal,
}

/// Whether a command creates a missing global vault instead of failing.
pub open spec fn creates_global(command: Command) -> bool {
    command == Command::Add || command == Command::List
}

/// What `import` says about a missing vault: how to create it.
pub open spec fn missing_vault_hint(vault_type: VaultType) -> Seq<char> {
    match vault_type {
        VaultType::Global => "Global vault not found. Please create a global vault first"@
            + " with 'obscura init --global'"@,
        VaultType::Project => "Project vault not found. Please create a project vault first"@
            + " with 'obscura init' or use --global to import to the global vault"@,
    }
}

/// Decides how a command goes on. A present vault is used. A missing
/// global vault is created by `add` and `list`; every other missing vault
/// is an error: for `import` one that says how to create the vault, for the
/// rest the vault-not-found error.
pub fn require_vault(command: Command, vault_type: VaultType, present: bool) -> (res: ObscuraResult<
    VaultAccess,
>)
    ensures
        present ==> res == Ok::<VaultAccess, ObscuraError>(VaultAccess::Ready),
        !present && creates_global(command) && vault_type == VaultType::Global ==> res == Ok::<
            VaultAccess,
            ObscuraError,
        >(VaultAccess::CreateGlobal),
        !present && command == Command::Import ==> (res matches Err(ObscuraError::CustomError(m))
            && m@ == missing_vault_hint(vault_type)),
        !present && command != Command::Import && !(creates_global(command) && vault_type
            == VaultType::Global) ==> res == Err::<VaultAccess, ObscuraError>(
            ObscuraError::VaultNotFound,
        ),
{
    if present {
        return Ok(VaultAccess::Ready);
    }
    match command {
        Command::Import => match vault_type {
            VaultType::Global => Err(
                ObscuraError::CustomError(
                    String::from_str("Global vault not found. Please create a global vault first")
                        .concat(" with 'obscura init --global'"),
                ),
            ),
            VaultType::Project => Err(
                ObscuraError::CustomError(
                    String::from_str("Project vault not found. Please create a project vault first")
                        .concat(" with 'obscura init' or use --global to import to the global vault"),
                ),
            ),
        },
        Command::Add | Command::List => match vault_type {
            VaultType::Global => Ok(VaultAccess::CreateGlobal),
            VaultType::Project => Err(ObscuraError::VaultNotFound),
        },
        _ => Err(ObscuraError::VaultNotFound),
    }
}

/// Where the key that opens a vault comes from.
pub enum KeySource {
    /// A data-encryption key that the cache held.
    Cached(AeadKey),
    /// The passphrase, from the environment or typed.
    Passphrase(String),
}

/// The cached key to open a vault with: the agent's where it holds one,
/// else the session store's, else none, and the passphrase is asked for.
pub fn cached_source(agent_dek: Option<AeadKey>, session_dek: Option<AeadKey>) -> (source: Option<
    KeySource,
>)
    ensures
        match (agent_dek, session_dek) {
            (Some(dek), _) => source matches Some(KeySource::Cached(key)) && key@ == dek@,
            (None, Some(dek)) => source matches Some(KeySource::Cached(key)) && key@ == dek@,
            (None, None) => source is None,
        },
{
    match agent_dek {
        Some(dek) => Some(KeySource::Cached(dek)),
        None => match session_dek {
            Some(dek) => Some(KeySource::Cached(dek)),
            None => None,
        },
    }
}

/// What opening a vault from a key source yields: the data-encryption key
/// and the serialized alias map.
pub open spec fn load_spec(file: VaultFile, source: KeySource) -> Result<
    (Seq<u8>, Seq<u8>),
    ObscuraError,
> {
    match source {
        KeySource::Cached(dek) => match open_envelope_spec(file@.body, dek@, Seq::empty()) {
            Ok(body) => Ok((dek@, body)),
            Err(e) => Err(e),
        },
        KeySource::Passphrase(passphrase) => decrypt_vault_spec(file@, passphrase@),
    }
}

/// Opens a vault: with a cached key the body is opened directly, with a
/// passphrase the key is derived and unwrapped first. Gives the key, the
/// serialized alias map and the vault file.
pub fn load_vault(vault_file: VaultFile, source: &KeySource) -> (res: ObscuraResult<
    (AeadKey, Vec<u8>, VaultFile),
>)
    ensures
        match load_spec(vault_file, *source) {
            Ok((dek, body)) => res matches Ok(loaded) && loaded.0@ == dek && loaded.1@ == body
                && loaded.2 == vault_file,
            Err(e) => res matches Err(got) && got == e,
        },
{
    let (dek, aliases_json) = load_aliases(&vault_file, source)?;
    Ok((dek, aliases_json, vault_file))
}

/// Opens a vault and gives the key and the serialized alias map.
pub fn load_aliases(vault_file: &VaultFile, source: &KeySource) -> (res: ObscuraResult<
    (AeadKey, Vec<u8>),
>)
    ensures
        match load_spec(*vault_file, *source) {
            Ok((dek, body)) => res matches Ok(loaded) && loaded.0@ == dek && loaded.1@ == body,
            Err(e) => res matches Err(got) && got == e,
        },
{
    match source {
        KeySource::Cached(dek) => {
            let aliases_json = decrypt_vault_with_dek(vault_file, dek)?;
            Ok((dek.clone(), aliases_json))
        },
        KeySource::Passphrase(passphrase) => decrypt_vault(vault_file, passphrase.as_str()),
    }
}

/// Whether the key is handed to the agent after loading: only a key that
/// was just derived from the passphrase, and only while the agent is up.
pub fn caches_after_load(source: &KeySource, agent_running: bool) -> (cache: bool)
    ensures
        cache == (agent_running && *source is Passphrase),
{
    match source {
        KeySource::Cached(_) => false,
        KeySource::Passphrase(_) => agent_running,
    }
}

/// Accepts the alias map read from an opened body; a body that does not
/// hold one is the opaque decryption failure.
pub fn accept_aliases(parsed: Option<AliasesData>) -> (res: ObscuraResult<AliasesData>)
    ensures
        match parsed {
            Some(aliases) => res matches Ok(a) && a == aliases,
            None => res matches Err(e) && e == ObscuraError::DecryptionFailed,
        },
{
    match parsed {
        Some(aliases) => Ok(aliases),
        None => Err(ObscuraError::DecryptionFailed),
    }
}

/// Decrypts the value of an alias; an absent alias is the alias-not-found
/// error that names it.
pub fn require_alias(aliases: &AliasesData, alias: &str, dek: &AeadKey) -> (res: ObscuraResult<
    String,
>)
    ensures
        match get_alias_spec(aliases@, alias@, dek@) {
            Ok(Some(value)) => res matches Ok(out) && out@ == value,
            Ok(None) => res matches Err(ObscuraError::AliasNotFound(name)) && name@ == alias@,
            Err(e) => res matches Err(got) && got == e,
        },
{
    match aliases.get_alias(alias, dek)? {
        Some(value) => Ok(value),
        None => Err(ObscuraError::AliasNotFound(String::from_str(alias))),
    }
}

/// Checks that an alias is present; an absent one is the alias-not-found
/// error that names it.
pub fn require_present(aliases: &AliasesData, alias: &str) -> (res: ObscuraResult<()>)
    ensures
        if aliases@.contains_key(alias@) {
            res is Ok
        } else {
            res matches Err(ObscuraError::AliasNotFound(name)) && name@ == alias@
        },
{
    if aliases.contains(alias) {
        Ok(())
    } else {
        Err(ObscuraError::AliasNotFound(String::from_str(alias)))
    }
}

} // verus!
