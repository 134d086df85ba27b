//! Adding a secret, typed in or copied from the global vault.

use crate::cmd::common::require_alias;
use crate::crypto::aead::AeadKey;
use crate::util::errors::{ObscuraError, ObscuraResult};
use crate::vault::aliases::{get_alias_spec, AliasesData};
use crate::vault::model::envelope_fits;
use vstd::prelude::*;
use vstd::string::*;
use vstd::utf8::*;

verus! {

/// The arguments of `add`.
#[derive(Debug, PartialEq, Eq)]
pub struct AddArgs {
    pub alias: String,
    pub global: bool,
    pub project: bool,
    pub from_global: bool,
}

/// The two ways of adding a secret.
#[derive(Debug, Clone, Copy, PartialEq, Eq, Structural)]
pub enum AddMode {
    /// The value is asked for and stored in the resolved vault.
    NewSecret,
    /// The value is copied from the global vault into the project vault.
    FromGlobal,
}

/// How an addition ended.
#[derive(Debug, Clone, Copy, PartialEq, Eq, Structural)]
pub enum AddOutcome {
    Added,
    /// The alias was present and overwriting it was not confirmed.
    Cancelled,
}

/// Which way of adding the arguments ask for. Both scope flags together
/// are refused, in either way, before any vault is looked for.
pub open spec fn handle_add_spec(args: AddArgs) -> Result<AddMode, ObscuraError> {
    if args.global && args.project {
        Err(ObscuraError::InvalidVaultFormat)
    } else if args.from_global {
        Ok(AddMode::FromGlobal)
    } else {
        Ok(AddMode::NewSecret)
    }
}

pub fn handle_add(args: &AddArgs) -> (res: ObscuraResult<AddMode>)
    ensures
        res == handle_add_spec(*args),
{
    if args.global && args.project {
        Err(ObscuraError::InvalidVaultFormat)
    } else if args.from_global {
        Ok(AddMode::FromGlobal)
    } else {
        Ok(AddMode::NewSecret)
    }
}

/// Whether copying from the global vault can start: both vaults must be
/// there.
pub fn require_both_vaults(project_present: bool, global_present: bool) -> (res: ObscuraResult<()>)
    ensures
        res == if project_present && global_present {
            Ok::<(), ObscuraError>(())
        } else {
            Err::<(), ObscuraError>(ObscuraError::VaultNotFound)
        },
{
    if !project_present || !global_present {
        Err(ObscuraError::VaultNotFound)
    } else {
        Ok(())
    }
}

/// Stores a secret under `alias`. A present alias is overwritten only where
/// that was confirmed; otherwise nothing changes.
pub fn add_new_secret(
    aliases: &mut AliasesData,
    alias: &str,
    value: String,
    dek: &AeadKey,
    overwrite_confirmed: bool,
) -> (res: ObscuraResult<AddOutcome>)
    ensures
        old(aliases)@.contains_key(alias@) && !overwrite_confirmed ==> res == Ok::<
            AddOutcome,
            ObscuraError,
        >(AddOutcome::Cancelled) && final(aliases)@ == old(aliases)@,
        !(old(aliases)@.contains_key(alias@) && !overwrite_confirmed) ==> {
            &&& res is Ok <==> envelope_fits(encode_utf8(value@).len())
            &&& res is Ok ==> {
                &&& res == Ok::<AddOutcome, ObscuraError>(AddOutcome::Added)
                &&& final(aliases)@.dom() == old(aliases)@.dom().insert(alias@)
                &&& forall|name: Seq<char>|
                    name != alias@ && old(aliases)@.contains_key(name) ==> final(aliases)@[name]
                        == old(aliases)@[name]
                &&& get_alias_spec(final(aliases)@, alias@, dek@) == Ok::<
                    Option<Seq<char>>,
                    ObscuraError,
                >(Some(value@))
            }
            &&& res is Err ==> res == Err::<AddOutcome, ObscuraError>(
                ObscuraError::EncryptionFailed,
            ) && final(aliases)@ == old(aliases)@
        },
{
    if aliases.contains(alias) && !overwrite_confirmed {
        return Ok(AddOutcome::Cancelled);
    }
    match aliases.add_alias(String::from_str(alias), value, dek) {
        Ok(()) => Ok(AddOutcome::Added),
        Err(_) => Err(ObscuraError::EncryptionFailed),
    }
}

/// The value to copy from the global vault: the alias must be present there
/// and decrypt.
pub fn add_from_global(global_aliases: &AliasesData, alias: &str, global_dek: &AeadKey) -> (res:
    ObscuraResult<String>)
    ensures
        match get_alias_spec(global_aliases@, alias@, global_dek@) {
            Ok(Some(value)) => res matches Ok(out) && out@ == value,
            Ok(None) => res matches Err(ObscuraError::AliasNotFound(name)) && name@ == alias@,
            Err(e) => res matches Err(got) && got == e,
        },
{
    require_alias(global_aliases, alias, global_dek)
}

} // verus!
