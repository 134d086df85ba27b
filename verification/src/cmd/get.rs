//! Retrieving one secret.

use crate::cmd::common::require_alias;
use crate::crypto::aead::AeadKey;
use crate::util::errors::{ObscuraError, ObscuraResult};
use crate::vault::aliases::{get_alias_spec, AliasesData};
use vstd::prelude::*;

verus! {

/// The arguments of `get`.
#[derive(Debug, PartialEq, Eq)]
pub struct GetArgs {
    pub alias: String,
    pub global: bool,
    pub project: bool,
}

/// The text that `get` writes: the decrypted value and nothing else. An
/// absent alias is the alias-not-found error that names it.
pub fn handle_get(args: &GetArgs, aliases: &AliasesData, dek: &AeadKey) -> (res: ObscuraResult<
    String,
>)
    ensures
        match get_alias_spec(aliases@, args.alias@, dek@) {
            Ok(Some(value)) => res matches Ok(out) && out@ == value,
            Ok(None) => res matches Err(ObscuraError::AliasNotFound(name)) && name@
                == args.alias@,
            Err(e) => res matches Err(got) && got == e,
        },
{
    require_alias(aliases, args.alias.as_str(), dek)
}

} // verus!
