//! Rotating one secret.

use crate::crypto::aead::AeadKey;
use crate::util::errors::{ObscuraError, ObscuraResult};
use crate::vault::aliases::{get_alias_spec, AliasesData};
use crate::vault::model::envelope_fits;
use vstd::prelude::*;
use vstd::string::*;
use vstd::utf8::*;

verus! {

/// The arguments of `rotate`.
#[derive(Debug, PartialEq, Eq)]
pub struct RotateArgs {
    pub alias: String,
    pub global: bool,
    pub project: bool,
}

/// Replaces the value of the alias, keeping its creation time. An absent
/// alias is the alias-not-found error that names it.
pub fn handle_rotate(
    args: &RotateArgs,
    aliases: &mut AliasesData,
    new_value: String,
    dek: &AeadKey,
) -> (res: ObscuraResult<()>)
    ensures
        final(aliases).names() == old(aliases).names(),
        if !old(aliases)@.contains_key(args.alias@) {
            &&& res matches Err(ObscuraError::AliasNotFound(name))
            &&& name@ == args.alias@
            &&& final(aliases)@ == old(aliases)@
        } else if !envelope_fits(encode_utf8(new_value@).len()) {
            &&& res matches Err(ObscuraError::EncryptionFailed)
            &&& final(aliases)@ == old(aliases)@
        } else {
            &&& res is Ok
            &&& final(aliases)@.dom() == old(aliases)@.dom()
            &&& forall|name: Seq<char>|
                name != args.alias@ && old(aliases)@.contains_key(name) ==> final(aliases)@[name]
                    == old(aliases)@[name]
            &&& final(aliases)@[args.alias@].created_at == old(aliases)@[args.alias@].created_at
            &&& final(aliases)@[args.alias@].rotated_at is Some
            &&& get_alias_spec(final(aliases)@, args.alias@, dek@) == Ok::<
                Option<Seq<char>>,
                ObscuraError,
            >(Some(new_value@))
        },
{
    if !aliases.contains(args.alias.as_str()) {
        return Err(ObscuraError::AliasNotFound(args.alias.clone()));
    }
    match aliases.rotate_alias(args.alias.as_str(), new_value, dek) {
        Ok(_) => Ok(()),
        Err(_) => Err(ObscuraError::EncryptionFailed),
    }
}

} // verus!
