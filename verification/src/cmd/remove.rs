//! Removing one secret.

use crate::util::errors::{ObscuraError, ObscuraResult};
use crate::util::text_map::without;
use crate::vault::aliases::AliasesData;
use vstd::prelude::*;
use vstd::string::*;

verus! {

/// The arguments of `remove`.
#[derive(Debug, PartialEq, Eq)]
pub struct RemoveArgs {
    pub alias: String,
    pub global: bool,
    pub project: bool,
    pub yes: bool,
}

/// How a removal ended.
#[derive(Debug, Clone, Copy, PartialEq, Eq, Structural)]
pub enum RemoveOutcome {
    Removed,
    /// The removal was not confirmed.
    Cancelled,
}

/// Removes the alias. An absent alias is the alias-not-found error that
/// names it; without `--yes` the removal must have been confirmed, else
/// nothing changes.
pub fn handle_remove(args: &RemoveArgs, aliases: &mut AliasesData, confirmed: bool) -> (res:
    ObscuraResult<RemoveOutcome>)
    ensures
        if !old(aliases)@.contains_key(args.alias@) {
            &&& res matches Err(ObscuraError::AliasNotFound(name))
            &&& name@ == args.alias@
            &&& final(aliases)@ == old(aliases)@
        } else if !args.yes && !confirmed {
            &&& res matches Ok(RemoveOutcome::Cancelled)
            &&& final(aliases)@ == old(aliases)@
        } else {
            &&& res matches Ok(RemoveOutcome::Removed)
            &&& final(aliases)@ == old(aliases)@.remove(args.alias@)
            &&& final(aliases).names() == without(old(aliases).names(), args.alias@)
        },
{
    if !aliases.contains(args.alias.as_str()) {
        return Err(ObscuraError::AliasNotFound(args.alias.clone()));
    }
    if !args.yes && !confirmed {
        return Ok(RemoveOutcome::Cancelled);
    }
    aliases.remove_alias(args.alias.as_str());
    Ok(RemoveOutcome::Removed)
}

} // verus!
