//! Deleting a whole vault.

use crate::vault::manager::{parent_spec, DeletePlan, VaultInfo, VaultManager, VaultType};
use vstd::prelude::*;
use vstd::string::*;

verus! {

/// The arguments of `delete`.
#[derive(Debug, PartialEq, Eq)]
pub struct DeleteArgs {
    pub global: bool,
    pub project: bool,
    pub yes: bool,
}

/// The question that is asked before a vault is deleted.
pub fn delete_question(vault_type: VaultType) -> (question: String)
    ensures
        question@ == match vault_type {
            VaultType::Global => "Delete the global vault? This cannot be undone."@,
            VaultType::Project =>
                "Delete the project vault for this directory? This cannot be undone."@,
        },
{
    match vault_type {
        VaultType::Global => String::from_str("Delete the global vault? This cannot be undone."),
        VaultType::Project => String::from_str(
            "Delete the project vault for this directory? This cannot be undone.",
        ),
    }
}

/// What `delete` removes, or nothing where the deletion was not confirmed.
/// With `--yes` no confirmation is needed.
pub fn handle_delete(args: &DeleteArgs, vault_info: &VaultInfo, confirmed: bool) -> (plan: Option<
    DeletePlan,
>)
    ensures
        plan is Some <==> (args.yes || confirmed),
        plan matches Some(p) ==> {
            &&& p.file@ == vault_info.path@
            &&& match vault_info.vault_type {
                VaultType::Global => p.directory is None,
                VaultType::Project => match parent_spec(vault_info.path@) {
                    Some(dir) => p.directory matches Some(d) && d@ == dir,
                    None => p.directory is None,
                },
            }
        },
{
    if !args.yes && !confirmed {
        None
    } else {
        Some(VaultManager::delete_vault(vault_info))
    }
}

} // verus!
