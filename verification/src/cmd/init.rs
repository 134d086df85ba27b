//! Creating a vault.

use crate::vault::manager::VaultType;
use vstd::prelude::*;

verus! {

/// The arguments of `init`.
#[derive(Debug, PartialEq, Eq)]
pub struct InitArgs {
    pub project: bool,
}

/// What `init` does with the vault it was asked for.
#[derive(Debug, Clone, Copy, PartialEq, Eq, Structural)]
pub enum InitAction {
    /// The vault is there already; it is reported and left as it is.
    Keep,
    /// There is no vault; one is created.
    Create,
}

/// The scope that `init` creates: the project vault with `--project`, else
/// the global vault.
pub fn handle_init(args: &InitArgs) -> (scope: VaultType)
    ensures
        scope == if args.project {
            VaultType::Project
        } else {
            VaultType::Global
        },
{
    if args.project {
        VaultType::Project
    } else {
        VaultType::Global
    }
}

/// What `init` does: a vault that is present is never written, so running
/// `init` again leaves it unchanged.
pub fn init_action(vault_present: bool) -> (action: InitAction)
    ensures
        action == if vault_present {
            InitAction::Keep
        } else {
            InitAction::Create
        },
{
    if vault_present {
        InitAction::Keep
    } else {
        InitAction::Create
    }
}

} // verus!
