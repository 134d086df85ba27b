//! Which vault a command operates on, and what deleting a vault removes.

use crate::util::clock::now_rfc3339;
use crate::util::errors::{ObscuraError, ObscuraResult};
use crate::util::paths::{
    config_path_spec, get_global_vault_path, get_project_vault_path, opt_text, project_path_spec,
};
use crate::util::text::chars_of;
use crate::util::text::text_of;
use vstd::prelude::*;
use vstd::string::*;

verus! {

/// The two vault scopes: one vault per user, or one per project directory.
#[derive(Debug, Clone, Copy, PartialEq, Eq, Structural)]
pub enum VaultType {
    Global,
    Project,
}

/// A vault's scope and where its file lives.
#[derive(Debug, PartialEq, Eq)]
pub struct VaultInfo {
    pub vault_type: VaultType,
    pub path: String,
}

impl Clone for VaultInfo {
    fn clone(&self) -> (res: Self)
        ensures
            res.vault_type == self.vault_type,
            res.path@ == self.path@,
    {
        VaultInfo { vault_type: self.vault_type, path: self.path.clone() }
    }
}

/// What the two scope flags ask for.
#[derive(Debug, Clone, Copy, PartialEq, Eq, Structural)]
pub enum ScopeRequest {
    /// The global vault, whatever the current directory holds.
    Global,
    /// The project vault of the current directory, present or not.
    Project,
    /// The project vault of the current directory if it is present, else
    /// the global vault.
    Auto,
}

/// The scope and path that the flags select, given the configuration
/// directory, the canonical current directory and whether a project vault
/// is present there. Both flags together are refused. The current directory
/// is needed unless the global vault is forced; the probe counts only where
/// no flag is set.
pub open spec fn resolve_vault_spec(
    force_global: bool,
    force_project: bool,
    config_dir: Option<Seq<char>>,
    current_dir: Option<Seq<char>>,
    project_vault_present: bool,
) -> Result<(VaultType, Seq<char>), ObscuraError> {
    let global = config_path_spec(config_dir, "vault.enc"@);
    let project = project_path_spec(config_dir, current_dir, "vault.enc"@);
    if force_global && force_project {
        Err(ObscuraError::InvalidVaultFormat)
    } else if force_global {
        match global {
            Ok(path) => Ok((VaultType::Global, path)),
            Err(e) => Err(e),
        }
    } else {
        match project {
            Ok(path) => if force_project || project_vault_present {
                Ok((VaultType::Project, path))
            } else {
                match global {
                    Ok(path) => Ok((VaultType::Global, path)),
                    Err(e) => Err(e),
                }
            },
            Err(e) => Err(e),
        }
    }
}

impl VaultInfo {
    /// The global vault below the configuration directory.
    pub fn global(config_dir: Option<&str>) -> (res: ObscuraResult<Self>)
        ensures
            match config_path_spec(opt_text(config_dir), "vault.enc"@) {
                Ok(path) => res matches Ok(info) && info.vault_type == VaultType::Global
                    && info.path@ == path,
                Err(e) => res matches Err(got) && got == e,
            },
    {
        Ok(VaultInfo { vault_type: VaultType::Global, path: get_global_vault_path(config_dir)? })
    }

    /// The project vault of the directory with the given canonical path.
    pub fn project(config_dir: Option<&str>, canonical_path: Option<&str>) -> (res: ObscuraResult<
        Self,
    >)
        ensures
            match project_path_spec(opt_text(config_dir), opt_text(canonical_path), "vault.enc"@) {
                Ok(path) => res matches Ok(info) && info.vault_type == VaultType::Project
                    && info.path@ == path,
                Err(e) => res matches Err(got) && got == e,
            },
    {
        Ok(
            VaultInfo {
                vault_type: VaultType::Project,
                path: get_project_vault_path(config_dir, canonical_path)?,
            },
        )
    }
}

/// What deleting a vault removes: its file, and for a project vault the
/// directory that holds it.
#[derive(Debug, PartialEq, Eq)]
pub struct DeletePlan {
    pub file: String,
    pub directory: Option<String>,
}

/// The position of the last `/` in a path, or -1 where it holds none.
pub open spec fn last_slash_spec(path: Seq<char>) -> int
    decreases path.len(),
{
    if path.len() == 0 {
        -1
    } else if path.last() == '/' {
        path.len() - 1
    } else {
        last_slash_spec(path.drop_last())
    }
}

/// The directory that holds a path: what precedes its last `/`, if that is
/// not empty.
pub open spec fn parent_spec(path: Seq<char>) -> Option<Seq<char>> {
    if last_slash_spec(path) > 0 {
        Some(path.take(last_slash_spec(path)))
    } else {
        None
    }
}

proof fn lemma_last_slash_prefix(path: Seq<char>, k: int)
    requires
        0 <= k <= path.len(),
        forall|i: int| k <= i < path.len() ==> path[i] != '/',
    ensures
        last_slash_spec(path) == last_slash_spec(path.take(k)),
    decreases path.len() - k,
{
    if k == path.len() {
        assert(path.take(k) =~= path);
    } else {
        assert(path.last() != '/');
        lemma_last_slash_prefix(path.drop_last(), k);
        assert(path.drop_last().take(k) =~= path.take(k));
    }
}

/// The directory that holds `path`.
pub fn parent_of(path: &str) -> (parent: Option<String>)
    ensures
        match parent_spec(path@) {
            Some(dir) => parent matches Some(p) && p@ == dir,
            None => parent is None,
        },
{
    let chars = chars_of(path);
    let mut k: usize = chars.len();
    while k > 0 && chars[k - 1] != '/'
        invariant
            k <= chars@.len(),
            forall|i: int| k <= i < chars@.len() ==> chars@[i] != '/',
        decreases k,
    {
        k = k - 1;
    }
    proof {
        lemma_last_slash_prefix(chars@, k as int);
        if k > 0 {
            assert(chars@.take(k as int).last() == chars@[k - 1]);
        }
    }
    if k > 1 {
        let parent = text_of(&chars, 0, k - 1);
        assert(chars@.subrange(0, k - 1) =~= chars@.take(k - 1));
        Some(parent)
    } else {
        None
    }
}

/// The housekeeping record kept beside a project vault.
#[derive(Debug, PartialEq, Eq)]
pub struct ProjectMeta {
    pub path: String,
    pub created_at: String,
    pub last_used: String,
}

impl ProjectMeta {
    /// The record of a project first used now.
    pub fn new(canonical_path: String) -> (meta: Self)
        ensures
            meta.path@ == canonical_path@,
            meta.last_used@ == meta.created_at@,
    {
        Self::at(canonical_path, now_rfc3339())
    }

    /// The record of a project first used at the given time.
    pub fn at(canonical_path: String, now: String) -> (meta: Self)
        ensures
            meta.path@ == canonical_path@,
            meta.created_at@ == now@,
            meta.last_used@ == now@,
    {
        ProjectMeta { path: canonical_path, created_at: now.clone(), last_used: now }
    }
}

/// Scope resolution and vault lifecycle rules.
pub struct VaultManager;

impl VaultManager {
    /// What the two scope flags ask for; both together are an error.
    pub open spec fn scope_request_spec(force_global: bool, force_project: bool) -> Result<
        ScopeRequest,
        ObscuraError,
    > {
        if force_global && force_project {
            Err(ObscuraError::InvalidVaultFormat)
        } else if force_global {
            Ok(ScopeRequest::Global)
        } else if force_project {
            Ok(ScopeRequest::Project)
        } else {
            Ok(ScopeRequest::Auto)
        }
    }

    /// What the two scope flags ask for. Both together are an error, which
    /// is known before anything on disk is consulted.
    pub fn scope_request(force_global: bool, force_project: bool) -> (res: ObscuraResult<
        ScopeRequest,
    >)
        ensures
            res == Self::scope_request_spec(force_global, force_project),
    {
        if force_global && force_project {
            Err(ObscuraError::InvalidVaultFormat)
        } else if force_global {
            Ok(ScopeRequest::Global)
        } else if force_project {
            Ok(ScopeRequest::Project)
        } else {
            Ok(ScopeRequest::Auto)
        }
    }

    /// Selects the vault a command operates on.
    pub fn resolve_vault(
        force_global: bool,
        force_project: bool,
        config_dir: Option<&str>,
        current_dir: Option<&str>,
        project_vault_present: bool,
    ) -> (res: ObscuraResult<VaultInfo>)
        ensures
            match resolve_vault_spec(
                force_global,
                force_project,
                opt_text(config_dir),
                opt_text(current_dir),
                project_vault_present,
            ) {
                Ok((vault_type, path)) => res matches Ok(info) && info.vault_type == vault_type
                    && info.path@ == path,
                Err(e) => res matches Err(got) && got == e,
            },
    {
        if force_global && force_project {
            return Err(ObscuraError::InvalidVaultFormat);
        }
        if force_global {
            return VaultInfo::global(config_dir);
        }
        let project_vault = VaultInfo::project(config_dir, current_dir)?;
        if force_project || project_vault_present {
            return Ok(project_vault);
        }
        VaultInfo::global(config_dir)
    }

    /// What deleting the vault removes.
    pub fn delete_vault(vault_info: &VaultInfo) -> (plan: DeletePlan)
        ensures
            plan.file@ == vault_info.path@,
            match vault_info.vault_type {
                VaultType::Global => plan.directory is None,
                VaultType::Project => match parent_spec(vault_info.path@) {
                    Some(dir) => plan.directory matches Some(d) && d@ == dir,
                    None => plan.directory is None,
                },
            },
    {
        match vault_info.vault_type {
            VaultType::Global => DeletePlan { file: vault_info.path.clone(), directory: None },
            VaultType::Project => DeletePlan {
                file: vault_info.path.clone(),
                directory: parent_of(vault_info.path.as_str()),
            },
        }
    }
}

/// With both scope flags set, resolution fails whatever the directories and
/// the disk hold; with neither set and no project vault present, the global
/// vault is selected.
pub proof fn lemma_scope_resolution(
    config_dir: Option<Seq<char>>,
    current_dir: Option<Seq<char>>,
    project_vault_present: bool,
)
    ensures
        resolve_vault_spec(true, true, config_dir, current_dir, project_vault_present) == Err::<
            (VaultType, Seq<char>),
            ObscuraError,
        >(ObscuraError::InvalidVaultFormat),
        config_dir is Some && current_dir is Some ==> resolve_vault_spec(
            false,
            false,
            config_dir,
            current_dir,
            false,
        ) == Ok::<(VaultType, Seq<char>), ObscuraError>(
            (VaultType::Global, config_path_spec(config_dir, "vault.enc"@)->Ok_0),
        ),
{
}

} // verus!
