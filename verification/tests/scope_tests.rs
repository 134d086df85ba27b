use obscura::util::atomic::{atomic_write, atomic_write_cleanup, FsAction};
use obscura::cmd::delete::{delete_question, handle_delete, DeleteArgs};
use obscura::cmd::init::{handle_init, init_action, InitAction, InitArgs};
use obscura::util::errors::ObscuraError;
use obscura::util::paths::{
    get_agent_socket_path, get_config_dir, get_global_vault_path, get_project_meta_path,
    get_project_vault_path, get_projects_dir, get_session_path, join, project_dir_name, temp_path,
};
use obscura::vault::manager::{
    parent_of, DeletePlan, ProjectMeta, ScopeRequest, VaultInfo, VaultManager, VaultType,
};

const EMPTY_HASH: &str = "af1349b9f5f9a1a6a0404dea36dcc9499bcb25c9adc112b7cc9a93cae41f3262";

#[test]
fn join_adds_one_separator() {
    assert_eq!(join("/cfg", "vault.enc"), "/cfg/vault.enc");
    assert_eq!(join("/cfg/", "vault.enc"), "/cfg/vault.enc");
    assert_eq!(join("", "vault.enc"), "vault.enc");
    assert_eq!(join("/", "x"), "/x");
    assert_eq!(join("rel/ä", "x"), "rel/ä/x");
}

#[test]
fn project_directory_is_the_hex_hash_of_the_path() {
    assert_eq!(project_dir_name(""), EMPTY_HASH);
    let name = project_dir_name("/home/me/project");
    assert_eq!(name.len(), 64);
    assert!(name.chars().all(|c| c.is_ascii_digit() || ('a'..='f').contains(&c)));
    assert_eq!(name, project_dir_name("/home/me/project"));
    assert_ne!(name, project_dir_name("/home/me/project2"));
    assert_ne!(name, "/home/me/project");
}

#[test]
fn locations_below_the_config_directory() {
    let cfg = Some("/home/me/.config/obscura");
    assert_eq!(get_config_dir(cfg), Ok("/home/me/.config/obscura".to_string()));
    assert_eq!(get_config_dir(None), Err(ObscuraError::FilePermissionError));
    assert_eq!(get_global_vault_path(cfg), Ok("/home/me/.config/obscura/vault.enc".to_string()));
    assert_eq!(get_projects_dir(cfg), Ok("/home/me/.config/obscura/projects".to_string()));
    assert_eq!(get_agent_socket_path(cfg), Ok("/home/me/.config/obscura/agent.sock".to_string()));
    assert_eq!(get_session_path(cfg), Ok("/home/me/.config/obscura/session.enc".to_string()));
    assert_eq!(get_global_vault_path(None), Err(ObscuraError::FilePermissionError));
    assert_eq!(get_projects_dir(None), Err(ObscuraError::FilePermissionError));
    assert_eq!(get_agent_socket_path(None), Err(ObscuraError::FilePermissionError));
    assert_eq!(get_session_path(None), Err(ObscuraError::FilePermissionError));
}

#[test]
fn project_locations() {
    let cfg = Some("/cfg");
    assert_eq!(
        get_project_vault_path(cfg, Some("")),
        Ok(format!("/cfg/projects/{}/vault.enc", EMPTY_HASH))
    );
    assert_eq!(
        get_project_meta_path(cfg, Some("")),
        Ok(format!("/cfg/projects/{}/meta.json", EMPTY_HASH))
    );
    assert_eq!(get_project_vault_path(cfg, None), Err(ObscuraError::FilePermissionError));
    assert_eq!(get_project_vault_path(None, Some("/p")), Err(ObscuraError::FilePermissionError));
    assert_eq!(get_project_meta_path(None, None), Err(ObscuraError::FilePermissionError));
}

#[test]
fn temporary_path_is_beside_and_different() {
    assert_eq!(temp_path("/cfg/vault.enc"), "/cfg/vault.enc.tmp");
    assert_eq!(temp_path(""), ".tmp");
    assert_ne!(temp_path("/cfg/vault.tmp"), "/cfg/vault.tmp");
}

#[test]
fn vault_info_constructors() {
    let global = VaultInfo::global(Some("/cfg")).unwrap();
    assert_eq!(global, VaultInfo { vault_type: VaultType::Global, path: "/cfg/vault.enc".to_string() });
    let project = VaultInfo::project(Some("/cfg"), Some("")).unwrap();
    assert_eq!(project.vault_type, VaultType::Project);
    assert_eq!(project.path, format!("/cfg/projects/{}/vault.enc", EMPTY_HASH));
    assert_eq!(VaultInfo::global(None), Err(ObscuraError::FilePermissionError));
    assert_eq!(VaultInfo::project(Some("/cfg"), None), Err(ObscuraError::FilePermissionError));
    assert_eq!(project.clone(), project);
}

#[test]
fn both_scope_flags_are_an_error() {
    assert_eq!(VaultManager::scope_request(true, true), Err(ObscuraError::InvalidVaultFormat));
    for present in [false, true] {
        assert_eq!(
            VaultManager::resolve_vault(true, true, Some("/cfg"), Some("/p"), present),
            Err(ObscuraError::InvalidVaultFormat)
        );
        assert_eq!(
            VaultManager::resolve_vault(true, true, None, None, present),
            Err(ObscuraError::InvalidVaultFormat)
        );
    }
}

#[test]
fn scope_requests() {
    assert_eq!(VaultManager::scope_request(true, false), Ok(ScopeRequest::Global));
    assert_eq!(VaultManager::scope_request(false, true), Ok(ScopeRequest::Project));
    assert_eq!(VaultManager::scope_request(false, false), Ok(ScopeRequest::Auto));
}

#[test]
fn automatic_scope_prefers_a_present_project_vault() {
    let global = VaultInfo::global(Some("/cfg")).unwrap();
    let project = VaultInfo::project(Some("/cfg"), Some("/p")).unwrap();
    assert_eq!(
        VaultManager::resolve_vault(false, false, Some("/cfg"), Some("/p"), false),
        Ok(global.clone())
    );
    assert_eq!(
        VaultManager::resolve_vault(false, false, Some("/cfg"), Some("/p"), true),
        Ok(project.clone())
    );
    assert_eq!(
        VaultManager::resolve_vault(false, true, Some("/cfg"), Some("/p"), false),
        Ok(project.clone())
    );
    assert_eq!(
        VaultManager::resolve_vault(true, false, Some("/cfg"), Some("/p"), true),
        Ok(global.clone())
    );
    assert_eq!(
        VaultManager::resolve_vault(true, false, Some("/cfg"), None, false),
        Ok(global)
    );
}

#[test]
fn unresolvable_directories_are_file_permission_errors() {
    assert_eq!(
        VaultManager::resolve_vault(false, false, Some("/cfg"), None, false),
        Err(ObscuraError::FilePermissionError)
    );
    assert_eq!(
        VaultManager::resolve_vault(false, true, Some("/cfg"), None, false),
        Err(ObscuraError::FilePermissionError)
    );
    assert_eq!(
        VaultManager::resolve_vault(true, false, None, Some("/p"), false),
        Err(ObscuraError::FilePermissionError)
    );
    assert_eq!(
        VaultManager::resolve_vault(false, false, None, Some("/p"), true),
        Err(ObscuraError::FilePermissionError)
    );
}

#[test]
fn parent_directories() {
    assert_eq!(parent_of("/cfg/projects/abc/vault.enc"), Some("/cfg/projects/abc".to_string()));
    assert_eq!(parent_of("a/b"), Some("a".to_string()));
    assert_eq!(parent_of("a/b/"), Some("a/b".to_string()));
    assert_eq!(parent_of("/vault.enc"), None);
    assert_eq!(parent_of("vault.enc"), None);
    assert_eq!(parent_of(""), None);
}

#[test]
fn delete_plans() {
    let global = VaultInfo::global(Some("/cfg")).unwrap();
    assert_eq!(
        VaultManager::delete_vault(&global),
        DeletePlan { file: "/cfg/vault.enc".to_string(), directory: None }
    );
    let project = VaultInfo::project(Some("/cfg"), Some("")).unwrap();
    assert_eq!(
        VaultManager::delete_vault(&project),
        DeletePlan {
            file: format!("/cfg/projects/{}/vault.enc", EMPTY_HASH),
            directory: Some(format!("/cfg/projects/{}", EMPTY_HASH)),
        }
    );
}

#[test]
fn delete_command_rules() {
    let info = VaultInfo::global(Some("/cfg")).unwrap();
    let mut args = DeleteArgs { global: true, project: false, yes: false };
    assert_eq!(handle_delete(&args, &info, false), None);
    assert_eq!(handle_delete(&args, &info, true), Some(VaultManager::delete_vault(&info)));
    args.yes = true;
    assert_eq!(handle_delete(&args, &info, false), Some(VaultManager::delete_vault(&info)));
    assert_eq!(
        delete_question(VaultType::Global),
        "Delete the global vault? This cannot be undone."
    );
    assert_eq!(
        delete_question(VaultType::Project),
        "Delete the project vault for this directory? This cannot be undone."
    );
}

#[test]
fn init_rules() {
    assert_eq!(handle_init(&InitArgs { project: false }), VaultType::Global);
    assert_eq!(handle_init(&InitArgs { project: true }), VaultType::Project);
    assert_eq!(init_action(false), InitAction::Create);
    assert_eq!(init_action(true), InitAction::Keep);
    assert_eq!(init_action(true), init_action(true));
}

#[test]
fn project_meta_records() {
    let meta = ProjectMeta::at("/p".to_string(), "2024-01-01T00:00:00+00:00".to_string());
    assert_eq!(meta.path, "/p");
    assert_eq!(meta.created_at, "2024-01-01T00:00:00+00:00");
    assert_eq!(meta.last_used, "2024-01-01T00:00:00+00:00");
    let now = ProjectMeta::new("/q".to_string());
    assert_eq!(now.path, "/q");
    assert_eq!(now.created_at, now.last_used);
    assert!(now.created_at.contains('T'));
}

#[test]
fn atomic_write_goes_through_the_temporary_file() {
    assert_eq!(
        atomic_write("/cfg/vault.enc", vec![1, 2, 3]),
        vec![
            FsAction::WritePrivate { path: "/cfg/vault.enc.tmp".to_string(), data: vec![1, 2, 3] },
            FsAction::Rename {
                from: "/cfg/vault.enc.tmp".to_string(),
                to: "/cfg/vault.enc".to_string()
            },
            FsAction::Restrict { path: "/cfg/vault.enc".to_string() },
        ]
    );
    assert_eq!(
        atomic_write_cleanup("/cfg/vault.enc"),
        FsAction::Remove { path: "/cfg/vault.enc.tmp".to_string() }
    );
}
