use git_workers::config::{
    config_for_repository, config_probes_non_bare, chosen_probe, default_branch_config_candidates,
    default_branch_dir_candidates, normalize_repository_url, repository_url_matches, Config,
};
use git_workers::constants::{DEFAULT_BRANCH_MAIN, DEFAULT_BRANCH_MASTER};
use git_workers::hooks::HookContext;
use git_workers::usecases::edit_hooks::{
    edit_outcome, find_config_file_path_internal, preferred_editor, ConfigPathError,
    ConfigSearchFacts, EditorOutcome, CONFIG_TEMPLATE,
};
use std::path::Path;

#[test]
fn test_find_config_in_default_branches_not_found() {
    let temp_dir = tempfile::TempDir::new().unwrap();
    let dir = temp_dir.path().display().to_string();
    let candidates = default_branch_config_candidates(&dir, DEFAULT_BRANCH_MAIN, "nonexistent.toml");
    let result = candidates.into_iter().find(|p| Path::new(p).exists());
    assert!(result.is_none());
}

#[test]
fn test_find_default_branch_directory_not_found() {
    let temp_dir = tempfile::TempDir::new().unwrap();
    let dir = temp_dir.path().display().to_string();
    let candidates = default_branch_dir_candidates(&dir, DEFAULT_BRANCH_MAIN);
    let result = candidates.into_iter().find(|p| Path::new(p).is_dir());
    assert!(result.is_none());
}

#[test]
fn test_hook_context_with_pathbuf_display() {
    let temp_dir = tempfile::TempDir::new().unwrap();
    let context = HookContext {
        worktree_name: "test".to_string(),
        worktree_path: temp_dir.path().display().to_string(),
    };
    let path_str = context.worktree_path.clone();
    assert!(!path_str.is_empty(), "Path string should not be empty");
    assert!(
        path_str.starts_with('/') || path_str.contains(':'),
        "Should be an absolute path"
    );
}

#[test]
fn default_branch_candidates_skip_the_current_default() {
    assert_eq!(
        default_branch_config_candidates("/r", DEFAULT_BRANCH_MAIN, ".git-workers.toml"),
        vec!["/r/master/.git-workers.toml".to_string()]
    );
    assert_eq!(
        default_branch_config_candidates("/r", "develop", "c.toml"),
        vec!["/r/main/c.toml".to_string(), "/r/master/c.toml".to_string()]
    );
    assert_eq!(default_branch_dir_candidates("/r", DEFAULT_BRANCH_MASTER), vec!["/r/main".to_string()]);
}

#[test]
fn repository_urls_compare_without_git_suffix_slash_or_case() {
    assert_eq!(normalize_repository_url("https://GitHub.com/Owner/Repo.git"), "https://github.com/owner/repo");
    assert_eq!(normalize_repository_url("https://github.com/owner/repo/"), "https://github.com/owner/repo");
    assert!(repository_url_matches("https://github.com/owner/repo", Some("https://github.com/owner/repo.git")));
    assert!(!repository_url_matches("https://github.com/owner/repo", Some("https://github.com/owner/other")));
    assert!(repository_url_matches("https://github.com/owner/repo", None));
}

fn config_for_url(url: &str) -> Config {
    let mut config = Config::empty();
    config.repository.url = Some(url.to_string());
    config.hooks.insert("post-create".to_string(), vec!["echo hi".to_string()]);
    config
}

#[test]
fn configuration_for_another_repository_is_dropped() {
    let kept = config_for_repository(config_for_url("https://github.com/owner/repo.git"), Some("https://github.com/owner/repo"));
    assert!(kept.hooks.get("post-create").is_some());
    let dropped = config_for_repository(config_for_url("https://github.com/owner/repo.git"), Some("https://github.com/someone/else"));
    assert!(dropped.hooks.get("post-create").is_none());
    assert!(dropped.repository.url.is_none());
}

#[test]
fn non_bare_probe_order_and_choice() {
    let probes = config_probes_non_bare("/work/repo", true);
    assert!(!probes.is_empty());
    assert_eq!(probes[0].path, "/work/repo/.git-workers.toml");
    let none = vec![false; probes.len()];
    assert_eq!(chosen_probe(&probes, &none, &none), None);
    let mut first = vec![false; probes.len()];
    first[0] = true;
    let dirs = vec![true; probes.len()];
    assert_eq!(chosen_probe(&probes, &first, &dirs), Some(0));
}

fn facts(is_bare: bool, cwd: Option<&str>, workdir: Option<&str>) -> ConfigSearchFacts {
    ConfigSearchFacts {
        is_bare,
        cwd: cwd.map(|s| s.to_string()),
        workdir: workdir.map(|s| s.to_string()),
        cwd_config_exists: false,
        workdir_git_is_dir: false,
        workdir_exists: false,
        workdir_config_exists: false,
    }
}

#[test]
fn config_file_in_bare_repository_is_in_current_directory() {
    assert_eq!(
        find_config_file_path_internal(&facts(true, Some("/bare"), None)),
        Ok("/bare/.git-workers.toml".to_string())
    );
    assert_eq!(
        find_config_file_path_internal(&facts(true, None, None)),
        Err(ConfigPathError::NoCurrentDirectory)
    );
}

#[test]
fn config_file_search_order_in_a_checkout() {
    let mut f = facts(false, Some("/repo/sub"), Some("/repo"));
    assert_eq!(find_config_file_path_internal(&f), Ok("/repo/sub/.git-workers.toml".to_string()));
    f.workdir_git_is_dir = true;
    f.workdir_exists = true;
    f.workdir_config_exists = true;
    assert_eq!(find_config_file_path_internal(&f), Ok("/repo/.git-workers.toml".to_string()));
    f.cwd_config_exists = true;
    assert_eq!(find_config_file_path_internal(&f), Ok("/repo/sub/.git-workers.toml".to_string()));
    let same = facts(false, Some("/repo"), Some("/repo/"));
    assert_eq!(find_config_file_path_internal(&same), Ok("/repo/.git-workers.toml".to_string()));
    assert_eq!(
        find_config_file_path_internal(&facts(false, None, Some("/repo"))),
        Ok("/repo/.git-workers.toml".to_string())
    );
    assert_eq!(
        find_config_file_path_internal(&facts(false, None, None)),
        Err(ConfigPathError::NoWorkingDirectory)
    );
}

#[test]
fn preferred_editor_order() {
    assert_eq!(preferred_editor(Some("nano".to_string()), Some("code".to_string()), false), "nano");
    assert_eq!(preferred_editor(None, Some("code".to_string()), false), "code");
    assert_eq!(preferred_editor(None, None, false), "vi");
    assert_eq!(preferred_editor(None, None, true), "notepad");
}

#[test]
fn editor_outcomes() {
    assert_eq!(edit_outcome(Some(true)), EditorOutcome::Edited);
    assert_eq!(edit_outcome(Some(false)), EditorOutcome::NonZeroExit);
    assert_eq!(edit_outcome(None), EditorOutcome::LaunchFailed);
}

#[test]
fn template_declares_the_three_hook_types() {
    assert!(CONFIG_TEMPLATE.contains("post-create = ["));
    assert!(CONFIG_TEMPLATE.contains("pre-remove = ["));
    assert!(CONFIG_TEMPLATE.contains("post-switch = ["));
    assert!(CONFIG_TEMPLATE.contains("[repository]"));
}

#[test]
fn remote_branches_and_edit_hooks_use_the_documented_icons() {
    assert_eq!(git_workers::constants::ICON_REMOTE_BRANCH, "↑ ");
    assert_eq!(git_workers::constants::MENU_EDIT_HOOKS, "λ  Edit hooks");
}
