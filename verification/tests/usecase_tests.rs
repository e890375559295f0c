use git_workers::constants::{
    SEARCH_CURRENT_INDICATOR, WORKTREE_LOCATION_CUSTOM_PATH, WORKTREE_LOCATION_SAME_LEVEL,
    WORKTREE_LOCATION_SUBDIRECTORY,
};
use git_workers::domain::paths::{
    determine_worktree_path, validate_worktree_creation, validate_worktree_location,
};
use git_workers::git::{lock_error_message, lock_file_path, lock_is_stale, CommitInfo, WorktreeInfo};
use git_workers::usecases::create::{determine_worktree_path_legacy, BranchSource};
use git_workers::usecases::delete::{
    get_deletable_worktrees, prepare_batch_delete_items, should_delete_orphaned_branch,
    validate_deletion_target, DeletionAnalysis, WorktreeDeleteConfig,
};
use git_workers::usecases::list::{
    format_worktree_display, items_per_page, next_page, page_bounds, page_count, paged_table_widths,
    should_show_worktree, table_cells, table_widths, PageKey,
};
use git_workers::usecases::rename::{
    git_name_of, analyze_rename_requirements, should_rename_branch, validate_rename_operation, RenameConfig,
    WorktreeRenameConfig,
};
use git_workers::usecases::switch::{
    analyze_switch_target, create_search_items, is_already_in_worktree, sort_worktrees_for_display,
    validate_search_selection, validate_switch_target, SwitchConfig, WorktreeSwitchConfig,
};

fn worktree(name: &str, path: &str, branch: &str, is_current: bool, has_changes: bool, is_locked: bool) -> WorktreeInfo {
    WorktreeInfo {
        name: name.to_string(),
        git_name: name.to_string(),
        path: path.to_string(),
        branch: branch.to_string(),
        is_locked,
        is_current,
        has_changes,
        last_commit: None,
        ahead_behind: None,
    }
}

// ---- creating worktrees ----

#[test]
fn create_worktree_test_validate_worktree_location_valid() {
    assert!(validate_worktree_location("same-level").is_ok());
    assert!(validate_worktree_location("custom").is_ok());
}

#[test]
fn create_worktree_test_validate_worktree_location_invalid() {
    assert!(validate_worktree_location("invalid").is_err());
    assert!(validate_worktree_location("").is_err());
    assert!(validate_worktree_location("wrong-type").is_err());
}

#[test]
fn create_test_validate_worktree_location_invalid() {
    assert!(validate_worktree_location("invalid").is_err());
    assert!(validate_worktree_location("").is_err());
    assert!(validate_worktree_location("wrong-type").is_err());
}

#[test]
fn create_worktree_test_validate_worktree_location_all_valid() {
    let valid_locations = vec!["same-level", "custom"];
    for location in valid_locations {
        assert!(validate_worktree_location(location).is_ok());
    }
}

#[test]
fn create_worktree_test_determine_worktree_path_same_level() {
    let result = determine_worktree_path("/tmp/base/project", "test-worktree", "same-level", None);
    assert!(result.is_ok());
    let (path, pattern) = result.unwrap();
    assert_eq!(pattern, "same-level");
    assert!(path.ends_with("test-worktree"));
    assert_eq!(path, "/tmp/base/test-worktree");
}

#[test]
fn create_worktree_test_determine_worktree_path_custom() {
    let result = determine_worktree_path(
        "/tmp/base/project",
        "test-worktree",
        "custom",
        Some("custom/path".to_string()),
    );
    assert!(result.is_ok());
    let (path, pattern) = result.unwrap();
    assert_eq!(pattern, "custom");
    assert!(path.contains("custom/path"));
    assert_eq!(path, "/tmp/base/project/custom/path");
}

#[test]
fn create_worktree_test_determine_worktree_path_custom_missing_path() {
    let result = determine_worktree_path("/tmp/base/project", "test-worktree", "custom", None);
    assert!(result.is_err());
}

#[test]
fn create_worktree_test_determine_worktree_path_invalid_location() {
    let result = determine_worktree_path("/tmp/base/project", "test-worktree", "invalid-location", None);
    assert!(result.is_err());
}

#[test]
fn create_worktree_test_determine_worktree_path_legacy_same_level() {
    let result = determine_worktree_path_legacy("test", WORKTREE_LOCATION_SAME_LEVEL, None, "repo");
    assert!(result.is_ok());
    assert_eq!(result.unwrap(), "../test");
}

#[test]
fn create_test_determine_worktree_path_legacy_same_level() {
    let result = determine_worktree_path_legacy("test", WORKTREE_LOCATION_SAME_LEVEL, None, "repo");
    assert!(result.is_ok());
    assert_eq!(result.unwrap(), "../test");
}

#[test]
fn create_worktree_test_determine_worktree_path_legacy_custom() {
    let result = determine_worktree_path_legacy(
        "test",
        WORKTREE_LOCATION_CUSTOM_PATH,
        Some("../custom/test"),
        "repo",
    );
    assert!(result.is_ok());
    assert_eq!(result.unwrap(), "../custom/test");
}

#[test]
fn create_test_determine_worktree_path_legacy_custom() {
    let result = determine_worktree_path_legacy(
        "test",
        WORKTREE_LOCATION_CUSTOM_PATH,
        Some("../custom/test"),
        "repo",
    );
    assert!(result.is_ok());
    assert_eq!(result.unwrap(), "../custom/test");
}

#[test]
fn create_worktree_test_determine_worktree_path_legacy_invalid_choice() {
    let result = determine_worktree_path_legacy("test", 999, None, "repo");
    assert!(result.is_err());
}

#[test]
fn create_test_determine_worktree_path_legacy_invalid_choice() {
    let result = determine_worktree_path_legacy("test", 999, None, "repo");
    assert!(result.is_err());
}

#[test]
fn create_worktree_test_determine_worktree_path_legacy_custom_missing_path() {
    let result = determine_worktree_path_legacy("test", WORKTREE_LOCATION_CUSTOM_PATH, None, "repo");
    assert!(result.is_err());
}

#[test]
fn create_test_determine_worktree_path_legacy_custom_missing_path() {
    let result = determine_worktree_path_legacy("test", WORKTREE_LOCATION_CUSTOM_PATH, None, "repo");
    assert!(result.is_err());
}

#[test]
fn test_determine_worktree_path_legacy_subdirectory() {
    let result = determine_worktree_path_legacy("test", WORKTREE_LOCATION_SUBDIRECTORY, None, "repo");
    assert!(result.is_ok());
    let path = result.unwrap();
    assert_eq!(path, "worktrees/test");
}

#[test]
fn create_test_validate_worktree_location_valid() {
    assert!(validate_worktree_location("same-level").is_ok());
    assert!(validate_worktree_location("subdirectory").is_ok());
    assert!(validate_worktree_location("custom").is_ok());
}

#[test]
fn create_test_validate_worktree_location_all_valid() {
    let valid_locations = vec!["same-level", "subdirectory", "custom"];
    for location in valid_locations {
        assert!(validate_worktree_location(location).is_ok());
    }
}

#[test]
fn test_determine_worktree_path_subdirectory() {
    let temp_dir = tempfile::TempDir::new().unwrap();
    let git_dir = temp_dir.path().join("project");

    let result = determine_worktree_path(git_dir.to_str().unwrap(), "test-worktree", "subdirectory", None);
    assert!(result.is_ok());

    let (path, pattern) = result.unwrap();
    assert_eq!(pattern, "subdirectory");
    assert!(path.contains("worktrees"));
    assert!(path.ends_with("test-worktree"));
}

#[test]
fn test_determine_worktree_path_subdirectory_repo_name() {
    let temp_dir = tempfile::TempDir::new().unwrap();
    let git_dir = temp_dir.path().join("my-project");

    let result = determine_worktree_path(git_dir.to_str().unwrap(), "feature", "subdirectory", None);
    assert!(result.is_ok());

    let (path, pattern) = result.unwrap();
    assert_eq!(pattern, "subdirectory");
    assert!(path.contains("my-project"));
    assert!(path.contains("worktrees"));
    assert!(path.contains("feature"));
}

#[test]
fn subdirectory_location_is_inside_the_repository() {
    let result = determine_worktree_path("/tmp/my-project", "feature", "subdirectory", None);
    assert_eq!(result, Ok(("/tmp/my-project/worktrees/feature".to_string(), "subdirectory".to_string())));
    let result = determine_worktree_path("/", "feature", "subdirectory", None);
    assert!(result.is_err());
}

#[test]
fn create_worktree_test_validate_worktree_creation_no_conflicts() {
    let existing_worktrees: Vec<WorktreeInfo> = vec![];
    let result = validate_worktree_creation("new-worktree", "/tmp/new-worktree", &existing_worktrees);
    assert!(result.is_ok());
}

#[test]
fn create_test_validate_worktree_creation_no_conflicts() {
    let existing_worktrees: Vec<WorktreeInfo> = vec![];
    let result = validate_worktree_creation("new-worktree", "/tmp/new-worktree", &existing_worktrees);
    assert!(result.is_ok());
}

#[test]
fn worktree_creation_conflicts_are_reported() {
    let existing = vec![worktree("test", "/tmp/existing", "test", false, false, false)];
    assert!(validate_worktree_creation("test", "/tmp/other", &existing).is_err());
    assert!(validate_worktree_creation("other", "/tmp/existing", &existing).is_err());
    assert!(validate_worktree_creation("other", "/tmp/other", &existing).is_ok());
}

fn check_branch_sources() {
    let test_branch = "main";
    let test_tag = "v1.0.0";
    let test_new_branch = "feature";
    let test_base = "develop";

    let sources = vec![
        BranchSource::Head,
        BranchSource::Branch(test_branch.to_string()),
        BranchSource::Tag(test_tag.to_string()),
        BranchSource::NewBranch {
            name: test_new_branch.to_string(),
            base: test_base.to_string(),
        },
    ];

    for source in sources {
        match source {
            BranchSource::Head => {}
            BranchSource::Branch(ref branch) => assert_eq!(branch, test_branch),
            BranchSource::Tag(ref tag) => assert_eq!(tag, test_tag),
            BranchSource::NewBranch { ref name, ref base } => {
                assert_eq!(name, test_new_branch);
                assert_eq!(base, test_base);
            }
        }
    }
}

#[test]
fn create_worktree_test_branch_source_enum_variants() {
    check_branch_sources();
}

#[test]
fn create_test_branch_source_enum_variants() {
    check_branch_sources();
}

// ---- deleting worktrees ----

fn deletion_target_valid() {
    assert!(validate_deletion_target("feature-branch").is_ok());
    assert!(validate_deletion_target("bugfix-123").is_ok());
    assert!(validate_deletion_target("valid-name").is_ok());
}

fn deletion_target_invalid() {
    assert!(validate_deletion_target("").is_err());
    assert!(validate_deletion_target("main").is_err());
    assert!(validate_deletion_target("master").is_err());
}

#[test]
fn delete_worktree_test_validate_deletion_target_valid() {
    deletion_target_valid();
}

#[test]
fn delete_test_validate_deletion_target_valid() {
    deletion_target_valid();
}

#[test]
fn delete_worktree_test_validate_deletion_target_invalid() {
    deletion_target_invalid();
}

#[test]
fn delete_test_validate_deletion_target_invalid() {
    deletion_target_invalid();
}

#[test]
fn delete_worktree_test_should_delete_orphaned_branch_true() {
    assert!(should_delete_orphaned_branch(true, "feature", "feature"));
}

#[test]
fn delete_test_should_delete_orphaned_branch_true() {
    assert!(should_delete_orphaned_branch(true, "feature", "feature"));
}

#[test]
fn delete_worktree_test_should_delete_orphaned_branch_false_not_unique() {
    assert!(!should_delete_orphaned_branch(false, "feature", "feature"));
}

#[test]
fn delete_test_should_delete_orphaned_branch_false_not_unique() {
    assert!(!should_delete_orphaned_branch(false, "feature", "feature"));
}

#[test]
fn delete_worktree_test_should_delete_orphaned_branch_false_name_mismatch() {
    assert!(!should_delete_orphaned_branch(true, "main", "feature"));
}

#[test]
fn delete_test_should_delete_orphaned_branch_false_name_mismatch() {
    assert!(!should_delete_orphaned_branch(true, "main", "feature"));
}

fn deletable_filters_main() {
    let worktrees = vec![
        worktree("main", "/tmp/main", "main", true, false, false),
        worktree("feature", "/tmp/feature", "feature", false, false, false),
    ];
    let deletable = get_deletable_worktrees(&worktrees);
    assert_eq!(deletable.len(), 1);
    assert_eq!(deletable[0].name, "feature");
}

#[test]
fn delete_worktree_test_get_deletable_worktrees_filter_main() {
    deletable_filters_main();
}

#[test]
fn delete_test_get_deletable_worktrees_filter_main() {
    deletable_filters_main();
}

#[test]
fn delete_worktree_test_get_deletable_worktrees_empty() {
    let worktrees: Vec<WorktreeInfo> = vec![];
    assert!(get_deletable_worktrees(&worktrees).is_empty());
}

#[test]
fn delete_test_get_deletable_worktrees_empty() {
    let worktrees: Vec<WorktreeInfo> = vec![];
    assert!(get_deletable_worktrees(&worktrees).is_empty());
}

fn deletion_analysis() {
    let w = worktree("feature", "/tmp/feature", "feature", false, false, false);
    let analysis = DeletionAnalysis {
        worktree: w.clone(),
        is_branch_unique: true,
        delete_branch_recommended: true,
    };
    assert_eq!(analysis.worktree.name, "feature");
    assert!(analysis.is_branch_unique);
    assert!(analysis.delete_branch_recommended);
}

#[test]
fn delete_worktree_test_deletion_analysis_creation() {
    deletion_analysis();
}

#[test]
fn delete_test_deletion_analysis_creation() {
    deletion_analysis();
}

fn deletion_config() {
    let config = WorktreeDeleteConfig {
        name: "test-worktree".to_string(),
        path: "/tmp/test".to_string(),
        branch: "test-branch".to_string(),
        delete_branch: false,
    };
    assert_eq!(config.name, "test-worktree");
    assert_eq!(config.branch, "test-branch");
    assert!(!config.delete_branch);
}

#[test]
fn delete_worktree_test_execute_deletion_config() {
    deletion_config();
}

#[test]
fn delete_test_execute_deletion_config() {
    deletion_config();
}

fn batch_items() {
    let worktrees = vec![
        worktree("main", "/test/main", "main", true, false, false),
        worktree("feature-branch", "/test/feature-branch", "feature/test", false, false, false),
    ];
    let items = prepare_batch_delete_items(&worktrees);
    assert_eq!(items.len(), 1);
    assert!(items[0].contains("feature-branch"));
    assert!(items[0].contains("feature/test"));
    assert!(!items[0].contains("main"));
}

#[test]
fn delete_worktree_test_prepare_batch_delete_items() {
    batch_items();
}

#[test]
fn shared_test_prepare_batch_delete_items() {
    batch_items();
}

// ---- switching and searching ----

#[test]
fn test_validate_switch_target_valid() {
    assert!(validate_switch_target("feature-branch").is_ok());
    assert!(validate_switch_target("main").is_ok());
    assert!(validate_switch_target("valid_name").is_ok());
    assert!(validate_switch_target("123").is_ok());
}

#[test]
fn test_validate_switch_target_invalid() {
    assert!(validate_switch_target("").is_err());
    assert!(validate_switch_target("name with space").is_err());
    assert!(validate_switch_target("name\twith\ttab").is_err());
    assert!(validate_switch_target("name\nwith\nnewline").is_err());
}

#[test]
fn test_is_already_in_worktree_true() {
    let current = Some("feature".to_string());
    assert!(is_already_in_worktree(&current, "feature"));
}

#[test]
fn test_is_already_in_worktree_false_different_name() {
    let current = Some("main".to_string());
    assert!(!is_already_in_worktree(&current, "feature"));
}

#[test]
fn test_is_already_in_worktree_false_no_current() {
    let current = None;
    assert!(!is_already_in_worktree(&current, "feature"));
}

#[test]
fn test_switch_config_creation() {
    let config = SwitchConfig {
        target_name: "feature".to_string(),
        target_path: "/tmp/feature".to_string(),
        source_name: Some("main".to_string()),
        save_changes: true,
    };
    assert_eq!(config.target_name, "feature");
    assert_eq!(config.source_name, Some("main".to_string()));
    assert!(config.save_changes);
}

#[test]
fn test_worktree_switch_config_creation() {
    let config = WorktreeSwitchConfig {
        target_name: "feature".to_string(),
        target_path: "/tmp/feature".to_string(),
        target_branch: "feature-branch".to_string(),
    };
    assert_eq!(config.target_name, "feature");
    assert_eq!(config.target_branch, "feature-branch");
    assert_eq!(config.target_path, "/tmp/feature");
}

#[test]
fn test_sort_worktrees_for_display() {
    let worktrees = vec![
        worktree("zzz-last", "/tmp/zzz", "zzz-branch", false, false, false),
        worktree("aaa-first", "/tmp/aaa", "aaa-branch", true, false, false),
    ];
    let sorted = sort_worktrees_for_display(worktrees);
    assert_eq!(sorted[0].name, "aaa-first");
    assert_eq!(sorted[1].name, "zzz-last");
    assert!(sorted[0].is_current);
    assert!(!sorted[1].is_current);
}

#[test]
fn test_analyze_switch_target_basic() {
    let worktrees = vec![worktree("main", "/tmp/main", "main", false, false, false)];
    let analysis = analyze_switch_target(&worktrees, 0).unwrap();
    assert_eq!(analysis.worktrees[0].name, "main");
    assert!(!analysis.is_already_current);
    assert_eq!(analysis.current_worktree_index, None);
}

#[test]
fn test_analyze_switch_target_invalid_index() {
    let worktrees: Vec<WorktreeInfo> = vec![];
    assert!(analyze_switch_target(&worktrees, 0).is_err());
}

fn search_items() {
    let worktrees = vec![worktree("feature-branch", "/test/feature-branch", "feature/test", true, false, false)];
    let analysis = create_search_items(&worktrees);
    assert_eq!(analysis.total_count, 1);
    assert!(analysis.has_current);
    assert_eq!(analysis.items.len(), 1);
    assert!(analysis.items[0].contains("feature-branch"));
    assert!(analysis.items[0].contains("feature/test"));
    assert!(analysis.items[0].contains(SEARCH_CURRENT_INDICATOR));
}

#[test]
fn search_worktrees_test_create_search_items() {
    search_items();
}

#[test]
fn shared_test_create_search_items() {
    search_items();
}

fn search_selection() {
    let worktrees = vec![worktree("feature-branch", "/test/feature-branch", "feature/test", false, false, false)];
    let selected = validate_search_selection(&worktrees, 0).unwrap();
    assert_eq!(selected.name, "feature-branch");
    assert!(validate_search_selection(&worktrees, 1).is_err());
}

#[test]
fn search_worktrees_test_validate_search_selection() {
    search_selection();
}

#[test]
fn shared_test_validate_search_selection() {
    search_selection();
}

// ---- renaming ----

#[test]
fn test_should_rename_branch_true() {
    assert!(should_rename_branch("feature", "feature", true));
}

#[test]
fn test_should_rename_branch_false_user_doesnt_want() {
    assert!(!should_rename_branch("feature", "feature", false));
}

#[test]
fn test_should_rename_branch_false_names_mismatch() {
    assert!(!should_rename_branch("feature", "main", true));
}

#[test]
fn test_rename_config_creation() {
    let config = RenameConfig {
        old_name: "old-name".to_string(),
        new_name: "new-name".to_string(),
        old_path: "/tmp/old".to_string(),
        new_path: "/tmp/new".to_string(),
        rename_branch: true,
    };
    assert_eq!(config.old_name, "old-name");
    assert_eq!(config.new_name, "new-name");
    assert!(config.rename_branch);
}

#[test]
fn test_worktree_rename_config_creation() {
    let config = WorktreeRenameConfig {
        old_name: "old-worktree".to_string(),
        new_name: "new-worktree".to_string(),
        old_path: "/tmp/old".to_string(),
        new_path: "/tmp/new".to_string(),
        old_branch: "old-branch".to_string(),
        new_branch: Some("new-branch".to_string()),
        rename_branch: true,
    };
    assert_eq!(config.old_name, "old-worktree");
    assert_eq!(config.new_name, "new-worktree");
    assert_eq!(config.old_branch, "old-branch");
    assert_eq!(config.new_branch, Some("new-branch".to_string()));
    assert!(config.rename_branch);
}

#[test]
fn test_analyze_rename_requirements_basic() {
    let w = worktree("feature", "/tmp/feature", "feature", false, false, false);
    let analysis = analyze_rename_requirements(&w);
    assert_eq!(analysis.worktree.name, "feature");
    assert!(analysis.can_rename_branch);
    assert_eq!(analysis.suggested_branch_name, Some("feature".to_string()));
}

#[test]
fn test_validate_rename_operation_valid() {
    assert!(validate_rename_operation("old-name", "new-name").is_ok());
}

#[test]
fn test_validate_rename_operation_same_name() {
    assert!(validate_rename_operation("same-name", "same-name").is_err());
}

// ---- listing ----

#[test]
fn test_format_worktree_display_basic() {
    let w = worktree("feature", "/tmp/feature", "feature", false, false, false);
    assert_eq!(format_worktree_display(&w, false), "feature");
}

#[test]
fn test_format_worktree_display_current() {
    let w = worktree("main", "/tmp/main", "main", true, false, false);
    assert_eq!(format_worktree_display(&w, false), "main (current)");
}

#[test]
fn test_format_worktree_display_locked_changes() {
    let w = worktree("locked", "/tmp/locked", "locked", false, true, true);
    assert_eq!(format_worktree_display(&w, false), "locked (locked) (changes)");
}

#[test]
fn test_format_worktree_display_verbose() {
    let w = worktree("feature", "/tmp/feature", "feature", false, false, false);
    assert!(format_worktree_display(&w, true).contains("- /tmp/feature"));
}

#[test]
fn test_should_show_worktree_with_filter_match() {
    let w = worktree("feature-auth", "/tmp/feature", "feature", false, false, false);
    assert!(should_show_worktree(&w, false, Some("auth")));
}

#[test]
fn test_should_show_worktree_with_filter_no_match() {
    let w = worktree("feature-ui", "/tmp/feature", "feature", false, false, false);
    assert!(!should_show_worktree(&w, false, Some("auth")));
}

#[test]
fn test_should_show_worktree_show_all() {
    let w = worktree("clean", "/tmp/clean", "clean", false, false, false);
    assert!(should_show_worktree(&w, true, None));
}

#[test]
fn test_should_show_worktree_only_changes() {
    let clean = worktree("clean", "/tmp/clean", "clean", false, false, false);
    let dirty = worktree("dirty", "/tmp/dirty", "dirty", false, true, false);
    assert!(!should_show_worktree(&clean, false, None));
    assert!(should_show_worktree(&dirty, false, None));
}

#[test]
fn test_format_worktree_display_verbose_with_commit() {
    let test_commit_id = "abc123def";
    let test_path = "/tmp/feature";
    let mut w = worktree("feature", test_path, "feature", false, false, false);
    w.last_commit = Some(CommitInfo {
        id: test_commit_id.to_string(),
        message: "Add feature".to_string(),
        author: "test@example.com".to_string(),
        time: "2023-01-01".to_string(),
    });
    let display = format_worktree_display(&w, true);
    assert!(display.contains(&format!("[{test_commit_id}]")));
    assert!(display.contains(&format!("- {test_path}")));
}

#[test]
fn test_format_worktree_display_verbose_with_ahead_behind() {
    let ahead_count = 2;
    let behind_count = 3;
    let mut w = worktree("feature", "/tmp/feature", "feature", false, false, false);
    w.ahead_behind = Some((ahead_count, behind_count));
    let display = format_worktree_display(&w, true);
    assert!(display.contains(&format!("\u{2191}{ahead_count} \u{2193}{behind_count}")));
}

#[test]
fn test_format_worktree_display_all_flags() {
    let worktree_name = "complex";
    let w = worktree(worktree_name, "/tmp/complex", "complex", true, true, true);
    assert_eq!(
        format_worktree_display(&w, false),
        format!("{worktree_name} (current) (locked) (changes)")
    );
}

#[test]
fn test_should_show_worktree_empty_filter() {
    let w = worktree("any", "/tmp/any", "any", false, false, false);
    assert!(should_show_worktree(&w, false, Some("")));
}

#[test]
fn test_should_show_worktree_partial_filter() {
    let test_filters = vec!["auth", "feature", "login"];
    let w = worktree("feature-auth-login", "/tmp/feature", "feature", false, false, false);
    for filter in test_filters {
        assert!(should_show_worktree(&w, false, Some(filter)));
    }
    assert!(!should_show_worktree(&w, false, Some("ui")));
}

#[test]
fn test_table_display_current_worktree_first() {
    let worktrees = vec![
        worktree("zebra", "/tmp/zebra", "zebra", false, false, false),
        worktree("alpha", "/tmp/alpha", "alpha", true, false, false),
        worktree("beta", "/tmp/beta", "beta", false, false, false),
    ];
    let worktrees = sort_worktrees_for_display(worktrees);
    assert_eq!(worktrees[0].name, "alpha");
    assert!(worktrees[0].is_current);
    assert_eq!(worktrees[1].name, "beta");
    assert_eq!(worktrees[2].name, "zebra");
}

#[test]
fn test_table_display_column_width_calculation() {
    let worktrees = vec![
        worktree("short", "/tmp/short", "main", false, false, false),
        worktree(
            "very-long-worktree-name",
            "/tmp/very-long-worktree-name",
            "feature-with-very-long-branch-name",
            true,
            false,
            false,
        ),
    ];
    let (max_name_len, max_branch_len) = table_widths(&worktrees);
    assert_eq!(max_name_len, "very-long-worktree-name".len());
    assert_eq!(max_branch_len, "feature-with-very-long-branch-name".len() + 10);
}

#[test]
fn test_table_display_icon_selection() {
    let current_worktree = worktree("current", "/tmp/current", "main", true, false, false);
    let other_worktree = worktree("other", "/tmp/other", "feature", false, false, false);
    let current_icon = if current_worktree.is_current { "\u{25b8}" } else { " " };
    let other_icon = if other_worktree.is_current { "\u{25b8}" } else { " " };
    assert_eq!(current_icon, "\u{25b8}");
    assert_eq!(other_icon, " ");
}

#[test]
fn test_table_display_branch_formatting() {
    let current_worktree = worktree("current", "/tmp/current", "main", true, false, false);
    let other_worktree = worktree("other", "/tmp/other", "feature", false, false, false);
    assert_eq!(table_cells(&current_worktree).1, "main [current]");
    assert_eq!(table_cells(&other_worktree).1, "feature");
}

#[test]
fn test_table_display_modified_status() {
    let clean_worktree = worktree("clean", "/tmp/clean", "main", false, false, false);
    let dirty_worktree = worktree("dirty", "/tmp/dirty", "feature", false, true, false);
    assert_eq!(table_cells(&clean_worktree).2, "No");
    assert_eq!(table_cells(&dirty_worktree).2, "Yes");
}

#[test]
fn table_icons_mark_the_current_worktree() {
    let current_worktree = worktree("current", "/tmp/current", "main", true, false, false);
    let other_worktree = worktree("other", "/tmp/other", "feature", false, false, false);
    assert_eq!(table_cells(&current_worktree).0, "\u{2192}");
    assert_eq!(table_cells(&other_worktree).0, "\u{25b8}");
}

#[test]
fn narrow_columns_keep_the_minimum_width() {
    let worktrees = vec![worktree("a", "/tmp/a", "b", false, false, false)];
    assert_eq!(table_widths(&worktrees), (10, 20));
}

#[test]
fn paged_table_uses_display_width() {
    let worktrees = vec![
        worktree("\u{65e5}\u{672c}\u{8a9e}\u{65e5}\u{672c}\u{8a9e}", "/tmp/jp", "main", false, false, false),
        worktree("ab", "/tmp/ab", "feature-with-a-long-name", true, false, false),
    ];
    assert_eq!(paged_table_widths(&worktrees), Some((12, 34)));
    let short = vec![worktree("a", "/tmp/a", "b", false, false, false)];
    assert_eq!(paged_table_widths(&short), Some((8, 20)));
}

#[test]
fn pages_follow_terminal_height() {
    assert_eq!(items_per_page(30), 19);
    assert_eq!(items_per_page(12), 5);
    assert_eq!(items_per_page(0), 5);
    assert_eq!(page_count(10, 3), 4);
    assert_eq!(page_count(9, 3), 3);
    assert_eq!(page_count(0, 5), 0);
    assert_eq!(page_bounds(1, 3, 10), (3, 6));
    assert_eq!(page_bounds(3, 3, 10), (9, 10));
}

#[test]
fn arrows_move_between_pages() {
    assert_eq!(next_page(0, 3, PageKey::Right), Some(1));
    assert_eq!(next_page(2, 3, PageKey::Right), None);
    assert_eq!(next_page(2, 3, PageKey::Left), Some(1));
    assert_eq!(next_page(0, 3, PageKey::Left), None);
    assert_eq!(next_page(1, 3, PageKey::Other), None);
}

// ---- the creation dialogue ----

use git_workers::string_map::StringMap;
use git_workers::usecases::create::{CreateError, CreationCall};
use git_workers::usecases::create_flow::{CreateAction, CreateEvent, CreateFlow, CreateStage};

fn text(s: &str) -> CreateEvent {
    CreateEvent::Text(Some(s.to_string()))
}

#[test]
fn dialogue_creates_from_head_for_a_later_worktree() {
    let (mut flow, first) = CreateFlow::start(true, "repo");
    assert!(matches!(first, CreateAction::AskText { ref prompt, default: None } if prompt == "Enter worktree name"));
    let a = flow.step(text("  feature  "));
    match a {
        CreateAction::Choose { items, fuzzy, .. } => {
            assert_eq!(items, vec!["Create from current HEAD", "Select branch", "Select tag"]);
            assert!(!fuzzy);
        }
        _ => panic!("expected the branch source choice"),
    }
    match flow.step(CreateEvent::Choice(Some(0))) {
        CreateAction::Create { name, target, call } => {
            assert_eq!(name, "feature");
            assert_eq!(target, "feature");
            assert!(matches!(call, CreationCall::Plain { branch: None }));
        }
        _ => panic!("expected creation"),
    }
    assert!(matches!(flow.current(), CreateStage::Finished));
}

#[test]
fn dialogue_first_worktree_with_branch_in_use() {
    let (mut flow, _) = CreateFlow::start(false, "repo");
    match flow.step(text("x")) {
        CreateAction::Choose { items, .. } => {
            assert_eq!(items[0], "Same level as repository (../x)");
            assert_eq!(items[1], "In subdirectory (repo/worktrees/x)");
            assert_eq!(items[2], "Custom path (specify relative to project root)");
        }
        _ => panic!("expected the location choice"),
    }
    assert!(matches!(flow.step(CreateEvent::Choice(Some(0))), CreateAction::Choose { .. }));
    assert!(matches!(flow.step(CreateEvent::Choice(Some(1))), CreateAction::ReadBranches));
    let mut map = StringMap::new();
    map.insert("main".to_string(), "repo".to_string());
    let a = flow.step(CreateEvent::Branches { local: vec!["main".to_string()], remote: vec![], map });
    match a {
        CreateAction::Choose { items, .. } => assert_eq!(items.len(), 1),
        _ => panic!("expected the branch choice"),
    }
    match flow.step(CreateEvent::Choice(Some(0))) {
        CreateAction::Choose { items, .. } => {
            assert_eq!(items[0], "Create new branch 'x' from 'main'");
        }
        _ => panic!("expected the conflict choice"),
    }
    match flow.step(CreateEvent::Choice(Some(1))) {
        CreateAction::AskText { prompt, default } => {
            assert_eq!(prompt, "Enter new branch name (base: main)");
            assert_eq!(default, Some("x".to_string()));
        }
        _ => panic!("expected the branch name prompt"),
    }
    match flow.step(text("newb")) {
        CreateAction::Create { name, target, call } => {
            assert_eq!(name, "x");
            assert_eq!(target, "../x");
            match call {
                CreationCall::WithNewBranch { new_branch, base } => {
                    assert_eq!(new_branch, "newb");
                    assert_eq!(base, "main");
                }
                _ => panic!("expected a new branch"),
            }
        }
        _ => panic!("expected creation"),
    }
}

#[test]
fn dialogue_first_worktree_in_subdirectory() {
    let (mut flow, _) = CreateFlow::start(false, "my-project");
    match flow.step(text("feature")) {
        CreateAction::Choose { items, .. } => assert_eq!(items[1], "In subdirectory (my-project/worktrees/feature)"),
        _ => panic!("expected the location choice"),
    }
    assert!(matches!(flow.step(CreateEvent::Choice(Some(1))), CreateAction::Choose { .. }));
    match flow.step(CreateEvent::Choice(Some(0))) {
        CreateAction::Create { name, target, .. } => {
            assert_eq!(name, "feature");
            assert_eq!(target, "worktrees/feature");
        }
        _ => panic!("expected creation"),
    }
    let (mut flow, _) = CreateFlow::start(false, "repo");
    flow.step(text("w"));
    assert!(matches!(flow.step(CreateEvent::Choice(Some(3))), CreateAction::Stop(CreateError::InvalidLocationSelection(3))));
}

#[test]
fn dialogue_refuses_bad_names_and_paths() {
    let (mut flow, _) = CreateFlow::start(true, "repo");
    assert!(matches!(flow.step(text("   ")), CreateAction::Stop(CreateError::EmptyName)));
    let (mut flow, _) = CreateFlow::start(true, "repo");
    assert!(matches!(flow.step(text("a/b")), CreateAction::Stop(CreateError::InvalidName(_))));
    let (mut flow, _) = CreateFlow::start(false, "repo");
    flow.step(text("w"));
    assert!(matches!(flow.step(CreateEvent::Choice(Some(2))), CreateAction::AskText { .. }));
    match flow.step(text("hotfix/")) {
        CreateAction::Choose { .. } => {}
        _ => panic!("expected the branch source choice"),
    }
    match flow.step(CreateEvent::Choice(Some(9))) {
        CreateAction::Create { target, .. } => assert_eq!(target, "hotfix/w"),
        _ => panic!("expected creation"),
    }
    let (mut flow, _) = CreateFlow::start(true, "repo");
    assert!(matches!(flow.step(CreateEvent::Text(None)), CreateAction::Stop(CreateError::Cancelled)));
}

#[test]
fn dialogue_creates_from_tag_and_remote_branch() {
    let (mut flow, _) = CreateFlow::start(true, "repo");
    flow.step(text("rel"));
    assert!(matches!(flow.step(CreateEvent::Choice(Some(2))), CreateAction::ReadTags));
    let tags = vec![("v1.0".to_string(), Some("Release one\nmore".to_string())), ("v0.9".to_string(), None)];
    match flow.step(CreateEvent::Tags(tags)) {
        CreateAction::Choose { items, .. } => {
            assert_eq!(items[0], "\u{1f3f7}\u{fe0f}  v1.0 - Release one");
            assert_eq!(items[1], "\u{1f3f7}\u{fe0f}  v0.9");
        }
        _ => panic!("expected the tag choice"),
    }
    match flow.step(CreateEvent::Choice(Some(1))) {
        CreateAction::Create { call: CreationCall::WithNewBranch { new_branch, base }, .. } => {
            assert_eq!(new_branch, "rel");
            assert_eq!(base, "v0.9");
        }
        _ => panic!("expected creation from the tag"),
    }
    let (mut flow, _) = CreateFlow::start(true, "repo");
    flow.step(text("r"));
    flow.step(CreateEvent::Choice(Some(1)));
    flow.step(CreateEvent::Branches { local: vec![], remote: vec!["dev".to_string()], map: StringMap::new() });
    match flow.step(CreateEvent::Choice(Some(0))) {
        CreateAction::Create { call: CreationCall::Plain { branch }, .. } => {
            assert_eq!(branch, Some("origin/dev".to_string()));
        }
        _ => panic!("expected creation from the remote branch"),
    }
}

// ---- the renaming and deletion dialogues ----

use git_workers::usecases::delete_flow::{
    BatchDeleteFlow, BatchStage, DeleteAction, DeleteEvent, DeleteFlow, DeleteStage, DeleteStop,
};
use git_workers::usecases::rename_flow::{RenameAction, RenameEvent, RenameFlow, RenameStop};

fn repo_worktrees() -> Vec<WorktreeInfo> {
    vec![
        worktree("main", "/r/main", "main", true, false, false),
        worktree("feature", "/r/feature", "feature", false, false, false),
        worktree("other", "/r/other", "shared", false, false, false),
        worktree("third", "/r/third", "shared", false, false, false),
    ]
}

#[test]
fn rename_dialogue_renames_worktree_and_branch() {
    let worktrees = repo_worktrees();
    let (mut flow, first) = RenameFlow::start(&worktrees);
    match first {
        RenameAction::Choose { prompt, items } => {
            assert_eq!(prompt, "Select a worktree to rename (ESC to cancel)");
            assert_eq!(items, vec!["feature (feature)", "other (shared)", "third (shared)"]);
        }
        _ => panic!("expected the worktree choice"),
    }
    match flow.step(RenameEvent::Choice(Some(0))) {
        RenameAction::AskText { prompt } => assert_eq!(prompt, "New name for 'feature' (ESC to cancel)"),
        _ => panic!("expected the name question"),
    }
    match flow.step(RenameEvent::Text(Some("  renamed ".to_string()))) {
        RenameAction::Confirm { prompt, default } => {
            assert_eq!(prompt, "Also rename the associated branch?");
            assert!(default);
        }
        _ => panic!("expected the branch question"),
    }
    match flow.step(RenameEvent::Confirmation(Some(true))) {
        RenameAction::Confirm { prompt, default } => {
            assert_eq!(prompt, "Proceed with rename?");
            assert!(!default);
        }
        _ => panic!("expected the confirmation"),
    }
    match flow.step(RenameEvent::Confirmation(Some(true))) {
        RenameAction::Rename(c) => {
            assert_eq!(c.old_name, "feature");
            assert_eq!(c.new_name, "renamed");
            assert_eq!(c.new_path, "/r/renamed");
            assert_eq!(c.new_branch, Some("renamed".to_string()));
            assert!(c.rename_branch);
        }
        _ => panic!("expected the rename"),
    }
}

#[test]
fn rename_dialogue_refusals_and_stops() {
    let worktrees = repo_worktrees();
    let (mut flow, _) = RenameFlow::start(&worktrees);
    flow.step(RenameEvent::Choice(Some(0)));
    assert!(matches!(flow.step(RenameEvent::Text(Some("feature".to_string()))), RenameAction::Stop(RenameStop::Refused(_))));
    let (mut flow, _) = RenameFlow::start(&worktrees);
    flow.step(RenameEvent::Choice(Some(0)));
    assert!(matches!(flow.step(RenameEvent::Text(Some("a/b".to_string()))), RenameAction::Stop(RenameStop::InvalidName(_))));
    let (mut flow, _) = RenameFlow::start(&worktrees);
    flow.step(RenameEvent::Choice(Some(1)));
    // a branch that does not carry the worktree's name is left alone
    match flow.step(RenameEvent::Text(Some("elsewhere".to_string()))) {
        RenameAction::Confirm { prompt, .. } => assert_eq!(prompt, "Proceed with rename?"),
        _ => panic!("expected the confirmation"),
    }
    assert!(matches!(flow.step(RenameEvent::Confirmation(Some(false))), RenameAction::Stop(RenameStop::Cancelled)));
    let (_, first) = RenameFlow::start(&vec![]);
    assert!(matches!(first, RenameAction::Stop(RenameStop::NoWorktrees)));
    let (_, first) = RenameFlow::start(&vec![worktree("main", "/r/main", "main", true, false, false)]);
    assert!(matches!(first, RenameAction::Stop(RenameStop::NoneRenameable)));
}

#[test]
fn delete_dialogue_offers_branch_when_unique() {
    let (mut flow, first) = DeleteFlow::start(repo_worktrees());
    match first {
        DeleteAction::Choose { items, .. } => assert_eq!(items.len(), 3),
        _ => panic!("expected the worktree choice"),
    }
    match flow.step(DeleteEvent::Choice(Some(0))) {
        DeleteAction::Confirm { prompt } => assert_eq!(prompt, "Also delete the branch?"),
        _ => panic!("expected the branch question"),
    }
    assert!(matches!(flow.current(), DeleteStage::AwaitingBranchChoice { .. }));
    match flow.step(DeleteEvent::Confirmation(Some(true))) {
        DeleteAction::Confirm { prompt } => assert_eq!(prompt, "Are you sure you want to delete this worktree?"),
        _ => panic!("expected the confirmation"),
    }
    match flow.step(DeleteEvent::Confirmation(Some(true))) {
        DeleteAction::Delete(c) => {
            assert_eq!(c.name, "feature");
            assert_eq!(c.branch, "feature");
            assert!(c.delete_branch);
        }
        _ => panic!("expected the deletion"),
    }
}

#[test]
fn delete_dialogue_keeps_shared_branch() {
    let (mut flow, _) = DeleteFlow::start(repo_worktrees());
    match flow.step(DeleteEvent::Choice(Some(1))) {
        DeleteAction::Confirm { prompt } => assert_eq!(prompt, "Are you sure you want to delete this worktree?"),
        _ => panic!("expected the confirmation"),
    }
    match flow.step(DeleteEvent::Confirmation(Some(true))) {
        DeleteAction::Delete(c) => {
            assert_eq!(c.name, "other");
            assert!(!c.delete_branch);
        }
        _ => panic!("expected the deletion"),
    }
    let (mut flow, _) = DeleteFlow::start(repo_worktrees());
    flow.step(DeleteEvent::Choice(Some(1)));
    assert!(matches!(flow.step(DeleteEvent::Confirmation(None)), DeleteAction::Stop(DeleteStop::Cancelled)));
    let (_, first) = DeleteFlow::start(vec![]);
    assert!(matches!(first, DeleteAction::Stop(DeleteStop::NoWorktrees)));
    let (_, first) = DeleteFlow::start(vec![worktree("main", "/r/main", "main", true, false, false)]);
    assert!(matches!(first, DeleteAction::Stop(DeleteStop::NoneDeletable)));
}

#[test]
fn batch_delete_dialogue_orphans_and_branches() {
    let (mut flow, first) = BatchDeleteFlow::start(repo_worktrees());
    match first {
        DeleteAction::ChooseMany { prompt, items } => {
            assert_eq!(prompt, "Select worktrees to delete (Space to toggle, Enter to confirm, ESC to cancel)");
            assert_eq!(items.len(), 3);
        }
        _ => panic!("expected the selection"),
    }
    match flow.step(DeleteEvent::Choices(Some(vec![0, 1]))) {
        DeleteAction::Confirm { prompt } => assert_eq!(prompt, "Are you sure you want to delete these worktrees?"),
        _ => panic!("expected the confirmation"),
    }
    match flow.current() {
        BatchStage::AwaitingConfirmation { selected, orphans } => {
            assert_eq!(selected.len(), 2);
            assert_eq!(orphans, &vec![("feature".to_string(), "feature".to_string())]);
        }
        _ => panic!("expected the confirmation stage"),
    }
    match flow.step(DeleteEvent::Confirmation(Some(true))) {
        DeleteAction::Confirm { prompt } => assert_eq!(prompt, "Also delete the orphaned branches?"),
        _ => panic!("expected the branch question"),
    }
    match flow.step(DeleteEvent::Confirmation(Some(true))) {
        DeleteAction::DeleteAll { selected, delete_branches, .. } => {
            assert_eq!(selected[0].name, "feature");
            assert_eq!(selected[1].name, "other");
            assert!(delete_branches);
        }
        _ => panic!("expected the deletion"),
    }
    let (mut flow, _) = BatchDeleteFlow::start(repo_worktrees());
    assert!(matches!(flow.step(DeleteEvent::Choices(Some(vec![]))), DeleteAction::Stop(DeleteStop::Cancelled)));
    let (mut flow, _) = BatchDeleteFlow::start(repo_worktrees());
    flow.step(DeleteEvent::Choices(Some(vec![2])));
    match flow.step(DeleteEvent::Confirmation(Some(true))) {
        DeleteAction::DeleteAll { orphans, delete_branches, .. } => {
            assert!(orphans.is_empty());
            assert!(!delete_branches);
        }
        _ => panic!("expected the deletion"),
    }
}

#[test]
fn git_name_is_looked_up_by_display_name() {
    let mut a = worktree("feature", "/r/feature", "feature", false, false, false);
    a.git_name = "feature-git".to_string();
    let worktrees = vec![worktree("main", "/r/main", "main", true, false, false), a];
    assert_eq!(git_name_of(&worktrees, "feature"), "feature-git");
    assert_eq!(git_name_of(&worktrees, "main"), "main");
    assert_eq!(git_name_of(&worktrees, "absent"), "absent");
}

#[test]
fn worktree_lock_decisions() {
    assert!(!lock_is_stale(None));
    assert!(!lock_is_stale(Some((300, 0))));
    assert!(lock_is_stale(Some((300, 1))));
    assert!(lock_is_stale(Some((301, 0))));
    assert!(!lock_is_stale(Some((10, 999))));
    assert_eq!(lock_file_path("/r/.git"), "/r/.git/git-workers-worktree.lock");
    assert_eq!(lock_error_message(false, "denied"), "Failed to create lock file: denied");
    assert_eq!(
        lock_error_message(true, "x"),
        "Another git-workers process is currently creating a worktree. Please wait and try again."
    );
}

#[test]
fn remote_branches_are_marked_with_an_up_arrow() {
    let (mut flow, _) = CreateFlow::start(true, "repo");
    flow.step(text("r"));
    flow.step(CreateEvent::Choice(Some(1)));
    match flow.step(CreateEvent::Branches { local: vec!["main".to_string()], remote: vec!["dev".to_string()], map: StringMap::new() }) {
        CreateAction::Choose { items, .. } => {
            assert_eq!(items[0], "💻 main");
            assert_eq!(items[1], "↑ origin/dev");
        }
        _ => panic!("expected the branch choice"),
    }
}
