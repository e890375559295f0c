use git_workers::git_ops::{branch_infos, GitReadOperations, MockGitOperations};

#[test]
fn test_mock_git_operations_creation() {
    let mock = MockGitOperations::new()
        .with_worktree("main", "/repo/main", Some("main"))
        .with_worktree("feature", "/repo/feature", Some("feature/new"))
        .with_branch("main", false)
        .with_branch("feature/new", false)
        .with_branch("origin/main", true)
        .with_tag("v1.0.0", Some("Release 1.0.0"))
        .with_current_branch("main")
        .with_current_worktree("main");

    let worktrees = mock.list_worktrees().unwrap();
    assert_eq!(worktrees.len(), 2);
    assert_eq!(worktrees[0].name, "main");
    assert!(worktrees[0].is_current);

    let branches = mock.list_branches().unwrap();
    assert_eq!(branches.len(), 3);

    let tags = mock.list_tags().unwrap();
    assert_eq!(tags.len(), 1);
    assert_eq!(tags[0].name, "v1.0.0");

    assert_eq!(mock.get_current_branch().unwrap(), "main");

    assert!(mock.worktree_exists("main").unwrap());
    assert!(mock.worktree_exists("feature").unwrap());
    assert!(!mock.worktree_exists("nonexistent").unwrap());
}

#[test]
fn test_bare_repository() {
    let mock = MockGitOperations::new()
        .as_bare()
        .with_repository_root("/bare/repo");

    assert!(mock.is_bare_repository().unwrap());
    assert_eq!(mock.get_repository_root().unwrap(), "/bare/repo");
    assert!(mock.get_repository_info().unwrap().contains("(bare)"));
}

#[test]
fn test_branch_worktree_mapping() {
    let mock = MockGitOperations::new()
        .with_worktree("main", "/repo/main", Some("main"))
        .with_worktree("feature", "/repo/feature", Some("feature/new"));

    let map = mock.get_branch_worktree_map().unwrap();
    assert_eq!(map.get("main").unwrap(), "main");
    assert_eq!(map.get("feature/new").unwrap(), "feature");
}

#[test]
fn test_worktree_with_changes() {
    let mock = MockGitOperations::new()
        .with_worktree("main", "/repo/main", Some("main"))
        .with_worktree("feature", "/repo/feature", Some("feature/new"))
        .with_worktree_changes("feature");

    let worktrees = mock.list_worktrees().unwrap();
    assert!(!worktrees[0].has_changes);
    assert!(worktrees[1].has_changes);
}

#[test]
fn repository_description_names_branch() {
    let mock = MockGitOperations::new().with_current_branch("dev");
    assert_eq!(mock.get_repository_info().unwrap(), "/mock/repo on dev");
    let detached = MockGitOperations::new().with_worktree("x", "/x", None);
    assert_eq!(detached.list_worktrees().unwrap()[0].branch, "HEAD");
}

#[test]
fn branch_infos_lists_local_then_remote() {
    let b = branch_infos(
        vec!["a".to_string(), "b".to_string()],
        vec!["c".to_string()],
    );
    assert_eq!(b.len(), 3);
    assert_eq!(b[0].name, "a");
    assert!(!b[0].is_remote);
    assert_eq!(b[2].name, "c");
    assert!(b[2].is_remote);
}
