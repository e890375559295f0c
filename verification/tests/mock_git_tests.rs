use git_workers::git_interface::mock_git::Expectation;
use git_workers::git_interface::{
    GitError, GitInterface, GitScenarioBuilder, MockGitInterface, WorktreeConfig,
};

#[test]
fn test_mock_create_worktree() {
    let mut mock = MockGitInterface::new();

    let config = WorktreeConfig {
        name: "feature".to_string(),
        path: "/mock/repo/feature".to_string(),
        branch: Some("feature-branch".to_string()),
        create_branch: true,
        base_branch: None,
    };

    let worktree = mock.create_worktree(&config).unwrap();
    assert_eq!(worktree.name, "feature");
    assert_eq!(worktree.branch, Some("feature-branch".to_string()));

    let worktrees = mock.list_worktrees().unwrap();
    assert!(worktrees.iter().any(|w| w.name == "feature"));

    let branches = mock.list_branches().unwrap();
    assert!(branches.iter().any(|b| b.name == "feature-branch"));
}

#[test]
fn test_mock_with_scenario() {
    let (worktrees, branches, tags, repo_info) = GitScenarioBuilder::new()
        .with_worktree("main", "/repo", Some("main"))
        .with_worktree("feature", "/repo/feature", Some("feature-branch"))
        .with_branch("main", false)
        .with_branch("feature-branch", false)
        .with_branch("develop", false)
        .with_tag("v1.0.0", Some("Release 1.0.0"))
        .build();

    let mut mock = MockGitInterface::with_scenario(worktrees, branches, tags, repo_info);

    let worktrees = mock.list_worktrees().unwrap();
    assert_eq!(worktrees.len(), 2);

    let branches = mock.list_branches().unwrap();
    assert_eq!(branches.len(), 3);

    let tags = mock.list_tags().unwrap();
    assert_eq!(tags.len(), 1);
    assert_eq!(tags[0].name, "v1.0.0");
}

#[test]
fn test_mock_expectations() {
    let mut mock = MockGitInterface::new();

    mock.expect_operation(Expectation::CreateWorktree {
        name: "test".to_string(),
        branch: Some("test-branch".to_string()),
    });

    let config = WorktreeConfig {
        name: "test".to_string(),
        path: "/mock/repo/test".to_string(),
        branch: Some("test-branch".to_string()),
        create_branch: false,
        base_branch: None,
    };

    mock.create_worktree(&config).unwrap();

    mock.verify_expectations().unwrap();
}

fn config(name: &str, branch: Option<&str>, create: bool) -> WorktreeConfig {
    WorktreeConfig {
        name: name.to_string(),
        path: format!("/mock/repo/{name}"),
        branch: branch.map(|b| b.to_string()),
        create_branch: create,
        base_branch: None,
    }
}

#[test]
fn created_worktree_is_found_and_removed_worktree_is_gone() {
    let mut mock = MockGitInterface::new();
    mock.create_worktree(&config("a", Some("a-branch"), false)).unwrap();
    assert!(mock.has_worktrees().unwrap());
    let found = mock.get_worktree("a").unwrap().unwrap();
    assert_eq!(found.path, "/mock/repo/a");
    assert_eq!(found.commit, "new123");
    assert_eq!(mock.get_branch_worktree_map().unwrap().get("a-branch").unwrap(), "a");
    mock.remove_worktree("a").unwrap();
    assert!(mock.get_worktree("a").unwrap().is_none());
    assert!(mock.get_branch_worktree_map().unwrap().get("a-branch").is_none());
    assert_eq!(
        mock.remove_worktree("a"),
        Err(GitError::WorktreeNotFound("a".to_string()))
    );
}

#[test]
fn create_worktree_errors() {
    let mut mock = MockGitInterface::new();
    mock.create_worktree(&config("a", None, false)).unwrap();
    assert_eq!(
        mock.create_worktree(&config("a", None, false)),
        Err(GitError::WorktreeExists("a".to_string()))
    );
    assert_eq!(
        mock.create_worktree(&config("b", None, true)),
        Err(GitError::BranchNameRequired)
    );
    assert_eq!(
        mock.create_worktree(&config("c", Some("main"), true)),
        Err(GitError::BranchExists("main".to_string()))
    );
}

#[test]
fn branches_created_and_deleted() {
    let mut mock = MockGitInterface::new();
    mock.create_branch("dev", None).unwrap();
    assert!(mock.branch_exists("dev").unwrap());
    assert_eq!(
        mock.create_branch("dev", Some("main")),
        Err(GitError::BranchExists("dev".to_string()))
    );
    mock.create_worktree(&config("w", Some("dev"), false)).unwrap();
    assert_eq!(
        mock.delete_branch("dev", false),
        Err(GitError::BranchCheckedOut("dev".to_string()))
    );
    mock.delete_branch("dev", true).unwrap();
    assert!(!mock.branch_exists("dev").unwrap());
}

#[test]
fn rename_and_main_worktree() {
    let (worktrees, branches, tags, repo_info) = GitScenarioBuilder::new()
        .with_worktree("main", "/repo", Some("main"))
        .with_worktree("feature", "/repo/feature", Some("feature-branch"))
        .build();
    let mut mock = MockGitInterface::with_scenario(worktrees, branches, tags, repo_info);
    assert_eq!(mock.get_main_worktree().unwrap().unwrap().name, "main");
    mock.rename_worktree("feature", "renamed").unwrap();
    assert!(mock.get_worktree("feature").unwrap().is_none());
    assert_eq!(mock.get_worktree("renamed").unwrap().unwrap().path, "/repo/feature");
    assert_eq!(
        mock.get_branch_worktree_map().unwrap().get("feature-branch").unwrap(),
        "renamed"
    );
    assert_eq!(
        mock.rename_worktree("nope", "x"),
        Err(GitError::WorktreeNotFound("nope".to_string()))
    );
}

#[test]
fn unmet_expectations_are_reported() {
    let mut mock = MockGitInterface::new();
    mock.expect_operation(Expectation::ListBranches);
    mock.expect_operation(Expectation::DeleteBranch { name: "x".to_string() });
    assert_eq!(mock.verify_expectations(), Err(GitError::UnmetExpectations(2)));
    mock.list_branches().unwrap();
    assert_eq!(mock.verify_expectations(), Err(GitError::UnmetExpectations(1)));
    mock.clear_expectations();
    assert!(mock.verify_expectations().is_ok());
}

#[test]
fn repository_info_of_mock() {
    let mock = MockGitInterface::new();
    let info = mock.get_repository_info().unwrap();
    assert_eq!(info.path, "/mock/repo");
    assert_eq!(info.current_branch, Some("main".to_string()));
    assert_eq!(info.remote_url, Some("https://github.com/mock/repo.git".to_string()));
}

fn mock_worktree(name: &str, path: &str, branch: &str) -> git_workers::git_interface::WorktreeInfo {
    git_workers::git_interface::WorktreeInfo {
        name: name.to_string(),
        path: path.to_string(),
        branch: Some(branch.to_string()),
        commit: "abc".to_string(),
        is_bare: false,
        is_main: false,
    }
}

#[test]
fn add_worktree_replaces_same_name_and_maps_branch() {
    let mut mock = MockGitInterface::new();
    assert!(mock.add_worktree(mock_worktree("a", "/one", "b1")).is_ok());
    assert!(mock.add_worktree(mock_worktree("other", "/other", "b2")).is_ok());
    assert!(mock.add_worktree(mock_worktree("a", "/two", "b3")).is_ok());
    let found = mock.get_worktree("a").unwrap().unwrap();
    assert_eq!(found.path, "/two");
    assert_eq!(mock.get_worktree("other").unwrap().unwrap().path, "/other");
    assert_eq!(mock.list_worktrees().unwrap().len(), 2);
    let map = mock.get_branch_worktree_map().unwrap();
    assert_eq!(map.get("b3"), Some(&"a".to_string()));
}
