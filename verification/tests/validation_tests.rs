use git_workers::domain::validation::{validate_custom_path, validate_worktree_name, NameError};

#[test]
fn test_validate_worktree_name_valid() {
    let valid_names = vec![
        "valid-name",
        "valid_name",
        "valid123",
        "feature-branch",
        "bugfix_123",
    ];

    for name in valid_names {
        let result = validate_worktree_name(name);
        assert!(result.is_ok(), "Expected '{name}' to be valid");
    }
}

#[test]
fn test_validate_worktree_name_invalid() {
    let invalid_names = vec![
        ("", "Empty name"),
        (".hidden", "Hidden file"),
        ("name/slash", "Contains slash"),
        ("HEAD", "Git reserved name"),
        ("name:colon", "Contains colon"),
    ];

    for (name, reason) in invalid_names {
        let result = validate_worktree_name(name);
        assert!(result.is_err(), "Expected '{name}' to be invalid: {reason}");
    }
}

#[test]
fn test_validate_custom_path_valid() {
    let valid_paths = vec![
        "../safe/path",
        "subdirectory/path",
        "../sibling",
        "./relative/path",
        "simple-path",
    ];

    for path in valid_paths {
        let result = validate_custom_path(path);
        assert!(result.is_ok(), "Expected '{path}' to be valid");
    }
}

#[test]
fn test_validate_custom_path_invalid() {
    let invalid_paths = vec![
        ("", "Empty path"),
        ("/absolute/path", "Absolute path"),
        ("../../etc/passwd", "Too many parent traversals"),
        ("path/", "Trailing slash"),
        ("C:\\Windows", "Windows absolute path"),
    ];

    for (path, reason) in invalid_paths {
        let result = validate_custom_path(path);
        assert!(result.is_err(), "Expected '{path}' to be invalid: {reason}");
    }
}

#[test]
fn worktree_name_is_trimmed_and_rules_are_reported() {
    assert_eq!(validate_worktree_name("  feature  ").unwrap(), "feature");
    assert_eq!(validate_worktree_name("   "), Err(NameError::Empty));
    assert_eq!(validate_worktree_name("refs"), Err(NameError::Reserved));
    assert_eq!(validate_worktree_name("head"), Err(NameError::Reserved));
    assert_eq!(validate_worktree_name("a*b"), Err(NameError::InvalidChar('*')));
    assert_eq!(validate_worktree_name(".git"), Err(NameError::Hidden));
    assert_eq!(validate_worktree_name("café"), Err(NameError::NonAscii));
    let long = "a".repeat(256);
    assert_eq!(validate_worktree_name(&long), Err(NameError::TooLong));
    let max = "a".repeat(255);
    assert!(validate_worktree_name(&max).is_ok());
}
