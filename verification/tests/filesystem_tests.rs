use git_workers::filesystem::{FsError, MockFileSystem, RealFileSystem};

#[test]
fn test_mock_filesystem_basic_operations() {
    let fs = MockFileSystem::new()
        .with_file("/test/file.txt", "content")
        .with_directory("/test/dir");

    assert!(fs.path_exists("/test/file.txt"));
    assert!(fs.is_file("/test/file.txt"));
    assert!(!fs.is_dir("/test/file.txt"));

    let content = fs.read_to_string("/test/file.txt").unwrap();
    assert_eq!(content, "content");

    assert!(fs.path_exists("/test/dir"));
    assert!(fs.is_dir("/test/dir"));
    assert!(!fs.is_file("/test/dir"));
}

#[test]
fn test_mock_filesystem_write_and_copy() {
    let mut fs = MockFileSystem::new();

    fs.write("/new/file.txt", "new content").unwrap();
    assert!(fs.path_exists("/new/file.txt"));

    let content = fs.read_to_string("/new/file.txt").unwrap();
    assert_eq!(content, "new content");

    let bytes = fs.copy("/new/file.txt", "/copied.txt").unwrap();
    assert_eq!(bytes, 11);

    let copied_content = fs.read_to_string("/copied.txt").unwrap();
    assert_eq!(copied_content, "new content");
}

#[test]
fn test_mock_filesystem_failures() {
    let mut fs = MockFileSystem::new().with_failure("/fail/path", "Simulated error");

    assert!(fs.create_dir_all("/fail/path").is_err());
    assert!(fs.write("/fail/path", "content").is_err());
    assert!(fs.read_to_string("/fail/path").is_err());
}

#[test]
fn test_mock_filesystem_remove_operations() {
    let mut fs = MockFileSystem::new()
        .with_file("/remove/file.txt", "content")
        .with_directory("/remove/dir");

    fs.remove_file("/remove/file.txt").unwrap();
    assert!(!fs.path_exists("/remove/file.txt"));

    fs.remove_dir_all("/remove/dir").unwrap();
    assert!(!fs.path_exists("/remove/dir"));
}

#[test]
fn test_real_filesystem_creation() {
    let _fs = RealFileSystem::new();
}

#[test]
fn remove_dir_all_removes_everything_below() {
    let mut fs = MockFileSystem::new()
        .with_directory("/a")
        .with_directory("/a/b")
        .with_file("/a/b/c.txt", "x")
        .with_file("/keep.txt", "y");
    fs.remove_dir_all("/a").unwrap();
    assert!(!fs.path_exists("/a"));
    assert!(!fs.path_exists("/a/b"));
    assert!(!fs.path_exists("/a/b/c.txt"));
    assert!(fs.path_exists("/keep.txt"));
}

#[test]
fn remove_dir_all_keeps_siblings_sharing_a_prefix() {
    let mut fs = MockFileSystem::new()
        .with_directory("/remove/dir")
        .with_directory("/remove/dir2")
        .with_file("/remove/dir/a.txt", "x")
        .with_file("/remove/dir2/b.txt", "y");
    assert!(fs.remove_dir_all("/remove/dir").is_ok());
    assert!(!fs.path_exists("/remove/dir"));
    assert!(!fs.path_exists("/remove/dir/a.txt"));
    assert!(fs.path_exists("/remove/dir2"));
    assert!(fs.path_exists("/remove/dir2/b.txt"));
}

#[test]
fn failures_carry_their_messages() {
    let mut fs = MockFileSystem::new().with_failure("/x", "boom");
    assert_eq!(fs.write("/x", "c"), Err(FsError::Simulated("boom".to_string())));
    assert_eq!(
        fs.read_to_string("/missing"),
        Err(FsError::FileNotFound("/missing".to_string()))
    );
    assert_eq!(
        fs.remove_file("/missing"),
        Err(FsError::FileNotFound("/missing".to_string()))
    );
    assert_eq!(
        fs.copy("/missing", "/y"),
        Err(FsError::SourceFileNotFound("/missing".to_string()))
    );
    assert_eq!(
        fs.rename("/missing", "/y"),
        Err(FsError::SourceNotFound("/missing".to_string()))
    );
    assert_eq!(
        fs.read_dir("/missing"),
        Err(FsError::DirectoryNotFound("/missing".to_string()))
    );
}

#[test]
fn copy_counts_utf8_bytes_and_rename_moves() {
    let mut fs = MockFileSystem::new()
        .with_file("/f", "héllo")
        .with_directory_contents("/d", vec!["a", "b"]);
    assert_eq!(fs.copy("/f", "/g").unwrap(), 6);
    fs.rename("/f", "/h").unwrap();
    assert!(!fs.path_exists("/f"));
    assert_eq!(fs.read_to_string("/h").unwrap(), "héllo");
    fs.rename("/d", "/e").unwrap();
    assert!(!fs.is_dir("/d"));
    assert!(fs.is_dir("/e"));
    assert_eq!(fs.read_dir("/e").unwrap().len(), 0);
}
