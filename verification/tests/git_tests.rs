use git2::Status;
use git_mirror::git::{
    copy_files, get_all_tracked_files, get_worktree_changes, is_blank_path, status_from_flags,
    validate_repo, ChangedFile, FileStatus, RepoError, StatusEntry, TreeEntry,
};

fn entry(flags: Status, path: &str) -> StatusEntry {
    StatusEntry { flags: flags.bits(), path: Some(path.to_string()) }
}

fn tree(root: &str, name: &str, is_blob: bool) -> TreeEntry {
    TreeEntry { root: root.to_string(), name: Some(name.to_string()), is_blob }
}

#[test]
fn modified_flags_give_modified() {
    for f in [
        Status::WT_MODIFIED,
        Status::INDEX_MODIFIED,
        Status::INDEX_RENAMED,
        Status::WT_RENAMED,
        Status::INDEX_TYPECHANGE,
        Status::WT_TYPECHANGE,
    ] {
        assert_eq!(status_from_flags(f.bits()), Some(FileStatus::Modified));
    }
}

#[test]
fn deleted_flags_give_deleted() {
    assert_eq!(status_from_flags(Status::WT_DELETED.bits()), Some(FileStatus::Deleted));
    assert_eq!(status_from_flags(Status::INDEX_DELETED.bits()), Some(FileStatus::Deleted));
}

#[test]
fn new_flags_give_added() {
    assert_eq!(status_from_flags(Status::INDEX_NEW.bits()), Some(FileStatus::Added));
    assert_eq!(status_from_flags(Status::WT_NEW.bits()), Some(FileStatus::Added));
}

#[test]
fn deleted_wins_over_added_and_added_over_modified() {
    let f = Status::INDEX_NEW | Status::WT_DELETED;
    assert_eq!(status_from_flags(f.bits()), Some(FileStatus::Deleted));
    let f = Status::INDEX_NEW | Status::WT_MODIFIED;
    assert_eq!(status_from_flags(f.bits()), Some(FileStatus::Added));
}

#[test]
fn unchanged_flags_give_nothing() {
    assert_eq!(status_from_flags(Status::CURRENT.bits()), None);
    assert_eq!(status_from_flags(Status::IGNORED.bits()), None);
    assert_eq!(status_from_flags(Status::CONFLICTED.bits()), None);
}

#[test]
fn worktree_changes_keep_order_and_skip_unchanged() {
    let statuses = vec![
        entry(Status::CURRENT, "src/lib.rs"),
        entry(Status::WT_MODIFIED, "src/main.rs"),
        entry(Status::WT_DELETED, "README.md"),
        entry(Status::INDEX_NEW, "new_feature.rs"),
        entry(Status::IGNORED, "target"),
    ];
    let changes = get_worktree_changes(&statuses);
    assert_eq!(changes.len(), 3);
    assert_eq!(changes[0].relative_path, "src/main.rs");
    assert_eq!(changes[0].status, FileStatus::Modified);
    assert_eq!(changes[1].relative_path, "README.md");
    assert_eq!(changes[1].status, FileStatus::Deleted);
    assert_eq!(changes[2].relative_path, "new_feature.rs");
    assert_eq!(changes[2].status, FileStatus::Added);
}

#[test]
fn worktree_is_empty_when_nothing_changed() {
    let statuses = vec![entry(Status::CURRENT, "a.rs"), entry(Status::CURRENT, "b.rs")];
    assert!(get_worktree_changes(&statuses).is_empty());
    assert!(get_worktree_changes(&[]).is_empty());
}

#[test]
fn worktree_entry_without_path_gets_empty_path() {
    let statuses = vec![StatusEntry { flags: Status::WT_MODIFIED.bits(), path: None }];
    let changes = get_worktree_changes(&statuses);
    assert_eq!(changes.len(), 1);
    assert_eq!(changes[0].relative_path, "");
}

#[test]
fn tracked_files_are_the_blobs_with_full_paths() {
    let entries = vec![
        tree("", "README.md", true),
        tree("", "src", false),
        tree("src/", "lib.rs", true),
        tree("src/", "main.rs", true),
        tree("", "a", false),
        tree("a/", "b", false),
        tree("a/b/", "c", false),
        tree("a/b/c/", "deep.rs", true),
    ];
    let files = get_all_tracked_files(&entries);
    let paths: Vec<_> = files.iter().map(|f| f.relative_path.as_str()).collect();
    assert_eq!(paths, vec!["README.md", "src/lib.rs", "src/main.rs", "a/b/c/deep.rs"]);
    assert!(files.iter().all(|f| f.status == FileStatus::Added));
}

#[test]
fn tracked_blob_without_name_keeps_its_directory() {
    let entries = vec![TreeEntry { root: "src/".to_string(), name: None, is_blob: true }];
    let files = get_all_tracked_files(&entries);
    assert_eq!(files.len(), 1);
    assert_eq!(files[0].relative_path, "src/");
}

#[test]
fn white_space_is_exactly_the_listed_code_points() {
    let listed = |v: u32| {
        (0x9..=0xd).contains(&v)
            || v == 0x20
            || v == 0x85
            || v == 0xa0
            || v == 0x1680
            || (0x2000..=0x200a).contains(&v)
            || v == 0x2028
            || v == 0x2029
            || v == 0x202f
            || v == 0x205f
            || v == 0x3000
    };
    for v in 0..=0x10ffffu32 {
        if let Some(c) = char::from_u32(v) {
            assert_eq!(c.is_whitespace(), listed(v), "U+{:04X}", v);
            let s = c.to_string();
            assert_eq!(is_blank_path(&s), listed(v), "U+{:04X}", v);
        }
    }
}

#[test]
fn blank_paths() {
    assert!(is_blank_path(""));
    assert!(is_blank_path("   \t\n"));
    assert!(is_blank_path("\u{3000}"));
    assert!(!is_blank_path(" /repo "));
}

#[test]
fn validate_repo_checks_in_order() {
    assert!(matches!(validate_repo("  ", false, false), Err(RepoError::EmptyPath)));
    assert!(matches!(validate_repo("/nope", false, false), Err(RepoError::Missing(p)) if p == "/nope"));
    assert!(matches!(validate_repo("/tmp", true, false), Err(RepoError::NotARepository(p)) if p == "/tmp"));
    assert!(validate_repo("/repo", true, true).is_ok());
}

#[test]
fn repo_error_messages() {
    assert_eq!(RepoError::EmptyPath.message(), "Repository path cannot be empty");
    assert_eq!(RepoError::Missing("/x".into()).message(), "Path does not exist: /x");
    assert_eq!(
        RepoError::NotARepository("/tmp".into()).message(),
        "'/tmp' is not a valid git repository"
    );
}

#[test]
fn copied_files_keep_paths_and_statuses() {
    let files = vec![
        ChangedFile { relative_path: "a.rs".into(), status: FileStatus::Added },
        ChangedFile { relative_path: "b.rs".into(), status: FileStatus::Deleted },
    ];
    let copy = copy_files(&files);
    assert_eq!(copy.len(), 2);
    assert_eq!(copy[1].relative_path, "b.rs");
    assert_eq!(copy[1].status, FileStatus::Deleted);
}
