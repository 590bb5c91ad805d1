use git_mirror::config::Destination;
use git_mirror::git::{ChangedFile, FileStatus};
use git_mirror::sync::{file_op, plan_sync, sync_files, FileOp, SyncResult};

fn dest(path: &str) -> Destination {
    Destination { label: "Test".into(), path: path.into() }
}

fn changed(path: &str, status: FileStatus) -> ChangedFile {
    ChangedFile { relative_path: path.to_string(), status }
}

#[test]
fn copy_preserves_relative_structure() {
    let op = file_op("/repos/my-app", &dest("/deploy/server1"), &changed("src/api/routes.rs", FileStatus::Modified));
    match op {
        FileOp::Copy { from, to } => {
            assert_eq!(from, "/repos/my-app/src/api/routes.rs");
            assert_eq!(to, "/deploy/server1/src/api/routes.rs");
        }
        FileOp::Delete { .. } => panic!("a modified file is copied"),
    }
}

#[test]
fn deleted_file_is_removed_from_destination_only() {
    let op = file_op("/repos/my-app", &dest("/deploy/server1"), &changed("old.rs", FileStatus::Deleted));
    match op {
        FileOp::Delete { target } => assert_eq!(target, "/deploy/server1/old.rs"),
        FileOp::Copy { .. } => panic!("a deleted file is not copied"),
    }
}

#[test]
fn added_file_is_copied() {
    let op = file_op("/src", &dest("/dst"), &changed("a/b/c/deep.rs", FileStatus::Added));
    assert!(matches!(op, FileOp::Copy { ref to, .. } if to == "/dst/a/b/c/deep.rs"));
}

#[test]
fn plan_has_one_operation_per_file_in_order() {
    let files = vec![
        changed("src/main.rs", FileStatus::Modified),
        changed("README.md", FileStatus::Deleted),
        changed("new.rs", FileStatus::Added),
    ];
    let ops = plan_sync("/src", &dest("/dst"), &files);
    assert_eq!(ops.len(), 3);
    assert!(matches!(&ops[0], FileOp::Copy { to, .. } if to == "/dst/src/main.rs"));
    assert!(matches!(&ops[1], FileOp::Delete { target } if target == "/dst/README.md"));
    assert!(matches!(&ops[2], FileOp::Copy { from, .. } if from == "/src/new.rs"));
}

#[test]
fn sync_counts_copies_and_deletions() {
    let files = vec![
        changed("a.rs", FileStatus::Modified),
        changed("b.rs", FileStatus::Deleted),
        changed("c.rs", FileStatus::Added),
    ];
    let r = sync_files(&dest("/dst"), &files, &[Ok(()), Ok(()), Ok(())]);
    assert_eq!(r.destination_label, "Test");
    assert_eq!(r.files_copied, 2);
    assert_eq!(r.files_deleted, 1);
    assert!(r.errors.is_empty());
}

#[test]
fn sync_continues_after_a_failed_file() {
    let files = vec![
        changed("missing.rs", FileStatus::Modified),
        changed("good.rs", FileStatus::Modified),
    ];
    let r = sync_files(&dest("/dst"), &files, &[Err("Failed to copy".to_string()), Ok(())]);
    assert_eq!(r.files_copied, 1, "good file should still be copied");
    assert_eq!(r.errors.len(), 1, "one error for the missing file");
    assert_eq!(r.errors[0], "missing.rs: Failed to copy");
}

#[test]
fn sync_of_absent_deleted_file_has_no_error() {
    let files = vec![changed("ghost.rs", FileStatus::Deleted)];
    let r = sync_files(&dest("/dst"), &files, &[Ok(())]);
    assert!(r.errors.is_empty());
    assert_eq!(r.files_deleted, 1);
}

#[test]
fn failed_deletion_is_reported_not_counted() {
    let files = vec![changed("locked.rs", FileStatus::Deleted)];
    let r = sync_files(&dest("/dst"), &files, &[Err("Failed to delete".to_string())]);
    assert_eq!(r.files_deleted, 0);
    assert_eq!(r.files_copied, 0);
    assert_eq!(r.errors, vec!["locked.rs: Failed to delete".to_string()]);
}

#[test]
fn recording_step_by_step_matches_sync_files() {
    let d = dest("/dst");
    let files = vec![changed("x.rs", FileStatus::Added), changed("y.rs", FileStatus::Deleted)];
    let outcomes = [Ok(()), Err("boom".to_string())];
    let mut r = SyncResult::new(&d);
    for (f, o) in files.iter().zip(outcomes.iter()) {
        r.record(f, o);
    }
    let all = sync_files(&d, &files, &outcomes);
    assert_eq!(r.files_copied, all.files_copied);
    assert_eq!(r.files_deleted, all.files_deleted);
    assert_eq!(r.errors, all.errors);
    assert_eq!(r.errors, vec!["y.rs: boom".to_string()]);
}

#[test]
fn empty_sync_does_nothing() {
    let r = sync_files(&dest("/dst"), &[], &[]);
    assert_eq!(r.files_copied + r.files_deleted + r.errors.len(), 0);
}
