use git_mirror::app::{
    destination_line, file_line, status_icon, status_msg, Action, Event, GitMirrorApp, SyncKind,
    SyncStage, Task, UiAction, MAX_FILES_SHOWN,
};
use git_mirror::config::{Config, ConfigError, Destination};
use git_mirror::git::{ChangedFile, FileStatus};
use git_mirror::sync::SyncResult;

fn changed(path: &str, status: FileStatus) -> ChangedFile {
    ChangedFile { relative_path: path.to_string(), status }
}

fn app_with(source: Option<&str>, dests: &[(&str, &str)]) -> GitMirrorApp {
    let config = Config {
        source_repo: source.map(|s| s.to_string()),
        destinations: dests
            .iter()
            .map(|(l, p)| Destination { label: l.to_string(), path: p.to_string() })
            .collect(),
    };
    GitMirrorApp::new(Ok(config))
}

fn result(label: &str, copied: usize, errors: usize) -> SyncResult {
    SyncResult {
        destination_label: label.to_string(),
        files_copied: copied,
        files_deleted: 0,
        errors: (0..errors).map(|i| format!("f{}: failed", i)).collect(),
    }
}

fn worktree() -> Vec<ChangedFile> {
    vec![changed("src/main.rs", FileStatus::Modified)]
}

fn head_files() -> Vec<ChangedFile> {
    vec![
        changed("src/main.rs", FileStatus::Added),
        changed("src/lib.rs", FileStatus::Added),
        changed("README.md", FileStatus::Added),
    ]
}

fn expect_sync_files(a: Action) -> (String, Destination, Vec<ChangedFile>) {
    match a {
        Action::SyncFiles { source_root, destination, files } => (source_root, destination, files),
        _ => panic!("expected a sync of files"),
    }
}

fn paths(files: &[ChangedFile]) -> Vec<String> {
    files.iter().map(|f| f.relative_path.clone()).collect()
}

#[test]
fn status_message_format() {
    assert_eq!(status_msg("Synced", 3, 2, 0), "✅ Synced 3 file(s) to 2 destination(s)");
    assert_eq!(status_msg("Force synced", 12, 1, 4), "✅ Force synced 12 file(s) to 1 destination(s) (4 errors)");
}

#[test]
fn new_app_uses_loaded_config_or_defaults() {
    let app = app_with(Some("/repo"), &[("S1", "/d1")]);
    assert_eq!(app.config.source_repo.as_deref(), Some("/repo"));
    assert!(app.status_message.is_none());
    assert!(app.changed_files.is_empty());
    let app = GitMirrorApp::new(Err(ConfigError::Parse));
    assert!(app.config.source_repo.is_none());
    assert!(app.config.destinations.is_empty());
}

#[test]
fn refresh_reads_worktree_changes() {
    let mut app = app_with(Some("/repo"), &[]);
    app.show_all_files = true;
    let a = app.refresh_changed_files();
    assert!(matches!(a, Action::OpenRepo { ref path } if path == "/repo"));
    assert!(!app.show_all_files);
    assert!(matches!(app.advance(Event::RepoOpened), Action::ReadWorktreeChanges));
    assert!(matches!(app.advance(Event::WorktreeChanges(worktree())), Action::Done));
    assert_eq!(paths(&app.changed_files), vec!["src/main.rs"]);
    assert!(matches!(app.task, Task::Idle));
}

#[test]
fn refresh_without_source_does_nothing() {
    let mut app = app_with(None, &[]);
    assert!(matches!(app.refresh_changed_files(), Action::Done));
    assert!(app.status_message.is_none());
}

#[test]
fn refresh_failures_are_reported() {
    let mut app = app_with(Some("/repo"), &[]);
    app.refresh_changed_files();
    app.advance(Event::Failed("'/repo' is not a valid git repository".into()));
    assert_eq!(app.status_message.as_deref(), Some("❌ '/repo' is not a valid git repository"));
    let mut app = app_with(Some("/repo"), &[]);
    app.refresh_changed_files();
    app.advance(Event::RepoOpened);
    app.advance(Event::Failed("Failed to get git status".into()));
    assert_eq!(app.status_message.as_deref(), Some("❌ Git error: Failed to get git status"));
}

#[test]
fn sync_without_source_is_refused() {
    let mut app = app_with(None, &[("S1", "/d1")]);
    assert!(matches!(app.run_sync(), Action::Done));
    assert_eq!(app.status_message.as_deref(), Some("❌ No source repository selected"));
    let mut app = app_with(None, &[("S1", "/d1")]);
    assert!(matches!(app.run_force_sync_one(0), Action::Done));
    assert_eq!(app.status_message.as_deref(), Some("❌ No source repository selected"));
}

#[test]
fn empty_dest_gets_all_tracked_files_and_nonempty_dest_gets_worktree() {
    let mut app = app_with(Some("/repo"), &[("Empty", "/d1"), ("Full", "/d2")]);
    assert!(matches!(app.run_sync(), Action::OpenRepo { ref path } if path == "/repo"));
    assert!(matches!(app.advance(Event::RepoOpened), Action::ReadWorktreeChanges));
    let a = app.advance(Event::WorktreeChanges(worktree()));
    assert!(matches!(a, Action::CheckDestinationEmpty { ref path } if path == "/d1"));
    assert!(matches!(app.advance(Event::DestinationEmpty(true)), Action::ListTrackedFiles));
    let (src, d, files) = expect_sync_files(app.advance(Event::TrackedFiles(head_files())));
    assert_eq!(src, "/repo");
    assert_eq!(d.path, "/d1");
    assert_eq!(paths(&files), vec!["src/main.rs", "src/lib.rs", "README.md"]);
    let a = app.advance(Event::Synced(result("Empty", 3, 0)));
    assert!(matches!(a, Action::CheckDestinationEmpty { ref path } if path == "/d2"));
    let (_, d, files) = expect_sync_files(app.advance(Event::DestinationEmpty(false)));
    assert_eq!(d.path, "/d2");
    assert_eq!(paths(&files), vec!["src/main.rs"]);
    let a = app.advance(Event::Synced(result("Full", 1, 2)));
    assert_eq!(app.status_message.as_deref(), Some("✅ Synced 4 file(s) to 2 destination(s) (2 errors)"));
    // A refresh follows the sync.
    assert!(matches!(a, Action::OpenRepo { ref path } if path == "/repo"));
    assert!(matches!(app.task, Task::RefreshOpening));
}

#[test]
fn sync_with_no_destinations_reports_zero() {
    let mut app = app_with(Some("/repo"), &[]);
    app.run_sync();
    app.advance(Event::RepoOpened);
    let a = app.advance(Event::WorktreeChanges(worktree()));
    assert!(matches!(a, Action::OpenRepo { .. }));
    assert_eq!(app.status_message.as_deref(), Some("✅ Synced 0 file(s) to 0 destination(s)"));
}

#[test]
fn force_sync_sends_all_tracked_files_to_every_destination() {
    let mut app = app_with(Some("/repo"), &[("A", "/a"), ("B", "/b")]);
    app.run_force_sync();
    app.advance(Event::RepoOpened);
    assert!(matches!(app.advance(Event::WorktreeChanges(worktree())), Action::ListTrackedFiles));
    let (_, d, files) = expect_sync_files(app.advance(Event::TrackedFiles(head_files())));
    assert_eq!(d.path, "/a");
    assert_eq!(files.len(), 3);
    let (_, d, files) = expect_sync_files(app.advance(Event::Synced(result("A", 3, 0))));
    assert_eq!(d.path, "/b");
    assert_eq!(paths(&files), vec!["src/main.rs", "src/lib.rs", "README.md"]);
    app.advance(Event::Synced(result("B", 3, 0)));
    assert_eq!(app.status_message.as_deref(), Some("✅ Force synced 6 file(s) to 2 destination(s)"));
}

#[test]
fn force_sync_failure_to_list_stops_without_refresh() {
    let mut app = app_with(Some("/repo"), &[("A", "/a")]);
    app.run_force_sync();
    app.advance(Event::RepoOpened);
    app.advance(Event::WorktreeChanges(worktree()));
    let a = app.advance(Event::Failed("Repo has no commits yet".into()));
    assert!(matches!(a, Action::Done));
    assert!(matches!(app.task, Task::Idle));
    assert_eq!(app.status_message.as_deref(), Some("❌ Repo has no commits yet"));
}

#[test]
fn syncing_one_dest_touches_only_it() {
    let mut app = app_with(Some("/repo"), &[("One", "/d1"), ("Two", "/d2")]);
    app.run_sync_one(1);
    app.advance(Event::RepoOpened);
    let a = app.advance(Event::WorktreeChanges(worktree()));
    assert!(matches!(a, Action::CheckDestinationEmpty { ref path } if path == "/d2"));
    let (_, d, _) = expect_sync_files(app.advance(Event::DestinationEmpty(false)));
    assert_eq!(d.label, "Two");
    let a = app.advance(Event::Synced(result("Two", 1, 0)));
    assert!(matches!(a, Action::OpenRepo { .. }));
    assert_eq!(app.status_message.as_deref(), Some("✅ Synced [Two] 1 file(s) to 1 destination(s)"));
}

#[test]
fn force_sync_one_dest() {
    let mut app = app_with(Some("/repo"), &[("One", "/d1"), ("Two", "/d2")]);
    app.run_force_sync_one(0);
    app.advance(Event::RepoOpened);
    assert!(matches!(app.advance(Event::WorktreeChanges(worktree())), Action::ListTrackedFiles));
    let (_, d, files) = expect_sync_files(app.advance(Event::TrackedFiles(head_files())));
    assert_eq!(d.label, "One");
    assert_eq!(files.len(), 3);
    app.advance(Event::Synced(result("One", 2, 1)));
    assert_eq!(app.status_message.as_deref(), Some("✅ Force synced [One] 2 file(s) to 1 destination(s) (1 errors)"));
}

#[test]
fn sync_one_with_unknown_index_ends_quietly() {
    let mut app = app_with(Some("/repo"), &[("One", "/d1")]);
    app.run_sync_one(5);
    app.advance(Event::RepoOpened);
    assert!(matches!(app.advance(Event::WorktreeChanges(worktree())), Action::Done));
    assert!(app.status_message.is_none());
}

#[test]
fn open_failure_stops_sync() {
    let mut app = app_with(Some("/nope"), &[("One", "/d1")]);
    app.run_sync();
    assert!(matches!(app.advance(Event::Failed("'/nope' is not a valid git repository".into())), Action::Done));
    assert_eq!(app.status_message.as_deref(), Some("❌ '/nope' is not a valid git repository"));
}

#[test]
fn unexpected_event_ends_work() {
    let mut app = app_with(Some("/repo"), &[("One", "/d1")]);
    app.run_sync();
    assert!(matches!(app.advance(Event::DestinationEmpty(true)), Action::Done));
    assert!(matches!(app.task, Task::Idle));
    assert!(app.status_message.is_none());
}

#[test]
fn sync_run_state_is_visible() {
    let mut app = app_with(Some("/repo"), &[("One", "/d1")]);
    app.run_sync_one(0);
    match &app.task {
        Task::Sync(run) => {
            assert_eq!(run.kind, SyncKind::One(0));
            assert_eq!(run.stage, SyncStage::OpeningRepo);
        }
        _ => panic!("a sync is under way"),
    }
}

#[test]
fn overflowing_totals_are_refused() {
    let mut app = app_with(Some("/repo"), &[("A", "/a"), ("B", "/b")]);
    app.run_force_sync();
    app.advance(Event::RepoOpened);
    app.advance(Event::WorktreeChanges(worktree()));
    app.advance(Event::TrackedFiles(head_files()));
    assert!(app.can_take(&Event::Synced(result("A", usize::MAX, 0))));
    app.advance(Event::Synced(result("A", usize::MAX, 0)));
    assert!(!app.can_take(&Event::Synced(result("B", 1, 0))));
}

#[test]
fn ui_actions_change_config() {
    let mut app = app_with(None, &[]);
    let f = app.apply_ui_action(UiAction::SetSource("/repo".into()));
    assert!(f.save_config);
    assert!(matches!(f.action, Action::OpenRepo { ref path } if path == "/repo"));
    app.new_dest_label = "S1".into();
    assert!(app.can_pick_destination());
    let f = app.apply_ui_action(UiAction::AddDest { path: "/d1".into() });
    assert!(f.save_config && matches!(f.action, Action::Done));
    assert!(app.new_dest_label.is_empty());
    assert!(!app.can_pick_destination());
    assert_eq!(app.config.destinations[0].label, "S1");
    assert_eq!(app.config.destinations[0].path, "/d1");
    app.new_dest_label = "S2".into();
    app.apply_ui_action(UiAction::AddDest { path: "/d2".into() });
    assert_eq!(app.config.destinations.len(), 2);
    app.apply_ui_action(UiAction::RemoveDest(0));
    assert_eq!(app.config.destinations.len(), 1);
    assert_eq!(app.config.destinations[0].label, "S2");
    app.changed_files = vec![changed("x", FileStatus::Added)];
    let f = app.apply_ui_action(UiAction::ClearSource);
    assert!(f.save_config);
    assert!(app.config.source_repo.is_none());
    assert!(app.changed_files.is_empty());
}

#[test]
fn ui_sync_actions_start_syncs_without_saving() {
    let mut app = app_with(Some("/repo"), &[("S1", "/d1")]);
    let f = app.apply_ui_action(UiAction::SyncAll);
    assert!(!f.save_config);
    assert!(matches!(f.action, Action::OpenRepo { .. }));
    let f = app.apply_ui_action(UiAction::ForceSyncOne(0));
    assert!(!f.save_config);
    assert!(matches!(&app.task, Task::Sync(run) if run.kind == SyncKind::ForceOne(0)));
}

#[test]
fn view_helpers() {
    let mut app = app_with(Some(""), &[]);
    assert!(!app.has_source());
    app.config.source_repo = Some("/repo".into());
    assert!(app.has_source());
    assert!(!app.can_act());
    app.config.destinations.push(Destination { label: "S".into(), path: "/d".into() });
    assert!(app.can_act());
    app.changed_files = (0..13).map(|i| changed(&format!("f{}", i), FileStatus::Modified)).collect();
    assert_eq!(app.shown_file_count(), MAX_FILES_SHOWN);
    assert_eq!(app.more_files_note().as_deref(), Some("...and 3 more files"));
    app.show_all_files = true;
    assert_eq!(app.shown_file_count(), 13);
    assert!(app.more_files_note().is_none());
    assert_eq!(app.source_display(), "/repo");
    app.config.source_repo = None;
    assert_eq!(app.source_display(), "No folder selected…");
}

#[test]
fn preview_lines() {
    assert_eq!(status_icon(FileStatus::Added), "+");
    assert_eq!(status_icon(FileStatus::Deleted), "-");
    assert_eq!(status_icon(FileStatus::Modified), "~");
    assert_eq!(file_line(&changed("src/main.rs", FileStatus::Modified)), "~ src/main.rs");
    let d = Destination { label: "Server 1".into(), path: "/deploy/s1".into() };
    assert_eq!(destination_line(&d), "📁 Server 1  —  /deploy/s1");
}
