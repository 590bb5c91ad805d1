//! The application's state and the control of its work.
//!
//! The window and the disk and git work stand outside the library. What the application
//! decides stands here: a refresh or a sync is a run of steps; each step names the next
//! piece of outside work (an `Action`), and what that work found comes back as an
//! `Event`, from which `advance` decides the next step.
use vstd::prelude::*;

use crate::config::{copy_destination, Config, ConfigError, Destination};
use crate::git::{copy_files, ChangedFile, FileStatus};
use crate::sync::SyncResult;
use crate::text::{decimal, decimal_string};

verus! {

/// How many changed files the preview lists before "Show all" is pressed.
pub const MAX_FILES_SHOWN: usize = 10;

/// Which sync was asked for.
#[derive(Clone, Copy, Debug, PartialEq, Eq, Structural)]
pub enum SyncKind {
    /// Every destination: an empty one gets every tracked file, any other the worktree
    /// changes.
    All,
    /// Every destination gets every tracked file.
    ForceAll,
    /// The destination at this index, as in `All`.
    One(usize),
    /// The destination at this index, as in `ForceAll`.
    ForceOne(usize),
}

/// How far a sync has come.
#[derive(Clone, Copy, Debug, PartialEq, Eq, Structural)]
pub enum SyncStage {
    OpeningRepo,
    ReadingWorktree,
    /// Asking whether the destination at this index is empty.
    CheckingDestination(usize),
    /// Listing every tracked file, for the destination at this index.
    ListingTracked(usize),
    /// Copying into the destination at this index.
    Syncing(usize),
}

/// A sync under way.
pub struct SyncRun {
    pub kind: SyncKind,
    /// The source repository's path.
    pub source: String,
    pub stage: SyncStage,
    /// The worktree changes, once read.
    pub worktree: Vec<ChangedFile>,
    /// Every tracked file, once listed.
    pub head_files: Vec<ChangedFile>,
    /// Files copied so far, over the destinations done.
    pub copied: usize,
    /// Failed files so far, over the destinations done.
    pub errors: usize,
}

/// What the application is doing.
pub enum Task {
    Idle,
    /// Refreshing the worktree changes: opening the repository.
    RefreshOpening,
    /// Refreshing the worktree changes: reading them.
    RefreshReading,
    Sync(SyncRun),
}

/// The next piece of outside work.
pub enum Action {
    /// Nothing more to do.
    Done,
    /// Open the git repository at `path`; answer `RepoOpened` or `Failed`.
    OpenRepo { path: String },
    /// Read the worktree changes of the opened repository; answer `WorktreeChanges` or
    /// `Failed`.
    ReadWorktreeChanges,
    /// Tell whether the folder at `path` is empty or missing; answer `DestinationEmpty`.
    CheckDestinationEmpty { path: String },
    /// List every file tracked in HEAD of the opened repository; answer `TrackedFiles` or
    /// `Failed`.
    ListTrackedFiles,
    /// Mirror `files` from `source_root` into `destination`; answer `Synced`.
    SyncFiles { source_root: String, destination: Destination, files: Vec<ChangedFile> },
}

/// What a piece of outside work found.
pub enum Event {
    RepoOpened,
    WorktreeChanges(Vec<ChangedFile>),
    DestinationEmpty(bool),
    TrackedFiles(Vec<ChangedFile>),
    Synced(SyncResult),
    /// The work failed, with this message.
    Failed(String),
}

/// A request from the window, carried out once the frame is drawn.
pub enum UiAction {
    SetSource(String),
    ClearSource,
    /// Add a destination at `path`, labelled with the label typed so far.
    AddDest { path: String },
    RemoveDest(usize),
    SyncOne(usize),
    ForceSyncOne(usize),
    SyncAll,
    ForceSyncAll,
}

/// What follows a request from the window: the first piece of outside work, and whether
/// the configuration is to be saved once the work is done.
pub struct Followup {
    pub action: Action,
    pub save_config: bool,
}

/// The application state.
pub struct GitMirrorApp {
    pub config: Config,
    /// The label typed for the next destination.
    pub new_dest_label: String,
    pub status_message: Option<String>,
    /// The worktree changes of the source repository, as last read.
    pub changed_files: Vec<ChangedFile>,
    pub show_all_files: bool,
    pub task: Task,
}

// ── The texts the application shows ─────────────────────────────────────────────

/// The status line after a sync: how many files went to how many destinations, and how
/// many failed where any did.
pub open spec fn status_text(verb: Seq<char>, files: nat, dests: nat, errors: nat) -> Seq<char> {
    "✅ "@ + verb + " "@ + decimal(files) + " file(s) to "@ + decimal(dests) + " destination(s)"@
        + if errors > 0 {
        " ("@ + decimal(errors) + " errors)"@
    } else {
        Seq::empty()
    }
}

/// The status line of a failure.
pub open spec fn failure_text(message: Seq<char>) -> Seq<char> {
    "❌ "@ + message
}

/// The status line when reading the worktree changes failed during a refresh.
pub open spec fn git_failure_text(message: Seq<char>) -> Seq<char> {
    "❌ Git error: "@ + message
}

/// The status line when a sync is asked for without a source repository.
pub open spec fn no_source_text() -> Seq<char> {
    "❌ No source repository selected"@
}

/// What the status line says a sync did: "Synced" or "Force synced", with the
/// destination's label in brackets for a sync of one destination.
pub open spec fn verb_of(kind: SyncKind, dests: Seq<Destination>) -> Seq<char> {
    match kind {
        SyncKind::All => "Synced"@,
        SyncKind::ForceAll => "Force synced"@,
        SyncKind::One(i) => "Synced ["@ + label_at(dests, i as int) + "]"@,
        SyncKind::ForceOne(i) => "Force synced ["@ + label_at(dests, i as int) + "]"@,
    }
}

/// The label of the destination at `i`, empty where there is none.
pub open spec fn label_at(dests: Seq<Destination>, i: int) -> Seq<char> {
    if 0 <= i < dests.len() {
        dests[i].label@
    } else {
        Seq::empty()
    }
}

/// How many destinations the status line says a sync went to.
pub open spec fn destination_count(kind: SyncKind, dests: Seq<Destination>) -> nat {
    match kind {
        SyncKind::All | SyncKind::ForceAll => dests.len(),
        _ => 1,
    }
}

/// The icon of a file's status in the preview.
pub open spec fn icon_of(status: FileStatus) -> Seq<char> {
    match status {
        FileStatus::Added => "+"@,
        FileStatus::Deleted => "-"@,
        FileStatus::Modified => "~"@,
    }
}

// ── The steps ───────────────────────────────────────────────────────────────────

/// The configuration and the label being typed are left as they were.
pub open spec fn same_settings(pre: GitMirrorApp, post: GitMirrorApp) -> bool {
    &&& post.config == pre.config
    &&& post.new_dest_label == pre.new_dest_label
}

/// The status line and the preview are left as they were.
pub open spec fn same_display(pre: GitMirrorApp, post: GitMirrorApp) -> bool {
    &&& post.status_message == pre.status_message
    &&& post.changed_files == pre.changed_files
    &&& post.show_all_files == pre.show_all_files
}

/// The work ends quietly.
pub open spec fn ended(pre: GitMirrorApp, post: GitMirrorApp, action: Action) -> bool {
    &&& post.task is Idle
    &&& action is Done
    &&& same_display(pre, post)
}

/// The work ends with `text` on the status line.
pub open spec fn stopped(pre: GitMirrorApp, post: GitMirrorApp, action: Action, text: Seq<char>) -> bool {
    &&& post.task is Idle
    &&& action is Done
    &&& post.status_message matches Some(m) && m@ == text
    &&& post.changed_files == pre.changed_files
    &&& post.show_all_files == pre.show_all_files
}

/// A refresh of the worktree changes has begun: the preview is emptied and folded, and
/// the source repository (where there is one) is to be opened.
pub open spec fn refresh_begun(config: Config, post: GitMirrorApp, action: Action) -> bool {
    &&& post.changed_files@.len() == 0
    &&& !post.show_all_files
    &&& match config.source_repo {
        None => post.task is Idle && action is Done,
        Some(s) => post.task is RefreshOpening && (action matches Action::OpenRepo { path } && path@
            == s@),
    }
}

/// A sync has ended: the status line tells what it did, and a refresh has begun.
pub open spec fn finished(pre: GitMirrorApp, kind: SyncKind, copied: nat, errors: nat, post: GitMirrorApp, action: Action) -> bool {
    let dests = pre.config.destinations@;
    &&& post.status_message matches Some(m) && m@ == status_text(
        verb_of(kind, dests),
        copied,
        destination_count(kind, dests),
        errors,
    )
    &&& refresh_begun(pre.config, post, action)
}

/// The sync goes on as `run`, with the display left as it was.
pub open spec fn goes_on(pre: GitMirrorApp, post: GitMirrorApp, run: SyncRun) -> bool {
    &&& post.task == Task::Sync(run)
    &&& same_display(pre, post)
}

/// The sync goes on as `run` by mirroring `files` into the destination at `i`; where
/// there is no such destination, it ends quietly.
pub open spec fn syncs_destination(pre: GitMirrorApp, run: SyncRun, i: int, files: Seq<ChangedFile>, post: GitMirrorApp, action: Action) -> bool {
    let dests = pre.config.destinations@;
    if 0 <= i < dests.len() {
        &&& goes_on(pre, post, run)
        &&& action matches Action::SyncFiles { source_root, destination, files: f }
        &&& source_root@ == run.source@
        &&& destination == dests[i]
        &&& f@ == files
    } else {
        ended(pre, post, action)
    }
}

/// The sync goes on as `run` by asking whether the destination at `i` is empty.
pub open spec fn checks_destination(pre: GitMirrorApp, run: SyncRun, i: int, post: GitMirrorApp, action: Action) -> bool {
    &&& goes_on(pre, post, run)
    &&& action matches Action::CheckDestinationEmpty { path }
    &&& path@ == pre.config.destinations@[i].path@
}

/// The step after the worktree changes were read, `run` holding them.
pub open spec fn worktree_read(pre: GitMirrorApp, run: SyncRun, post: GitMirrorApp, action: Action) -> bool {
    let n = pre.config.destinations@.len();
    match run.kind {
        SyncKind::All => if n > 0 {
            checks_destination(pre, SyncRun { stage: SyncStage::CheckingDestination(0), ..run }, 0, post, action)
        } else {
            finished(pre, run.kind, run.copied as nat, run.errors as nat, post, action)
        },
        SyncKind::ForceAll => {
            &&& goes_on(pre, post, SyncRun { stage: SyncStage::ListingTracked(0), ..run })
            &&& action is ListTrackedFiles
        },
        SyncKind::One(k) => if k < n {
            checks_destination(pre, SyncRun { stage: SyncStage::CheckingDestination(k), ..run }, k as int, post, action)
        } else {
            ended(pre, post, action)
        },
        SyncKind::ForceOne(k) => if k < n {
            &&& goes_on(pre, post, SyncRun { stage: SyncStage::ListingTracked(k), ..run })
            &&& action is ListTrackedFiles
        } else {
            ended(pre, post, action)
        },
    }
}

/// The step after the destination at `i` was synced with result `r`.
pub open spec fn destination_synced(pre: GitMirrorApp, run: SyncRun, i: int, r: SyncResult, post: GitMirrorApp, action: Action) -> bool {
    let n = pre.config.destinations@.len();
    let copied = run.copied + r.files_copied;
    let errors = run.errors + r.errors@.len();
    let next = SyncRun { copied: copied as usize, errors: errors as usize, ..run };
    match run.kind {
        SyncKind::All => if i + 1 < n {
            checks_destination(pre, SyncRun { stage: SyncStage::CheckingDestination((i + 1) as usize), ..next }, i + 1, post, action)
        } else {
            finished(pre, run.kind, copied as nat, errors as nat, post, action)
        },
        SyncKind::ForceAll => if i + 1 < n {
            syncs_destination(pre, SyncRun { stage: SyncStage::Syncing((i + 1) as usize), ..next }, i + 1, run.head_files@, post, action)
        } else {
            finished(pre, run.kind, copied as nat, errors as nat, post, action)
        },
        _ => finished(pre, run.kind, copied as nat, errors as nat, post, action),
    }
}

/// One step of a sync `run`, on `event`.
pub open spec fn sync_advanced(pre: GitMirrorApp, run: SyncRun, event: Event, post: GitMirrorApp, action: Action) -> bool {
    match run.stage {
        SyncStage::OpeningRepo => match event {
            Event::RepoOpened => {
                &&& goes_on(pre, post, SyncRun { stage: SyncStage::ReadingWorktree, ..run })
                &&& action is ReadWorktreeChanges
            },
            Event::Failed(e) => stopped(pre, post, action, failure_text(e@)),
            _ => ended(pre, post, action),
        },
        SyncStage::ReadingWorktree => match event {
            Event::WorktreeChanges(w) => worktree_read(pre, SyncRun { worktree: w, ..run }, post, action),
            Event::Failed(e) => stopped(pre, post, action, failure_text(e@)),
            _ => ended(pre, post, action),
        },
        SyncStage::CheckingDestination(i) => match event {
            Event::DestinationEmpty(empty) => if empty {
                &&& goes_on(pre, post, SyncRun { stage: SyncStage::ListingTracked(i), ..run })
                &&& action is ListTrackedFiles
            } else {
                syncs_destination(pre, SyncRun { stage: SyncStage::Syncing(i), ..run }, i as int, run.worktree@, post, action)
            },
            _ => ended(pre, post, action),
        },
        SyncStage::ListingTracked(i) => match event {
            Event::TrackedFiles(t) => if i < pre.config.destinations@.len() {
                syncs_destination(pre, SyncRun { stage: SyncStage::Syncing(i), head_files: t, ..run }, i as int, t@, post, action)
            } else if run.kind is ForceAll {
                finished(pre, run.kind, run.copied as nat, run.errors as nat, post, action)
            } else {
                ended(pre, post, action)
            },
            Event::Failed(e) => stopped(pre, post, action, failure_text(e@)),
            _ => ended(pre, post, action),
        },
        SyncStage::Syncing(i) => match event {
            Event::Synced(r) => destination_synced(pre, run, i as int, r, post, action),
            _ => ended(pre, post, action),
        },
    }
}

/// One step of the application's work, on `event`: from `pre` to `post`, with `action`
/// as the next piece of outside work. An event that the current step does not wait
/// for ends the work quietly.
pub open spec fn advanced(pre: GitMirrorApp, event: Event, post: GitMirrorApp, action: Action) -> bool {
    &&& same_settings(pre, post)
    &&& match pre.task {
        Task::Idle => ended(pre, post, action),
        Task::RefreshOpening => match event {
            Event::RepoOpened => {
                &&& post.task is RefreshReading
                &&& action is ReadWorktreeChanges
                &&& same_display(pre, post)
            },
            Event::Failed(e) => stopped(pre, post, action, failure_text(e@)),
            _ => ended(pre, post, action),
        },
        Task::RefreshReading => match event {
            Event::WorktreeChanges(files) => {
                &&& post.task is Idle
                &&& action is Done
                &&& post.changed_files == files
                &&& post.status_message == pre.status_message
                &&& post.show_all_files == pre.show_all_files
            },
            Event::Failed(e) => stopped(pre, post, action, git_failure_text(e@)),
            _ => ended(pre, post, action),
        },
        Task::Sync(run) => sync_advanced(pre, run, event, post, action),
    }
}

/// A sync of `kind` was asked for: without a source repository it is refused on the
/// status line; otherwise the source repository is to be opened.
pub open spec fn sync_started(pre: GitMirrorApp, kind: SyncKind, post: GitMirrorApp, action: Action) -> bool {
    &&& same_settings(pre, post)
    &&& match pre.config.source_repo {
        None => stopped(pre, post, action, no_source_text()),
        Some(s) => {
            &&& same_display(pre, post)
            &&& post.task matches Task::Sync(run)
            &&& run.kind == kind
            &&& run.source@ == s@
            &&& run.stage == SyncStage::OpeningRepo
            &&& run.worktree@.len() == 0
            &&& run.head_files@.len() == 0
            &&& run.copied == 0
            &&& run.errors == 0
            &&& action matches Action::OpenRepo { path }
            &&& path@ == s@
        },
    }
}

/// What a request from the window does: the source and the destinations change as asked
/// (a new source also begins a refresh, clearing the source empties the preview, a new
/// destination takes the typed label, which is emptied) and the configuration is to be
/// saved; a sync request begins that sync and saves nothing.
pub open spec fn ui_applied(pre: GitMirrorApp, ui: UiAction, post: GitMirrorApp, f: Followup) -> bool {
    match ui {
        UiAction::SetSource(p) => {
            &&& post.config.source_repo == Some(p)
            &&& post.config.destinations == pre.config.destinations
            &&& post.new_dest_label == pre.new_dest_label
            &&& post.status_message == pre.status_message
            &&& refresh_begun(post.config, post, f.action)
            &&& f.save_config
        },
        UiAction::ClearSource => {
            &&& post.config.source_repo is None
            &&& post.config.destinations == pre.config.destinations
            &&& post.new_dest_label == pre.new_dest_label
            &&& post.status_message == pre.status_message
            &&& post.changed_files@.len() == 0
            &&& post.show_all_files == pre.show_all_files
            &&& post.task == pre.task
            &&& f.action is Done
            &&& f.save_config
        },
        UiAction::AddDest { path } => {
            &&& post.config.source_repo == pre.config.source_repo
            &&& post.config.destinations@ == pre.config.destinations@.push(
                Destination { label: pre.new_dest_label, path },
            )
            &&& post.new_dest_label@.len() == 0
            &&& same_display(pre, post)
            &&& post.task == pre.task
            &&& f.action is Done
            &&& f.save_config
        },
        UiAction::RemoveDest(i) => {
            &&& post.config.source_repo == pre.config.source_repo
            &&& post.config.destinations@ == pre.config.destinations@.remove(i as int)
            &&& post.new_dest_label == pre.new_dest_label
            &&& same_display(pre, post)
            &&& post.task == pre.task
            &&& f.action is Done
            &&& f.save_config
        },
        UiAction::SyncOne(i) => sync_started(pre, SyncKind::One(i), post, f.action) && !f.save_config,
        UiAction::ForceSyncOne(i) => sync_started(pre, SyncKind::ForceOne(i), post, f.action) && !f.save_config,
        UiAction::SyncAll => sync_started(pre, SyncKind::All, post, f.action) && !f.save_config,
        UiAction::ForceSyncAll => sync_started(pre, SyncKind::ForceAll, post, f.action) && !f.save_config,
    }
}

/// The counts of `event` can be added to those of the sync under way without leaving
/// the machine's integers.
pub open spec fn fits(app: GitMirrorApp, event: Event) -> bool {
    match app.task {
        Task::Sync(run) => match event {
            Event::Synced(r) => run.copied + r.files_copied <= usize::MAX && run.errors
                + r.errors@.len() <= usize::MAX,
            _ => true,
        },
        _ => true,
    }
}

/// The source repository is set to a non-empty path.
pub open spec fn has_source_spec(config: Config) -> bool {
    config.source_repo matches Some(s) && s@.len() > 0
}

fn text_of(s: &str) -> (r: String)
    ensures
        r@ == s@,
{
    String::from_str(s)
}

fn append_all(s: &mut String, parts: &str)
    ensures
        final(s)@ == old(s)@ + parts@,
{
    s.append(parts);
}

/// Builds the status line after a sync (see `status_text`).
pub fn status_msg(verb: &str, files: usize, dests: usize, errors: usize) -> (s: String)
    ensures
        s@ == status_text(verb@, files as nat, dests as nat, errors as nat),
{
    let mut s = text_of("✅ ");
    append_all(&mut s, verb);
    append_all(&mut s, " ");
    append_all(&mut s, decimal_string(files).as_str());
    append_all(&mut s, " file(s) to ");
    append_all(&mut s, decimal_string(dests).as_str());
    append_all(&mut s, " destination(s)");
    let ghost head = s@;
    if errors > 0 {
        append_all(&mut s, " (");
        append_all(&mut s, decimal_string(errors).as_str());
        append_all(&mut s, " errors)");
        assert(s@ =~= head + (" ("@ + decimal(errors as nat) + " errors)"@));
    } else {
        assert(s@ =~= head + Seq::<char>::empty());
    }
    s
}

fn failure_message(prefix: &str, message: &str) -> (s: String)
    ensures
        s@ == prefix@ + message@,
{
    let mut s = text_of(prefix);
    append_all(&mut s, message);
    s
}

impl GitMirrorApp {
    /// The application as it starts, with the configuration that loading gave (the
    /// defaults where loading failed), before its first refresh.
    pub fn new(loaded: Result<Config, ConfigError>) -> (app: Self)
        ensures
            loaded matches Ok(c) ==> app.config == c,
            loaded is Err ==> app.config.source_repo is None && app.config.destinations@.len() == 0,
            app.new_dest_label@.len() == 0,
            app.status_message is None,
            app.changed_files@.len() == 0,
            !app.show_all_files,
            app.task is Idle,
    {
        let config = match loaded {
            Ok(c) => c,
            Err(_) => Config::default(),
        };
        GitMirrorApp {
            config,
            new_dest_label: String::new(),
            status_message: None,
            changed_files: Vec::new(),
            show_all_files: false,
            task: Task::Idle,
        }
    }

    /// Whether `event` can be taken by `advance` (see `fits`).
    pub fn can_take(&self, event: &Event) -> (r: bool)
        ensures
            r == fits(*self, *event),
    {
        match &self.task {
            Task::Sync(run) => match event {
                Event::Synced(r) => {
                    run.files_copied_fit(r.files_copied) && run.errors_fit(r.errors.len())
                },
                _ => true,
            },
            _ => true,
        }
    }

    /// Begins a refresh of the worktree changes (see `refresh_begun`); the status line is
    /// left as it was. Whatever work was under way is dropped.
    pub fn refresh_changed_files(&mut self) -> (action: Action)
        ensures
            same_settings(*old(self), *final(self)),
            final(self).status_message == old(self).status_message,
            refresh_begun(old(self).config, *final(self), action),
    {
        self.changed_files = Vec::new();
        self.show_all_files = false;
        match &self.config.source_repo {
            None => {
                self.task = Task::Idle;
                Action::Done
            },
            Some(path) => {
                let path = path.clone();
                self.task = Task::RefreshOpening;
                Action::OpenRepo { path }
            },
        }
    }

    fn start_sync(&mut self, kind: SyncKind) -> (action: Action)
        ensures
            sync_started(*old(self), kind, *final(self), action),
    {
        match &self.config.source_repo {
            None => {
                self.status_message = Some(text_of("❌ No source repository selected"));
                self.task = Task::Idle;
                Action::Done
            },
            Some(path) => {
                let source = path.clone();
                let path = path.clone();
                self.task = Task::Sync(
                    SyncRun {
                        kind,
                        source,
                        stage: SyncStage::OpeningRepo,
                        worktree: Vec::new(),
                        head_files: Vec::new(),
                        copied: 0,
                        errors: 0,
                    },
                );
                Action::OpenRepo { path }
            },
        }
    }

    /// Begins a sync of every destination (see `SyncKind::All` and `sync_started`).
    pub fn run_sync(&mut self) -> (action: Action)
        ensures
            sync_started(*old(self), SyncKind::All, *final(self), action),
    {
        self.start_sync(SyncKind::All)
    }

    /// Begins a forced sync of every destination (see `SyncKind::ForceAll`).
    pub fn run_force_sync(&mut self) -> (action: Action)
        ensures
            sync_started(*old(self), SyncKind::ForceAll, *final(self), action),
    {
        self.start_sync(SyncKind::ForceAll)
    }

    /// Begins a sync of the destination at `idx` (see `SyncKind::One`).
    pub fn run_sync_one(&mut self, idx: usize) -> (action: Action)
        ensures
            sync_started(*old(self), SyncKind::One(idx), *final(self), action),
    {
        self.start_sync(SyncKind::One(idx))
    }

    /// Begins a forced sync of the destination at `idx` (see `SyncKind::ForceOne`).
    pub fn run_force_sync_one(&mut self, idx: usize) -> (action: Action)
        ensures
            sync_started(*old(self), SyncKind::ForceOne(idx), *final(self), action),
    {
        self.start_sync(SyncKind::ForceOne(idx))
    }

    /// Ends a sync of `kind`: the status line tells what it did, then a refresh begins.
    fn finish_sync(&mut self, kind: SyncKind, copied: usize, errors: usize) -> (action: Action)
        ensures
            same_settings(*old(self), *final(self)),
            finished(*old(self), kind, copied as nat, errors as nat, *final(self), action),
    {
        let n = self.config.destinations.len();
        let (verb, count) = match kind {
            SyncKind::All => (text_of("Synced"), n),
            SyncKind::ForceAll => (text_of("Force synced"), n),
            SyncKind::One(i) => (self.labelled_verb("Synced [", i), 1),
            SyncKind::ForceOne(i) => (self.labelled_verb("Force synced [", i), 1),
        };
        self.status_message = Some(status_msg(verb.as_str(), copied, count, errors));
        self.refresh_changed_files()
    }

    fn labelled_verb(&self, head: &str, i: usize) -> (s: String)
        ensures
            s@ == head@ + label_at(self.config.destinations@, i as int) + "]"@,
    {
        let mut s = text_of(head);
        if i < self.config.destinations.len() {
            append_all(&mut s, self.config.destinations[i].label.as_str());
        } else {
            assert(s@ =~= head@ + label_at(self.config.destinations@, i as int));
        }
        append_all(&mut s, "]");
        s
    }

    /// Goes on with the sync as `run` by mirroring `files` into the destination at `i`.
    fn sync_destination(&mut self, run: SyncRun, i: usize, files: &Vec<ChangedFile>) -> (action: Action)
        requires
            old(self).task is Idle,
        ensures
            same_settings(*old(self), *final(self)),
            syncs_destination(*old(self), run, i as int, files@, *final(self), action),
    {
        if i < self.config.destinations.len() {
            let source_root = run.source.clone();
            let destination = copy_destination(&self.config.destinations[i]);
            let files = copy_files(files);
            self.task = Task::Sync(run);
            Action::SyncFiles { source_root, destination, files }
        } else {
            Action::Done
        }
    }

    /// Goes on with the sync as `run` by asking whether the destination at `i` is empty.
    fn check_destination(&mut self, run: SyncRun, i: usize) -> (action: Action)
        requires
            old(self).task is Idle,
            i < old(self).config.destinations@.len(),
        ensures
            same_settings(*old(self), *final(self)),
            checks_destination(*old(self), run, i as int, *final(self), action),
    {
        let path = self.config.destinations[i].path.clone();
        self.task = Task::Sync(run);
        Action::CheckDestinationEmpty { path }
    }

    fn advance_sync(&mut self, run: SyncRun, event: Event) -> (action: Action)
        requires
            old(self).task is Idle,
            event matches Event::Synced(r) ==> run.copied + r.files_copied <= usize::MAX
                && run.errors + r.errors@.len() <= usize::MAX,
        ensures
            same_settings(*old(self), *final(self)),
            sync_advanced(*old(self), run, event, *final(self), action),
    {
        let n = self.config.destinations.len();
        match run.stage {
            SyncStage::OpeningRepo => match event {
                Event::RepoOpened => {
                    self.task = Task::Sync(SyncRun { stage: SyncStage::ReadingWorktree, ..run });
                    Action::ReadWorktreeChanges
                },
                Event::Failed(e) => {
                    self.status_message = Some(failure_message("❌ ", e.as_str()));
                    Action::Done
                },
                _ => Action::Done,
            },
            SyncStage::ReadingWorktree => match event {
                Event::WorktreeChanges(w) => {
                    let run = SyncRun { worktree: w, ..run };
                    match run.kind {
                        SyncKind::All => if n > 0 {
                            self.check_destination(
                                SyncRun { stage: SyncStage::CheckingDestination(0), ..run },
                                0,
                            )
                        } else {
                            self.finish_sync(run.kind, run.copied, run.errors)
                        },
                        SyncKind::ForceAll => {
                            self.task = Task::Sync(SyncRun { stage: SyncStage::ListingTracked(0), ..run });
                            Action::ListTrackedFiles
                        },
                        SyncKind::One(k) => if k < n {
                            self.check_destination(
                                SyncRun { stage: SyncStage::CheckingDestination(k), ..run },
                                k,
                            )
                        } else {
                            Action::Done
                        },
                        SyncKind::ForceOne(k) => if k < n {
                            self.task = Task::Sync(SyncRun { stage: SyncStage::ListingTracked(k), ..run });
                            Action::ListTrackedFiles
                        } else {
                            Action::Done
                        },
                    }
                },
                Event::Failed(e) => {
                    self.status_message = Some(failure_message("❌ ", e.as_str()));
                    Action::Done
                },
                _ => Action::Done,
            },
            SyncStage::CheckingDestination(i) => match event {
                Event::DestinationEmpty(empty) => if empty {
                    self.task = Task::Sync(SyncRun { stage: SyncStage::ListingTracked(i), ..run });
                    Action::ListTrackedFiles
                } else {
                    let worktree = copy_files(&run.worktree);
                    self.sync_destination(SyncRun { stage: SyncStage::Syncing(i), ..run }, i, &worktree)
                },
                _ => Action::Done,
            },
            SyncStage::ListingTracked(i) => match event {
                Event::TrackedFiles(t) => if i < n {
                    let files = copy_files(&t);
                    self.sync_destination(
                        SyncRun { stage: SyncStage::Syncing(i), head_files: t, ..run },
                        i,
                        &files,
                    )
                } else if run.kind == SyncKind::ForceAll {
                    self.finish_sync(run.kind, run.copied, run.errors)
                } else {
                    Action::Done
                },
                Event::Failed(e) => {
                    self.status_message = Some(failure_message("❌ ", e.as_str()));
                    Action::Done
                },
                _ => Action::Done,
            },
            SyncStage::Syncing(i) => match event {
                Event::Synced(r) => {
                    let copied = run.copied + r.files_copied;
                    let errors = run.errors + r.errors.len();
                    let next = SyncRun { copied, errors, ..run };
                    match next.kind {
                        SyncKind::All => if n > 0 && i < n - 1 {
                            self.check_destination(
                                SyncRun { stage: SyncStage::CheckingDestination(i + 1), ..next },
                                i + 1,
                            )
                        } else {
                            self.finish_sync(next.kind, copied, errors)
                        },
                        SyncKind::ForceAll => if n > 0 && i < n - 1 {
                            let head_files = copy_files(&next.head_files);
                            self.sync_destination(
                                SyncRun { stage: SyncStage::Syncing(i + 1), ..next },
                                i + 1,
                                &head_files,
                            )
                        } else {
                            self.finish_sync(next.kind, copied, errors)
                        },
                        _ => self.finish_sync(next.kind, copied, errors),
                    }
                },
                _ => Action::Done,
            },
        }
    }

    /// Takes what the last piece of outside work found and decides the next (see
    /// `advanced`).
    pub fn advance(&mut self, event: Event) -> (action: Action)
        requires
            fits(*old(self), event),
        ensures
            advanced(*old(self), event, *final(self), action),
    {
        let mut task = Task::Idle;
        std::mem::swap(&mut task, &mut self.task);
        match task {
            Task::Idle => Action::Done,
            Task::RefreshOpening => match event {
                Event::RepoOpened => {
                    self.task = Task::RefreshReading;
                    Action::ReadWorktreeChanges
                },
                Event::Failed(e) => {
                    self.status_message = Some(failure_message("❌ ", e.as_str()));
                    Action::Done
                },
                _ => Action::Done,
            },
            Task::RefreshReading => match event {
                Event::WorktreeChanges(files) => {
                    self.changed_files = files;
                    Action::Done
                },
                Event::Failed(e) => {
                    self.status_message = Some(failure_message("❌ Git error: ", e.as_str()));
                    Action::Done
                },
                _ => Action::Done,
            },
            Task::Sync(run) => self.advance_sync(run, event),
        }
    }
    /// Carries out a request from the window (see `ui_applied`). Removing a destination
    /// needs its index to be in range, as `Vec::remove` does.
    pub fn apply_ui_action(&mut self, ui: UiAction) -> (f: Followup)
        requires
            ui matches UiAction::RemoveDest(i) ==> i < old(self).config.destinations@.len(),
        ensures
            ui_applied(*old(self), ui, *final(self), f),
    {
        match ui {
            UiAction::SetSource(p) => {
                self.config.source_repo = Some(p);
                let action = self.refresh_changed_files();
                Followup { action, save_config: true }
            },
            UiAction::ClearSource => {
                self.config.source_repo = None;
                self.changed_files = Vec::new();
                Followup { action: Action::Done, save_config: true }
            },
            UiAction::AddDest { path } => {
                let mut label = String::new();
                std::mem::swap(&mut label, &mut self.new_dest_label);
                self.config.destinations.push(Destination { label, path });
                Followup { action: Action::Done, save_config: true }
            },
            UiAction::RemoveDest(i) => {
                self.config.destinations.remove(i);
                Followup { action: Action::Done, save_config: true }
            },
            UiAction::SyncOne(i) => Followup { action: self.run_sync_one(i), save_config: false },
            UiAction::ForceSyncOne(i) => Followup {
                action: self.run_force_sync_one(i),
                save_config: false,
            },
            UiAction::SyncAll => Followup { action: self.run_sync(), save_config: false },
            UiAction::ForceSyncAll => Followup { action: self.run_force_sync(), save_config: false },
        }
    }

    /// Whether a folder may be picked for a new destination: a label has been typed.
    pub fn can_pick_destination(&self) -> (r: bool)
        ensures
            r == (self.new_dest_label@.len() > 0),
    {
        self.new_dest_label.as_str().unicode_len() > 0
    }

    /// Whether a non-empty source repository path is set.
    pub fn has_source(&self) -> (r: bool)
        ensures
            r == has_source_spec(self.config),
    {
        match &self.config.source_repo {
            Some(s) => s.as_str().unicode_len() > 0,
            None => false,
        }
    }

    /// Whether the sync buttons are enabled: a source is set and there is a destination.
    pub fn can_act(&self) -> (r: bool)
        ensures
            r == (has_source_spec(self.config) && self.config.destinations@.len() > 0),
    {
        self.has_source() && self.config.destinations.len() > 0
    }

    /// How many changed files the preview lists: all of them once "Show all" was pressed,
    /// else at most `MAX_FILES_SHOWN`.
    pub fn shown_file_count(&self) -> (n: usize)
        ensures
            n == if self.show_all_files || self.changed_files@.len() <= MAX_FILES_SHOWN {
                self.changed_files@.len() as int
            } else {
                MAX_FILES_SHOWN as int
            },
    {
        let total = self.changed_files.len();
        if self.show_all_files {
            total
        } else if total < MAX_FILES_SHOWN {
            total
        } else {
            MAX_FILES_SHOWN
        }
    }

    /// The note under a folded preview that does not list every file: how many more
    /// there are.
    pub fn more_files_note(&self) -> (r: Option<String>)
        ensures
            self.changed_files@.len() > MAX_FILES_SHOWN && !self.show_all_files ==> (r matches Some(s)
                && s@ == "...and "@ + decimal((self.changed_files@.len() - MAX_FILES_SHOWN) as nat)
                + " more files"@),
            !(self.changed_files@.len() > MAX_FILES_SHOWN && !self.show_all_files) ==> r is None,
    {
        let total = self.changed_files.len();
        if total > MAX_FILES_SHOWN && !self.show_all_files {
            let mut s = text_of("...and ");
            append_all(&mut s, decimal_string(total - MAX_FILES_SHOWN).as_str());
            append_all(&mut s, " more files");
            Some(s)
        } else {
            None
        }
    }

    /// What the source field shows: the source repository's path, or a hint.
    pub fn source_display(&self) -> (s: String)
        ensures
            s@ == match self.config.source_repo {
                Some(p) => p@,
                None => "No folder selected…"@,
            },
    {
        match &self.config.source_repo {
            Some(p) => p.clone(),
            None => text_of("No folder selected…"),
        }
    }
}

/// The icon of a file's status in the preview.
pub fn status_icon(status: FileStatus) -> (s: &'static str)
    ensures
        s@ == icon_of(status),
{
    match status {
        FileStatus::Added => "+",
        FileStatus::Deleted => "-",
        FileStatus::Modified => "~",
    }
}

/// A line of the preview: the status icon, a space, and the relative path.
pub fn file_line(file: &ChangedFile) -> (s: String)
    ensures
        s@ == icon_of(file.status) + " "@ + file.relative_path@,
{
    let mut s = text_of(status_icon(file.status));
    append_all(&mut s, " ");
    append_all(&mut s, file.relative_path.as_str());
    s
}

/// A line of the destination list: a folder icon, the label and the path.
pub fn destination_line(dest: &Destination) -> (s: String)
    ensures
        s@ == "📁 "@ + dest.label@ + "  —  "@ + dest.path@,
{
    let mut s = text_of("📁 ");
    append_all(&mut s, dest.label.as_str());
    append_all(&mut s, "  —  ");
    append_all(&mut s, dest.path.as_str());
    s
}

impl SyncRun {
    fn files_copied_fit(&self, more: usize) -> (r: bool)
        ensures
            r == (self.copied + more <= usize::MAX),
    {
        more <= usize::MAX - self.copied
    }

    fn errors_fit(&self, more: usize) -> (r: bool)
        ensures
            r == (self.errors + more <= usize::MAX),
    {
        more <= usize::MAX - self.errors
    }
}

// ── Laws of a sync ──────────────────────────────────────────────────────────────

/// The index of the destination that a stage is about, where it is about one.
pub open spec fn stage_index(stage: SyncStage) -> Option<usize> {
    match stage {
        SyncStage::CheckingDestination(i) => Some(i),
        SyncStage::ListingTracked(i) => Some(i),
        SyncStage::Syncing(i) => Some(i),
        _ => None,
    }
}

/// A sync of one destination is, at every stage, about that destination.
pub open spec fn about_its_destination(run: SyncRun) -> bool {
    match run.kind {
        SyncKind::One(k) | SyncKind::ForceOne(k) => match stage_index(run.stage) {
            Some(j) => j == k,
            None => true,
        },
        _ => true,
    }
}

/// A destination found empty receives every tracked file: once it is found empty the
/// tracked files are listed, and then exactly the listed files are mirrored into it.
pub proof fn law_empty_destination_gets_every_tracked_file(
    s0: GitMirrorApp,
    run: SyncRun,
    i: usize,
    s1: GitMirrorApp,
    a1: Action,
    listed: Vec<ChangedFile>,
    s2: GitMirrorApp,
    a2: Action,
)
    requires
        s0.task == Task::Sync(run),
        run.stage == SyncStage::CheckingDestination(i),
        i < s0.config.destinations@.len(),
        advanced(s0, Event::DestinationEmpty(true), s1, a1),
        advanced(s1, Event::TrackedFiles(listed), s2, a2),
    ensures
        a1 is ListTrackedFiles,
        a2 matches Action::SyncFiles { source_root, destination, files } && source_root@ == run.source@
            && destination == s0.config.destinations@[i as int] && files@ == listed@,
{
}

/// A destination found not empty receives only the worktree changes that the sync read.
pub proof fn law_nonempty_destination_gets_worktree_changes(
    s0: GitMirrorApp,
    run: SyncRun,
    i: usize,
    s1: GitMirrorApp,
    a1: Action,
)
    requires
        s0.task == Task::Sync(run),
        run.stage == SyncStage::CheckingDestination(i),
        i < s0.config.destinations@.len(),
        advanced(s0, Event::DestinationEmpty(false), s1, a1),
    ensures
        a1 matches Action::SyncFiles { source_root, destination, files } && source_root@ == run.source@
            && destination == s0.config.destinations@[i as int] && files@ == run.worktree@,
{
}

/// The worktree changes that a sync mirrors are those it read: reading them keeps them,
/// and every later step of the sync keeps them, with the sync's kind and source.
pub proof fn law_sync_keeps_what_it_read(s0: GitMirrorApp, run: SyncRun, event: Event, s1: GitMirrorApp, a1: Action)
    requires
        s0.task == Task::Sync(run),
        advanced(s0, event, s1, a1),
    ensures
        s1.task matches Task::Sync(next) ==> {
            &&& next.kind == run.kind
            &&& next.source == run.source
            &&& (run.stage == SyncStage::ReadingWorktree ==> (event matches Event::WorktreeChanges(w)
                && next.worktree == w))
            &&& (run.stage != SyncStage::ReadingWorktree ==> next.worktree == run.worktree)
        },
{
}

/// A forced sync mirrors every tracked file into the destination they were listed for,
/// and keeps them.
pub proof fn law_force_sync_sends_listed_files(
    s0: GitMirrorApp,
    run: SyncRun,
    i: usize,
    listed: Vec<ChangedFile>,
    s1: GitMirrorApp,
    a1: Action,
)
    requires
        s0.task == Task::Sync(run),
        run.kind == SyncKind::ForceAll || run.kind is ForceOne,
        run.stage == SyncStage::ListingTracked(i),
        i < s0.config.destinations@.len(),
        advanced(s0, Event::TrackedFiles(listed), s1, a1),
    ensures
        a1 matches Action::SyncFiles { destination, files, .. } && destination
            == s0.config.destinations@[i as int] && files@ == listed@,
        s1.task matches Task::Sync(next) && next.head_files == listed,
{
}

/// In a forced sync of every destination, each next destination receives the same
/// listed files as the one before.
pub proof fn law_force_sync_all_sends_same_files_to_each(
    s0: GitMirrorApp,
    run: SyncRun,
    i: usize,
    r: SyncResult,
    s1: GitMirrorApp,
    a1: Action,
)
    requires
        s0.task == Task::Sync(run),
        run.kind == SyncKind::ForceAll,
        run.stage == SyncStage::Syncing(i),
        i + 1 < s0.config.destinations@.len(),
        advanced(s0, Event::Synced(r), s1, a1),
    ensures
        a1 matches Action::SyncFiles { destination, files, .. } && destination
            == s0.config.destinations@[i + 1] && files@ == run.head_files@,
        s1.task matches Task::Sync(next) && next.head_files == run.head_files,
{
}

/// A sync of one destination mirrors files into that destination only: every step
/// of it that mirrors files does so into that destination, and it stays about it.
pub proof fn law_single_destination_sync_touches_only_it(
    s0: GitMirrorApp,
    run: SyncRun,
    k: usize,
    event: Event,
    s1: GitMirrorApp,
    a1: Action,
)
    requires
        s0.task == Task::Sync(run),
        run.kind == SyncKind::One(k) || run.kind == SyncKind::ForceOne(k),
        about_its_destination(run),
        advanced(s0, event, s1, a1),
    ensures
        a1 matches Action::SyncFiles { destination, .. } ==> destination
            == s0.config.destinations@[k as int],
        s1.task matches Task::Sync(next) ==> about_its_destination(next),
{
}

/// A sync of one destination begins about that destination.
pub proof fn law_single_destination_sync_starts_about_it(s0: GitMirrorApp, k: usize, force: bool, s1: GitMirrorApp, a1: Action)
    requires
        sync_started(s0, if force { SyncKind::ForceOne(k) } else { SyncKind::One(k) }, s1, a1),
    ensures
        s1.task matches Task::Sync(run) ==> about_its_destination(run),
{
}

/// The totals of a sync grow by what each destination's result reports, and the status
/// line at the end tells those totals.
pub proof fn law_sync_totals_add_up(s0: GitMirrorApp, run: SyncRun, i: usize, r: SyncResult, s1: GitMirrorApp, a1: Action)
    requires
        s0.task == Task::Sync(run),
        run.stage == SyncStage::Syncing(i),
        fits(s0, Event::Synced(r)),
        advanced(s0, Event::Synced(r), s1, a1),
    ensures
        s1.task matches Task::Sync(next) ==> (next.copied == run.copied + r.files_copied
            && next.errors == run.errors + r.errors@.len()),
        !(s1.task is Sync) ==> (s1.status_message matches Some(m) && m@ == status_text(
            verb_of(run.kind, s0.config.destinations@),
            (run.copied + r.files_copied) as nat,
            destination_count(run.kind, s0.config.destinations@),
            (run.errors + r.errors@.len()) as nat,
        )),
{
}

/// A failure ends a sync: nothing more is done, not even the refresh, and a failure of
/// opening the repository, reading its changes or listing its files is told on the
/// status line.
pub proof fn law_failure_ends_sync(s0: GitMirrorApp, run: SyncRun, e: String, s1: GitMirrorApp, a1: Action)
    requires
        s0.task == Task::Sync(run),
        advanced(s0, Event::Failed(e), s1, a1),
    ensures
        s1.task is Idle,
        a1 is Done,
        s1.changed_files == s0.changed_files,
        run.stage == SyncStage::OpeningRepo || run.stage == SyncStage::ReadingWorktree
            || run.stage is ListingTracked ==> (s1.status_message matches Some(m) && m@
            == failure_text(e@)),
{
}

/// Neither a refresh nor a sync changes the configuration or the label being typed.
pub proof fn law_work_keeps_settings(s0: GitMirrorApp, event: Event, s1: GitMirrorApp, a1: Action)
    requires
        advanced(s0, event, s1, a1),
    ensures
        s1.config == s0.config,
        s1.new_dest_label == s0.new_dest_label,
{
}

/// A sync of every destination asks about the first destination as soon as the worktree
/// changes are read.
pub proof fn law_sync_all_asks_first_destination(s0: GitMirrorApp, run: SyncRun, w: Vec<ChangedFile>, s1: GitMirrorApp, a1: Action)
    requires
        s0.task == Task::Sync(run),
        run.kind == SyncKind::All,
        run.stage == SyncStage::ReadingWorktree,
        s0.config.destinations@.len() > 0,
        advanced(s0, Event::WorktreeChanges(w), s1, a1),
    ensures
        a1 matches Action::CheckDestinationEmpty { path } && path@ == s0.config.destinations@[0].path@,
        s1.task matches Task::Sync(next) && next.stage == SyncStage::CheckingDestination(0),
{
}

/// A sync of every destination asks about each next destination, whatever the earlier
/// ones held: once the destination at `i` is synced and another follows, the next step
/// asks whether that one is empty.
pub proof fn law_sync_all_asks_each_next_destination(s0: GitMirrorApp, run: SyncRun, i: usize, r: SyncResult, s1: GitMirrorApp, a1: Action)
    requires
        s0.task == Task::Sync(run),
        run.kind == SyncKind::All,
        run.stage == SyncStage::Syncing(i),
        i + 1 < s0.config.destinations@.len(),
        fits(s0, Event::Synced(r)),
        advanced(s0, Event::Synced(r), s1, a1),
    ensures
        a1 matches Action::CheckDestinationEmpty { path } && path@ == s0.config.destinations@[i + 1].path@,
        s1.task matches Task::Sync(next) && next.stage == SyncStage::CheckingDestination((i + 1) as usize),
{
}

/// In a sync that is not forced, files are mirrored into a destination only on the answer
/// about it: right after it was found not empty (the worktree changes), or right after
/// the tracked files were listed for it once it was found empty.
pub proof fn law_unforced_sync_sends_files_only_after_asking(s0: GitMirrorApp, run: SyncRun, event: Event, s1: GitMirrorApp, a1: Action)
    requires
        s0.task == Task::Sync(run),
        run.kind is All || run.kind is One,
        advanced(s0, event, s1, a1),
    ensures
        a1 is SyncFiles ==> (run.stage is CheckingDestination && event == Event::DestinationEmpty(false))
            || (run.stage is ListingTracked && event is TrackedFiles),
{
}

/// A refresh shows exactly the worktree changes that git reported, and a failure to read
/// them is told on the status line with what git said.
pub proof fn law_refresh_shows_what_git_reported(s0: GitMirrorApp, event: Event, s1: GitMirrorApp, a1: Action)
    requires
        s0.task is RefreshReading,
        advanced(s0, event, s1, a1),
    ensures
        event matches Event::WorktreeChanges(files) ==> s1.changed_files == files && s1.status_message
            == s0.status_message,
        event matches Event::Failed(e) ==> (s1.status_message matches Some(m) && m@ == "❌ Git error: "@
            + e@),
        s1.task is Idle,
        a1 is Done,
{
}

} // verus!
