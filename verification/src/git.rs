//! Changed and tracked files of a git repository, from what git reports.
//!
//! Reading the repository is done outside the library; these functions decide, from the
//! status flags and tree entries that git hands out, which files count as changed and
//! under which relative paths they are mirrored.
use vstd::prelude::*;

verus! {

/// How a file differs from HEAD.
#[derive(Clone, Copy, Debug, PartialEq, Eq, Structural)]
pub enum FileStatus {
    Added,
    Modified,
    Deleted,
}

/// A single changed file.
#[derive(Clone, Debug)]
pub struct ChangedFile {
    /// Relative path from the repository root, e.g. "src/main.rs".
    pub relative_path: String,
    pub status: FileStatus,
}

/// What a changed file is about: its relative path and its status.
pub struct FileChange {
    pub path: Seq<char>,
    pub status: FileStatus,
}

impl View for ChangedFile {
    type V = FileChange;

    open spec fn view(&self) -> FileChange {
        FileChange { path: self.relative_path@, status: self.status }
    }
}

/// The changes a list of changed files describes, in order.
pub open spec fn changes_of(files: Seq<ChangedFile>) -> Seq<FileChange> {
    files.map_values(|f: ChangedFile| f@)
}

/// One entry of git's status report: the entry's status flags (the bits of
/// `git2::Status`) and its path, where git could give one.
pub struct StatusEntry {
    pub flags: u32,
    pub path: Option<String>,
}

/// One entry met while walking the tree of HEAD in pre-order: the path of its parent
/// directory (empty at the root, else ending in `/`), its name where it has one, and
/// whether it is a blob (a file).
pub struct TreeEntry {
    pub root: String,
    pub name: Option<String>,
    pub is_blob: bool,
}

/// The flags that mark a file as added: `INDEX_NEW | WT_NEW`.
pub open spec fn added_flags() -> u32 {
    0x81
}

/// The flags that mark a file as deleted: `INDEX_DELETED | WT_DELETED`.
pub open spec fn deleted_flags() -> u32 {
    0x204
}

/// The flags that mark a file as modified: `INDEX_MODIFIED | WT_MODIFIED |
/// INDEX_RENAMED | WT_RENAMED | INDEX_TYPECHANGE | WT_TYPECHANGE`, every other way in
/// which a file can differ from HEAD, staged or not.
pub open spec fn modified_flags() -> u32 {
    0xd1a
}

/// The status that a set of status flags gives a file, staged and unstaged changes
/// alike: deleted before added before modified; none when the flags mark no change.
pub open spec fn status_of_flags(flags: u32) -> Option<FileStatus> {
    if flags & deleted_flags() != 0 {
        Some(FileStatus::Deleted)
    } else if flags & added_flags() != 0 {
        Some(FileStatus::Added)
    } else if flags & modified_flags() != 0 {
        Some(FileStatus::Modified)
    } else {
        None
    }
}

/// The text of an optional string, empty where there is none.
pub open spec fn text_or_empty(s: Option<String>) -> Seq<char> {
    match s {
        Some(t) => t@,
        None => Seq::empty(),
    }
}

/// The change an entry of git's status report stands for: its path (empty where git
/// gave none) with the status of its flags; none for an entry without change.
pub open spec fn change_of_entry(entry: StatusEntry) -> Option<FileChange> {
    match status_of_flags(entry.flags) {
        Some(status) => Some(FileChange { path: text_or_empty(entry.path), status }),
        None => None,
    }
}

/// The changes that git's status report holds, in the report's order.
pub open spec fn worktree_changes_of(entries: Seq<StatusEntry>) -> Seq<FileChange>
    decreases entries.len(),
{
    if entries.len() == 0 {
        Seq::empty()
    } else {
        let last = entries.last();
        let before = worktree_changes_of(entries.drop_last());
        match change_of_entry(last) {
            Some(c) => before.push(c),
            None => before,
        }
    }
}

/// The file a tree entry stands for: a blob gives an added file at its parent's path
/// followed by its name (empty where it has none); other entries give none.
pub open spec fn file_of_tree_entry(entry: TreeEntry) -> Option<FileChange> {
    if entry.is_blob {
        Some(FileChange { path: entry.root@ + text_or_empty(entry.name), status: FileStatus::Added })
    } else {
        None
    }
}

/// The files that a walk of the tree of HEAD meets, in walk order.
pub open spec fn tracked_files_of(entries: Seq<TreeEntry>) -> Seq<FileChange>
    decreases entries.len(),
{
    if entries.len() == 0 {
        Seq::empty()
    } else {
        let last = entries.last();
        let before = tracked_files_of(entries.drop_last());
        match file_of_tree_entry(last) {
            Some(c) => before.push(c),
            None => before,
        }
    }
}

/// Every file listed from the tree of HEAD is an added file, so a full copy only ever
/// copies.
pub proof fn lemma_tracked_files_are_added(entries: Seq<TreeEntry>)
    ensures
        forall|i: int|
            0 <= i < tracked_files_of(entries).len() ==> (#[trigger] tracked_files_of(entries)[i]).status
                == FileStatus::Added,
    decreases entries.len(),
{
    if entries.len() > 0 {
        lemma_tracked_files_are_added(entries.drop_last());
    }
}

/// git2's `Status::intersects`, on the bits of two sets of status flags: whether they
/// share a flag. Its source computes `self & other != 0`, which is what this states.
#[verifier::external_body]
fn flags_intersect(flags: u32, mask: u32) -> (r: bool)
    ensures
        r == (flags & mask != 0),
{
    git2::Status::from_bits_retain(flags).intersects(git2::Status::from_bits_retain(mask))
}

/// The bits of git2's `Status::INDEX_NEW | Status::WT_NEW`: `1 << 0` and `1 << 7` in
/// libgit2's `git_status_t`.
#[verifier::external_body]
fn added_status_flags() -> (m: u32)
    ensures
        m == added_flags(),
{
    (git2::Status::INDEX_NEW | git2::Status::WT_NEW).bits()
}

/// The bits of git2's `Status::INDEX_DELETED | Status::WT_DELETED`: `1 << 2` and
/// `1 << 9` in libgit2's `git_status_t`.
#[verifier::external_body]
fn deleted_status_flags() -> (m: u32)
    ensures
        m == deleted_flags(),
{
    (git2::Status::INDEX_DELETED | git2::Status::WT_DELETED).bits()
}

/// The bits of git2's `Status::INDEX_MODIFIED | WT_MODIFIED | INDEX_RENAMED |
/// WT_RENAMED | INDEX_TYPECHANGE | WT_TYPECHANGE`: `1 << 1`, `1 << 8`, `1 << 3`,
/// `1 << 11`, `1 << 4` and `1 << 10` in libgit2's `git_status_t`.
#[verifier::external_body]
fn modified_status_flags() -> (m: u32)
    ensures
        m == modified_flags(),
{
    (git2::Status::INDEX_MODIFIED | git2::Status::WT_MODIFIED | git2::Status::INDEX_RENAMED
        | git2::Status::WT_RENAMED | git2::Status::INDEX_TYPECHANGE
        | git2::Status::WT_TYPECHANGE).bits()
}

/// Classifies a file by its status flags (see `status_of_flags`).
pub fn status_from_flags(flags: u32) -> (r: Option<FileStatus>)
    ensures
        r == status_of_flags(flags),
{
    let is_added = flags_intersect(flags, added_status_flags());
    let is_deleted = flags_intersect(flags, deleted_status_flags());
    let is_modified = flags_intersect(flags, modified_status_flags());
    if !is_added && !is_deleted && !is_modified {
        return None;
    }
    if is_deleted {
        Some(FileStatus::Deleted)
    } else if is_added {
        Some(FileStatus::Added)
    } else {
        Some(FileStatus::Modified)
    }
}

/// A copy of a list of changed files.
pub fn copy_files(files: &Vec<ChangedFile>) -> (r: Vec<ChangedFile>)
    ensures
        r@ == files@,
{
    let mut r: Vec<ChangedFile> = Vec::new();
    let n = files.len();
    for i in 0..n
        invariant
            n == files@.len(),
            r@ == files@.take(i as int),
    {
        let f = &files[i];
        r.push(ChangedFile { relative_path: f.relative_path.clone(), status: f.status });
        assert(r@ =~= files@.take(i + 1));
    }
    assert(files@.take(n as int) =~= files@);
    r
}

fn copy_path(path: &Option<String>) -> (r: String)
    ensures
        r@ == text_or_empty(*path),
{
    match path {
        Some(p) => p.clone(),
        None => String::new(),
    }
}

/// The changed files in git's status report of the working tree (staged or unstaged
/// against HEAD), in the report's order; entries without change are left out.
pub fn get_worktree_changes(statuses: &[StatusEntry]) -> (files: Vec<ChangedFile>)
    ensures
        changes_of(files@) == worktree_changes_of(statuses@),
{
    let mut files: Vec<ChangedFile> = Vec::new();
    let n = statuses.len();
    for i in 0..n
        invariant
            n == statuses@.len(),
            changes_of(files@) == worktree_changes_of(statuses@.take(i as int)),
    {
        let entry = &statuses[i];
        assert(statuses@.take(i + 1).drop_last() =~= statuses@.take(i as int));
        match status_from_flags(entry.flags) {
            Some(status) => {
                let path = copy_path(&entry.path);
                files.push(ChangedFile { relative_path: path, status });
                assert(changes_of(files@) =~= worktree_changes_of(statuses@.take(i as int)).push(
                    files@.last()@,
                ));
            },
            None => {},
        }
    }
    assert(statuses@.take(n as int) =~= statuses@);
    files
}

/// Every file tracked in HEAD, as an added file, from the entries of a pre-order walk of
/// its tree: the blobs, in walk order, each under its parent's path followed by its name.
pub fn get_all_tracked_files(entries: &[TreeEntry]) -> (files: Vec<ChangedFile>)
    ensures
        changes_of(files@) == tracked_files_of(entries@),
{
    let mut files: Vec<ChangedFile> = Vec::new();
    let n = entries.len();
    for i in 0..n
        invariant
            n == entries@.len(),
            changes_of(files@) == tracked_files_of(entries@.take(i as int)),
    {
        let entry = &entries[i];
        assert(entries@.take(i + 1).drop_last() =~= entries@.take(i as int));
        if entry.is_blob {
            let name = copy_path(&entry.name);
            let path = if entry.root.unicode_len() == 0 {
                assert(entry.root@ + name@ =~= name@);
                name
            } else {
                let mut p = entry.root.clone();
                p.append(name.as_str());
                p
            };
            files.push(ChangedFile { relative_path: path, status: FileStatus::Added });
            assert(changes_of(files@) =~= tracked_files_of(entries@.take(i as int)).push(
                files@.last()@,
            ));
        }
    }
    assert(entries@.take(n as int) =~= entries@);
    files
}

/// Whether a character has Unicode's White_Space property (PropList.txt): U+0009 to
/// U+000D, U+0020, U+0085, U+00A0, U+1680, U+2000 to U+200A, U+2028, U+2029, U+202F,
/// U+205F and U+3000.
pub open spec fn is_white_space(c: char) -> bool {
    let v = c as u32;
    ||| 0x9 <= v <= 0xd
    ||| v == 0x20
    ||| v == 0x85
    ||| v == 0xa0
    ||| v == 0x1680
    ||| 0x2000 <= v <= 0x200a
    ||| v == 0x2028
    ||| v == 0x2029
    ||| v == 0x202f
    ||| v == 0x205f
    ||| v == 0x3000
}

/// `char::is_whitespace`, which its documentation defines as having the White_Space
/// property; this states that property's code points (see `is_white_space`).
#[verifier::external_body]
fn char_is_whitespace(c: char) -> (r: bool)
    ensures
        r == is_white_space(c),
{
    c.is_whitespace()
}

/// Text that `str::trim` leaves empty: every character is white space.
pub open spec fn is_blank(s: Seq<char>) -> bool {
    forall|i: int| 0 <= i < s.len() ==> is_white_space(#[trigger] s[i])
}

/// Whether `path` is empty once trimmed (see `is_blank`).
pub fn is_blank_path(path: &str) -> (r: bool)
    ensures
        r == is_blank(path@),
{
    let n = path.unicode_len();
    for i in 0..n
        invariant
            n == path@.len(),
            forall|j: int| 0 <= j < i ==> is_white_space(#[trigger] path@[j]),
    {
        if !char_is_whitespace(path.get_char(i)) {
            return false;
        }
    }
    true
}

/// Why a path does not name a usable repository.
pub enum RepoError {
    /// The path is empty or white space only.
    EmptyPath,
    /// Nothing exists at the path.
    Missing(String),
    /// What exists at the path is not a git repository.
    NotARepository(String),
}

/// The message of a repository error.
pub open spec fn repo_error_text(e: RepoError) -> Seq<char> {
    match e {
        RepoError::EmptyPath => "Repository path cannot be empty"@,
        RepoError::Missing(p) => "Path does not exist: "@ + p@,
        RepoError::NotARepository(p) => "'"@ + p@ + "' is not a valid git repository"@,
    }
}

impl RepoError {
    /// The message of this error (see `repo_error_text`).
    pub fn message(&self) -> (s: String)
        ensures
            s@ == repo_error_text(*self),
    {
        match self {
            RepoError::EmptyPath => String::from_str("Repository path cannot be empty"),
            RepoError::Missing(p) => {
                let mut s = String::from_str("Path does not exist: ");
                s.append(p.as_str());
                s
            },
            RepoError::NotARepository(p) => {
                let mut s = String::from_str("'");
                s.append(p.as_str());
                s.append("' is not a valid git repository");
                s
            },
        }
    }
}

/// Checks that `path` names a readable git repository, given whether something exists
/// there (`exists`) and whether git could open it as a repository (`is_repository`). The
/// checks go in this order: a blank path, then a missing one, then one that is not a
/// repository.
pub fn validate_repo(path: &str, exists: bool, is_repository: bool) -> (r: Result<(), RepoError>)
    ensures
        is_blank(path@) ==> r matches Err(RepoError::EmptyPath),
        !is_blank(path@) && !exists ==> (r matches Err(RepoError::Missing(p)) && p@ == path@),
        !is_blank(path@) && exists && !is_repository ==> (r matches Err(RepoError::NotARepository(p))
            && p@ == path@),
        !is_blank(path@) && exists && is_repository ==> r is Ok,
{
    if is_blank_path(path) {
        return Err(RepoError::EmptyPath);
    }
    if !exists {
        return Err(RepoError::Missing(String::from_str(path)));
    }
    if !is_repository {
        return Err(RepoError::NotARepository(String::from_str(path)));
    }
    Ok(())
}

/// What git's status flags say of a file, bit by bit: a file deleted in the index or the
/// worktree (`INDEX_DELETED` 1<<2, `WT_DELETED` 1<<9) is deleted; else a new one
/// (`INDEX_NEW` 1<<0, `WT_NEW` 1<<7) is added; else one with any other change, alone or
/// together (`INDEX_MODIFIED` 1<<1, `INDEX_RENAMED` 1<<3, `INDEX_TYPECHANGE` 1<<4,
/// `WT_MODIFIED` 1<<8, `WT_TYPECHANGE` 1<<10, `WT_RENAMED` 1<<11), is modified; and a file
/// with none of these flags is no change at all.
pub proof fn law_status_follows_git_flags(flags: u32)
    ensures
        status_of_flags(flags) == Some(FileStatus::Deleted) <==> (flags & 0x4 != 0 || flags & 0x200
            != 0),
        status_of_flags(flags) == Some(FileStatus::Added) <==> (!(flags & 0x4 != 0 || flags & 0x200
            != 0) && (flags & 0x1 != 0 || flags & 0x80 != 0)),
        status_of_flags(flags) == Some(FileStatus::Modified) <==> (!(flags & 0x4 != 0 || flags
            & 0x200 != 0) && !(flags & 0x1 != 0 || flags & 0x80 != 0) && (flags & 0x2 != 0 || flags
            & 0x8 != 0 || flags & 0x10 != 0 || flags & 0x100 != 0 || flags & 0x400 != 0 || flags
            & 0x800 != 0)),
        status_of_flags(flags) is None <==> !(flags & 0x4 != 0 || flags & 0x200 != 0 || flags & 0x1
            != 0 || flags & 0x80 != 0 || flags & 0x2 != 0 || flags & 0x8 != 0 || flags & 0x10 != 0
            || flags & 0x100 != 0 || flags & 0x400 != 0 || flags & 0x800 != 0),
{
    assert((flags & 0x204 != 0) <==> (flags & 0x4 != 0 || flags & 0x200 != 0)) by (bit_vector);
    assert((flags & 0x81 != 0) <==> (flags & 0x1 != 0 || flags & 0x80 != 0)) by (bit_vector);
    assert((flags & 0xd1a != 0) <==> (flags & 0x2 != 0 || flags & 0x8 != 0 || flags & 0x10 != 0
        || flags & 0x100 != 0 || flags & 0x400 != 0 || flags & 0x800 != 0)) by (bit_vector);
}

/// The blob entries of a tree walk, in walk order.
pub open spec fn blob_entries(entries: Seq<TreeEntry>) -> Seq<TreeEntry> {
    entries.filter(|e: TreeEntry| e.is_blob)
}

/// Every blob that the walk of the tree meets is listed, once and in order, whatever its
/// name: the k-th listed file is the k-th blob, at its parent's path followed by its
/// name, as an added file.
pub proof fn law_every_blob_is_listed(entries: Seq<TreeEntry>)
    ensures
        tracked_files_of(entries).len() == blob_entries(entries).len(),
        forall|k: int|
            0 <= k < tracked_files_of(entries).len() ==> #[trigger] tracked_files_of(entries)[k] == (
            FileChange {
                path: blob_entries(entries)[k].root@ + text_or_empty(blob_entries(entries)[k].name),
                status: FileStatus::Added,
            }),
    decreases entries.len(),
{
    reveal(Seq::filter);
    if entries.len() > 0 {
        law_every_blob_is_listed(entries.drop_last());
    }
}

/// The entries of git's status report that show a change, in report order.
pub open spec fn changed_entries(entries: Seq<StatusEntry>) -> Seq<StatusEntry> {
    entries.filter(|e: StatusEntry| status_of_flags(e.flags) is Some)
}

/// Every entry of git's status report that shows a change is listed, once and in order,
/// whatever its path: the k-th listed file is the k-th such entry, at its path (empty
/// where git gave none), with the status of its flags; entries without change are left out.
pub proof fn law_every_change_is_listed(entries: Seq<StatusEntry>)
    ensures
        worktree_changes_of(entries).len() == changed_entries(entries).len(),
        forall|k: int|
            0 <= k < worktree_changes_of(entries).len() ==> #[trigger] worktree_changes_of(entries)[k]
                == (FileChange {
                path: text_or_empty(changed_entries(entries)[k].path),
                status: status_of_flags(changed_entries(entries)[k].flags)->Some_0,
            }),
    decreases entries.len(),
{
    reveal(Seq::filter);
    if entries.len() > 0 {
        law_every_change_is_listed(entries.drop_last());
    }
}

} // verus!
