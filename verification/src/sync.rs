//! Mirroring changed files into a destination folder.
//!
//! Each changed file becomes one file operation under the destination, at the same
//! relative path: a deleted file is removed there, any other is copied from the source.
//! The operations themselves are performed outside the library; their outcomes are
//! counted here, and a failed operation is reported without stopping the others.
//! Paths are joined as on Unix (see `text`).
use vstd::prelude::*;

use crate::config::Destination;
use crate::git::{changes_of, ChangedFile, FileChange, FileStatus};
use crate::text::{join_path, joined, law_join_separates_components, with_separator};

verus! {

/// The result of a sync operation for one destination.
pub struct SyncResult {
    pub destination_label: String,
    pub files_copied: usize,
    pub files_deleted: usize,
    /// One line per file that failed, in the order of the files.
    pub errors: Vec<String>,
}

/// One file operation of a sync.
pub enum FileOp {
    /// Copy the file at `from` to `to`, creating the missing parent directories of `to`.
    Copy { from: String, to: String },
    /// Remove the file at `target` where it exists; an absent file is no failure.
    Delete { target: String },
}

/// `op` is the operation that mirrors `file` from `source_root` into `dest_path`: a
/// deleted file is removed from the destination, any other is copied from the source,
/// each at its relative path under the root.
pub open spec fn is_op_for(op: FileOp, source_root: Seq<char>, dest_path: Seq<char>, file: FileChange) -> bool {
    match op {
        FileOp::Copy { from, to } => {
            &&& file.status != FileStatus::Deleted
            &&& from@ == joined(source_root, file.path)
            &&& to@ == joined(dest_path, file.path)
        },
        FileOp::Delete { target } => {
            &&& file.status == FileStatus::Deleted
            &&& target@ == joined(dest_path, file.path)
        },
    }
}

/// The path an operation writes to or removes.
pub open spec fn target_of(op: FileOp) -> Seq<char> {
    match op {
        FileOp::Copy { to, .. } => to@,
        FileOp::Delete { target } => target@,
    }
}

/// The report line of a file whose operation failed: its relative path, `": "`, and
/// what went wrong.
pub open spec fn error_line(path: Seq<char>, message: Seq<char>) -> Seq<char> {
    path + ": "@ + message
}

/// The counts of a sync so far.
pub struct Tally {
    pub copied: nat,
    pub deleted: nat,
    pub errors: Seq<Seq<char>>,
}

/// The tally after one more file: a success counts as a deletion for a deleted file and
/// as a copy for any other; a failure adds its report line.
pub open spec fn record_in(t: Tally, file: FileChange, outcome: Result<(), String>) -> Tally {
    match outcome {
        Ok(_) => if file.status == FileStatus::Deleted {
            Tally { copied: t.copied, deleted: t.deleted + 1, errors: t.errors }
        } else {
            Tally { copied: t.copied + 1, deleted: t.deleted, errors: t.errors }
        },
        Err(e) => Tally {
            copied: t.copied,
            deleted: t.deleted,
            errors: t.errors.push(error_line(file.path, e@)),
        },
    }
}

/// The tally of files whose operations had the given outcomes, file `i` with outcome `i`.
pub open spec fn tally(files: Seq<FileChange>, outcomes: Seq<Result<(), String>>) -> Tally
    decreases files.len(),
{
    if files.len() == 0 || outcomes.len() == 0 {
        Tally { copied: 0, deleted: 0, errors: Seq::empty() }
    } else {
        record_in(tally(files.drop_last(), outcomes.drop_last()), files.last(), outcomes.last())
    }
}

/// The text of each report line.
pub open spec fn lines_of(errors: Seq<String>) -> Seq<Seq<char>> {
    errors.map_values(|e: String| e@)
}

impl SyncResult {
    /// The tally that this result holds.
    pub open spec fn counts(&self) -> Tally {
        Tally {
            copied: self.files_copied as nat,
            deleted: self.files_deleted as nat,
            errors: lines_of(self.errors@),
        }
    }

    /// The result of a sync to `dest` before any file: nothing copied, deleted or failed.
    pub fn new(dest: &Destination) -> (r: SyncResult)
        ensures
            r.destination_label@ == dest.label@,
            r.counts() == (Tally { copied: 0, deleted: 0, errors: Seq::empty() }),
    {
        let r = SyncResult {
            destination_label: dest.label.clone(),
            files_copied: 0,
            files_deleted: 0,
            errors: Vec::new(),
        };
        assert(lines_of(r.errors@) =~= Seq::empty());
        r
    }

    /// Counts the outcome of the operation on `file` (see `record_in`).
    pub fn record(&mut self, file: &ChangedFile, outcome: &Result<(), String>)
        requires
            old(self).files_copied < usize::MAX,
            old(self).files_deleted < usize::MAX,
        ensures
            final(self).destination_label == old(self).destination_label,
            final(self).counts() == record_in(old(self).counts(), file@, *outcome),
    {
        match outcome {
            Ok(_) => {
                if file.status == FileStatus::Deleted {
                    self.files_deleted = self.files_deleted + 1;
                } else {
                    self.files_copied = self.files_copied + 1;
                }
            },
            Err(e) => {
                let ghost before = self.errors@;
                let mut line = file.relative_path.clone();
                line.append(": ");
                line.append(e.as_str());
                self.errors.push(line);
                assert(lines_of(self.errors@) =~= lines_of(before).push(
                    error_line(file.relative_path@, e@),
                ));
            },
        }
    }
}

/// Every file is accounted for once: as a copy, a deletion or a report line.
pub proof fn lemma_tally_accounts_every_file(files: Seq<FileChange>, outcomes: Seq<Result<(), String>>)
    requires
        files.len() == outcomes.len(),
    ensures
        tally(files, outcomes).copied + tally(files, outcomes).deleted + tally(files, outcomes).errors.len()
            == files.len(),
    decreases files.len(),
{
    if files.len() > 0 {
        lemma_tally_accounts_every_file(files.drop_last(), outcomes.drop_last());
    }
}

/// A path that climbs a directory: one of its `/`-separated components is `..`.
pub open spec fn climbs(p: Seq<char>) -> bool {
    exists|i: int|
        0 <= i && i + 1 < p.len() && #[trigger] p[i] == '.' && p[i + 1] == '.' && (i == 0 || p[i
            - 1] == '/') && (i + 2 == p.len() || p[i + 2] == '/')
}

/// A path that starts at the root.
pub open spec fn is_absolute(p: Seq<char>) -> bool {
    p.len() > 0 && p[0] == '/'
}

/// A sync writes and removes only inside its destination, as far as the text of the paths
/// goes (symbolic links aside): for a file whose relative path neither starts at the root
/// nor climbs with `..`, the path that its operation writes or removes is the
/// destination's path followed by a part that does not climb out of it.
pub proof fn lemma_op_stays_in_destination(op: FileOp, source_root: Seq<char>, dest_path: Seq<char>, file: FileChange)
    requires
        is_op_for(op, source_root, dest_path, file),
        !is_absolute(file.path),
        !climbs(file.path),
    ensures
        dest_path.is_prefix_of(target_of(op)),
        !climbs(target_of(op).subrange(dest_path.len() as int, target_of(op).len() as int)),
{
    let t = target_of(op);
    assert(t == joined(dest_path, file.path));
    assert(t.subrange(0, dest_path.len() as int) =~= dest_path);
    let rest = t.subrange(dest_path.len() as int, t.len() as int);
    if dest_path.len() == 0 || dest_path.last() == '/' {
        assert(rest =~= file.path);
    } else {
        assert(rest =~= seq!['/'] + file.path);
        if climbs(rest) {
            let i = choose|i: int|
                0 <= i && i + 1 < rest.len() && #[trigger] rest[i] == '.' && rest[i + 1] == '.'
                    && (i == 0 || rest[i - 1] == '/') && (i + 2 == rest.len() || rest[i + 2] == '/');
            assert(i >= 1);
            assert(file.path[i - 1] == '.');
            assert(climbs(file.path));
        }
    }
}

/// A file's operation works at its relative path below each root: the path written or
/// removed is the destination's path, a separator, then the relative path; a copy reads
/// the source's path, a separator, then the same relative path.
pub proof fn law_op_paths_keep_relative_path(op: FileOp, source_root: Seq<char>, dest_path: Seq<char>, file: FileChange)
    requires
        is_op_for(op, source_root, dest_path, file),
        !is_absolute(file.path),
    ensures
        target_of(op) == with_separator(dest_path) + file.path,
        op matches FileOp::Copy { from, .. } ==> from@ == with_separator(source_root) + file.path,
{
    law_join_separates_components(dest_path, file.path);
    law_join_separates_components(source_root, file.path);
}

/// A file and how its operation went.
pub open spec fn outcome_pairs(files: Seq<FileChange>, outcomes: Seq<Result<(), String>>) -> Seq<(FileChange, Result<(), String>)> {
    Seq::new(files.len(), |i: int| (files[i], outcomes[i]))
}

/// A file that was copied: not deleted, and its operation went well.
pub open spec fn is_copied(p: (FileChange, Result<(), String>)) -> bool {
    p.1 is Ok && p.0.status != FileStatus::Deleted
}

/// A file that was removed: deleted, and its operation went well.
pub open spec fn is_removed(p: (FileChange, Result<(), String>)) -> bool {
    p.1 is Ok && p.0.status == FileStatus::Deleted
}

/// A file whose operation failed.
pub open spec fn is_failed(p: (FileChange, Result<(), String>)) -> bool {
    p.1 is Err
}

/// The report line of a file whose operation failed.
pub open spec fn report_of(p: (FileChange, Result<(), String>)) -> Seq<char> {
    match p.1 {
        Err(e) => p.0.path + ": "@ + e@,
        Ok(_) => Seq::empty(),
    }
}

/// The counts of a sync, whatever the files' statuses: the copies are the files not
/// deleted whose operation went well, the deletions the deleted files whose operation
/// went well, and the report holds one line per failed file, in order, its path, `": "`
/// and what went wrong.
pub proof fn law_tally_counts_outcomes(files: Seq<FileChange>, outcomes: Seq<Result<(), String>>)
    requires
        files.len() == outcomes.len(),
    ensures
        tally(files, outcomes).copied == outcome_pairs(files, outcomes).filter(
            |p: (FileChange, Result<(), String>)| is_copied(p),
        ).len(),
        tally(files, outcomes).deleted == outcome_pairs(files, outcomes).filter(
            |p: (FileChange, Result<(), String>)| is_removed(p),
        ).len(),
        tally(files, outcomes).errors == outcome_pairs(files, outcomes).filter(
            |p: (FileChange, Result<(), String>)| is_failed(p),
        ).map_values(|p: (FileChange, Result<(), String>)| report_of(p)),
    decreases files.len(),
{
    reveal(Seq::filter);
    let ps = outcome_pairs(files, outcomes);
    if files.len() > 0 {
        let fs = files.drop_last();
        let os = outcomes.drop_last();
        law_tally_counts_outcomes(fs, os);
        assert(ps.drop_last() =~= outcome_pairs(fs, os));
        let last = ps.last();
        assert(last == (files.last(), outcomes.last()));
        let failed = |p: (FileChange, Result<(), String>)| is_failed(p);
        let report = |p: (FileChange, Result<(), String>)| report_of(p);
        if is_failed(last) {
            assert(ps.filter(failed).map_values(report) =~= ps.drop_last().filter(failed).map_values(
                report,
            ).push(report_of(last)));
        } else {
            assert(ps.filter(failed) == ps.drop_last().filter(failed));
        }
    } else {
        assert(ps.filter(|p: (FileChange, Result<(), String>)| is_failed(p)).map_values(
            |p: (FileChange, Result<(), String>)| report_of(p),
        ) =~= Seq::<Seq<char>>::empty());
    }
}

/// The operation that mirrors `file` from `source_root` into `dest` (see `is_op_for`).
pub fn file_op(source_root: &str, dest: &Destination, file: &ChangedFile) -> (op: FileOp)
    ensures
        is_op_for(op, source_root@, dest.path@, file@),
{
    match file.status {
        FileStatus::Deleted => FileOp::Delete {
            target: join_path(dest.path.as_str(), file.relative_path.as_str()),
        },
        _ => FileOp::Copy {
            from: join_path(source_root, file.relative_path.as_str()),
            to: join_path(dest.path.as_str(), file.relative_path.as_str()),
        },
    }
}

/// The operations that mirror `files` from `source_root` into `dest`, one per file, in
/// order.
pub fn plan_sync(source_root: &str, dest: &Destination, files: &[ChangedFile]) -> (ops: Vec<FileOp>)
    ensures
        ops@.len() == files@.len(),
        forall|i: int|
            0 <= i < files@.len() ==> is_op_for(#[trigger] ops@[i], source_root@, dest.path@, files@[i]@),
{
    let mut ops: Vec<FileOp> = Vec::new();
    let n = files.len();
    for i in 0..n
        invariant
            n == files@.len(),
            ops@.len() == i,
            forall|j: int|
                0 <= j < i ==> is_op_for(#[trigger] ops@[j], source_root@, dest.path@, files@[j]@),
    {
        ops.push(file_op(source_root, dest, &files[i]));
    }
    ops
}

/// The result of syncing `files` to `dest`, where `outcomes[i]` is how the operation on
/// `files[i]` went (`Err` with what went wrong). Failures are collected rather than
/// stopping the sync: every file is counted.
pub fn sync_files(dest: &Destination, files: &[ChangedFile], outcomes: &[Result<(), String>]) -> (r: SyncResult)
    requires
        files@.len() == outcomes@.len(),
    ensures
        r.destination_label@ == dest.label@,
        r.counts() == tally(changes_of(files@), outcomes@),
        r.files_copied + r.files_deleted + r.errors@.len() == files@.len(),
{
    let mut result = SyncResult::new(dest);
    let n = files.len();
    for i in 0..n
        invariant
            n == files@.len(),
            n == outcomes@.len(),
            result.destination_label@ == dest.label@,
            result.counts() == tally(changes_of(files@).take(i as int), outcomes@.take(i as int)),
    {
        proof {
            lemma_tally_accounts_every_file(changes_of(files@).take(i as int), outcomes@.take(i as int));
            assert(changes_of(files@).take(i + 1).drop_last() =~= changes_of(files@).take(i as int));
            assert(outcomes@.take(i + 1).drop_last() =~= outcomes@.take(i as int));
        }
        result.record(&files[i], &outcomes[i]);
    }
    proof {
        assert(changes_of(files@).take(n as int) =~= changes_of(files@));
        assert(outcomes@.take(n as int) =~= outcomes@);
        lemma_tally_accounts_every_file(changes_of(files@), outcomes@);
    }
    result
}

} // verus!
