//! The commands, and the decisions each one makes between the file and
//! repository operations that the caller performs.

use vstd::prelude::*;
use crate::file::{
    after_add, after_remove, first_with_path, managed, mirror_suffix_match, FileData, Metadata,
};
use crate::status::{StatusChange, StatusType};
use crate::paths::{file_name, mirror_path_for, Paths};
use crate::text::str_eq;

verus! {

/// The command line: one command.
pub struct Args {
    pub command: Command,
}

/// What the user asks for.
pub enum Command {
    /// Clone the mirror repository from upstream.
    Init,
    /// Show the difference to upstream.
    Diff,
    /// Show the unsaved changes.
    Status,
    /// Edit a tracked file, chosen by path or interactively.
    Edit { path: Option<String>, skip_update: bool },
    /// Commit the unsaved changes.
    Save,
    /// Push saved changes upstream.
    Push,
    /// Pull changes from upstream.
    Pull,
    /// Track files.
    Add { files: Vec<String>, encrypt: bool },
    /// List the tracked files.
    List,
    /// Stop tracking files.
    Remove { files: Vec<String> },
    /// Copy mirror contents to the live files.
    Apply { files: Option<Vec<String>>, no_confirm: bool },
    /// Discard unsaved changes of the mirror.
    Discard { files: Option<Vec<String>>, no_confirm: bool },
    /// Copy changed live files into the mirror.
    Collect { files: Option<Vec<String>>, no_confirm: bool },
    /// Manage branches.
    Branch { branch_op: BranchCommand },
}

/// What the user asks of branches.
pub enum BranchCommand {
    Checkout { branch: String },
    List,
    Delete { branch: String },
    Current,
}

/// Track files, encrypted or not, copying each into the mirror.
pub struct AddOp {
    pub files: Vec<String>,
    pub encrypt: bool,
}

/// Copy the mirror copies of the (selected) files to their live locations.
pub struct ApplyOp {
    pub files: Option<Vec<String>>,
    pub no_confirm: bool,
}

/// Clone the mirror repository from upstream.
pub struct CloneOp;

/// Copy the (selected) live files that changed into the mirror.
pub struct CollectOp {
    pub files: Option<Vec<String>>,
    pub no_confirm: bool,
}

/// Show the difference to upstream.
pub struct DiffOp;

/// Reset the mirror's unsaved changes of the (selected) files.
pub struct DiscardOp {
    pub files: Option<Vec<String>>,
    pub no_confirm: bool,
}

/// Edit a tracked file and mirror the result.
pub struct EditOp {
    pub path: Option<String>,
    pub skip_update: bool,
}

/// List the tracked files.
pub struct ListOp;

/// Pull changes from upstream.
pub struct PullOp;

/// Push saved changes upstream.
pub struct PushOp;

/// Stop tracking files and delete their mirror copies.
pub struct RemoveOp {
    pub files: Vec<String>,
}

/// Commit the mirror's unsaved changes.
pub struct SaveOp;

/// Show the mirror's unsaved changes.
pub struct StatusOp;

/// Reconcile the store with the cache snapshot before any other command.
pub struct VerifyCacheOp;

/// The store after removing each of `paths` in turn.
pub open spec fn removed_all(files: Seq<FileData>, paths: Seq<String>) -> Seq<FileData>
    decreases paths.len(),
{
    if paths.len() == 0 {
        files
    } else {
        after_remove(removed_all(files, paths.drop_last()), paths.last()@)
    }
}

/// The entries that removing each of `paths` in turn takes out, in order.
pub open spec fn removed_entries(files: Seq<FileData>, paths: Seq<String>) -> Seq<FileData>
    decreases paths.len(),
{
    if paths.len() == 0 {
        Seq::empty()
    } else {
        let prev = removed_entries(files, paths.drop_last());
        let state = removed_all(files, paths.drop_last());
        if managed(state, paths.last()@) {
            prev.push(state[first_with_path(state, paths.last()@)])
        } else {
            prev
        }
    }
}

/// Stops tracking each of `files`; a path that is not tracked is skipped and
/// the others are still removed. Returns the removed entries, whose mirror
/// copies the caller deletes.
pub fn remove(metadata: &mut Metadata, files: &Vec<String>) -> (r: Vec<FileData>)
    ensures
        final(metadata).files@ == removed_all(old(metadata).files@, files@),
        final(metadata).path@ == old(metadata).path@,
        r@ == removed_entries(old(metadata).files@, files@),
        old(metadata).well_formed() ==> final(metadata).well_formed(),
{
    let ghost start = metadata.files@;
    let mut removed: Vec<FileData> = Vec::new();
    let mut i: usize = 0;
    while i < files.len()
        invariant
            i <= files@.len(),
            metadata.path@ == old(metadata).path@,
            start == old(metadata).files@,
            metadata.files@ == removed_all(start, files@.subrange(0, i as int)),
            removed@ == removed_entries(start, files@.subrange(0, i as int)),
            old(metadata).well_formed() ==> metadata.well_formed(),
        decreases files@.len() - i,
    {
        proof {
            let next = files@.subrange(0, i + 1);
            assert(next.drop_last() =~= files@.subrange(0, i as int));
            assert(next.last() == files@[i as int]);
        }
        match metadata.unmanage_file(files[i].as_str()) {
            Some(f) => removed.push(f),
            None => {},
        }
        i = i + 1;
    }
    assert(files@.subrange(0, files@.len() as int) =~= files@);
    removed
}

/// `path` is one of `selection`.
pub open spec fn selected(selection: Seq<String>, path: Seq<char>) -> bool {
    exists|i: int| 0 <= i < selection.len() && (#[trigger] selection[i])@ == path
}

/// The entries of `files` that `selection` keeps: all of them where there is
/// no selection, else those whose system path it names, in order.
pub open spec fn selection_of(files: Seq<FileData>, selection: Option<Seq<String>>) -> Seq<FileData> {
    match selection {
        Some(s) => files.filter(|f: FileData| selected(s, f.system_path@)),
        None => files,
    }
}

/// Whether `path` is one of `selection`.
pub fn is_selected(selection: &Vec<String>, path: &str) -> (r: bool)
    ensures
        r == selected(selection@, path@),
{
    let mut i: usize = 0;
    while i < selection.len()
        invariant
            i <= selection@.len(),
            forall|k: int| 0 <= k < i ==> (#[trigger] selection@[k])@ != path@,
        decreases selection@.len() - i,
    {
        if str_eq(selection[i].as_str(), path) {
            return true;
        }
        i = i + 1;
    }
    false
}

/// The entries that a command restricted to `selection` works on, as
/// `apply` and `collect` choose them.
pub fn select_files(files: &Vec<FileData>, selection: &Option<Vec<String>>) -> (r: Vec<FileData>)
    ensures
        r@ == selection_of(
            files@,
            match selection {
                Some(s) => Some(s@),
                None => None,
            },
        ),
{
    let mut r: Vec<FileData> = Vec::new();
    match selection {
        None => {
            let mut i: usize = 0;
            while i < files.len()
                invariant
                    i <= files@.len(),
                    r@ == files@.subrange(0, i as int),
                decreases files@.len() - i,
            {
                r.push(files[i].duplicate());
                i = i + 1;
                assert(r@ =~= files@.subrange(0, i as int));
            }
            assert(files@.subrange(0, files@.len() as int) =~= files@);
        },
        Some(s) => {
            let ghost pred = |f: FileData| selected(s@, f.system_path@);
            let mut i: usize = 0;
            while i < files.len()
                invariant
                    i <= files@.len(),
                    pred == (|f: FileData| selected(s@, f.system_path@)),
                    r@ == files@.subrange(0, i as int).filter(pred),
                decreases files@.len() - i,
            {
                proof {
                    reveal(Seq::filter);
                    let next = files@.subrange(0, i + 1);
                    assert(next.drop_last() =~= files@.subrange(0, i as int));
                    assert(next.last() == files@[i as int]);
                }
                if is_selected(s, files[i].system_path.as_str()) {
                    r.push(files[i].duplicate());
                }
                i = i + 1;
            }
            assert(files@.subrange(0, files@.len() as int) =~= files@);
        },
    }
    r
}

/// The entry that adding `source` at `timestamp` creates: none where the
/// store already tracks it (adding it again changes nothing) or where it has
/// no file name; else it gets a fresh mirror path and the flag `encrypt`.
pub fn entry_to_add(
    metadata: &Metadata,
    paths: &Paths,
    source: &str,
    timestamp: u64,
    encrypt: bool,
) -> (r: Option<FileData>)
    ensures
        match r {
            Some(f) => !managed(metadata.files@, source@) && f.system_path@ == source@
                && f.encrypted == encrypt && exists|name: Seq<char>|
                file_name(source@) == Some(name) && f.repo_path@ == mirror_path_for(
                    paths.repo@,
                    timestamp as nat,
                    name,
                ),
            None => managed(metadata.files@, source@) || file_name(source@) is None,
        },
{
    if metadata.file_is_already_managed(source) {
        return None;
    }
    match paths.repo_local_file_path(source, timestamp) {
        Some(mirror) => Some(FileData::new(String::from_str(source), mirror, encrypt)),
        None => None,
    }
}

/// The entry that resolving the dangling `entry` by `Manage` tracks at
/// `timestamp`: the same system path and encryption flag, and a fresh mirror
/// path; none where the path has no file name.
pub fn entry_to_remanage(paths: &Paths, entry: &FileData, timestamp: u64) -> (r: Option<FileData>)
    ensures
        match r {
            Some(f) => f.system_path == entry.system_path && f.encrypted == entry.encrypted
                && exists|name: Seq<char>|
                file_name(entry.system_path@) == Some(name) && f.repo_path@ == mirror_path_for(
                    paths.repo@,
                    timestamp as nat,
                    name,
                ),
            None => file_name(entry.system_path@) is None,
        },
{
    match paths.repo_local_file_path(entry.system_path.as_str(), timestamp) {
        Some(mirror) => Some(FileData::new(entry.system_path.clone(), mirror, entry.encrypted)),
        None => None,
    }
}

/// `f` passes the optional `selection` of system paths.
pub open spec fn passes(selection: Option<Seq<String>>, f: FileData) -> bool {
    match selection {
        Some(s) => selected(s, f.system_path@),
        None => true,
    }
}

/// The changes that `discard` offers to reset, each with the entry whose
/// mirror path it concerns, in the order reported: changes of untracked
/// paths and, where there is a selection, of unselected files are left out.
pub open spec fn discard_pairs(
    files: Seq<FileData>,
    changes: Seq<StatusChange>,
    selection: Option<Seq<String>>,
) -> Seq<(StatusChange, FileData)>
    decreases changes.len(),
{
    if changes.len() == 0 {
        Seq::empty()
    } else {
        let prev = discard_pairs(files, changes.drop_last(), selection);
        let c = changes.last();
        match mirror_suffix_match(files, c.relative_path@) {
            Some(f) => if passes(selection, f) {
                prev.push((c, f))
            } else {
                prev
            },
            None => prev,
        }
    }
}

/// The view of an optional selection.
pub open spec fn selection_view(selection: Option<Vec<String>>) -> Option<Seq<String>> {
    match selection {
        Some(s) => Some(s@),
        None => None,
    }
}

/// Pairs each reported change with the entry it concerns, as `discard` offers them.
pub fn discard_candidates(
    metadata: &Metadata,
    changes: &Vec<StatusChange>,
    selection: &Option<Vec<String>>,
) -> (r: Vec<(StatusChange, FileData)>)
    ensures
        r@ == discard_pairs(metadata.files@, changes@, selection_view(*selection)),
{
    let mut r: Vec<(StatusChange, FileData)> = Vec::new();
    let mut i: usize = 0;
    while i < changes.len()
        invariant
            i <= changes@.len(),
            r@ == discard_pairs(
                metadata.files@,
                changes@.subrange(0, i as int),
                selection_view(*selection),
            ),
        decreases changes@.len() - i,
    {
        proof {
            let next = changes@.subrange(0, i + 1);
            assert(next.drop_last() =~= changes@.subrange(0, i as int));
            assert(next.last() == changes@[i as int]);
        }
        let change = &changes[i];
        match metadata.get_file_data_where_repo_path_ends_with(change.relative_path.as_str()) {
            Some(f) => {
                let keep = match selection {
                    Some(s) => is_selected(s, f.system_path.as_str()),
                    None => true,
                };
                if keep {
                    r.push((change.duplicate(), f.duplicate()));
                }
            },
            None => {},
        }
        i = i + 1;
    }
    assert(changes@.subrange(0, changes@.len() as int) =~= changes@);
    r
}

/// The store after discarding the confirmed changes in turn: a discarded new
/// file is no longer tracked, a discarded deletion tracks its file again, and
/// other kinds leave the store alone.
pub open spec fn after_discard(files: Seq<FileData>, confirmed: Seq<(StatusChange, FileData)>) -> Seq<
    FileData,
>
    decreases confirmed.len(),
{
    if confirmed.len() == 0 {
        files
    } else {
        let prev = after_discard(files, confirmed.drop_last());
        let (c, f) = confirmed.last();
        match c.status {
            StatusType::New => after_remove(prev, f.system_path@),
            StatusType::Deleted => after_add(prev, f),
            _ => prev,
        }
    }
}

/// The entries whose live file is restored from the mirror after a discard:
/// those of the discarded modifications, in order.
pub open spec fn restored_by_discard(confirmed: Seq<(StatusChange, FileData)>) -> Seq<FileData>
    decreases confirmed.len(),
{
    if confirmed.len() == 0 {
        Seq::empty()
    } else {
        let prev = restored_by_discard(confirmed.drop_last());
        let (c, f) = confirmed.last();
        if c.status == StatusType::Modified {
            prev.push(f)
        } else {
            prev
        }
    }
}

/// Some confirmed change is of a new or a deleted file.
pub open spec fn touches_store(confirmed: Seq<(StatusChange, FileData)>) -> bool {
    exists|i: int|
        0 <= i < confirmed.len() && ((#[trigger] confirmed[i]).0.status == StatusType::New
            || confirmed[i].0.status == StatusType::Deleted)
}

/// What remains to do once the mirror's changes are reset.
pub struct DiscardOutcome {
    /// The entries whose live file is to be restored from the mirror.
    pub restore: Vec<FileData>,
    /// Whether the store is to be persisted and the snapshot rewritten.
    pub store_changed: bool,
}

impl Metadata {
    /// Brings the store in line with the confirmed changes that were reset
    /// in the mirror, and says what the caller still has to do.
    pub fn discard_changes(&mut self, confirmed: &Vec<(StatusChange, FileData)>) -> (r:
        DiscardOutcome)
        ensures
            final(self).files@ == after_discard(old(self).files@, confirmed@),
            final(self).path@ == old(self).path@,
            r.restore@ == restored_by_discard(confirmed@),
            r.store_changed == touches_store(confirmed@),
            old(self).well_formed() ==> final(self).well_formed(),
    {
        let ghost start = self.files@;
        let mut restore: Vec<FileData> = Vec::new();
        let mut changed = false;
        let mut i: usize = 0;
        while i < confirmed.len()
            invariant
                i <= confirmed@.len(),
                start == old(self).files@,
                self.path@ == old(self).path@,
                self.files@ == after_discard(start, confirmed@.subrange(0, i as int)),
                restore@ == restored_by_discard(confirmed@.subrange(0, i as int)),
                changed == touches_store(confirmed@.subrange(0, i as int)),
                old(self).well_formed() ==> self.well_formed(),
            decreases confirmed@.len() - i,
        {
            proof {
                let next = confirmed@.subrange(0, i + 1);
                assert(next.drop_last() =~= confirmed@.subrange(0, i as int));
                assert(next.last() == confirmed@[i as int]);
                assert forall|k: int| 0 <= k < i implies #[trigger] next[k] == confirmed@.subrange(
                    0,
                    i as int,
                )[k] by {}
                assert(next[i as int] == confirmed@[i as int]);
            }
            let (change, file) = &confirmed[i];
            match change.status {
                StatusType::New => {
                    self.unmanage_file(file.system_path.as_str());
                    changed = true;
                },
                StatusType::Deleted => {
                    self.add(file.duplicate());
                    changed = true;
                },
                StatusType::Modified => {
                    restore.push(file.duplicate());
                },
                _ => {},
            }
            i = i + 1;
        }
        assert(confirmed@.subrange(0, confirmed@.len() as int) =~= confirmed@);
        DiscardOutcome { restore, store_changed: changed }
    }
}

/// The system paths of the entries of `files` whose encryption flag is `flag`, in order.
pub open spec fn paths_with_flag(files: Seq<FileData>, flag: bool) -> Seq<Seq<char>>
    decreases files.len(),
{
    if files.len() == 0 {
        Seq::empty()
    } else {
        let prev = paths_with_flag(files.drop_last(), flag);
        if files.last().encrypted == flag {
            prev.push(files.last().system_path@)
        } else {
            prev
        }
    }
}

/// The lines that `list` shows: a heading and the paths of the encrypted
/// files, then a heading and the paths of the others; a group with no file
/// is left out whole.
pub open spec fn list_report(files: Seq<FileData>) -> Seq<Seq<char>> {
    let enc = paths_with_flag(files, true);
    let plain = paths_with_flag(files, false);
    (if enc.len() > 0 {
        seq!["encrypted files:"@] + enc
    } else {
        Seq::empty()
    }) + (if plain.len() > 0 {
        seq!["non-encrypted files:"@] + plain
    } else {
        Seq::empty()
    })
}

/// The characters of each line.
pub open spec fn lines_view(lines: Seq<String>) -> Seq<Seq<char>> {
    lines.map_values(|s: String| s@)
}

fn collect_paths(files: &Vec<FileData>, flag: bool, out: &mut Vec<String>)
    ensures
        lines_view(final(out)@) == lines_view(old(out)@) + paths_with_flag(files@, flag),
{
    let ghost start = lines_view(out@);
    let mut i: usize = 0;
    while i < files.len()
        invariant
            i <= files@.len(),
            start == lines_view(old(out)@),
            lines_view(out@) == start + paths_with_flag(files@.subrange(0, i as int), flag),
        decreases files@.len() - i,
    {
        proof {
            let next = files@.subrange(0, i + 1);
            assert(next.drop_last() =~= files@.subrange(0, i as int));
            assert(next.last() == files@[i as int]);
        }
        if files[i].encrypted == flag {
            let ghost before = out@;
            out.push(files[i].system_path.clone());
            assert(lines_view(out@) =~= lines_view(before).push(files@[i as int].system_path@));
        }
        i = i + 1;
    }
    assert(files@.subrange(0, files@.len() as int) =~= files@);
}

/// The lines that `list` shows for the store `metadata`.
pub fn list_lines(metadata: &Metadata) -> (r: Vec<String>)
    ensures
        lines_view(r@) == list_report(metadata.files@),
{
    proof {
        reveal_strlit("encrypted files:");
        reveal_strlit("non-encrypted files:");
    }
    let mut enc: Vec<String> = Vec::new();
    collect_paths(&metadata.files, true, &mut enc);
    let mut plain: Vec<String> = Vec::new();
    collect_paths(&metadata.files, false, &mut plain);
    assert(lines_view(enc@) =~= paths_with_flag(metadata.files@, true));
    assert(lines_view(plain@) =~= paths_with_flag(metadata.files@, false));
    let mut r: Vec<String> = Vec::new();
    if enc.len() > 0 {
        r.push(String::from_str("encrypted files:"));
        let ghost before = r@;
        r.append(&mut enc);
        assert(lines_view(r@) =~= lines_view(before) + paths_with_flag(metadata.files@, true));
    }
    if plain.len() > 0 {
        r.push(String::from_str("non-encrypted files:"));
        let ghost before = r@;
        r.append(&mut plain);
        assert(lines_view(r@) =~= lines_view(before) + paths_with_flag(metadata.files@, false));
    }
    assert(lines_view(r@) =~= list_report(metadata.files@));
    r
}

} // verus!
