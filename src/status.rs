//! Working-tree changes of the mirror repository as the version-control
//! service reports them, and the commit message that records them.

use vstd::prelude::*;
use crate::file::{mirror_suffix_match, FileData, Metadata};
use crate::paths::is_store_document;
use crate::text::path_ends_with;

verus! {

/// The kind of a working-tree change.
#[derive(PartialEq, Eq, Structural, Clone, Copy, Debug)]
pub enum StatusType {
    New,
    Modified,
    Deleted,
    Renamed,
    TypeChange,
}

/// The name of a change kind.
pub open spec fn status_name(s: StatusType) -> Seq<char> {
    match s {
        StatusType::New => "new"@,
        StatusType::Modified => "modified"@,
        StatusType::Deleted => "deleted"@,
        StatusType::Renamed => "renamed"@,
        StatusType::TypeChange => "typechange"@,
    }
}

/// The working-tree flags of a status entry.
#[derive(PartialEq, Eq, Structural, Clone, Copy, Debug)]
pub struct WorkdirStatus {
    pub new: bool,
    pub modified: bool,
    pub deleted: bool,
    pub renamed: bool,
    pub typechange: bool,
}

impl StatusType {
    pub fn to_str(&self) -> (r: &'static str)
        ensures
            r@ == status_name(*self),
    {
        proof {
            reveal_strlit("new");
            reveal_strlit("modified");
            reveal_strlit("deleted");
            reveal_strlit("renamed");
            reveal_strlit("typechange");
        }
        match self {
            StatusType::New => "new",
            StatusType::Modified => "modified",
            StatusType::Deleted => "deleted",
            StatusType::Renamed => "renamed",
            StatusType::TypeChange => "typechange",
        }
    }

    /// The kind of a status entry with the flags `s`, the first set one in the
    /// order new, modified, deleted, renamed, type change; `None` where no
    /// working-tree flag is set.
    pub open spec fn from_workdir_spec(s: WorkdirStatus) -> Option<StatusType> {
        if s.new {
            Some(StatusType::New)
        } else if s.modified {
            Some(StatusType::Modified)
        } else if s.deleted {
            Some(StatusType::Deleted)
        } else if s.renamed {
            Some(StatusType::Renamed)
        } else if s.typechange {
            Some(StatusType::TypeChange)
        } else {
            None
        }
    }

    /// The kind of a status entry with the flags `s`, see [`StatusType::from_workdir_spec`].
    pub fn from_workdir(s: &WorkdirStatus) -> (r: Option<StatusType>)
        ensures
            r == Self::from_workdir_spec(*s),
    {
        if s.new {
            Some(StatusType::New)
        } else if s.modified {
            Some(StatusType::Modified)
        } else if s.deleted {
            Some(StatusType::Deleted)
        } else if s.renamed {
            Some(StatusType::Renamed)
        } else if s.typechange {
            Some(StatusType::TypeChange)
        } else {
            None
        }
    }
}

/// A change in the mirror's working tree, at a path relative to the mirror root.
pub struct StatusChange {
    pub status: StatusType,
    pub relative_path: String,
}

impl StatusChange {
    /// A field-by-field copy of this change.
    pub fn duplicate(&self) -> (r: Self)
        ensures
            r == *self,
    {
        StatusChange { status: self.status, relative_path: self.relative_path.clone() }
    }
}

impl StatusChange {
    /// `<kind>: <relative path>`, as the status command shows a change.
    pub fn describe(&self) -> (r: String)
        ensures
            r@ == status_name(self.status) + ": "@ + self.relative_path@,
    {
        proof {
            reveal_strlit(": ");
        }
        let mut r = String::from_str(self.status.to_str());
        r.append(": ");
        r.append(self.relative_path.as_str());
        r
    }
}

/// The change that a status entry reports, if it is one to show: its kind
/// (see [`StatusType::from_workdir`]) at the old path of its working-tree
/// diff, or the new one where there is no old one. Entries without a
/// working-tree flag or a diff path, and the store document itself, give none.
pub fn status_change_of(
    flags: &WorkdirStatus,
    entry_path: &Option<String>,
    old_path: Option<String>,
    new_path: Option<String>,
) -> (r: Option<StatusChange>)
    ensures
        match r {
            Some(c) => StatusType::from_workdir_spec(*flags) == Some(c.status) && !(match entry_path {
                Some(p) => path_ends_with(p@, "_conman_internal_metadata.toml"@),
                None => false,
            }) && c.relative_path == (match old_path {
                Some(o) => o,
                None => new_path->0,
            }) && (old_path is Some || new_path is Some),
            None => StatusType::from_workdir_spec(*flags) is None || (match entry_path {
                Some(p) => path_ends_with(p@, "_conman_internal_metadata.toml"@),
                None => false,
            }) || (old_path is None && new_path is None),
        },
{
    let status = match StatusType::from_workdir(flags) {
        Some(s) => s,
        None => return None,
    };
    match entry_path {
        Some(p) => {
            if is_store_document(p.as_str()) {
                return None;
            }
        },
        None => {},
    }
    let relative_path = match old_path {
        Some(o) => o,
        None => match new_path {
            Some(n) => n,
            None => return None,
        },
    };
    Some(StatusChange { status, relative_path })
}

/// The first line and the blank line of every commit message.
pub open spec fn commit_header() -> Seq<char> {
    "system-update: updating files\n\n"@
}

/// The lines that `changes` contribute to a commit message of `count` changes
/// in all: `<kind>: <system path>` for each change whose path belongs to a
/// tracked file, each but the one of the last change ended by a newline.
pub open spec fn commit_lines(files: Seq<FileData>, changes: Seq<StatusChange>, count: int) -> Seq<
    char,
>
    decreases changes.len(),
{
    if changes.len() == 0 {
        Seq::empty()
    } else {
        let prev = commit_lines(files, changes.drop_last(), count);
        let c = changes.last();
        match mirror_suffix_match(files, c.relative_path@) {
            Some(f) => prev + status_name(c.status) + ": "@ + f.system_path@ + (if changes.len()
                == count {
                ""@
            } else {
                "\n"@
            }),
            None => prev,
        }
    }
}

/// The message that commits `changes`.
pub open spec fn commit_message(files: Seq<FileData>, changes: Seq<StatusChange>) -> Seq<char> {
    commit_header() + commit_lines(files, changes, changes.len() as int)
}

/// Builds the commit message for `status_changes`, naming each change by the
/// system path of the tracked file it belongs to; changes of untracked paths
/// are left out.
pub fn construct_commit_message(metadata: &Metadata, status_changes: &Vec<StatusChange>) -> (r:
    String)
    ensures
        r@ == commit_message(metadata.files@, status_changes@),
{
    proof {
        reveal_strlit("system-update: updating files\n\n");
        reveal_strlit(": ");
        reveal_strlit("");
        reveal_strlit("\n");
    }
    let mut message = String::from_str("system-update: updating files\n\n");
    let count = status_changes.len();
    let mut i: usize = 0;
    while i < count
        invariant
            count == status_changes@.len(),
            i <= count,
            message@ == commit_header() + commit_lines(
                metadata.files@,
                status_changes@.subrange(0, i as int),
                count as int,
            ),
        decreases count - i,
    {
        let change = &status_changes[i];
        let ghost before = message@;
        proof {
            let next = status_changes@.subrange(0, i + 1);
            assert(next.drop_last() =~= status_changes@.subrange(0, i as int));
            assert(next.last() == status_changes@[i as int]);
        }
        match metadata.get_file_data_where_repo_path_ends_with(change.relative_path.as_str()) {
            Some(file_data) => {
                message.append(change.status.to_str());
                message.append(": ");
                message.append(file_data.system_path.as_str());
                if i + 1 == count {
                    message.append("");
                } else {
                    message.append("\n");
                }
                proof {
                    let tail = if i + 1 == count {
                        ""@
                    } else {
                        "\n"@
                    };
                    assert(message@ =~= before + status_name(change.status) + ": "@
                        + file_data.system_path@ + tail);
                }
            },
            None => {},
        }
        i = i + 1;
    }
    assert(status_changes@.subrange(0, count as int) =~= status_changes@);
    message
}

} // verus!
