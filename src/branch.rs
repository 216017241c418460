//! The branch cache: which files were tracked when the cache was last tied to
//! the checked-out upstream branch.

use vstd::prelude::*;
use crate::file::{managed, FileData};
use crate::text::{path_ends_with, path_ends_with_exec, str_eq};

verus! {

/// The cached paths that `metadata` does not track, in cache order.
pub open spec fn unmatched(files: Seq<String>, metadata: Seq<FileData>) -> Seq<String> {
    files.filter(|p: String| !managed(metadata, p@))
}

/// `path` matches the mirror path of some entry of `metadata` by its trailing components.
pub open spec fn matched_by_mirror(metadata: Seq<FileData>, path: Seq<char>) -> bool {
    exists|i: int| 0 <= i < metadata.len() && path_ends_with((#[trigger] metadata[i]).repo_path@, path)
}

/// The branch a cache belongs to, and the file paths it recorded.
pub struct BranchCache {
    pub name: String,
    pub files: Vec<String>,
}

impl BranchCache {
    pub fn new(name: String, files: Vec<String>) -> (r: Self)
        ensures
            r.name == name,
            r.files == files,
    {
        BranchCache { name, files }
    }

    /// A cache tied to no branch and recording nothing, as when none was written yet.
    pub fn empty() -> (r: Self)
        ensures
            r.name@.len() == 0,
            r.files@.len() == 0,
    {
        BranchCache { name: String::new(), files: Vec::new() }
    }

    pub fn is_empty(&self) -> (r: bool)
        ensures
            r == (self.name@.len() == 0 && self.files@.len() == 0),
    {
        self.name.as_str().unicode_len() == 0 && self.files.len() == 0
    }

    /// The recorded paths that `metadata` no longer tracks, in cache order,
    /// each with the encryption flag that `metadata` gives it, which for an
    /// untracked path is always `false`.
    pub fn dangling_entries(&self, metadata: &Vec<FileData>) -> (r: Vec<(String, bool)>)
        ensures
            r@.len() == unmatched(self.files@, metadata@).len(),
            forall|i: int|
                0 <= i < r@.len() ==> (#[trigger] r@[i]).0 == unmatched(self.files@, metadata@)[i]
                    && !r@[i].1,
    {
        let ghost pred = |p: String| !managed(metadata@, p@);
        let mut r: Vec<(String, bool)> = Vec::new();
        let mut i: usize = 0;
        while i < self.files.len()
            invariant
                i <= self.files@.len(),
                pred == (|p: String| !managed(metadata@, p@)),
                r@.len() == self.files@.subrange(0, i as int).filter(pred).len(),
                forall|k: int|
                    0 <= k < r@.len() ==> (#[trigger] r@[k]).0 == self.files@.subrange(
                        0,
                        i as int,
                    ).filter(pred)[k] && !r@[k].1,
            decreases self.files@.len() - i,
        {
            let path = &self.files[i];
            let known = tracks(metadata, path.as_str());
            proof {
                reveal(Seq::filter);
                let next = self.files@.subrange(0, i + 1);
                assert(next.drop_last() =~= self.files@.subrange(0, i as int));
                assert(next.last() == self.files@[i as int]);
            }
            if !known {
                r.push((path.clone(), false));
            }
            i = i + 1;
        }
        assert(self.files@.subrange(0, self.files@.len() as int) =~= self.files@);
        r
    }

    /// Ties the cache to `branch` and records the system paths of `metadata`,
    /// in order.
    pub fn update(&mut self, branch: &str, metadata: &Vec<FileData>)
        ensures
            final(self).name@ == branch@,
            final(self).files@.len() == metadata@.len(),
            forall|i: int|
                0 <= i < metadata@.len() ==> (#[trigger] final(self).files@[i]) == metadata@[i].system_path,
    {
        let mut files: Vec<String> = Vec::new();
        let mut i: usize = 0;
        while i < metadata.len()
            invariant
                i <= metadata@.len(),
                files@.len() == i,
                forall|k: int| 0 <= k < i ==> (#[trigger] files@[k]) == metadata@[k].system_path,
            decreases metadata@.len() - i,
        {
            files.push(metadata[i].system_path.clone());
            i = i + 1;
        }
        self.name = String::from_str(branch);
        self.files = files;
    }

    /// Whether every recorded path matches, by its trailing components, the
    /// mirror path of some entry of `metadata`.
    pub fn has_changes(&self, metadata: &Vec<FileData>) -> (r: bool)
        ensures
            r == forall|i: int|
                0 <= i < self.files@.len() ==> matched_by_mirror(metadata@, (#[trigger] self.files@[i])@),
    {
        let mut i: usize = 0;
        while i < self.files.len()
            invariant
                i <= self.files@.len(),
                forall|k: int| 0 <= k < i ==> matched_by_mirror(metadata@, (#[trigger] self.files@[k])@),
            decreases self.files@.len() - i,
        {
            let mut j: usize = 0;
            let mut found = false;
            while j < metadata.len() && !found
                invariant
                    j <= metadata@.len(),
                    i < self.files@.len(),
                    found ==> matched_by_mirror(metadata@, self.files@[i as int]@),
                    !found ==> forall|k: int|
                        0 <= k < j ==> !path_ends_with(
                            (#[trigger] metadata@[k]).repo_path@,
                            self.files@[i as int]@,
                        ),
                decreases metadata@.len() - j,
            {
                if path_ends_with_exec(metadata[j].repo_path.as_str(), self.files[i].as_str()) {
                    found = true;
                }
                j = j + 1;
            }
            if !found {
                assert(!matched_by_mirror(metadata@, self.files@[i as int]@));
                return false;
            }
            i = i + 1;
        }
        true
    }
}

/// Whether some entry of `metadata` has the system path `path`.
fn tracks(metadata: &Vec<FileData>, path: &str) -> (r: bool)
    ensures
        r == managed(metadata@, path@),
{
    let mut i: usize = 0;
    while i < metadata.len()
        invariant
            i <= metadata@.len(),
            forall|k: int| 0 <= k < i ==> (#[trigger] metadata@[k]).system_path@ != path@,
        decreases metadata@.len() - i,
    {
        if str_eq(metadata[i].system_path.as_str(), path) {
            return true;
        }
        i = i + 1;
    }
    false
}

} // verus!
