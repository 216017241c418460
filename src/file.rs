//! The managed-file metadata store and the cache reconciler that compares it
//! with the snapshot written at the end of the previous run.

use vstd::prelude::*;
use crate::text::{path_ends_with, path_ends_with_exec, str_eq};

verus! {

/// A tracked file: where it lives, where its mirror copy lives, and whether
/// that copy is encrypted.
pub struct FileData {
    pub system_path: String,
    pub repo_path: String,
    pub encrypted: bool,
}

impl FileData {
    pub fn new(system_path: String, repo_path: String, encrypted: bool) -> (r: Self)
        ensures
            r.system_path == system_path,
            r.repo_path == repo_path,
            r.encrypted == encrypted,
    {
        FileData { system_path, repo_path, encrypted }
    }

    /// A field-by-field copy of this entry.
    pub fn duplicate(&self) -> (r: Self)
        ensures
            r == *self,
    {
        FileData {
            system_path: self.system_path.clone(),
            repo_path: self.repo_path.clone(),
            encrypted: self.encrypted,
        }
    }
}

/// Some entry of `files` has the system path `p`.
pub open spec fn managed(files: Seq<FileData>, p: Seq<char>) -> bool {
    exists|i: int| 0 <= i < files.len() && (#[trigger] files[i]).system_path@ == p
}

/// No two entries of `files` share a system path.
pub open spec fn paths_unique(files: Seq<FileData>) -> bool {
    forall|i: int, j: int|
        0 <= i < j < files.len() ==> (#[trigger] files[i]).system_path@ != (#[trigger] files[j]).system_path@
}

/// `i` is the first index of `files` whose entry has the system path `p`.
pub open spec fn is_first_with_path(files: Seq<FileData>, p: Seq<char>, i: int) -> bool {
    0 <= i < files.len() && files[i].system_path@ == p && forall|j: int|
        0 <= j < i ==> (#[trigger] files[j]).system_path@ != p
}

/// `i` is the first index of `files` whose mirror path ends with `suffix`.
pub open spec fn is_first_with_mirror_suffix(files: Seq<FileData>, suffix: Seq<char>, i: int) -> bool {
    0 <= i < files.len() && path_ends_with(files[i].repo_path@, suffix) && forall|j: int|
        0 <= j < i ==> !path_ends_with((#[trigger] files[j]).repo_path@, suffix)
}

/// The first entry of `files` whose mirror path ends with `suffix`, if any.
pub open spec fn mirror_suffix_match(files: Seq<FileData>, suffix: Seq<char>) -> Option<FileData> {
    if exists|i: int| is_first_with_mirror_suffix(files, suffix, i) {
        Some(files[choose|i: int| is_first_with_mirror_suffix(files, suffix, i)])
    } else {
        None
    }
}

/// The first index of `files` whose entry has the system path `p`.
pub open spec fn first_with_path(files: Seq<FileData>, p: Seq<char>) -> int {
    choose|i: int| is_first_with_path(files, p, i)
}

/// The store after adding `f`: unchanged when its system path is already managed.
pub open spec fn after_add(files: Seq<FileData>, f: FileData) -> Seq<FileData> {
    if managed(files, f.system_path@) {
        files
    } else {
        files.push(f)
    }
}

/// The store after removing the entry with system path `p`, if there is one.
pub open spec fn after_remove(files: Seq<FileData>, p: Seq<char>) -> Seq<FileData> {
    if managed(files, p) {
        files.remove(first_with_path(files, p))
    } else {
        files
    }
}

/// The entries of the snapshot `cache` whose system path the store no longer manages,
/// in snapshot order.
pub open spec fn dangling_of(store: Seq<FileData>, cache: Seq<FileData>) -> Seq<FileData> {
    cache.filter(|f: FileData| !managed(store, f.system_path@))
}

/// Reconciling `store` against `cache` finds nothing to do.
pub open spec fn reconciles_to_nothing(store: Seq<FileData>, cache: Seq<FileData>) -> bool {
    if cache.len() == 0 {
        store.len() == 0
    } else {
        dangling_of(store, cache).len() == 0
    }
}

/// The ordered collection of tracked files, with the location of the document
/// it is persisted to.
pub struct Metadata {
    pub path: String,
    pub files: Vec<FileData>,
}

/// What reconciling the store with the cache snapshot asks for.
pub enum CacheVerdict {
    /// The snapshot is empty and the store is not: write the snapshot.
    FullPopulate(Metadata),
    /// Entries of the snapshot that the store no longer manages.
    HandleDangling(Vec<FileData>),
    /// Store and snapshot agree.
    DoNothing,
}

/// `v` is the verdict of reconciling `store` against the snapshot `cache`.
pub open spec fn is_verdict(v: CacheVerdict, store: Metadata, cache: Seq<FileData>) -> bool {
    match v {
        CacheVerdict::FullPopulate(m) => cache.len() == 0 && store.files@.len() > 0 && m.files@
            == store.files@ && m.path@ == store.path@,
        CacheVerdict::HandleDangling(d) => cache.len() > 0 && d@ == dangling_of(store.files@, cache)
            && d@.len() > 0,
        CacheVerdict::DoNothing => reconciles_to_nothing(store.files@, cache),
    }
}

impl Metadata {
    /// Every system path is tracked at most once.
    pub open spec fn well_formed(&self) -> bool {
        paths_unique(self.files@)
    }

    /// An empty store persisted at `path`.
    pub fn new(path: String) -> (r: Self)
        ensures
            r.path@ == path@,
            r.files@.len() == 0,
            r.well_formed(),
    {
        Metadata { path, files: Vec::new() }
    }

    /// A store persisted at `path` that holds `files`.
    pub fn from_files(path: String, files: Vec<FileData>) -> (r: Self)
        ensures
            r.path@ == path@,
            r.files == files,
    {
        Metadata { path, files }
    }

    /// The location of the persisted document.
    pub fn path(&self) -> (r: &str)
        ensures
            r@ == self.path@,
    {
        self.path.as_str()
    }

    /// A copy of this store.
    pub fn duplicate(&self) -> (r: Self)
        ensures
            r.files@ == self.files@,
            r.path@ == self.path@,
    {
        let mut files: Vec<FileData> = Vec::new();
        let mut i: usize = 0;
        while i < self.files.len()
            invariant
                i <= self.files@.len(),
                files@ == self.files@.subrange(0, i as int),
            decreases self.files@.len() - i,
        {
            files.push(self.files[i].duplicate());
            i = i + 1;
            assert(files@ =~= self.files@.subrange(0, i as int));
        }
        assert(files@ =~= self.files@);
        Metadata { path: self.path.clone(), files }
    }

    pub fn get_file_data_by_index(&self, index: usize) -> (r: Option<&FileData>)
        ensures
            match r {
                Some(f) => index < self.files@.len() && *f == self.files@[index as int],
                None => index >= self.files@.len(),
            },
    {
        if index < self.files.len() {
            Some(&self.files[index])
        } else {
            None
        }
    }

    /// The first entry tracking `system_path`.
    pub fn get_file_data_by_system_path(&self, system_path: &str) -> (r: Option<&FileData>)
        ensures
            match r {
                Some(f) => exists|i: int|
                    is_first_with_path(self.files@, system_path@, i) && *f == self.files@[i],
                None => !managed(self.files@, system_path@),
            },
    {
        match self.position_of(system_path) {
            Some(i) => Some(&self.files[i]),
            None => None,
        }
    }

    /// The first entry whose mirror path ends with the components of `path`,
    /// as the version-control layer reports paths relative to the mirror.
    pub fn get_file_data_where_repo_path_ends_with(&self, path: &str) -> (r: Option<&FileData>)
        ensures
            match r {
                Some(f) => exists|i: int|
                    is_first_with_mirror_suffix(self.files@, path@, i) && *f == self.files@[i],
                None => forall|i: int|
                    0 <= i < self.files@.len() ==> !path_ends_with(
                        (#[trigger] self.files@[i]).repo_path@,
                        path@,
                    ),
            },
            match r {
                Some(f) => mirror_suffix_match(self.files@, path@) == Some(*f),
                None => mirror_suffix_match(self.files@, path@) is None,
            },
    {
        let mut i: usize = 0;
        while i < self.files.len()
            invariant
                i <= self.files@.len(),
                forall|j: int|
                    0 <= j < i ==> !path_ends_with((#[trigger] self.files@[j]).repo_path@, path@),
            decreases self.files@.len() - i,
        {
            if path_ends_with_exec(self.files[i].repo_path.as_str(), path) {
                assert(is_first_with_mirror_suffix(self.files@, path@, i as int));
                proof {
                    let k = choose|k: int| is_first_with_mirror_suffix(self.files@, path@, k);
                    if k < i {
                        assert(!path_ends_with(self.files@[k].repo_path@, path@));
                    } else if k > i {
                        assert(!path_ends_with(self.files@[i as int].repo_path@, path@));
                    }
                }
                return Some(&self.files[i]);
            }
            i = i + 1;
        }
        None
    }

    /// The first index whose entry tracks `system_path`.
    fn position_of(&self, system_path: &str) -> (r: Option<usize>)
        ensures
            match r {
                Some(i) => is_first_with_path(self.files@, system_path@, i as int),
                None => !managed(self.files@, system_path@),
            },
    {
        let mut i: usize = 0;
        while i < self.files.len()
            invariant
                i <= self.files@.len(),
                forall|j: int|
                    0 <= j < i ==> (#[trigger] self.files@[j]).system_path@ != system_path@,
            decreases self.files@.len() - i,
        {
            if str_eq(self.files[i].system_path.as_str(), system_path) {
                return Some(i);
            }
            i = i + 1;
        }
        None
    }

    pub fn file_is_already_managed(&self, system_path: &str) -> (r: bool)
        ensures
            r == managed(self.files@, system_path@),
    {
        self.position_of(system_path).is_some()
    }

    /// Appends `file_data`; the caller has checked that its system path is not
    /// tracked yet.
    pub fn manage_file(&mut self, file_data: FileData)
        requires
            !managed(old(self).files@, file_data.system_path@),
        ensures
            final(self).files@ == old(self).files@.push(file_data),
            final(self).path@ == old(self).path@,
            old(self).well_formed() ==> final(self).well_formed(),
    {
        self.files.push(file_data);
        proof {
            if old(self).well_formed() {
                lemma_add_keeps_unique(old(self).files@, file_data);
            }
        }
    }

    /// Adds `file_data` unless its system path is already tracked, in which
    /// case nothing changes. Returns whether it was added.
    pub fn add(&mut self, file_data: FileData) -> (added: bool)
        ensures
            added == !managed(old(self).files@, file_data.system_path@),
            final(self).files@ == after_add(old(self).files@, file_data),
            final(self).path@ == old(self).path@,
            old(self).well_formed() ==> final(self).well_formed(),
    {
        if self.file_is_already_managed(file_data.system_path.as_str()) {
            false
        } else {
            self.manage_file(file_data);
            true
        }
    }

    /// Removes and returns the entry tracking `system_path`; nothing to remove
    /// is no error and gives `None`. The file on disk is left alone.
    pub fn unmanage_file(&mut self, system_path: &str) -> (r: Option<FileData>)
        ensures
            final(self).files@ == after_remove(old(self).files@, system_path@),
            final(self).path@ == old(self).path@,
            old(self).well_formed() ==> final(self).well_formed() && !managed(
                final(self).files@,
                system_path@,
            ),
            match r {
                Some(f) => managed(old(self).files@, system_path@) && f == old(self).files@[first_with_path(
                    old(self).files@,
                    system_path@,
                )],
                None => !managed(old(self).files@, system_path@),
            },
    {
        match self.position_of(system_path) {
            Some(i) => {
                proof {
                    lemma_first_with_path(self.files@, system_path@, i as int);
                    if self.well_formed() {
                        lemma_remove_keeps_unique(self.files@, system_path@);
                        lemma_removed_path_gone(self.files@, system_path@, i as int);
                    }
                }
                Some(self.files.remove(i))
            },
            None => None,
        }
    }
}

/// The first index with a path is the one that `first_with_path` names.
proof fn lemma_first_with_path(files: Seq<FileData>, p: Seq<char>, i: int)
    requires
        is_first_with_path(files, p, i),
    ensures
        first_with_path(files, p) == i,
        managed(files, p),
{
    assert(files[i].system_path@ == p);
    let k = first_with_path(files, p);
    assert(is_first_with_path(files, p, k));
    if k < i {
        assert(files[k].system_path@ != p);
    } else if k > i {
        assert(files[i].system_path@ != p);
    }
}

/// The entries of `cache` whose system path `metadata` does not manage, in
/// snapshot order.
pub fn dangling_cached_files(metadata: &Metadata, cache: &Metadata) -> (r: Vec<FileData>)
    ensures
        r@ == dangling_of(metadata.files@, cache.files@),
{
    let ghost pred = |f: FileData| !managed(metadata.files@, f.system_path@);
    let mut r: Vec<FileData> = Vec::new();
    let mut i: usize = 0;
    while i < cache.files.len()
        invariant
            i <= cache.files@.len(),
            pred == (|f: FileData| !managed(metadata.files@, f.system_path@)),
            r@ == cache.files@.subrange(0, i as int).filter(pred),
        decreases cache.files@.len() - i,
    {
        let entry = &cache.files[i];
        let keep = !metadata.file_is_already_managed(entry.system_path.as_str());
        if keep {
            r.push(entry.duplicate());
        }
        proof {
            reveal(Seq::filter);
            let next = cache.files@.subrange(0, i + 1);
            assert(next.drop_last() =~= cache.files@.subrange(0, i as int));
            assert(next.last() == cache.files@[i as int]);
        }
        i = i + 1;
    }
    assert(cache.files@.subrange(0, cache.files@.len() as int) =~= cache.files@);
    r
}

/// Compares the store with the snapshot written at the end of the previous
/// run and says what has to be done.
pub fn verify_cache(metadata: &Metadata, cache: &Metadata) -> (r: CacheVerdict)
    ensures
        is_verdict(r, *metadata, cache.files@),
{
    if cache.files.len() == 0 {
        if metadata.files.len() == 0 {
            return CacheVerdict::DoNothing;
        }
        return CacheVerdict::FullPopulate(metadata.duplicate());
    }
    let dangling = dangling_cached_files(metadata, cache);
    if dangling.len() == 0 {
        CacheVerdict::DoNothing
    } else {
        CacheVerdict::HandleDangling(dangling)
    }
}

/// How the user resolves one dangling entry.
#[derive(PartialEq, Eq, Structural, Clone, Copy)]
pub enum Resolution {
    /// Leave it; it is dangling again on the next run.
    Skip,
    /// Delete the live file; the store is not touched.
    Delete,
    /// Track the file again.
    Manage,
}

/// The store after resolving a dangling entry by `choice`; `entry` is what
/// `Manage` tracks again.
pub open spec fn resolved(files: Seq<FileData>, entry: FileData, choice: Resolution) -> Seq<FileData> {
    match choice {
        Resolution::Manage => after_add(files, entry),
        _ => files,
    }
}

/// The store after resolving `entries` in turn, the i-th by `choices[i]`.
pub open spec fn resolved_all(
    files: Seq<FileData>,
    entries: Seq<FileData>,
    choices: Seq<Resolution>,
) -> Seq<FileData>
    decreases entries.len(),
{
    if entries.len() == 0 {
        files
    } else {
        resolved(
            resolved_all(files, entries.drop_last(), choices),
            entries.last(),
            choices[entries.len() - 1],
        )
    }
}

impl Metadata {
    /// Records how a dangling entry was resolved: `Manage` tracks `entry`
    /// again (a no-op if its path is tracked already), the other choices leave
    /// the store as it is. The file operations themselves are the caller's.
    pub fn resolve_dangling(&mut self, entry: FileData, choice: Resolution)
        ensures
            final(self).files@ == resolved(old(self).files@, entry, choice),
            final(self).path@ == old(self).path@,
            old(self).well_formed() ==> final(self).well_formed(),
    {
        match choice {
            Resolution::Manage => {
                self.add(entry);
            },
            _ => {},
        }
    }
}

/// One step of a store operation sequence.
pub enum StoreOp {
    Add(FileData),
    Remove(String),
}

/// The store after `op`.
pub open spec fn after_op(files: Seq<FileData>, op: StoreOp) -> Seq<FileData> {
    match op {
        StoreOp::Add(f) => after_add(files, f),
        StoreOp::Remove(p) => after_remove(files, p@),
    }
}

/// The store after the operations `ops`, first to last.
pub open spec fn after_ops(files: Seq<FileData>, ops: Seq<StoreOp>) -> Seq<FileData>
    decreases ops.len(),
{
    if ops.len() == 0 {
        files
    } else {
        after_op(after_ops(files, ops.drop_last()), ops.last())
    }
}

/// Adding keeps the system paths of a store unique.
pub proof fn lemma_add_keeps_unique(files: Seq<FileData>, f: FileData)
    requires
        paths_unique(files),
    ensures
        paths_unique(after_add(files, f)),
{
    if !managed(files, f.system_path@) {
        let n = files.push(f);
        assert forall|i: int, j: int| 0 <= i < j < n.len() implies (#[trigger] n[i]).system_path@
            != (#[trigger] n[j]).system_path@ by {
            if j == files.len() {
                assert(n[i] == files[i]);
            } else {
                assert(n[i] == files[i] && n[j] == files[j]);
            }
        }
    }
}

/// Removing keeps the system paths of a store unique.
pub proof fn lemma_remove_keeps_unique(files: Seq<FileData>, p: Seq<char>)
    requires
        paths_unique(files),
    ensures
        paths_unique(after_remove(files, p)),
{
    if managed(files, p) {
        let k = first_with_path(files, p);
        let w = choose|i: int| 0 <= i < files.len() && (#[trigger] files[i]).system_path@ == p;
        lemma_first_exists(files, p, w);
        let n = files.remove(k);
        assert forall|i: int, j: int| 0 <= i < j < n.len() implies (#[trigger] n[i]).system_path@
            != (#[trigger] n[j]).system_path@ by {
            let oi = if i < k { i } else { i + 1 };
            let oj = if j < k { j } else { j + 1 };
            assert(n[i] == files[oi] && n[j] == files[oj]);
        }
    }
}

/// In a store without duplicate paths, removing the entry of a path leaves
/// the path untracked.
proof fn lemma_removed_path_gone(files: Seq<FileData>, p: Seq<char>, i: int)
    requires
        paths_unique(files),
        is_first_with_path(files, p, i),
    ensures
        !managed(files.remove(i), p),
{
    let n = files.remove(i);
    if managed(n, p) {
        let k = choose|k: int| 0 <= k < n.len() && (#[trigger] n[k]).system_path@ == p;
        if k < i {
            assert(n[k] == files[k]);
        } else {
            assert(n[k] == files[k + 1]);
        }
    }
}

/// A path that some entry has has a first entry.
proof fn lemma_first_exists(files: Seq<FileData>, p: Seq<char>, w: int)
    requires
        0 <= w < files.len(),
        files[w].system_path@ == p,
    ensures
        is_first_with_path(files, p, first_with_path(files, p)),
    decreases w,
{
    if exists|j: int| 0 <= j < w && (#[trigger] files[j]).system_path@ == p {
        let j = choose|j: int| 0 <= j < w && (#[trigger] files[j]).system_path@ == p;
        lemma_first_exists(files, p, j);
    } else {
        assert(is_first_with_path(files, p, w));
    }
}

/// Whatever sequence of adds and removes runs on a store without duplicate
/// system paths, the store never holds two entries with the same system path.
pub proof fn law_store_paths_stay_unique(files: Seq<FileData>, ops: Seq<StoreOp>)
    requires
        paths_unique(files),
    ensures
        paths_unique(after_ops(files, ops)),
    decreases ops.len(),
{
    if ops.len() > 0 {
        law_store_paths_stay_unique(files, ops.drop_last());
        let before = after_ops(files, ops.drop_last());
        match ops.last() {
            StoreOp::Add(f) => lemma_add_keeps_unique(before, f),
            StoreOp::Remove(p) => lemma_remove_keeps_unique(before, p@),
        }
    }
}

/// Filtering by predicates that agree on every element gives the same result.
proof fn lemma_filter_agree(
    s: Seq<FileData>,
    p: spec_fn(FileData) -> bool,
    q: spec_fn(FileData) -> bool,
)
    requires
        forall|i: int| 0 <= i < s.len() ==> p(#[trigger] s[i]) == q(s[i]),
    ensures
        s.filter(p) == s.filter(q),
    decreases s.len(),
{
    reveal(Seq::filter);
    if s.len() > 0 {
        let d = s.drop_last();
        assert forall|i: int| 0 <= i < d.len() implies p(#[trigger] d[i]) == q(d[i]) by {
            assert(d[i] == s[i]);
        }
        lemma_filter_agree(d, p, q);
        assert(p(s[s.len() - 1]) == q(s[s.len() - 1]));
    }
}

/// Reconciling depends on the two file lists alone, and on the store only
/// through which system paths it tracks: two stores that track the same paths
/// get the same verdict variant and the same dangling entries, in the same
/// order, against any snapshot.
pub proof fn law_reconcile_deterministic(
    store_a: Seq<FileData>,
    store_b: Seq<FileData>,
    cache: Seq<FileData>,
)
    requires
        forall|p: Seq<char>| managed(store_a, p) == managed(store_b, p),
    ensures
        dangling_of(store_a, cache) == dangling_of(store_b, cache),
        (store_a.len() == 0) == (store_b.len() == 0),
        reconciles_to_nothing(store_a, cache) == reconciles_to_nothing(store_b, cache),
{
    let pa = |f: FileData| !managed(store_a, f.system_path@);
    let pb = |f: FileData| !managed(store_b, f.system_path@);
    assert forall|i: int| 0 <= i < cache.len() implies pa(#[trigger] cache[i]) == pb(cache[i]) by {
        assert(managed(store_a, cache[i].system_path@) == managed(store_b, cache[i].system_path@));
    }
    lemma_filter_agree(cache, pa, pb);
    if store_a.len() > 0 {
        assert(managed(store_a, store_a[0].system_path@));
        assert(managed(store_b, store_a[0].system_path@));
    }
    if store_b.len() > 0 {
        assert(managed(store_b, store_b[0].system_path@));
        assert(managed(store_a, store_b[0].system_path@));
    }
}

/// A store reconciled against a snapshot of itself finds nothing to do.
proof fn lemma_self_reconciles_to_nothing(store: Seq<FileData>)
    ensures
        reconciles_to_nothing(store, store),
{
    if store.len() > 0 {
        lemma_filter_empty_prefix(store, store, store.len() as int);
        assert(store.subrange(0, store.len() as int) =~= store);
    }
}

proof fn lemma_filter_empty_prefix(store: Seq<FileData>, cache: Seq<FileData>, k: int)
    requires
        0 <= k <= cache.len(),
        forall|i: int| 0 <= i < cache.len() ==> managed(store, (#[trigger] cache[i]).system_path@),
    ensures
        dangling_of(store, cache.subrange(0, k)).len() == 0,
    decreases k,
{
    reveal(Seq::filter);
    if k > 0 {
        lemma_filter_empty_prefix(store, cache, k - 1);
        let s = cache.subrange(0, k);
        assert(s.drop_last() =~= cache.subrange(0, k - 1));
        assert(s.last() == cache[k - 1]);
        assert(managed(store, cache[k - 1].system_path@));
    }
}

proof fn lemma_resolved_all_unique(
    files: Seq<FileData>,
    entries: Seq<FileData>,
    choices: Seq<Resolution>,
)
    requires
        paths_unique(files),
    ensures
        paths_unique(resolved_all(files, entries, choices)),
    decreases entries.len(),
{
    if entries.len() > 0 {
        lemma_resolved_all_unique(files, entries.drop_last(), choices);
        lemma_add_keeps_unique(resolved_all(files, entries.drop_last(), choices), entries.last());
    }
}

/// Whatever is chosen for each dangling entry, once the snapshot is rewritten
/// from the resolved store, reconciling again finds nothing to do; and the
/// resolved store still tracks each system path at most once. `entries[i]` is
/// what choosing `choices[i]` for the i-th dangling entry acts on; the law
/// holds whatever entries and choices these are.
pub proof fn law_resolution_converges(
    store: Seq<FileData>,
    entries: Seq<FileData>,
    choices: Seq<Resolution>,
)
    requires
        paths_unique(store),
    ensures
        paths_unique(resolved_all(store, entries, choices)),
        reconciles_to_nothing(
            resolved_all(store, entries, choices),
            resolved_all(store, entries, choices),
        ),
{
    lemma_resolved_all_unique(store, entries, choices);
    lemma_self_reconciles_to_nothing(resolved_all(store, entries, choices));
}

} // verus!
