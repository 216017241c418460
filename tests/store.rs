use conman::file::{dangling_cached_files, verify_cache, CacheVerdict, FileData, Metadata, Resolution};
use conman::ops::{entry_to_add, entry_to_remanage, remove};
use conman::paths::Paths;

fn entry(system: &str, mirror: &str, encrypted: bool) -> FileData {
    FileData::new(system.to_string(), mirror.to_string(), encrypted)
}

fn store(files: Vec<FileData>) -> Metadata {
    Metadata::from_files("/repo/_conman_internal_metadata.toml".to_string(), files)
}

fn paths() -> Paths {
    Paths::new("/home/u/.local/share")
}

#[test]
fn reconcile_empty_store_and_snapshot_does_nothing() {
    let verdict = verify_cache(&store(vec![]), &store(vec![]));
    assert!(matches!(verdict, CacheVerdict::DoNothing));
}

#[test]
fn reconcile_empty_snapshot_populates_it() {
    let metadata = store(vec![entry("/home/u/.bashrc", "/repo/171-.bashrc", false)]);
    let verdict = verify_cache(&metadata, &store(vec![]));
    let snapshot = match verdict {
        CacheVerdict::FullPopulate(m) => m,
        _ => panic!("expected a full populate"),
    };
    assert_eq!(snapshot.files.len(), 1);
    assert_eq!(snapshot.files[0].system_path, "/home/u/.bashrc");
    assert_eq!(snapshot.files[0].repo_path, "/repo/171-.bashrc");
    assert!(!snapshot.files[0].encrypted);
    assert!(matches!(verify_cache(&metadata, &snapshot), CacheVerdict::DoNothing));
}

#[test]
fn reconcile_dropped_file_is_dangling_and_manage_tracks_it_again() {
    let mut metadata = store(vec![]);
    let snapshot = store(vec![entry("/home/u/.bashrc", "/repo/171-.bashrc", false)]);
    let dangling = match verify_cache(&metadata, &snapshot) {
        CacheVerdict::HandleDangling(d) => d,
        _ => panic!("expected dangling entries"),
    };
    assert_eq!(dangling.len(), 1);
    assert_eq!(dangling[0].system_path, "/home/u/.bashrc");
    assert!(!dangling[0].encrypted);

    let again = entry_to_remanage(&paths(), &dangling[0], 900).unwrap();
    let mirror = again.repo_path.clone();
    assert_eq!(mirror, "/home/u/.local/share/conman/_conman_repo/900-.bashrc");
    assert_eq!(again.system_path, "/home/u/.bashrc");
    assert!(!again.encrypted);
    metadata.resolve_dangling(again, Resolution::Manage);
    assert_eq!(metadata.files.len(), 1);
    assert!(!metadata.files[0].encrypted);
    assert_eq!(metadata.files[0].repo_path, mirror);

    let rewritten = metadata.duplicate();
    assert!(matches!(verify_cache(&metadata, &rewritten), CacheVerdict::DoNothing));
}

#[test]
fn skip_and_delete_leave_the_store_and_converge() {
    let mut metadata = store(vec![entry("/a", "/repo/1-a", false)]);
    let snapshot = store(vec![
        entry("/a", "/repo/1-a", false),
        entry("/b", "/repo/1-b", true),
        entry("/c", "/repo/1-c", false),
    ]);
    let dangling = dangling_cached_files(&metadata, &snapshot);
    assert_eq!(dangling.len(), 2);
    assert_eq!(dangling[0].system_path, "/b");
    assert_eq!(dangling[1].system_path, "/c");
    metadata.resolve_dangling(dangling[0].duplicate(), Resolution::Skip);
    metadata.resolve_dangling(dangling[1].duplicate(), Resolution::Delete);
    assert_eq!(metadata.files.len(), 1);
    let rewritten = metadata.duplicate();
    assert!(matches!(verify_cache(&metadata, &rewritten), CacheVerdict::DoNothing));
    // without rewriting the snapshot both entries stay dangling
    assert!(matches!(verify_cache(&metadata, &snapshot), CacheVerdict::HandleDangling(d) if d.len() == 2));
}

#[test]
fn reconcile_is_the_same_on_every_call() {
    let metadata = store(vec![entry("/a", "/repo/1-a", false)]);
    let snapshot = store(vec![entry("/b", "/repo/1-b", true), entry("/a", "/repo/1-a", false)]);
    for _ in 0..3 {
        match verify_cache(&metadata, &snapshot) {
            CacheVerdict::HandleDangling(d) => {
                assert_eq!(d.len(), 1);
                assert_eq!(d[0].system_path, "/b");
                assert!(d[0].encrypted);
            }
            _ => panic!("expected dangling entries"),
        }
    }
}

#[test]
fn adding_the_same_path_twice_is_a_no_op() {
    let mut metadata = store(vec![]);
    assert!(metadata.add(entry("/home/u/.bashrc", "/repo/1-.bashrc", false)));
    assert_eq!(metadata.files.len(), 1);
    assert!(!metadata.add(entry("/home/u/.bashrc", "/repo/2-.bashrc", true)));
    assert_eq!(metadata.files.len(), 1);
    assert_eq!(metadata.files[0].repo_path, "/repo/1-.bashrc");
    let p = paths();
    assert!(entry_to_add(&metadata, &p, "/home/u/.bashrc", 3, false).is_none());
}

#[test]
fn add_unencrypted() {
    let mut metadata = store(vec![]);
    let p = paths();
    let file = "/tmp/conman_test/add_unencrypted";
    let new_entry = entry_to_add(&metadata, &p, file, 12, false).unwrap();
    assert_eq!(new_entry.repo_path, "/home/u/.local/share/conman/_conman_repo/12-add_unencrypted");
    assert!(metadata.add(new_entry));
    assert!(!metadata.files.is_empty());
    assert!(metadata.file_is_already_managed(file));
    let file_data = metadata.get_file_data_by_system_path(file).unwrap();
    assert!(!file_data.encrypted);
}

#[test]
fn add_encrypted() {
    let mut metadata = store(vec![]);
    let p = paths();
    let file = "/tmp/conman_test/add_encrypted";
    let new_entry = entry_to_add(&metadata, &p, file, 12, true).unwrap();
    assert!(metadata.add(new_entry));
    assert!(!metadata.files.is_empty());
    assert!(metadata.file_is_already_managed(file));
    let file_data = metadata.get_file_data_by_system_path(file).unwrap();
    assert!(file_data.encrypted);
}

#[test]
fn remove_file() {
    let file = "/tmp/conman_test/add_and_remove".to_string();
    let mut metadata = store(vec![entry(&file, "/repo/12-add_and_remove", false)]);
    let removed = remove(&mut metadata, &vec![file.clone()]);
    assert_eq!(removed.len(), 1);
    assert_eq!(removed[0].repo_path, "/repo/12-add_and_remove");
    assert!(!metadata.file_is_already_managed(&file));
    assert!(metadata.files.is_empty());
}

#[test]
fn remove_one_out_of_two_files() {
    let file_1 = "/tmp/conman_test/remove_one_out_of_two_files_1".to_string();
    let file_2 = "/tmp/conman_test/remove_one_out_of_two_files_2".to_string();
    let mut metadata = store(vec![
        entry(&file_1, "/repo/1-remove_one_out_of_two_files_1", false),
        entry(&file_2, "/repo/1-remove_one_out_of_two_files_2", false),
    ]);
    remove(&mut metadata, &vec![file_1.clone()]);
    assert!(!metadata.file_is_already_managed(&file_1));
    assert!(metadata.file_is_already_managed(&file_2));
    assert_eq!(metadata.files.len(), 1);
}

#[test]
fn removing_an_untracked_path_is_benign_and_the_batch_goes_on() {
    let mut metadata = store(vec![entry("/a", "/repo/1-a", false), entry("/b", "/repo/1-b", false)]);
    assert!(metadata.unmanage_file("/zzz").is_none());
    let removed = remove(&mut metadata, &vec!["/zzz".to_string(), "/b".to_string()]);
    assert_eq!(removed.len(), 1);
    assert_eq!(removed[0].system_path, "/b");
    assert_eq!(metadata.files.len(), 1);
    assert_eq!(metadata.files[0].system_path, "/a");
}

#[test]
fn lookups_by_index_path_and_mirror_suffix() {
    let metadata = store(vec![
        entry("/home/u/.vimrc", "/data/conman/_conman_repo/5-.vimrc", false),
        entry("/home/u/.bashrc", "/data/conman/_conman_repo/7-.bashrc", true),
    ]);
    assert_eq!(metadata.get_file_data_by_index(1).unwrap().system_path, "/home/u/.bashrc");
    assert!(metadata.get_file_data_by_index(2).is_none());
    assert!(metadata.get_file_data_by_system_path("/home/u/.zshrc").is_none());
    let f = metadata.get_file_data_where_repo_path_ends_with("7-.bashrc").unwrap();
    assert_eq!(f.system_path, "/home/u/.bashrc");
    // only whole components match
    assert!(metadata.get_file_data_where_repo_path_ends_with("-.bashrc").is_none());
    assert!(metadata.get_file_data_where_repo_path_ends_with("_conman_repo/5-.vimrc").is_some());
}
