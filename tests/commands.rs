use conman::branch::BranchCache;
use conman::branch_ops::{branch_list_lines, branch_ref_name};
use conman::config::{default_branch, Config, Directories, State};
use conman::file::{FileData, Metadata};
use conman::ops::{discard_candidates, list_lines, select_files};
use conman::paths::Paths;
use conman::status::{construct_commit_message, status_change_of, StatusChange, StatusType, WorkdirStatus};

fn entry(system: &str, mirror: &str, encrypted: bool) -> FileData {
    FileData::new(system.to_string(), mirror.to_string(), encrypted)
}

fn change(status: StatusType, path: &str) -> StatusChange {
    StatusChange { status, relative_path: path.to_string() }
}

fn sample_store() -> Metadata {
    Metadata::from_files(
        "/r/_conman_internal_metadata.toml".to_string(),
        vec![
            entry("/home/u/.bashrc", "/r/1-.bashrc", false),
            entry("/home/u/.ssh/config", "/r/2-config", true),
            entry("/etc/hosts", "/r/3-hosts", false),
        ],
    )
}

#[test]
fn commit_message_names_system_paths() {
    let changes = vec![
        change(StatusType::Modified, "1-.bashrc"),
        change(StatusType::New, "unrelated"),
        change(StatusType::Deleted, "3-hosts"),
    ];
    let message = construct_commit_message(&sample_store(), &changes);
    assert_eq!(message, "system-update: updating files\n\nmodified: /home/u/.bashrc\ndeleted: /etc/hosts");
}

#[test]
fn commit_message_of_no_change_is_the_header() {
    let message = construct_commit_message(&sample_store(), &vec![]);
    assert_eq!(message, "system-update: updating files\n\n");
}

#[test]
fn status_kinds_and_names() {
    let flags = WorkdirStatus { new: false, modified: true, deleted: true, renamed: false, typechange: false };
    assert_eq!(StatusType::from_workdir(&flags), Some(StatusType::Modified));
    let none = WorkdirStatus { new: false, modified: false, deleted: false, renamed: false, typechange: false };
    assert_eq!(StatusType::from_workdir(&none), None);
    assert_eq!(StatusType::TypeChange.to_str(), "typechange");
    assert_eq!(change(StatusType::New, "1-.bashrc").describe(), "new: 1-.bashrc");
}

#[test]
fn list_groups_encrypted_files_first() {
    let lines = list_lines(&sample_store());
    assert_eq!(
        lines,
        vec!["encrypted files:", "/home/u/.ssh/config", "non-encrypted files:", "/home/u/.bashrc", "/etc/hosts"]
    );
    let only_plain = Metadata::from_files("/m".to_string(), vec![entry("/a", "/r/a", false)]);
    assert_eq!(list_lines(&only_plain), vec!["non-encrypted files:", "/a"]);
}

#[test]
fn selection_keeps_named_files_in_order() {
    let store = sample_store();
    let all = select_files(&store.files, &None);
    assert_eq!(all.len(), 3);
    let some = select_files(&store.files, &Some(vec!["/etc/hosts".to_string(), "/home/u/.bashrc".to_string()]));
    assert_eq!(some.len(), 2);
    assert_eq!(some[0].system_path, "/home/u/.bashrc");
    assert_eq!(some[1].system_path, "/etc/hosts");
}

#[test]
fn discard_reverts_the_store() {
    let mut store = sample_store();
    let changes = vec![
        change(StatusType::New, "1-.bashrc"),
        change(StatusType::Modified, "2-config"),
        change(StatusType::Deleted, "3-hosts"),
        change(StatusType::Modified, "elsewhere"),
    ];
    let candidates = discard_candidates(&store, &changes, &None);
    assert_eq!(candidates.len(), 3);
    let selected = discard_candidates(&store, &changes, &Some(vec!["/home/u/.ssh/config".to_string()]));
    assert_eq!(selected.len(), 1);
    assert_eq!(selected[0].1.system_path, "/home/u/.ssh/config");

    let outcome = store.discard_changes(&candidates);
    assert!(outcome.store_changed);
    assert_eq!(outcome.restore.len(), 1);
    assert_eq!(outcome.restore[0].system_path, "/home/u/.ssh/config");
    // the new file is no longer tracked; the deleted one stays tracked once
    assert!(!store.file_is_already_managed("/home/u/.bashrc"));
    assert_eq!(store.files.len(), 2);

    let modified_only = vec![(change(StatusType::Modified, "3-hosts"), entry("/etc/hosts", "/r/3-hosts", false))];
    assert!(!store.discard_changes(&modified_only).store_changed);
}

#[test]
fn branch_cache_tracks_the_store() {
    let store = sample_store();
    let mut cache = BranchCache::empty();
    assert!(cache.is_empty());
    cache.update("main", &store.files);
    assert!(!cache.is_empty());
    assert_eq!(cache.name, "main");
    assert_eq!(cache.files, vec!["/home/u/.bashrc", "/home/u/.ssh/config", "/etc/hosts"]);
    assert!(cache.dangling_entries(&store.files).is_empty());

    let fewer = vec![entry("/etc/hosts", "/r/3-hosts", false)];
    let dangling = cache.dangling_entries(&fewer);
    assert_eq!(dangling, vec![("/home/u/.bashrc".to_string(), false), ("/home/u/.ssh/config".to_string(), false)]);
}

#[test]
fn branch_cache_matches_by_mirror_suffix() {
    let store = sample_store();
    let matched = BranchCache::new("main".to_string(), vec!["1-.bashrc".to_string(), "3-hosts".to_string()]);
    assert!(matched.has_changes(&store.files));
    let unmatched = BranchCache::new("main".to_string(), vec!["1-.bashrc".to_string(), "9-gone".to_string()]);
    assert!(!unmatched.has_changes(&store.files));
}

#[test]
fn branch_names_and_lines() {
    assert_eq!(branch_ref_name("main"), "refs/heads/main");
    let names = vec!["dev".to_string(), "main".to_string()];
    assert_eq!(branch_list_lines(&names, "main"), vec!["dev", "main (current)"]);
}

#[test]
fn configuration_defaults_and_locations() {
    assert_eq!(default_branch(), "main");
    let config = Config::default();
    assert!(config.encryption.passphrase.is_empty());
    assert!(config.upstream.key_file.is_none());
    assert_eq!(Config::config_file("/home/u/.config"), "/home/u/.config/conman/config.toml");
    let dirs = Directories::new("/home/u/.local/share", "/home/u/.config");
    assert_eq!(dirs.config_path(), "/home/u/.config/conman/config.toml");
    let segments = Some(vec!["user".to_string(), "dotfiles.git".to_string()]);
    assert_eq!(dirs.local_repo_path(&segments).unwrap(), "/home/u/.local/share/conman/dotfiles.git");
    assert_eq!(dirs.metadata_path(&segments).unwrap(), "/home/u/.local/share/conman/dotfiles.git/metadata.toml");
    assert!(dirs.metadata_path(&None).is_none());
    let state = State::new(Paths::new("/d"), config);
    assert_eq!(state.paths.repo, "/d/conman/_conman_repo");
}

#[test]
fn status_entries_become_changes() {
    let modified = WorkdirStatus { new: false, modified: true, deleted: false, renamed: false, typechange: false };
    let none = WorkdirStatus { new: false, modified: false, deleted: false, renamed: false, typechange: false };
    let c = status_change_of(&modified, &Some("1-.bashrc".to_string()), Some("old".to_string()), Some("new".to_string())).unwrap();
    assert_eq!(c.status, StatusType::Modified);
    assert_eq!(c.relative_path, "old");
    let c = status_change_of(&modified, &None, None, Some("new".to_string())).unwrap();
    assert_eq!(c.relative_path, "new");
    assert!(status_change_of(&modified, &None, None, None).is_none());
    assert!(status_change_of(&none, &None, Some("old".to_string()), None).is_none());
    let store = Some("_conman_internal_metadata.toml".to_string());
    assert!(status_change_of(&modified, &store, Some("x".to_string()), None).is_none());
}
