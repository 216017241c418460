use conman::codec::{decode_path, encode_path};
use conman::file::FileData;
use conman::mirror::{copy_from_repo, copy_from_system, source_was_updated, FileStamp, MirrorError};
use conman::paths::{decimal_string, is_store_document, path_file_name, Paths};
use conman::text::{join, path_ends_with_exec};

fn entry(encrypted: bool) -> FileData {
    FileData::new("/home/u/.bashrc".to_string(), "/repo/171-.bashrc".to_string(), encrypted)
}

#[test]
fn home_paths_encode_to_the_placeholder_and_back() {
    let e = encode_path("/home/u/.bashrc", "/home/u");
    assert_eq!(e, "__user_home__/.bashrc");
    assert_eq!(decode_path(&e, "/home/u"), "/home/u/.bashrc");
    assert_eq!(decode_path(&e, "/Users/v"), "/Users/v/.bashrc");
}

#[test]
fn only_paths_under_home_are_encoded() {
    assert_eq!(encode_path("/home/u2/x", "/home/u"), "/home/u2/x");
    assert_eq!(encode_path("/home/u", "/home/u"), "__user_home__");
    assert_eq!(encode_path("/home/u/x", "/home/u/"), "__user_home__x");
    assert_eq!(encode_path("/etc/hosts", ""), "/etc/hosts");
}

#[test]
fn paths_outside_home_persist_verbatim() {
    let e = encode_path("/etc/hosts", "/home/u");
    assert_eq!(e, "/etc/hosts");
    assert_eq!(decode_path(&e, "/home/u"), "/etc/hosts");
    // only a leading placeholder is replaced
    assert_eq!(decode_path("/x/__user_home__", "/home/u"), "/x/__user_home__");
}

#[test]
fn unencrypted_mirror_round_trip_is_exact() {
    let content = b"export PATH=$PATH:~/bin\n".to_vec();
    let mirror = copy_from_system(&entry(false), content.clone(), "ignored");
    assert_eq!(mirror, content);
    let restored = copy_from_repo(&entry(false), mirror, "other").unwrap();
    assert_eq!(restored, content);
}

#[test]
fn encrypted_mirror_round_trip() {
    let content = b"secret settings".to_vec();
    let mirror = copy_from_system(&entry(true), content.clone(), "p1");
    assert_ne!(mirror, content);
    let restored = copy_from_repo(&entry(true), mirror, "p1").unwrap();
    assert_eq!(restored, content);
}

#[test]
fn wrong_passphrase_fails_with_decryption_error() {
    let content = b"secret settings".to_vec();
    let mirror = copy_from_system(&entry(true), content, "p1");
    let restored = copy_from_repo(&entry(true), mirror, "p2");
    assert_eq!(restored, Err(MirrorError::Decryption));
}

#[test]
fn corrupt_ciphertext_fails_with_decryption_error() {
    let restored = copy_from_repo(&entry(true), b"not an age file".to_vec(), "p1");
    assert_eq!(restored, Err(MirrorError::Decryption));
}

#[test]
fn drift_sizes_decide_first_then_times() {
    let s = |len: u64, modified: i128| FileStamp { len, modified };
    assert!(source_was_updated(&s(10, 1), &s(11, 5)));
    assert!(source_was_updated(&s(10, 9), &s(3, 9)));
    assert!(!source_was_updated(&s(10, 5), &s(10, 5)));
    assert!(!source_was_updated(&s(10, 4), &s(10, 5)));
    assert!(source_was_updated(&s(10, 6), &s(10, 5)));
}

#[test]
fn locations_under_the_data_directory() {
    let p = Paths::new("/home/u/.local/share");
    assert_eq!(p.repo, "/home/u/.local/share/conman/_conman_repo");
    assert_eq!(p.metadata, "/home/u/.local/share/conman/_conman_repo/_conman_internal_metadata.toml");
    assert_eq!(p.metadata_cache, "/home/u/.local/share/conman/_metadata_cache.toml");
}

#[test]
fn mirror_paths_are_time_stamped() {
    let p = Paths::new("/d/");
    assert_eq!(p.repo_local_file_path("/home/u/.config/nvim/init.lua", 1700000000).unwrap(), "/d/conman/_conman_repo/1700000000-init.lua");
    assert_eq!(p.repo_local_file_path("/home/u/dir/", 0).unwrap(), "/d/conman/_conman_repo/0-dir");
    assert!(p.repo_local_file_path("/", 5).is_none());
    assert!(p.repo_local_file_path("/a/..", 5).is_none());
}

#[test]
fn numerals_names_and_joins() {
    assert_eq!(decimal_string(0), "0");
    assert_eq!(decimal_string(1234567890), "1234567890");
    assert_eq!(decimal_string(u64::MAX), "18446744073709551615");
    assert_eq!(path_file_name("a/b.txt").unwrap(), "b.txt");
    assert_eq!(path_file_name("plain").unwrap(), "plain");
    assert!(path_file_name("").is_none());
    assert_eq!(join("/a", "b"), "/a/b");
    assert_eq!(join("/a/", "b"), "/a/b");
    assert_eq!(join("", "b"), "b");
    assert_eq!(join("/a", "/b"), "/b");
    assert!(path_ends_with_exec("/r/x/y", "x/y"));
    assert!(!path_ends_with_exec("/r/xx/y", "x/y"));
    assert!(path_ends_with_exec("/r/x/y", ""));
}

#[test]
fn the_store_document_is_recognised() {
    assert!(is_store_document("_conman_internal_metadata.toml"));
    assert!(is_store_document("sub/_conman_internal_metadata.toml"));
    assert!(!is_store_document("x_conman_internal_metadata.toml"));
    assert!(!is_store_document("171-.bashrc"));
}
