use pm_core::config::config_path;
use pm_core::crypto::CryptoError;
use pm_core::store::{
    config_path_in, contains_parent_component, copy_strings, entry_dir, entry_dir_in,
    entry_file_in, entry_file_path, entry_name_of, file_name_start, filter_by_prefix,
    is_under_prefix, join_path, list_entries, load_entry, normalize_path, save_entry,
    save_entry_in, seal_record, store_root, store_root_in, EncryptedRecord, StoreError,
};

fn strings(items: &[&str]) -> Vec<String> {
    items.iter().map(|s| s.to_string()).collect()
}

fn chars(s: &str) -> Vec<char> {
    s.chars().collect()
}

const ROOT: &str = "/home/u/.local/share/pm-store";

#[test]
fn traversing_absolute_and_empty_paths_are_invalid() {
    assert_eq!(normalize_path("../etc/passwd"), Err(StoreError::InvalidPath));
    assert_eq!(normalize_path("/abs"), Err(StoreError::InvalidPath));
    assert_eq!(normalize_path(""), Err(StoreError::InvalidPath));
}

#[test]
fn every_path_function_refuses_invalid_paths() {
    for bad in ["../etc/passwd", "/abs", "", "a/../b", "a/..", "..", "\\abs", "..\\x"] {
        assert_eq!(normalize_path(bad), Err(StoreError::InvalidPath));
        assert_eq!(entry_file_in(ROOT, bad), Err(StoreError::InvalidPath));
        assert_eq!(entry_dir_in(ROOT, bad), Err(StoreError::InvalidPath));
        assert_eq!(entry_file_path(bad), Err(StoreError::InvalidPath));
        assert_eq!(entry_dir(bad), Err(StoreError::InvalidPath));
        assert_eq!(save_entry_in(ROOT, bad, b"x", &[0u8; 32]), Err(StoreError::InvalidPath));
        assert_eq!(save_entry(bad, b"x", &[0u8; 32]), Err(StoreError::InvalidPath));
    }
}

#[test]
fn plain_paths_are_accepted() {
    assert_eq!(normalize_path("work/github"), Ok("work/github".to_string()));
    assert_eq!(normalize_path("github"), Ok("github".to_string()));
    assert_eq!(normalize_path("a..b"), Ok("a..b".to_string()));
    assert_eq!(normalize_path("..a/b.."), Ok("..a/b..".to_string()));
    assert_eq!(normalize_path("a/.../b"), Ok("a/.../b".to_string()));
    assert_eq!(normalize_path("./a"), Ok("./a".to_string()));
}

#[test]
fn backslashes_become_slashes() {
    assert_eq!(normalize_path("work\\github"), Ok("work/github".to_string()));
    assert_eq!(normalize_path("a\\b/c\\d"), Ok("a/b/c/d".to_string()));
}

#[test]
fn contains_parent_component_finds_whole_components_only() {
    assert!(contains_parent_component(&chars("..")));
    assert!(contains_parent_component(&chars("../a")));
    assert!(contains_parent_component(&chars("a/..")));
    assert!(contains_parent_component(&chars("a/../b")));
    assert!(!contains_parent_component(&chars("")));
    assert!(!contains_parent_component(&chars(".")));
    assert!(!contains_parent_component(&chars("...")));
    assert!(!contains_parent_component(&chars("a..")));
    assert!(!contains_parent_component(&chars("..a")));
    assert!(!contains_parent_component(&chars("a/..b/c")));
}

#[test]
fn join_path_puts_one_slash_between() {
    assert_eq!(join_path("/a", "b"), "/a/b");
    assert_eq!(join_path("/a/", "b"), "/a/b");
    assert_eq!(join_path("", "b"), "b");
    assert_eq!(join_path("/", "b"), "/b");
}

#[test]
fn store_root_in_appends_the_store_name() {
    assert_eq!(store_root_in("/home/u/.local/share"), ROOT);
    assert_eq!(store_root_in("/home/u/.local/share/"), ROOT);
}

#[test]
fn config_path_in_names_the_key_file() {
    assert_eq!(config_path_in(ROOT), "/home/u/.local/share/pm-store/config.json");
}

#[test]
fn store_root_lies_below_the_data_directory() {
    match store_root() {
        Ok(root) => {
            assert!(root.ends_with("pm-store"));
            assert!(root.len() > "pm-store".len());
            assert_eq!(config_path(), Ok(format!("{}/config.json", root)));
            assert_eq!(
                entry_file_path("work/github"),
                Ok(format!("{}/store/work/github.enc", root))
            );
            assert_eq!(entry_dir("work/github"), Ok(format!("{}/store/work", root)));
        }
        Err(e) => {
            assert_eq!(e, StoreError::NoDataDir);
            assert_eq!(config_path(), Err(StoreError::NoDataDir));
            assert_eq!(entry_file_path("work/github"), Err(StoreError::NoDataDir));
        }
    }
}

#[test]
fn entry_file_in_appends_the_record_ending() {
    assert_eq!(
        entry_file_in(ROOT, "work/github"),
        Ok("/home/u/.local/share/pm-store/store/work/github.enc".to_string())
    );
    assert_eq!(
        entry_file_in(ROOT, "github"),
        Ok("/home/u/.local/share/pm-store/store/github.enc".to_string())
    );
    assert_eq!(
        entry_file_in(ROOT, "work\\github"),
        Ok("/home/u/.local/share/pm-store/store/work/github.enc".to_string())
    );
}

#[test]
fn entry_file_in_keeps_dots_in_the_last_component() {
    assert_eq!(
        entry_file_in(ROOT, "work/git.hub"),
        Ok("/home/u/.local/share/pm-store/store/work/git.hub.enc".to_string())
    );
    assert_ne!(entry_file_in(ROOT, "work/git.hub"), entry_file_in(ROOT, "work/git.lab"));
}

#[test]
fn entry_dir_in_is_the_directory_of_the_file() {
    assert_eq!(
        entry_dir_in(ROOT, "work/github"),
        Ok("/home/u/.local/share/pm-store/store/work".to_string())
    );
    assert_eq!(
        entry_dir_in(ROOT, "github"),
        Ok("/home/u/.local/share/pm-store/store".to_string())
    );
    assert_eq!(
        entry_dir_in(ROOT, "a/b/c"),
        Ok("/home/u/.local/share/pm-store/store/a/b".to_string())
    );
}

#[test]
fn file_name_start_follows_the_last_slash() {
    assert_eq!(file_name_start(&chars("a/b/c.enc")), 4);
    assert_eq!(file_name_start(&chars("c.enc")), 0);
    assert_eq!(file_name_start(&chars("a/")), 2);
    assert_eq!(file_name_start(&chars("")), 0);
}

#[test]
fn entry_name_of_strips_the_ending() {
    assert_eq!(entry_name_of("work/github.enc", '/'), Some(chars("work/github")));
    assert_eq!(entry_name_of("github.enc", '/'), Some(chars("github")));
    assert_eq!(entry_name_of("a.b.enc", '/'), Some(chars("a.b")));
    assert_eq!(entry_name_of("work\\github.enc", '\\'), Some(chars("work/github")));
}

#[test]
fn entry_name_of_ignores_hidden_and_other_files() {
    assert_eq!(entry_name_of("notes.txt", '/'), None);
    assert_eq!(entry_name_of("github", '/'), None);
    assert_eq!(entry_name_of(".enc", '/'), None);
    assert_eq!(entry_name_of("work/.enc", '/'), None);
    assert_eq!(entry_name_of(".hidden.enc", '/'), None);
    assert_eq!(entry_name_of("work/.hidden.enc", '/'), None);
    assert_eq!(entry_name_of("github.enc.bak", '/'), None);
    assert_eq!(entry_name_of("github.ENC", '/'), None);
    assert_eq!(entry_name_of("githubenc", '/'), None);
    assert_eq!(entry_name_of("", '/'), None);
    assert_eq!(entry_name_of("dir.enc/file", '/'), None);
}

#[test]
fn list_entries_is_sorted_and_holds_exactly_the_records() {
    let files = strings(&[
        "b.enc",
        "a/b.enc",
        "notes.txt",
        "ab.enc",
        ".hidden.enc",
        "a.enc",
        "work/.enc",
        "z.enc.bak",
        "work/github.enc",
    ]);
    assert_eq!(list_entries(&files, '/'), strings(&["a", "a/b", "ab", "b", "work/github"]));
}

#[test]
fn list_entries_normalizes_separators() {
    let files = strings(&["work\\github.enc", "personal\\mail.enc", "top.enc"]);
    assert_eq!(list_entries(&files, '\\'), strings(&["personal/mail", "top", "work/github"]));
}

#[test]
fn list_entries_of_nothing_is_empty() {
    assert_eq!(list_entries(&Vec::new(), '/'), Vec::<String>::new());
    assert_eq!(list_entries(&strings(&["readme.md"]), '/'), Vec::<String>::new());
}

#[test]
fn list_entries_orders_as_strings_compare() {
    let names =
        ["b", "B", "a", "a/b", "ab", "a b", "a-b", "zeta/1", "é", "z", "10", "9", "a/a/a", "~"];
    let files: Vec<String> = names.iter().map(|n| format!("{}.enc", n)).collect();
    let mut expected: Vec<String> = names.iter().map(|n| n.to_string()).collect();
    expected.sort();
    assert_eq!(list_entries(&files, '/'), expected);
}

#[test]
fn list_entries_keeps_repeated_names() {
    let files = strings(&["a.enc", "b.enc", "a.enc"]);
    assert_eq!(list_entries(&files, '/'), strings(&["a", "a", "b"]));
}

#[test]
fn prefix_keeps_the_path_itself_and_what_lies_below() {
    let entries = strings(&["a", "a/b", "ab"]);
    assert_eq!(filter_by_prefix(&entries, Some("a")), strings(&["a", "a/b"]));
}

#[test]
fn listing_then_filtering_shows_a_folder() {
    let files = strings(&["b.enc", "a/b.enc", "a.enc"]);
    let all = list_entries(&files, '/');
    assert_eq!(all, strings(&["a", "a/b", "b"]));
    assert_eq!(filter_by_prefix(&all, Some("a")), strings(&["a", "a/b"]));
    assert_eq!(filter_by_prefix(&all, None), all);
}

#[test]
fn prefix_filter_edge_cases() {
    let entries = strings(&["work/github", "work/gitlab", "workshop", "personal/work", "work"]);
    assert_eq!(
        filter_by_prefix(&entries, Some("work")),
        strings(&["work/github", "work/gitlab", "work"])
    );
    assert_eq!(filter_by_prefix(&entries, Some("work/")), Vec::<String>::new());
    assert_eq!(filter_by_prefix(&entries, Some("nothing")), Vec::<String>::new());
    assert_eq!(filter_by_prefix(&entries, Some("")), Vec::<String>::new());
    assert_eq!(filter_by_prefix(&entries, Some("work/github")), strings(&["work/github"]));
}

#[test]
fn is_under_prefix_wants_a_slash_after_the_prefix() {
    assert!(is_under_prefix("a", "a"));
    assert!(is_under_prefix("a/b", "a"));
    assert!(is_under_prefix("a/b/c", "a/b"));
    assert!(!is_under_prefix("ab", "a"));
    assert!(!is_under_prefix("a", "a/b"));
    assert!(!is_under_prefix("b/a", "a"));
}

#[test]
fn copy_strings_copies() {
    let entries = strings(&["x", "y"]);
    assert_eq!(copy_strings(&entries), entries);
}

#[test]
fn a_saved_entry_loads_back() {
    let key = [3u8; 32];
    let saved = save_entry_in(ROOT, "work/gh", b"p!", &key).unwrap();
    assert_eq!(saved.file, "/home/u/.local/share/pm-store/store/work/gh.enc");
    assert_eq!(saved.record.version, 1);
    assert_eq!(load_entry(&saved.record, &key), Ok(b"p!".to_vec()));
}

#[test]
fn load_entry_opens_the_reference_record() {
    let mut key = [0u8; 32];
    for (i, b) in key.iter_mut().enumerate() {
        *b = i as u8;
    }
    let record = EncryptedRecord {
        version: 1,
        nonce: "AAECAwQFBgcICQoLDA0ODxAREhMUFRYX".to_string(),
        ciphertext: "7uMjVECbwvvI8v9Y4jPEmukn".to_string(),
    };
    assert_eq!(load_entry(&record, &key), Ok(b"p!".to_vec()));
}

#[test]
fn saving_twice_gives_two_nonces_and_one_entry() {
    let key = [3u8; 32];
    let first = save_entry_in(ROOT, "work/gh", b"same entry", &key).unwrap();
    let second = save_entry_in(ROOT, "work/gh", b"same entry", &key).unwrap();
    assert_eq!(first.file, second.file);
    assert_ne!(first.record.nonce, second.record.nonce);
    assert_eq!(load_entry(&first.record, &key), Ok(b"same entry".to_vec()));
    assert_eq!(load_entry(&second.record, &key), Ok(b"same entry".to_vec()));
}

#[test]
fn a_corrupted_record_does_not_load() {
    let key = [3u8; 32];
    let record = seal_record(b"{\"password\":\"p!\"}", &key).unwrap();
    let mut corrupted = record.clone();
    let first = corrupted.ciphertext.remove(0);
    corrupted.ciphertext.insert(0, if first == 'A' { 'B' } else { 'A' });
    assert_eq!(load_entry(&corrupted, &key), Err(CryptoError::InvalidMasterPassword));
    let mut mangled = record.clone();
    mangled.ciphertext.insert(0, '#');
    assert_eq!(load_entry(&mangled, &key), Err(CryptoError::Corrupt));
    let mut short_nonce = record.clone();
    short_nonce.nonce = "AAAA".to_string();
    assert_eq!(load_entry(&short_nonce, &key), Err(CryptoError::Corrupt));
}

#[test]
fn a_record_does_not_load_under_another_key() {
    let record = seal_record(b"entry", &[3u8; 32]).unwrap();
    assert_eq!(load_entry(&record, &[4u8; 32]), Err(CryptoError::InvalidMasterPassword));
}

#[test]
fn save_entry_names_a_file_in_the_users_store() {
    let key = [3u8; 32];
    match save_entry("work/gh", b"p!", &key) {
        Ok(saved) => {
            assert!(saved.file.ends_with("pm-store/store/work/gh.enc"));
            assert_eq!(load_entry(&saved.record, &key), Ok(b"p!".to_vec()));
        }
        Err(e) => assert_eq!(e, StoreError::NoDataDir),
    }
}

#[test]
fn a_record_with_one_flipped_bit_in_its_text_does_not_load() {
    let key = [3u8; 32];
    let record = seal_record(b"entry bytes", &key).unwrap();
    for field in 0..2 {
        let text = if field == 0 { record.ciphertext.clone() } else { record.nonce.clone() };
        for i in 0..text.len() {
            for bit in 0..7 {
                let mut bytes = text.clone().into_bytes();
                bytes[i] ^= 1 << bit;
                let flipped = match String::from_utf8(bytes) {
                    Ok(flipped) => flipped,
                    Err(_) => unreachable!(),
                };
                let mut tampered = record.clone();
                if field == 0 {
                    tampered.ciphertext = flipped;
                } else {
                    tampered.nonce = flipped;
                }
                assert!(load_entry(&tampered, &key).is_err());
            }
        }
    }
}
