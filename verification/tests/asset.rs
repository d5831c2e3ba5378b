use openlogi::asset::{
    content_matches, digest_matches, file_url, to_lower_hex, find_file, index_url, sync_targets, DeviceEntry,
    FileEntry, DEFAULT_BASE, FETCH_FILES,
};
use openlogi::paths::{config_dir, config_path, join, PathsError};

#[test]
fn index_url_trims_trailing_slashes() {
    assert_eq!(index_url(DEFAULT_BASE), "https://assets.openlogi.org/index.json");
    assert_eq!(index_url("http://host//"), "http://host/index.json");
}

#[test]
fn file_url_joins_depot_path() {
    assert_eq!(
        file_url("https://a.org/", "/depots/mx/", "front_core.png"),
        "https://a.org/depots/mx/front_core.png"
    );
    assert_eq!(file_url("https://a.org", "x/", FETCH_FILES[1]), "https://a.org/x/core_metadata.json");
}

#[test]
fn digest_comparison_ignores_case() {
    assert!(digest_matches("ab12ef", "AB12EF"));
    assert!(!digest_matches("ab12ef", "ab12e"));
    assert!(!digest_matches("ab12ef", "ab12ee"));
    assert!(digest_matches("", ""));
}

#[test]
fn lower_hex_two_digits_per_byte() {
    assert_eq!(to_lower_hex(&[0x00, 0x0f, 0xab, 0xff, 0x10]), "000fabff10");
    assert_eq!(to_lower_hex(&[]), "");
}

#[test]
fn content_digest_is_sha256() {
    let abc = "ba7816bf8f01cfea414140de5dae2223b00361a396177a9cb410ff61f20015ad";
    assert!(content_matches(b"abc", abc));
    assert!(content_matches(b"abc", &abc.to_uppercase()));
    assert!(!content_matches(b"abd", abc));
    assert!(!content_matches(b"abc", "abc"));
}

#[test]
fn find_file_takes_first_named_entry() {
    let entry = DeviceEntry {
        asset_path: "/d/".to_string(),
        files: vec![
            FileEntry { name: "a.png".to_string(), sha256: "1".to_string() },
            FileEntry { name: "front_core.png".to_string(), sha256: "2".to_string() },
            FileEntry { name: "front_core.png".to_string(), sha256: "3".to_string() },
        ],
    };
    assert_eq!(find_file(&entry, "front_core.png").unwrap().sha256, "2");
    assert!(find_file(&entry, "core_metadata.json").is_none());
}

#[test]
fn config_path_ends_in_config_toml() {
    match (config_dir(), config_path()) {
        (Ok(dir), Ok(path)) => {
            assert!(path.ends_with("config.toml"));
            assert!(path.starts_with(dir.trim_end_matches(std::path::MAIN_SEPARATOR)));
            assert_eq!(std::path::PathBuf::from(&path), std::path::Path::new(&dir).join("config.toml"));
        }
        (Err(e), Err(f)) => {
            assert_eq!(e, PathsError::HomeNotFound);
            assert_eq!(f, PathsError::HomeNotFound);
        }
        _ => panic!("directory resolution changed between calls"),
    }
}

#[test]
fn join_adds_one_separator() {
    assert_eq!(join("/home/a/.config/optminus".to_string(), "config.toml", '/'), "/home/a/.config/optminus/config.toml");
    assert_eq!(join("/home/a/".to_string(), "config.toml", '/'), "/home/a/config.toml");
    assert_eq!(join(String::new(), "config.toml", '/'), "config.toml");
}

#[test]
fn join_uses_the_given_separator() {
    assert_eq!(join(r"C:\Users\a\optminus".to_string(), "config.toml", '\\'), r"C:\Users\a\optminus\config.toml");
    assert_eq!(join(r"C:\Users\a\".to_string(), "config.toml", '\\'), r"C:\Users\a\config.toml");
    assert_eq!(join("C:/Users/a/".to_string(), "config.toml", '\\'), "C:/Users/a/config.toml");
}

#[test]
fn sync_targets_sorted_without_duplicates() {
    let r = sync_targets(
        Some("mx-master".to_string()),
        vec!["lift".to_string(), "mx-master".to_string(), "anywhere".to_string(), "lift".to_string()],
    );
    assert_eq!(r, vec!["anywhere".to_string(), "lift".to_string(), "mx-master".to_string()]);
    assert!(sync_targets(None, vec![]).is_empty());
    assert_eq!(sync_targets(Some("b".to_string()), vec!["ab".to_string(), "a".to_string()]), vec!["a", "ab", "b"]);
}
