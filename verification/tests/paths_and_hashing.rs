use launcher_core::hashing::hex_digest_matches;
use launcher_core::hashing::hex_encode;
use launcher_core::hashing::sha1_hex;
use launcher_core::hashing::sha1_matches;
use launcher_core::paths::asset_index_path;
use launcher_core::paths::client_jar_path;
use launcher_core::paths::get_assets_dir;
use launcher_core::paths::get_instance_logos_dir;
use launcher_core::paths::get_instances_dir;
use launcher_core::paths::get_libraries_dir;
use launcher_core::paths::get_minecraft_dir;
use launcher_core::paths::get_skins_dir;
use launcher_core::paths::get_versions_dir;
use launcher_core::paths::str_eq;
use launcher_core::paths::version_json_path;

#[test]
fn directories_hang_off_the_root() {
    assert_eq!(get_instances_dir("/data"), "/data/instances");
    assert_eq!(get_libraries_dir("/data"), "/data/libraries");
    assert_eq!(get_assets_dir("/data"), "/data/assets");
    assert_eq!(get_versions_dir("/data"), "/data/versions");
    assert_eq!(get_instance_logos_dir("/data"), "/data/instance_logos");
    assert_eq!(get_skins_dir("/data"), "/data/skin_collection");
}

#[test]
fn minecraft_dir_follows_the_os() {
    assert_eq!(get_minecraft_dir("windows", "C:/Users/u/AppData/Roaming", "C:/Users/u"),
        "C:/Users/u/AppData/Roaming/PaletheaLauncher");
    assert_eq!(get_minecraft_dir("osx", "/data", "/Users/u"),
        "/Users/u/Library/Application Support/PaletheaLauncher");
    assert_eq!(get_minecraft_dir("linux", "/data", "/home/u"), "/home/u/.palethealauncher");
}

#[test]
fn version_paths_embed_the_id() {
    assert_eq!(client_jar_path("/r", "1.20.4"), "/r/versions/1.20.4/1.20.4.jar");
    assert_eq!(version_json_path("/r", "1.20.4"), "/r/versions/1.20.4/1.20.4.json");
    assert_eq!(asset_index_path("/r", "12"), "/r/assets/indexes/12.json");
}

#[test]
fn str_eq_compares_content() {
    assert!(str_eq("abc", "abc"));
    assert!(!str_eq("abc", "abd"));
    assert!(!str_eq("abc", "ab"));
    assert!(str_eq("", ""));
}

#[test]
fn sha1_of_known_input() {
    // the digest of "abc" is a published reference value
    assert_eq!(sha1_hex(b"abc"), "a9993e364706816aba3e25717850c26c9cd0d89d");
    assert!(sha1_matches(b"abc", "a9993e364706816aba3e25717850c26c9cd0d89d"));
    assert!(!sha1_matches(b"abd", "a9993e364706816aba3e25717850c26c9cd0d89d"));
    assert!(!sha1_matches(b"abc", ""));
}

#[test]
fn hex_encoding_is_two_lowercase_digits_per_byte() {
    assert_eq!(hex_encode(&[]), "");
    assert_eq!(hex_encode(&[0x00, 0x0f, 0xa5, 0xff]), "000fa5ff");
    assert!(hex_digest_matches(&[0xde, 0xad], "dead"));
    assert!(!hex_digest_matches(&[0xde, 0xad], "beef"));
}
