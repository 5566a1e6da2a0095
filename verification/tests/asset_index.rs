use launcher_core::assets::expand_asset_tasks;
use launcher_core::assets::parse_asset_index;
use launcher_core::model::FetchError;

#[test]
fn hashes_come_out_in_document_order() {
    let doc = r#"{"objects": {
        "minecraft/sounds/a.ogg": {"hash": "aa11223344556677889900112233445566778899", "size": 10},
        "minecraft/sounds/b.ogg": {"size": 20, "hash": "bb11223344556677889900112233445566778899"}
    }}"#;
    let hashes = parse_asset_index(doc).unwrap();
    assert_eq!(hashes, vec![
        "aa11223344556677889900112233445566778899".to_string(),
        "bb11223344556677889900112233445566778899".to_string(),
    ]);
}

#[test]
fn entries_without_a_hash_are_skipped() {
    let doc = r#"{"objects": {"a": {"size": 10}, "b": {"hash": "cc00"}, "c": {"hash": 5}}}"#;
    assert_eq!(parse_asset_index(doc).unwrap(), vec!["cc00".to_string()]);
}

#[test]
fn other_top_level_members_are_ignored() {
    let doc = r#"{"virtual": true, "objects": {"a": {"hash": "dd00"}}, "extra": [1, -2, null, "x"]}"#;
    assert_eq!(parse_asset_index(doc).unwrap(), vec!["dd00".to_string()]);
}

#[test]
fn documents_without_an_object_map_yield_nothing() {
    assert!(parse_asset_index(r#"{}"#).unwrap().is_empty());
    assert!(parse_asset_index(r#"{"objects": []}"#).unwrap().is_empty());
    assert!(parse_asset_index(r#"[1, 2]"#).unwrap().is_empty());
    assert!(parse_asset_index(r#""just a string""#).unwrap().is_empty());
}

#[test]
fn escapes_in_names_are_understood() {
    let doc = "{\"objects\": {\"a\\\"b\\\\c\\/d\": {\"hash\": \"ee00\"}}}";
    assert_eq!(parse_asset_index(doc).unwrap(), vec!["ee00".to_string()]);
}

#[test]
fn malformed_documents_are_parse_errors() {
    assert!(matches!(parse_asset_index("{"), Err(FetchError::Parse)));
    assert!(matches!(parse_asset_index(r#"{"objects": }"#), Err(FetchError::Parse)));
    assert!(matches!(parse_asset_index(r#"{"a": 1} trailing"#), Err(FetchError::Parse)));
    assert!(matches!(parse_asset_index(""), Err(FetchError::Parse)));
    assert!(matches!(parse_asset_index(r#"{"a": 1"#), Err(FetchError::Parse)));
}

#[test]
fn tasks_are_content_addressed() {
    let hashes = vec!["ab34".to_string(), "cd56".to_string()];
    let tasks = expand_asset_tasks(&hashes, "/r/assets").unwrap();
    assert_eq!(tasks.len(), 2);
    assert_eq!(tasks[0].url, "https://resources.download.minecraft.net/ab/ab34");
    assert_eq!(tasks[0].path, "/r/assets/objects/ab/ab34");
    assert_eq!(tasks[0].sha1, "ab34");
    assert_eq!(tasks[1].path, "/r/assets/objects/cd/cd56");
}

#[test]
fn a_hash_shorter_than_its_prefix_is_malformed() {
    let hashes = vec!["ab34".to_string(), "c".to_string()];
    assert!(matches!(expand_asset_tasks(&hashes, "/r/assets"), Err(FetchError::Parse)));
}
