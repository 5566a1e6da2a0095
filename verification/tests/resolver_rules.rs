use launcher_core::model::Artifact;
use launcher_core::model::Library;
use launcher_core::model::LibraryDownloads;
use launcher_core::model::OsRule;
use launcher_core::model::Platform;
use launcher_core::resolver::library_name_to_path;
use launcher_core::resolver::resolve_library;
use launcher_core::resolver::should_use_library;

fn linux64() -> Platform {
    Platform { os_name: "linux".to_string(), arch: "x86_64".to_string() }
}

fn plain_library(name: &str) -> Library {
    Library { name: name.to_string(), downloads: None, natives: None, url: None, rules: None }
}

#[test]
fn coordinates_map_to_repository_paths() {
    assert_eq!(
        library_name_to_path("org.lwjgl:lwjgl:3.2.2").unwrap(),
        "org/lwjgl/lwjgl/3.2.2/lwjgl-3.2.2.jar"
    );
    assert_eq!(
        library_name_to_path("org.lwjgl:lwjgl:3.2.2:natives-linux").unwrap(),
        "org/lwjgl/lwjgl/3.2.2/lwjgl-3.2.2-natives-linux.jar"
    );
    assert!(library_name_to_path("org.lwjgl:lwjgl").is_none());
    assert!(library_name_to_path("a:b:c:d:e").is_none());
    assert!(library_name_to_path("").is_none());
}

#[test]
fn no_rules_always_applies() {
    assert!(should_use_library(&plain_library("a:b:c"), &linux64()));
}

#[test]
fn last_matching_rule_decides() {
    let mut lib = plain_library("a:b:c");
    lib.rules = Some(vec![
        OsRule { allow: true, os_name: None, os_arch: None },
        OsRule { allow: false, os_name: Some("osx".to_string()), os_arch: None },
    ]);
    assert!(should_use_library(&lib, &linux64()));
    lib.rules = Some(vec![
        OsRule { allow: true, os_name: None, os_arch: None },
        OsRule { allow: false, os_name: Some("linux".to_string()), os_arch: None },
    ]);
    assert!(!should_use_library(&lib, &linux64()));
    lib.rules = Some(vec![OsRule { allow: true, os_name: Some("windows".to_string()), os_arch: None }]);
    assert!(!should_use_library(&lib, &linux64()));
    lib.rules = Some(vec![]);
    assert!(!should_use_library(&lib, &linux64()));
}

#[test]
fn excluded_library_contributes_no_task() {
    let mut lib = plain_library("a:b:c");
    lib.rules =
        Some(vec![OsRule { allow: false, os_name: Some("linux".to_string()), os_arch: None }]);
    lib.downloads = Some(LibraryDownloads {
        artifact: Some(Artifact {
            path: "a/b/c/b-c.jar".to_string(),
            sha1: "aa".to_string(),
            url: "https://h/x.jar".to_string(),
        }),
        classifiers: vec![],
    });
    assert!(resolve_library(&lib, &linux64(), "/r/libraries").is_empty());
}

#[test]
fn structured_artifact_becomes_one_task() {
    let mut lib = plain_library("a:b:c");
    lib.downloads = Some(LibraryDownloads {
        artifact: Some(Artifact {
            path: "a/b/c/b-c.jar".to_string(),
            sha1: "aabb".to_string(),
            url: "https://h/b-c.jar".to_string(),
        }),
        classifiers: vec![],
    });
    let tasks = resolve_library(&lib, &linux64(), "/r/libraries");
    assert_eq!(tasks.len(), 1);
    assert_eq!(tasks[0].url, "https://h/b-c.jar");
    assert_eq!(tasks[0].path, "/r/libraries/a/b/c/b-c.jar");
    assert_eq!(tasks[0].sha1, "aabb");
}

#[test]
fn native_classifier_is_resolved_for_the_platform() {
    let mut lib = plain_library("org.lwjgl:lwjgl:3.2.2");
    lib.natives = Some(vec![
        ("windows".to_string(), "natives-windows-${arch}".to_string()),
        ("linux".to_string(), "natives-linux-${arch}".to_string()),
    ]);
    lib.downloads = Some(LibraryDownloads {
        artifact: None,
        classifiers: vec![(
            "natives-linux-64".to_string(),
            Artifact {
                path: "n.jar".to_string(),
                sha1: "cc".to_string(),
                url: "https://h/n.jar".to_string(),
            },
        )],
    });
    let tasks = resolve_library(&lib, &linux64(), "/r/libraries");
    assert_eq!(tasks.len(), 1);
    assert_eq!(tasks[0].url, "https://h/n.jar");
    assert_eq!(tasks[0].path, "/r/libraries/n.jar");
    let on_windows =
        Platform { os_name: "windows".to_string(), arch: "x86_64".to_string() };
    // windows asks for natives-windows-64, which this library does not carry
    assert!(resolve_library(&lib, &on_windows, "/r/libraries").is_empty());
}

#[test]
fn legacy_base_url_keeps_empty_digest() {
    let mut lib = plain_library("com.example:thing:1.0");
    lib.url = Some("https://legacy.example/repo/".to_string());
    let tasks = resolve_library(&lib, &linux64(), "/r/libraries");
    assert_eq!(tasks.len(), 1);
    assert_eq!(tasks[0].url, "https://legacy.example/repo/com/example/thing/1.0/thing-1.0.jar");
    assert_eq!(tasks[0].path, "/r/libraries/com/example/thing/1.0/thing-1.0.jar");
    assert_eq!(tasks[0].sha1, "");

    lib.url = Some("https://legacy.example/repo".to_string());
    let tasks = resolve_library(&lib, &linux64(), "/r/libraries");
    assert_eq!(tasks[0].url, "https://legacy.example/repo/com/example/thing/1.0/thing-1.0.jar");
}

#[test]
fn default_host_serves_undeclared_libraries() {
    let lib = plain_library("com.example:thing:1.0");
    let tasks = resolve_library(&lib, &linux64(), "/r/libraries");
    assert_eq!(tasks.len(), 1);
    assert_eq!(
        tasks[0].url,
        "https://libraries.minecraft.net/com/example/thing/1.0/thing-1.0.jar"
    );
    assert_eq!(tasks[0].sha1, "");
}
