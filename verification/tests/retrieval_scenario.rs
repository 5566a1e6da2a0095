use launcher_core::model::Artifact;
use launcher_core::model::AssetIndexInfo;
use launcher_core::model::DownloadInfo;
use launcher_core::model::FetchError;
use launcher_core::model::Library;
use launcher_core::model::LibraryDownloads;
use launcher_core::model::OsRule;
use launcher_core::model::Platform;
use launcher_core::model::VersionDetails;
use launcher_core::model::VersionDownloads;
use launcher_core::model::VersionEntry;
use launcher_core::model::VersionManifest;
use launcher_core::orchestrator::asset_stage_progress;
use launcher_core::orchestrator::library_stage_progress;
use launcher_core::orchestrator::Retrieval;
use launcher_core::orchestrator::RetrievalState;

fn lib_with_artifact(name: &str, rules: Option<Vec<OsRule>>) -> Library {
    Library {
        name: name.to_string(),
        downloads: Some(LibraryDownloads {
            artifact: Some(Artifact {
                path: format!("{}.jar", name),
                sha1: "ab12".to_string(),
                url: format!("https://h/{}.jar", name),
            }),
            classifiers: vec![],
        }),
        natives: None,
        url: None,
        rules,
    }
}

fn scenario_details() -> VersionDetails {
    VersionDetails {
        id: "1.20.4".to_string(),
        downloads: Some(VersionDownloads {
            client: DownloadInfo {
                url: "https://h/client.jar".to_string(),
                sha1: "cc12".to_string(),
            },
        }),
        libraries: vec![
            lib_with_artifact("one", None),
            lib_with_artifact(
                "two",
                Some(vec![OsRule { allow: true, os_name: Some("linux".to_string()), os_arch: None }]),
            ),
            lib_with_artifact(
                "three",
                Some(vec![OsRule {
                    allow: false,
                    os_name: Some("linux".to_string()),
                    os_arch: None,
                }]),
            ),
        ],
        asset_index: Some(AssetIndexInfo {
            id: "12".to_string(),
            url: "https://h/12.json".to_string(),
            sha1: "dd34".to_string(),
        }),
    }
}

fn index_doc(objects: usize) -> String {
    let mut doc = String::from("{\"objects\": {");
    for i in 0..objects {
        if i > 0 {
            doc.push(',');
        }
        doc.push_str(&format!("\"name-{}\": {{\"hash\": \"{:040x}\", \"size\": {}}}", i, i + 1, i));
    }
    doc.push_str("}}");
    doc
}

#[test]
fn a_full_run_counts_its_fetches_and_events() {
    let platform = Platform { os_name: "linux".to_string(), arch: "x86_64".to_string() };
    let (mut run, ev0) = Retrieval::begin("/r".to_string(), platform, "1.20.4".to_string());
    assert_eq!(ev0.percentage, 0);

    let manifest = VersionManifest {
        versions: vec![
            VersionEntry { id: "1.20.3".to_string(), url: "https://h/3.json".to_string() },
            VersionEntry { id: "1.20.4".to_string(), url: "https://h/4.json".to_string() },
        ],
    };
    assert_eq!(run.on_manifest(&manifest).unwrap(), "https://h/4.json");

    let (client_task, json_path, ev5) = run.on_details(scenario_details());
    // exactly one client fetch
    let client_task = client_task.unwrap();
    assert_eq!(client_task.url, "https://h/client.jar");
    assert_eq!(client_task.path, "/r/versions/1.20.4/1.20.4.jar");
    assert_eq!(json_path, "/r/versions/1.20.4/1.20.4.json");
    assert_eq!(ev5.percentage, 5);

    let (library_tasks, ev10) = run.on_client_done();
    // 2 of the 3 libraries apply; the third is excluded by its rule
    assert_eq!(library_tasks.len(), 2);
    assert_eq!(library_tasks[0].url, "https://h/one.jar");
    assert_eq!(library_tasks[1].url, "https://h/two.jar");
    assert_eq!(ev10.percentage, 10);

    // library stage: the final event always fires; with emit_every = 5
    // nothing fires before it at this size
    let total = library_tasks.len() as u32;
    let mut library_events = 1; // the stage-opening event
    for done in 1..=total {
        if let Some(ev) = library_stage_progress(done, total) {
            library_events += 1;
            assert_eq!(ev.percentage, 10 + done * 25 / total);
        }
    }
    assert!(library_events >= 2);

    let (index_task, ev35) = run.on_libraries_done();
    // exactly one index fetch
    let index_task = index_task.unwrap();
    assert_eq!(index_task.url, "https://h/12.json");
    assert_eq!(index_task.path, "/r/assets/indexes/12.json");
    assert_eq!(ev35.percentage, 35);

    let doc = index_doc(150);
    let asset_tasks = run.on_asset_index(&doc).unwrap();
    // one fetch per named object, 150 in all
    assert_eq!(asset_tasks.len(), 150);
    assert_eq!(asset_tasks[0].sha1, format!("{:040x}", 1));

    // asset stage: one threshold event at 100, plus the final event at 150
    let mut asset_events = 0;
    let mut last_pct = 35;
    for done in 1..=150 {
        if let Some(ev) = asset_stage_progress(done, 150) {
            asset_events += 1;
            assert!(ev.percentage >= last_pct);
            last_pct = ev.percentage;
        }
    }
    assert_eq!(asset_events, 2);
    assert_eq!(last_pct, 100);

    let (details, done_ev) = run.finish();
    assert_eq!(details.id, "1.20.4");
    assert_eq!(done_ev.percentage, 100);
    assert_eq!(done_ev.stage, "Complete!");
    assert!(matches!(run.state, RetrievalState::Done));
}

#[test]
fn an_absent_version_fails_with_not_found() {
    let platform = Platform { os_name: "linux".to_string(), arch: "x86_64".to_string() };
    let (mut run, _) = Retrieval::begin("/r".to_string(), platform, "9.9.9".to_string());
    let manifest = VersionManifest {
        versions: vec![VersionEntry { id: "1.20.4".to_string(), url: "https://h/4.json".to_string() }],
    };
    assert!(matches!(run.on_manifest(&manifest), Err(FetchError::NotFound)));
    assert!(matches!(run.state, RetrievalState::Failed));
}

#[test]
fn a_failing_stage_fails_the_run() {
    let platform = Platform { os_name: "linux".to_string(), arch: "x86_64".to_string() };
    let (mut run, _) = Retrieval::begin("/r".to_string(), platform, "1.20.4".to_string());
    let err = run.fail(FetchError::Transport("connection reset".to_string()));
    assert!(matches!(err, FetchError::Transport(m) if m == "connection reset"));
    assert!(matches!(run.state, RetrievalState::Failed));
}

#[test]
fn a_malformed_index_fails_the_run() {
    let platform = Platform { os_name: "linux".to_string(), arch: "x86_64".to_string() };
    let (mut run, _) = Retrieval::begin("/r".to_string(), platform, "1.20.4".to_string());
    let manifest = VersionManifest {
        versions: vec![VersionEntry { id: "1.20.4".to_string(), url: "https://h/4.json".to_string() }],
    };
    run.on_manifest(&manifest).unwrap();
    run.on_details(scenario_details());
    run.on_client_done();
    run.on_libraries_done();
    assert!(matches!(run.on_asset_index("{\"objects\": oops"), Err(FetchError::Parse)));
    assert!(matches!(run.state, RetrievalState::Failed));
}
