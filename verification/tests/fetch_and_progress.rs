use launcher_core::fetch::check_downloaded;
use launcher_core::fetch::plan_fetch;
use launcher_core::fetch::FetchAction;
use launcher_core::model::FetchError;
use launcher_core::progress::should_emit;
use launcher_core::progress::stage_label;
use launcher_core::progress::stage_percentage;
use launcher_core::scheduler::batch_progress;
use launcher_core::scheduler::first_error;
use launcher_core::strutil::substitute_arch;
use launcher_core::strutil::u32_to_string;

#[test]
fn valid_destination_is_skipped() {
    // a task satisfied by a previous run short-circuits on the next one
    assert_eq!(plan_fetch(Some("aabb"), true, true), FetchAction::Skip);
    assert_eq!(plan_fetch(Some(""), true, false), FetchAction::Skip);
    assert_eq!(plan_fetch(None, true, false), FetchAction::Skip);
}

#[test]
fn missing_or_corrupt_destination_is_fetched() {
    assert_eq!(plan_fetch(Some("aabb"), false, false), FetchAction::Download);
    // corrupted on disk: exists, digest no longer matches
    assert_eq!(plan_fetch(Some("aabb"), true, false), FetchAction::Download);
    assert_eq!(plan_fetch(Some(""), false, false), FetchAction::Download);
    assert_eq!(plan_fetch(None, false, false), FetchAction::Download);
}

#[test]
fn integrity_gate_on_fresh_downloads() {
    assert!(check_downloaded(Some("aabb"), true).is_ok());
    assert!(matches!(check_downloaded(Some("aabb"), false), Err(FetchError::Integrity)));
    assert!(check_downloaded(Some(""), false).is_ok());
    assert!(check_downloaded(None, false).is_ok());
}

#[test]
fn decimal_rendering() {
    assert_eq!(u32_to_string(0), "0");
    assert_eq!(u32_to_string(7), "7");
    assert_eq!(u32_to_string(150), "150");
    assert_eq!(u32_to_string(4294967295), "4294967295");
}

#[test]
fn arch_placeholder_substitution() {
    assert_eq!(substitute_arch("natives-windows-${arch}", "x86_64"), "natives-windows-64");
    assert_eq!(substitute_arch("natives-windows-${arch}", "x86"), "natives-windows-32");
    assert_eq!(substitute_arch("${arch}-${arch}", "x86_64"), "64-64");
    assert_eq!(substitute_arch("natives-linux", "x86_64"), "natives-linux");
    assert_eq!(substitute_arch("${arch", "x86_64"), "${arch");
}

#[test]
fn percentages_stay_in_the_stage_range() {
    assert_eq!(stage_percentage(10, 25, 0, 150), 10);
    assert_eq!(stage_percentage(10, 25, 5, 150), 10);
    assert_eq!(stage_percentage(10, 25, 75, 150), 22);
    assert_eq!(stage_percentage(10, 25, 150, 150), 35);
    assert_eq!(stage_percentage(35, 65, 150, 150), 100);
    let mut last = 0;
    for done in 0..=150 {
        let p = stage_percentage(35, 65, done, 150);
        assert!(p >= last);
        last = p;
    }
    assert_eq!(last, 100);
}

#[test]
fn emit_gating() {
    assert!(should_emit(5, 150, 5));
    assert!(!should_emit(7, 150, 5));
    assert!(should_emit(150, 150, 7));
    assert!(should_emit(100, 150, 100));
    assert!(!should_emit(149, 150, 100));
}

#[test]
fn stage_labels_carry_the_counts() {
    assert_eq!(stage_label("Downloading libraries", 5, 150), "Downloading libraries (5/150)");
    let ev = batch_progress("Downloading assets", 100, 150, 35, 65, 100).unwrap();
    assert_eq!(ev.stage, "Downloading assets (100/150)");
    assert_eq!(ev.current, 100);
    assert_eq!(ev.total, 150);
    assert_eq!(ev.percentage, 35 + 100 * 65 / 150);
    assert!(batch_progress("Downloading assets", 99, 150, 35, 65, 100).is_none());
}

#[test]
fn batch_success_returns_paths_in_order() {
    let mut results: Vec<Result<String, FetchError>> =
        vec![Ok("a".to_string()), Ok("b".to_string()), Ok("c".to_string())];
    let out = first_error(&mut results).unwrap();
    assert_eq!(out, vec!["a".to_string(), "b".to_string(), "c".to_string()]);
}

#[test]
fn batch_failure_surfaces_the_first_error() {
    let mut results: Vec<Result<String, FetchError>> = vec![
        Ok("a".to_string()),
        Err(FetchError::Transport("boom".to_string())),
        Ok("c".to_string()),
        Err(FetchError::Integrity),
    ];
    match first_error(&mut results) {
        Err(FetchError::Transport(m)) => assert_eq!(m, "boom"),
        other => panic!("expected the first transport error, got {:?}", other.map(|v| v.len())),
    }
}
