use log_issues::freshness::{
    extract_log_version, outdated_launcher, resolve_start, resolve_step, ResolveEvent,
    ResolveState,
};
use log_issues::pipeline::find;
use log_issues::semver::{is_outdated, semver_split};
use log_issues::AnalysisError;

#[test]
fn semver_split_takes_first_two_components() {
    assert_eq!(semver_split("5.12.3"), vec![5, 12]);
    assert_eq!(semver_split("5.2.0"), vec![5, 2]);
    assert_eq!(semver_split("2.1"), vec![2, 1]);
}

#[test]
fn semver_split_malformed_groups() {
    assert_eq!(semver_split("5"), vec![5]);
    assert_eq!(semver_split("abc"), Vec::<u64>::new());
    assert_eq!(semver_split("a.5.3"), vec![5]);
    assert_eq!(semver_split("5."), vec![5]);
    assert_eq!(semver_split(""), Vec::<u64>::new());
}

#[test]
fn is_outdated_comparison_rule() {
    assert!(is_outdated(&vec![5, 1], &vec![5, 2]));
    assert!(!is_outdated(&vec![5, 2], &vec![5, 1]));
    assert!(!is_outdated(&vec![5, 2], &vec![5, 2]));
    assert!(is_outdated(&vec![4, 9], &vec![5, 0]));
    // a component count other than two counts as outdated, whatever the values
    assert!(is_outdated(&vec![9], &vec![5, 2]));
    assert!(is_outdated(&vec![], &vec![5, 2]));
}

#[test]
fn extract_version_from_banner() {
    let log = "Prism Launcher version: 5.1.2 (official)";
    assert_eq!(extract_log_version(log), Some("5.1.2".to_string()));
    assert_eq!(extract_log_version("no banner here"), None);
    let two = "Prism Launcher version: 6.2";
    assert_eq!(extract_log_version(two), Some("6.2".to_string()));
}

#[test]
fn outdated_version_names_both_versions() {
    let issue = outdated_launcher("5.1.2", "5.2.0").expect("should be outdated");
    assert_eq!(issue.0, "Outdated Prism Launcher");
    assert!(issue.1.contains("5.1.2"));
    assert!(issue.1.contains("5.2.0"));
    assert_eq!(
        issue.1,
        "Your installed version is 5.1.2, while the newest version is 5.2.0.\nPlease update; for more info see https://prismlauncher.org/download/"
    );
}

#[test]
fn newer_or_equal_version_is_not_outdated() {
    assert!(outdated_launcher("5.2.0", "5.1.9").is_none());
    assert!(outdated_launcher("5.2.0", "5.2.0").is_none());
}

#[test]
fn malformed_log_version_counts_as_outdated() {
    let issue = outdated_launcher("5", "5.2.0").expect("component count differs from two");
    assert_eq!(issue.0, "Outdated Prism Launcher");
}

#[test]
fn cache_hit_resolves_without_network() {
    let s = resolve_start(true);
    assert!(matches!(s, ResolveState::CacheRead));
    let s = resolve_step(s, ResolveEvent::CacheReadOk("5.2.0".to_string()));
    match s {
        ResolveState::Resolved { latest } => assert_eq!(latest, "5.2.0"),
        _ => panic!("expected resolution straight from the cache"),
    }
}

#[test]
fn cache_miss_fetches_and_writes_back_once() {
    let s = resolve_start(true);
    let s = resolve_step(s, ResolveEvent::CacheReadErr);
    assert!(matches!(s, ResolveState::Fetch { write_back: true }));
    let s = resolve_step(s, ResolveEvent::FetchOk("5.2.0".to_string()));
    match &s {
        ResolveState::WriteBack { latest } => assert_eq!(latest, "5.2.0"),
        _ => panic!("a fetched version must be written back"),
    }
    let s = resolve_step(s, ResolveEvent::WriteBackOk);
    match s {
        ResolveState::Resolved { latest } => assert_eq!(latest, "5.2.0"),
        _ => panic!("expected resolution after the write-back"),
    }
}

#[test]
fn no_cache_fetches_without_writing_back() {
    let s = resolve_start(false);
    assert!(matches!(s, ResolveState::Fetch { write_back: false }));
    let s = resolve_step(s, ResolveEvent::FetchOk("5.2.0".to_string()));
    match s {
        ResolveState::Resolved { latest } => assert_eq!(latest, "5.2.0"),
        _ => panic!("expected resolution straight from the network"),
    }
}

#[test]
fn fetch_failure_fails_resolution() {
    let s = resolve_start(false);
    let s = resolve_step(s, ResolveEvent::FetchErr);
    match s {
        ResolveState::Failed { error } => assert_eq!(error, AnalysisError::ResolutionFailure),
        _ => panic!("expected a hard resolution failure"),
    }
}

#[test]
fn write_back_failure_fails_resolution() {
    let s = resolve_start(true);
    let s = resolve_step(s, ResolveEvent::CacheReadErr);
    let s = resolve_step(s, ResolveEvent::FetchOk("5.2.0".to_string()));
    let s = resolve_step(s, ResolveEvent::WriteBackErr);
    match s {
        ResolveState::Failed { error } => assert_eq!(error, AnalysisError::CacheWriteFailure),
        _ => panic!("expected a hard cache-write failure"),
    }
}

#[test]
fn find_appends_freshness_issue_last() {
    let log = "java.lang.OutOfMemoryError\nPrism Launcher version: 5.1.2\n";
    let log_version = extract_log_version(log).expect("banner present");
    let freshness = outdated_launcher(&log_version, "5.2.0");
    assert!(freshness.is_some());
    let issues = find(log, Ok(freshness)).expect("no hard error");
    assert_eq!(issues.len(), 2);
    assert_eq!(issues[0].0, "Out of Memory");
    assert_eq!(issues[1].0, "Outdated Prism Launcher");
}

#[test]
fn find_without_freshness_issue() {
    let log = "java.lang.OutOfMemoryError";
    let issues = find(log, Ok(None)).expect("no hard error");
    assert_eq!(issues.len(), 1);
    assert_eq!(issues[0].0, "Out of Memory");
}

#[test]
fn find_propagates_hard_error_and_returns_no_issues() {
    let log = "java.lang.OutOfMemoryError";
    let r = find(log, Err(AnalysisError::ResolutionFailure));
    assert_eq!(r, Err(AnalysisError::ResolutionFailure));
    let r = find(log, Err(AnalysisError::CacheWriteFailure));
    assert_eq!(r, Err(AnalysisError::CacheWriteFailure));
}

#[test]
fn analysis_is_idempotent() {
    let log = "Unrecognized VM option 'Foo'\n[\u{2714}] OptiFine_1.8.9\nPrism Launcher version: 5.1.2\n";
    let run = || {
        let log_version = extract_log_version(log).expect("banner present");
        let freshness = outdated_launcher(&log_version, "5.2.0");
        find(log, Ok(freshness)).expect("no hard error")
    };
    let first = run();
    let second = run();
    assert_eq!(first, second);
    assert_eq!(first.len(), 3);
}
