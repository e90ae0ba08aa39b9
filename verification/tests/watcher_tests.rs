use trueos_rads::jobs::JobKind;
use trueos_rads::watcher::{
    debounce_elapsed, is_ignored_path, project_file_event_kind, reported_paths,
    should_run_for_event, watch_job_kind, FsEventKind, ProjectFileEventKind, WATCH_DEBOUNCE_MS,
};

#[test]
fn watcher_does_not_spawn_jobs_when_full_auto_is_disabled() {
    assert!(watch_job_kind("/tmp/project", false).is_none());
}

#[test]
fn watcher_spawns_full_auto_jobs_only_when_enabled() {
    let kind = watch_job_kind("/tmp/project", true).unwrap();
    assert!(matches!(kind, JobKind::FullAuto { .. }));
    match kind {
        JobKind::FullAuto { project } => assert_eq!(project, "/tmp/project"),
        _ => unreachable!(),
    }
}

#[test]
fn ignored_paths_are_build_and_vcs_output() {
    assert!(is_ignored_path("target/debug/app"));
    assert!(is_ignored_path("/tmp/project/.git/HEAD"));
    assert!(is_ignored_path("package/manifest.trueos.json"));
    assert!(!is_ignored_path("src/main.rs"));
    assert!(!is_ignored_path("targets/x"));
}

#[test]
fn only_relevant_events_trigger_a_run() {
    let src = vec!["src/main.rs".to_string()];
    let ignored = vec!["target/x".to_string(), "dist/y".to_string()];
    let mixed = vec!["target/x".to_string(), "ui/main.ui2".to_string()];
    assert!(should_run_for_event(FsEventKind::Modify, &src));
    assert!(should_run_for_event(FsEventKind::Create, &mixed));
    assert!(!should_run_for_event(FsEventKind::Modify, &ignored));
    assert!(!should_run_for_event(FsEventKind::Other, &src));
    assert!(!should_run_for_event(FsEventKind::Remove, &Vec::new()));
    assert_eq!(reported_paths(&mixed), vec!["ui/main.ui2"]);
}

#[test]
fn event_kinds_map_one_to_one() {
    assert_eq!(project_file_event_kind(FsEventKind::Create), ProjectFileEventKind::Create);
    assert_eq!(project_file_event_kind(FsEventKind::Modify), ProjectFileEventKind::Modify);
    assert_eq!(project_file_event_kind(FsEventKind::Remove), ProjectFileEventKind::Remove);
    assert_eq!(project_file_event_kind(FsEventKind::Other), ProjectFileEventKind::Other);
}

#[test]
fn debounce_waits_for_the_window() {
    assert!(!debounce_elapsed(WATCH_DEBOUNCE_MS - 1));
    assert!(debounce_elapsed(WATCH_DEBOUNCE_MS));
    assert!(debounce_elapsed(u64::MAX));
}
