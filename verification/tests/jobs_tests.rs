use trueos_rads::jobs::{
    dist_artifact_file, dist_artifact_line, package_plan_line, GENERATED_FILES_LINE,
    LOADING_PROJECT_LINE, VALIDATING_BLUEPRINT_LINE,
    command_failure, diagnostic_tail, failure_label, job_failed_line, looks_like_link_failure,
    missing_project_file, pack_collect_line, pack_required_files, pipeline_for_kind,
    project_for_kind, running_command_line, stage_failed_line, stage_failure_error,
    stage_passed_line, stage_started_line, JobBook, JobEventType, JobKind, JobStage, JobStatus,
    JobStream, MAX_RECENT_JOBS, pack_steps, PackStep,
};

fn generate(project: &str) -> JobKind {
    JobKind::Generate {
        project: project.to_string(),
    }
}

#[test]
fn pipelines_follow_the_job_kind() {
    let p = "/tmp/p".to_string();
    assert_eq!(pipeline_for_kind(&JobKind::Generate { project: p.clone() }), vec![JobStage::Generate]);
    assert_eq!(pipeline_for_kind(&JobKind::Check { project: p.clone() }), vec![JobStage::Generate, JobStage::Check]);
    assert_eq!(
        pipeline_for_kind(&JobKind::Build { project: p.clone() }),
        vec![JobStage::Generate, JobStage::Check, JobStage::Build]
    );
    assert_eq!(pipeline_for_kind(&JobKind::Pack { project: p.clone() }), vec![JobStage::Generate, JobStage::Pack]);
    assert_eq!(
        pipeline_for_kind(&JobKind::FullAuto { project: p.clone() }),
        vec![JobStage::Generate, JobStage::Check, JobStage::Pack]
    );
    assert_eq!(
        pipeline_for_kind(&JobKind::Dist { project: p.clone() }),
        vec![JobStage::Generate, JobStage::Check, JobStage::Build, JobStage::Pack, JobStage::Dist]
    );
    assert_eq!(project_for_kind(&JobKind::Dist { project: p.clone() }), &p);
}

#[test]
fn generate_job_records_stage_status() {
    let mut book = JobBook::new();
    let id = 7u128;
    let queued = book.spawn(id, generate("/tmp/stage-check"), 1_000).unwrap();
    assert_eq!(queued.line, "queued");
    assert_eq!(queued.sequence, 1);
    assert_eq!(queued.status, JobStatus::Queued);

    book.note(id, JobStatus::Running, JobEventType::Started, JobStream::System, None, None, "started", 1_001);
    let started = stage_started_line(JobStage::Generate);
    book.note(
        id,
        JobStatus::Running,
        JobEventType::Output,
        JobStream::System,
        Some(JobStage::Generate),
        Some(JobStatus::Running),
        &started,
        1_002,
    );
    let passed = stage_passed_line(JobStage::Generate);
    book.note(
        id,
        JobStatus::Running,
        JobEventType::Output,
        JobStream::System,
        Some(JobStage::Generate),
        Some(JobStatus::Passed),
        &passed,
        1_003,
    );
    let finished = book
        .note(id, JobStatus::Passed, JobEventType::Finished, JobStream::System, None, None, "finished", 1_004)
        .unwrap();
    assert_eq!(finished.sequence, 5);

    let job = book.get(id).unwrap();
    assert_eq!(job.status, JobStatus::Passed);
    assert_eq!(job.current_stage, Some(JobStage::Generate));
    assert_eq!(job.stages.len(), 1);
    assert_eq!(job.stages[0].status, JobStatus::Passed);
    assert_eq!(job.stages[0].started_at, Some(1_002));
    assert_eq!(job.stages[0].updated_at, Some(1_003));
    assert_eq!(job.stages[0].message.as_deref(), Some("stage generate passed"));
    assert_eq!(
        job.lines,
        vec!["queued", "started", "stage generate started", "stage generate passed", "finished"]
    );
    assert_eq!(job.created_at, 1_000);
    assert_eq!(job.updated_at, 1_004);
    let sequences = job.events.iter().map(|e| e.sequence).collect::<Vec<_>>();
    assert_eq!(sequences, vec![1, 2, 3, 4, 5]);
}

#[test]
fn notes_for_unknown_jobs_only_use_a_sequence_number() {
    let mut book = JobBook::new();
    assert!(book
        .note(99, JobStatus::Running, JobEventType::Output, JobStream::Stdout, None, None, "x", 5)
        .is_none());
    assert_eq!(book.next_sequence(), 2);
    assert!(book.list().is_empty());
    assert!(book.current_activity().is_none());
}

#[test]
fn recent_jobs_are_listed_newest_first_and_bounded() {
    let mut book = JobBook::new();
    for id in 1..=(MAX_RECENT_JOBS as u128 + 5) {
        book.spawn(id, generate("/tmp/p"), id as i64);
    }
    let jobs = book.list();
    assert_eq!(jobs.len(), MAX_RECENT_JOBS);
    assert_eq!(jobs[0].id, MAX_RECENT_JOBS as u128 + 5);
    assert!(!book.contains(1));
    assert!(book.contains(6));
    assert!(book.get(3).is_none());
}

#[test]
fn current_activity_prefers_the_newest_unfinished_job() {
    let mut book = JobBook::new();
    book.spawn(1, generate("/tmp/a"), 10);
    book.spawn(2, generate("/tmp/b"), 20);
    book.note(2, JobStatus::Passed, JobEventType::Finished, JobStream::System, None, None, "finished", 30);
    let activity = book.current_activity().unwrap();
    assert_eq!(activity.job_id, 1);
    assert_eq!(activity.status, JobStatus::Queued);

    book.note(1, JobStatus::Failed, JobEventType::Finished, JobStream::System, None, None, "failed: x", 40);
    let activity = book.current_activity().unwrap();
    assert_eq!(activity.job_id, 2);
    assert_eq!(activity.status, JobStatus::Passed);
}

#[test]
fn failure_labels_tell_link_failures_apart() {
    assert!(looks_like_link_failure("error: LINKING WITH `cc` failed"));
    assert!(looks_like_link_failure("collect2: ld returned 1 exit status"));
    assert!(!looks_like_link_failure("error[E0425]: cannot find value"));
    assert_eq!(failure_label(JobStage::Build, "undefined reference to `main'"), "link failure");
    assert_eq!(failure_label(JobStage::Build, "mismatched types"), "build failure");
    assert_eq!(failure_label(JobStage::Check, "linker"), "syntax/check failure");
    assert_eq!(failure_label(JobStage::Generate, ""), "generation failure");
    assert_eq!(failure_label(JobStage::Pack, ""), "package failure");
    assert_eq!(failure_label(JobStage::Dist, ""), "dist failure");
}

#[test]
fn diagnostic_tail_keeps_the_last_eight_nonblank_lines() {
    assert_eq!(diagnostic_tail(""), "no stderr");
    assert_eq!(diagnostic_tail("\n  \n"), "no stderr");
    assert_eq!(diagnostic_tail("a\n\nb\r\nc"), "a | b | c");
    let many = (1..=10).map(|n| n.to_string()).collect::<Vec<_>>().join("\n");
    assert_eq!(diagnostic_tail(&many), "3 | 4 | 5 | 6 | 7 | 8 | 9 | 10");
}

#[test]
fn stage_lines_read_as_documented() {
    assert_eq!(stage_started_line(JobStage::Pack), "stage pack started");
    assert_eq!(stage_passed_line(JobStage::Dist), "stage dist passed");
    assert_eq!(
        stage_failed_line(JobStage::Build, "linker `cc` not found"),
        "stage build failed: link failure: linker `cc` not found"
    );
    assert_eq!(
        stage_failure_error(JobStage::Check, "boom"),
        "check stage failed: boom"
    );
    assert_eq!(job_failed_line("check stage failed: boom"), "failed: check stage failed: boom");
    assert_eq!(
        running_command_line("cargo", &vec!["check".to_string()], "/tmp/p"),
        "running `cargo check` in /tmp/p"
    );
    assert_eq!(
        command_failure("exit status: 101", "warning\nerror: x\n"),
        "command exited with exit status: 101; stderr tail: warning | error: x"
    );
    assert_eq!(
        missing_project_file("ui/main.ui2"),
        "missing required project file ui/main.ui2"
    );
}

#[test]
fn pack_needs_the_layout_only_for_ui2_apps() {
    assert_eq!(
        pack_required_files(true),
        vec!["app.blueprint.json", "package/package.blueprint.json", "ui/main.ui2"]
    );
    assert_eq!(
        pack_required_files(false),
        vec!["app.blueprint.json", "package/package.blueprint.json"]
    );
    assert_eq!(pack_collect_line(true), "collecting UI2 layouts and assets");
    assert_eq!(pack_collect_line(false), "collecting app artifacts and assets");
}

#[test]
fn stage_names_are_lowercase() {
    assert_eq!(JobStage::Generate.as_str(), "generate");
    assert_eq!(JobStage::Check.as_str(), "check");
    assert_eq!(JobStage::Build.as_str(), "build");
    assert_eq!(JobStage::Pack.as_str(), "pack");
    assert_eq!(JobStage::Dist.as_str(), "dist");
}

#[test]
fn pack_and_dist_lines_name_their_outputs() {
    assert_eq!(package_plan_line("/tmp/p"), "writing package plan for /tmp/p");
    assert_eq!(dist_artifact_file("hello-ui2"), "hello-ui2.bp");
    assert_eq!(
        dist_artifact_line("/tmp/p/dist/hello-ui2.bp"),
        "wrote dist artifact /tmp/p/dist/hello-ui2.bp"
    );
    assert_eq!(LOADING_PROJECT_LINE, "loading rads.project.json");
    assert_eq!(GENERATED_FILES_LINE, "generated RADS project files");
    assert_eq!(VALIDATING_BLUEPRINT_LINE, "validating blueprint");
}

#[test]
fn pack_checks_files_before_reading_the_project() {
    let steps = pack_steps();
    assert_eq!(steps.len(), 10);
    assert!(matches!(steps[0], PackStep::RequireFile("app.blueprint.json")));
    assert!(matches!(steps[1], PackStep::RequireFile("package/package.blueprint.json")));
    assert!(matches!(steps[2], PackStep::ReadProject));
    assert!(matches!(steps[3], PackStep::RequireUi2File("ui/main.ui2")));
    assert!(matches!(steps[4], PackStep::Note(l) if l == VALIDATING_BLUEPRINT_LINE));
    assert!(matches!(steps[5], PackStep::Pause(120)));
    assert!(matches!(steps[6], PackStep::NoteCollecting));
    assert!(matches!(steps[7], PackStep::Pause(120)));
    assert!(matches!(steps[8], PackStep::WritePlan));
    assert!(matches!(steps[9], PackStep::NotePlanWritten));
}

#[test]
fn new_jobs_get_random_fresh_ids() {
    let mut book = JobBook::new();
    let (first, _) = book.spawn_new(generate("/tmp/a"), 5).unwrap();
    assert_eq!(book.list()[0].id, first);
    let mut book = JobBook::new();
    book.spawn(1, generate("/tmp/a"), 10);
    let (id, event) = book.spawn_new(generate("/tmp/b"), 20).unwrap();
    assert_eq!((id >> 76) & 0xf, 4);
    assert_eq!((id >> 62) & 0x3, 2);
    assert_eq!(event.job_id, id);
    assert_eq!(event.line, "queued");
    assert_eq!(event.sequence, 2);
    assert_eq!(event.status, JobStatus::Queued);
    let jobs = book.list();
    assert_eq!(jobs.len(), 2);
    assert_eq!(jobs[0].id, id);
    assert_eq!(jobs[1].id, 1);
    let (other, _) = book.spawn_new(generate("/tmp/c"), 30).unwrap();
    assert_ne!(other, id);
    assert_eq!(book.get(id).unwrap().created_at, 20);
}
