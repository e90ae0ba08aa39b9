use trueos_rads::jobs::{JobBook, JobEventType, JobKind, JobStage, JobStatus, JobStream};
use trueos_rads::pipeline::{
    stage_output, Note, PipelineRun, RunAction, RunEvent, RunPhase,
};

fn lines(notes: &[Note]) -> Vec<&str> {
    notes.iter().map(|n| n.line.as_str()).collect()
}

fn kind(k: &str) -> JobKind {
    let project = "/tmp/p".to_string();
    match k {
        "generate" => JobKind::Generate { project },
        "pack" => JobKind::Pack { project },
        "auto" => JobKind::FullAuto { project },
        _ => JobKind::Dist { project },
    }
}

#[test]
fn passing_job_runs_every_stage_then_finishes() {
    let mut run = PipelineRun::new(&kind("pack"));
    assert_eq!(run.phase(), RunPhase::Waiting);
    let (notes, action) = run.step(RunEvent::Begin);
    assert_eq!(lines(&notes), vec!["started", "stage generate started"]);
    assert_eq!(action, RunAction::RunStage(JobStage::Generate));
    assert_eq!(notes[0].event, JobEventType::Started);
    assert_eq!(notes[1].stage_status, Some(JobStatus::Running));

    let (notes, action) = run.step(RunEvent::StagePassed);
    assert_eq!(lines(&notes), vec!["stage generate passed", "stage pack started"]);
    assert_eq!(notes[0].stage_status, Some(JobStatus::Passed));
    assert_eq!(action, RunAction::RunStage(JobStage::Pack));

    let (notes, action) = run.step(RunEvent::StagePassed);
    assert_eq!(lines(&notes), vec!["stage pack passed", "finished"]);
    assert_eq!(notes[1].status, JobStatus::Passed);
    assert_eq!(notes[1].event, JobEventType::Finished);
    assert_eq!(action, RunAction::Stop);
    assert_eq!(run.phase(), RunPhase::Over);
}

#[test]
fn full_auto_packs_only_if_check_passes() {
    let mut run = PipelineRun::new(&kind("auto"));
    run.step(RunEvent::Begin);
    let (_, action) = run.step(RunEvent::StagePassed);
    assert_eq!(action, RunAction::RunStage(JobStage::Check));
    let (notes, action) = run.step(RunEvent::StageFailed("undefined reference to `x`".to_string()));
    assert_eq!(
        lines(&notes),
        vec![
            "stage check failed: syntax/check failure: undefined reference to `x`",
            "failed: check stage failed: undefined reference to `x`"
        ]
    );
    assert_eq!(notes[0].status, JobStatus::Failed);
    assert_eq!(notes[1].event, JobEventType::Finished);
    assert_eq!(action, RunAction::Stop);
    let (notes, action) = run.step(RunEvent::StagePassed);
    assert!(notes.is_empty());
    assert_eq!(action, RunAction::Stop);
}

#[test]
fn events_out_of_turn_change_nothing() {
    let mut run = PipelineRun::new(&kind("generate"));
    let (notes, action) = run.step(RunEvent::StagePassed);
    assert!(notes.is_empty());
    assert_eq!(action, RunAction::Stop);
    assert_eq!(run.phase(), RunPhase::Waiting);
    run.step(RunEvent::Begin);
    let (notes, _) = run.step(RunEvent::Begin);
    assert!(notes.is_empty());
    assert_eq!(run.phase(), RunPhase::Running(0));
}

#[test]
fn stage_output_is_a_running_line() {
    let n = stage_output(JobStage::Build, JobStream::Stderr, "warning: unused");
    assert_eq!(n.line, "warning: unused");
    assert_eq!(n.stream, JobStream::Stderr);
    assert_eq!(n.stage, Some(JobStage::Build));
    assert_eq!(n.stage_status, Some(JobStatus::Running));
    assert_eq!(n.status, JobStatus::Running);
}

#[test]
fn a_run_drives_the_job_book() {
    let mut book = JobBook::new();
    let k = kind("generate");
    let mut run = PipelineRun::new(&k);
    book.spawn(1, k, 100);
    let mut at = 101;
    let mut event = RunEvent::Begin;
    loop {
        let (notes, action) = run.step(event);
        for n in notes {
            book.note(1, n.status, n.event, n.stream, n.stage, n.stage_status, &n.line, at);
            at += 1;
        }
        match action {
            RunAction::RunStage(_) => event = RunEvent::StagePassed,
            RunAction::Stop => break,
        }
    }
    let job = book.get(1).unwrap();
    assert_eq!(job.status, JobStatus::Passed);
    assert_eq!(job.stages[0].status, JobStatus::Passed);
    assert_eq!(
        job.lines,
        vec!["queued", "started", "stage generate started", "stage generate passed", "finished"]
    );
}
