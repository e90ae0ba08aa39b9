//! The decisions of a running job: which lines it logs and which stage it
//! runs next, from the outcome of the previous stage. The caller performs
//! each action (running a stage is I/O) and reports back its outcome.

use vstd::prelude::*;
use crate::jobs::{
    self, failure_text, pipeline, stage_text, JobEventType, JobKind, JobStage, JobStatus, JobStream,
};
use crate::text;

verus! {

/// A line to note on the job, with the status it gives the job and the
/// stage it concerns.
pub struct Note {
    pub status: JobStatus,
    pub event: JobEventType,
    pub stream: JobStream,
    pub stage: Option<JobStage>,
    pub stage_status: Option<JobStatus>,
    pub line: String,
}

#[verifier::ext_equal]
pub struct NoteView {
    pub status: JobStatus,
    pub event: JobEventType,
    pub stream: JobStream,
    pub stage: Option<JobStage>,
    pub stage_status: Option<JobStatus>,
    pub line: Seq<char>,
}

impl View for Note {
    type V = NoteView;

    open spec fn view(&self) -> NoteView {
        NoteView {
            status: self.status,
            event: self.event,
            stream: self.stream,
            stage: self.stage,
            stage_status: self.stage_status,
            line: self.line@,
        }
    }
}

pub open spec fn notes_view(v: Seq<Note>) -> Seq<NoteView> {
    v.map_values(|n: Note| n@)
}

/// `started`, noted when the job begins.
pub open spec fn started_note() -> NoteView {
    NoteView {
        status: JobStatus::Running,
        event: JobEventType::Started,
        stream: JobStream::System,
        stage: None,
        stage_status: None,
        line: "started"@,
    }
}

/// `finished`, noted when every stage passed.
pub open spec fn finished_note() -> NoteView {
    NoteView {
        status: JobStatus::Passed,
        event: JobEventType::Finished,
        stream: JobStream::System,
        stage: None,
        stage_status: None,
        line: "finished"@,
    }
}

/// A line a stage writes while it runs.
pub open spec fn stage_note(stage: JobStage, stream: JobStream, line: Seq<char>) -> NoteView {
    NoteView {
        status: JobStatus::Running,
        event: JobEventType::Output,
        stream,
        stage: Some(stage),
        stage_status: Some(JobStatus::Running),
        line,
    }
}

/// `stage <stage> started`.
pub open spec fn stage_started_note(stage: JobStage) -> NoteView {
    stage_note(stage, JobStream::System, "stage "@ + stage_text(stage) + " started"@)
}

/// `stage <stage> passed`, which marks the stage passed.
pub open spec fn stage_passed_note(stage: JobStage) -> NoteView {
    NoteView {
        status: JobStatus::Running,
        event: JobEventType::Output,
        stream: JobStream::System,
        stage: Some(stage),
        stage_status: Some(JobStatus::Passed),
        line: "stage "@ + stage_text(stage) + " passed"@,
    }
}

/// `stage <stage> failed: <failure kind>: <error>`, which marks the stage
/// and the job failed.
pub open spec fn stage_failed_note(stage: JobStage, error: Seq<char>) -> NoteView {
    NoteView {
        status: JobStatus::Failed,
        event: JobEventType::Output,
        stream: JobStream::System,
        stage: Some(stage),
        stage_status: Some(JobStatus::Failed),
        line: "stage "@ + stage_text(stage) + " failed: "@ + failure_text(stage, error) + ": "@
            + error,
    }
}

/// `failed: <stage> stage failed: <error>`, the last line of a job whose
/// stage failed.
pub open spec fn job_failed_note(stage: JobStage, error: Seq<char>) -> NoteView {
    NoteView {
        status: JobStatus::Failed,
        event: JobEventType::Finished,
        stream: JobStream::System,
        stage: None,
        stage_status: None,
        line: "failed: "@ + stage_text(stage) + " stage failed: "@ + error,
    }
}

pub fn started() -> (n: Note)
    ensures
        n@ == started_note(),
{
    Note {
        status: JobStatus::Running,
        event: JobEventType::Started,
        stream: JobStream::System,
        stage: None,
        stage_status: None,
        line: text::owned("started"),
    }
}

pub fn finished() -> (n: Note)
    ensures
        n@ == finished_note(),
{
    Note {
        status: JobStatus::Passed,
        event: JobEventType::Finished,
        stream: JobStream::System,
        stage: None,
        stage_status: None,
        line: text::owned("finished"),
    }
}

/// A line written by the running stage on the given stream.
pub fn stage_output(stage: JobStage, stream: JobStream, line: &str) -> (n: Note)
    ensures
        n@ == stage_note(stage, stream, line@),
{
    Note {
        status: JobStatus::Running,
        event: JobEventType::Output,
        stream,
        stage: Some(stage),
        stage_status: Some(JobStatus::Running),
        line: text::owned(line),
    }
}

pub fn stage_started(stage: JobStage) -> (n: Note)
    ensures
        n@ == stage_started_note(stage),
{
    let line = jobs::stage_started_line(stage);
    Note {
        status: JobStatus::Running,
        event: JobEventType::Output,
        stream: JobStream::System,
        stage: Some(stage),
        stage_status: Some(JobStatus::Running),
        line,
    }
}

pub fn stage_passed(stage: JobStage) -> (n: Note)
    ensures
        n@ == stage_passed_note(stage),
{
    let line = jobs::stage_passed_line(stage);
    Note {
        status: JobStatus::Running,
        event: JobEventType::Output,
        stream: JobStream::System,
        stage: Some(stage),
        stage_status: Some(JobStatus::Passed),
        line,
    }
}

pub fn stage_failed(stage: JobStage, error: &str) -> (n: Note)
    ensures
        n@ == stage_failed_note(stage, error@),
{
    let line = jobs::stage_failed_line(stage, error);
    Note {
        status: JobStatus::Failed,
        event: JobEventType::Output,
        stream: JobStream::System,
        stage: Some(stage),
        stage_status: Some(JobStatus::Failed),
        line,
    }
}

pub fn job_failed(stage: JobStage, error: &str) -> (n: Note)
    ensures
        n@ == job_failed_note(stage, error@),
{
    let cause = jobs::stage_failure_error(stage, error);
    let line = jobs::job_failed_line(cause.as_str());
    Note {
        status: JobStatus::Failed,
        event: JobEventType::Finished,
        stream: JobStream::System,
        stage: None,
        stage_status: None,
        line,
    }
}

// ---------------------------------------------------------------------------
// The run
// ---------------------------------------------------------------------------

/// Where a run is: not begun, running the stage at a position of its
/// pipeline, or over.
#[derive(Debug, Clone, Copy, PartialEq, Eq, Structural)]
pub enum RunPhase {
    Waiting,
    Running(usize),
    Over,
}

/// What happened since the last step: the job was picked up, or the running
/// stage passed or failed with an error.
pub enum RunEvent {
    Begin,
    StagePassed,
    StageFailed(String),
}

/// What to do next: run a stage, or nothing more.
#[derive(Debug, Clone, Copy, PartialEq, Eq, Structural)]
pub enum RunAction {
    RunStage(JobStage),
    Stop,
}

/// A job's run through the stages of its pipeline.
pub struct PipelineRun {
    stages: Vec<JobStage>,
    phase: RunPhase,
}

pub struct RunView {
    pub stages: Seq<JobStage>,
    pub phase: RunPhase,
}

impl View for PipelineRun {
    type V = RunView;

    closed spec fn view(&self) -> RunView {
        RunView { stages: self.stages@, phase: self.phase }
    }
}

/// A run in a sound state: a running position lies inside the pipeline.
pub open spec fn run_ok(r: RunView) -> bool {
    match r.phase {
        RunPhase::Running(i) => i < r.stages.len(),
        _ => true,
    }
}

pub open spec fn event_error(e: RunEvent) -> Seq<char> {
    match e {
        RunEvent::StageFailed(s) => s@,
        _ => Seq::empty(),
    }
}

/// After the stage at `i` is done: start the next one, or finish.
pub open spec fn advance(stages: Seq<JobStage>, i: int) -> (RunPhase, Seq<NoteView>, RunAction) {
    if i + 1 < stages.len() {
        (
            RunPhase::Running((i + 1) as usize),
            seq![stage_passed_note(stages[i]), stage_started_note(stages[i + 1])],
            RunAction::RunStage(stages[i + 1]),
        )
    } else {
        (RunPhase::Over, seq![stage_passed_note(stages[i]), finished_note()], RunAction::Stop)
    }
}

/// One step of a run: its next phase, the lines to note in order, and what
/// to do next. A job begins by noting `started` and running its first stage
/// (or finishing when it has none); a passed stage is noted and the next one
/// started (or the job finished); a failed stage is noted with its kind of
/// failure and the job fails. Any other event changes nothing.
pub open spec fn run_step(r: RunView, e: RunEvent) -> (RunPhase, Seq<NoteView>, RunAction) {
    match (r.phase, e) {
        (RunPhase::Waiting, RunEvent::Begin) => if r.stages.len() > 0 {
            (
                RunPhase::Running(0),
                seq![started_note(), stage_started_note(r.stages[0])],
                RunAction::RunStage(r.stages[0]),
            )
        } else {
            (RunPhase::Over, seq![started_note(), finished_note()], RunAction::Stop)
        },
        (RunPhase::Running(i), RunEvent::StagePassed) => advance(r.stages, i as int),
        (RunPhase::Running(i), RunEvent::StageFailed(err)) => (
            RunPhase::Over,
            seq![
                stage_failed_note(r.stages[i as int], err@),
                job_failed_note(r.stages[i as int], err@),
            ],
            RunAction::Stop,
        ),
        _ => (r.phase, Seq::empty(), RunAction::Stop),
    }
}

fn two(a: Note, b: Note) -> (v: Vec<Note>)
    ensures
        notes_view(v@) == seq![a@, b@],
{
    let v = vec![a, b];
    proof {
        assert(notes_view(v@) =~= seq![a@, b@]);
    }
    v
}

impl PipelineRun {
    /// A run of the pipeline of a job of the given kind, not begun yet.
    pub fn new(kind: &JobKind) -> (r: Self)
        ensures
            r@.stages == pipeline(*kind),
            r@.phase == RunPhase::Waiting,
            run_ok(r@),
    {
        PipelineRun { stages: jobs::pipeline_for_kind(kind), phase: RunPhase::Waiting }
    }

    pub fn phase(&self) -> (p: RunPhase)
        ensures
            p == self@.phase,
    {
        self.phase
    }

    /// Takes the run one step on from an event, giving the lines to note,
    /// in order, and what to do next.
    pub fn step(&mut self, event: RunEvent) -> (r: (Vec<Note>, RunAction))
        requires
            run_ok(old(self)@),
        ensures
            final(self)@.stages == old(self)@.stages,
            run_ok(final(self)@),
            final(self)@.phase == run_step(old(self)@, event).0,
            notes_view(r.0@) == run_step(old(self)@, event).1,
            r.1 == run_step(old(self)@, event).2,
    {
        let ghost before = self@;
        match (self.phase, event) {
            (RunPhase::Waiting, RunEvent::Begin) => {
                if self.stages.len() > 0 {
                    let first = self.stages[0];
                    self.phase = RunPhase::Running(0);
                    (two(started(), stage_started(first)), RunAction::RunStage(first))
                } else {
                    self.phase = RunPhase::Over;
                    (two(started(), finished()), RunAction::Stop)
                }
            },
            (RunPhase::Running(i), RunEvent::StagePassed) => {
                let current = self.stages[i];
                if i < self.stages.len() - 1 {
                    let next = self.stages[i + 1];
                    self.phase = RunPhase::Running(i + 1);
                    (two(stage_passed(current), stage_started(next)), RunAction::RunStage(next))
                } else {
                    self.phase = RunPhase::Over;
                    (two(stage_passed(current), finished()), RunAction::Stop)
                }
            },
            (RunPhase::Running(i), RunEvent::StageFailed(err)) => {
                let current = self.stages[i];
                self.phase = RunPhase::Over;
                (
                    two(stage_failed(current, err.as_str()), job_failed(current, err.as_str())),
                    RunAction::Stop,
                )
            },
            _ => {
                let v: Vec<Note> = Vec::new();
                proof {
                    assert(notes_view(v@) =~= Seq::<NoteView>::empty());
                }
                (v, RunAction::Stop)
            },
        }
    }
}

} // verus!
