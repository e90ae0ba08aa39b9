//! Build jobs: the pipeline each kind of job runs, the record of every job
//! (its stages, status lines and events), the book of recent jobs and the
//! text of the lines a job writes while it runs.

use vstd::prelude::*;
use crate::text;

verus! {

/// How many jobs the book keeps; older ones are dropped.
pub const MAX_RECENT_JOBS: usize = 100;

// ---------------------------------------------------------------------------
// Types
// ---------------------------------------------------------------------------

/// What a job does, and for which project directory.
#[derive(Debug)]
pub enum JobKind {
    Generate { project: String },
    Check { project: String },
    Build { project: String },
    Pack { project: String },
    Dist { project: String },
    FullAuto { project: String },
}

#[derive(Debug, Clone, Copy, PartialEq, Eq, Structural)]
pub enum JobStatus {
    Queued,
    Running,
    Passed,
    Failed,
}

#[derive(Debug, Clone, Copy, PartialEq, Eq, Structural)]
pub enum JobStage {
    Generate,
    Check,
    Build,
    Pack,
    Dist,
}

/// The state of one stage of a job. Times are milliseconds since the Unix
/// epoch.
#[derive(Debug)]
pub struct JobStageState {
    pub stage: JobStage,
    pub status: JobStatus,
    pub started_at: Option<i64>,
    pub updated_at: Option<i64>,
    pub message: Option<String>,
}

#[derive(Debug, Clone, Copy, PartialEq, Eq, Structural)]
pub enum JobEventType {
    Queued,
    Started,
    Output,
    Finished,
}

#[derive(Debug, Clone, Copy, PartialEq, Eq, Structural)]
pub enum JobStream {
    System,
    Stdout,
    Stderr,
}

/// One line of a job's log.
#[derive(Debug)]
pub struct JobLogLine {
    pub event: JobEventType,
    pub stream: JobStream,
    pub status: JobStatus,
    pub stage: Option<JobStage>,
    pub stage_status: Option<JobStatus>,
    pub line: String,
    pub at: i64,
    pub sequence: u64,
}

/// A job and everything it has logged.
#[derive(Debug)]
pub struct Job {
    pub id: u128,
    pub kind: JobKind,
    pub status: JobStatus,
    pub current_stage: Option<JobStage>,
    pub stages: Vec<JobStageState>,
    pub created_at: i64,
    pub updated_at: i64,
    pub lines: Vec<String>,
    pub events: Vec<JobLogLine>,
}

/// What is broadcast for each line a job logs.
#[derive(Debug)]
pub struct JobEvent {
    pub job_id: u128,
    pub kind: JobKind,
    pub event: JobEventType,
    pub stream: JobStream,
    pub status: JobStatus,
    pub stage: Option<JobStage>,
    pub stage_status: Option<JobStatus>,
    pub line: String,
    pub at: i64,
    pub sequence: u64,
}

/// The job the workspace is busy with.
#[derive(Debug)]
pub struct JobActivity {
    pub job_id: u128,
    pub kind: JobKind,
    pub status: JobStatus,
    pub current_stage: Option<JobStage>,
}

// ---------------------------------------------------------------------------
// Views
// ---------------------------------------------------------------------------

/// Which kind of job, by position in the declaration.
pub open spec fn kind_tag(k: JobKind) -> nat {
    match k {
        JobKind::Generate { .. } => 0,
        JobKind::Check { .. } => 1,
        JobKind::Build { .. } => 2,
        JobKind::Pack { .. } => 3,
        JobKind::Dist { .. } => 4,
        JobKind::FullAuto { .. } => 5,
    }
}

pub open spec fn kind_project(k: JobKind) -> Seq<char> {
    match k {
        JobKind::Generate { project } => project@,
        JobKind::Check { project } => project@,
        JobKind::Build { project } => project@,
        JobKind::Pack { project } => project@,
        JobKind::Dist { project } => project@,
        JobKind::FullAuto { project } => project@,
    }
}

pub open spec fn kind_view(k: JobKind) -> (nat, Seq<char>) {
    (kind_tag(k), kind_project(k))
}

pub open spec fn opt_text(o: Option<String>) -> Option<Seq<char>> {
    match o {
        Some(s) => Some(s@),
        None => None,
    }
}

#[verifier::ext_equal]
pub struct StageView {
    pub stage: JobStage,
    pub status: JobStatus,
    pub started_at: Option<i64>,
    pub updated_at: Option<i64>,
    pub message: Option<Seq<char>>,
}

#[verifier::ext_equal]
pub struct LogView {
    pub event: JobEventType,
    pub stream: JobStream,
    pub status: JobStatus,
    pub stage: Option<JobStage>,
    pub stage_status: Option<JobStatus>,
    pub line: Seq<char>,
    pub at: i64,
    pub sequence: u64,
}

#[verifier::ext_equal]
pub struct JobView {
    pub id: u128,
    pub kind: (nat, Seq<char>),
    pub status: JobStatus,
    pub current_stage: Option<JobStage>,
    pub stages: Seq<StageView>,
    pub created_at: i64,
    pub updated_at: i64,
    pub lines: Seq<Seq<char>>,
    pub events: Seq<LogView>,
}

impl View for JobStageState {
    type V = StageView;

    open spec fn view(&self) -> StageView {
        StageView {
            stage: self.stage,
            status: self.status,
            started_at: self.started_at,
            updated_at: self.updated_at,
            message: opt_text(self.message),
        }
    }
}

impl View for JobLogLine {
    type V = LogView;

    open spec fn view(&self) -> LogView {
        LogView {
            event: self.event,
            stream: self.stream,
            status: self.status,
            stage: self.stage,
            stage_status: self.stage_status,
            line: self.line@,
            at: self.at,
            sequence: self.sequence,
        }
    }
}

pub open spec fn stages_view(v: Seq<JobStageState>) -> Seq<StageView> {
    v.map_values(|s: JobStageState| s@)
}

pub open spec fn logs_view(v: Seq<JobLogLine>) -> Seq<LogView> {
    v.map_values(|l: JobLogLine| l@)
}

impl View for Job {
    type V = JobView;

    open spec fn view(&self) -> JobView {
        JobView {
            id: self.id,
            kind: kind_view(self.kind),
            status: self.status,
            current_stage: self.current_stage,
            stages: stages_view(self.stages@),
            created_at: self.created_at,
            updated_at: self.updated_at,
            lines: text::strings_view(self.lines@),
            events: logs_view(self.events@),
        }
    }
}

pub open spec fn jobs_view(v: Seq<Job>) -> Seq<JobView> {
    v.map_values(|j: Job| j@)
}

// ---------------------------------------------------------------------------
// Copies
// ---------------------------------------------------------------------------

impl JobKind {
    /// A copy of the same kind for the same project.
    pub fn duplicate(&self) -> (k: JobKind)
        ensures
            kind_view(k) == kind_view(*self),
    {
        match self {
            JobKind::Generate { project } => JobKind::Generate { project: project.clone() },
            JobKind::Check { project } => JobKind::Check { project: project.clone() },
            JobKind::Build { project } => JobKind::Build { project: project.clone() },
            JobKind::Pack { project } => JobKind::Pack { project: project.clone() },
            JobKind::Dist { project } => JobKind::Dist { project: project.clone() },
            JobKind::FullAuto { project } => JobKind::FullAuto { project: project.clone() },
        }
    }
}

fn duplicate_text(o: &Option<String>) -> (r: Option<String>)
    ensures
        opt_text(r) == opt_text(*o),
{
    match o {
        Some(s) => Some(s.clone()),
        None => None,
    }
}

impl JobStageState {
    pub fn duplicate(&self) -> (s: JobStageState)
        ensures
            s@ == self@,
    {
        JobStageState {
            stage: self.stage,
            status: self.status,
            started_at: self.started_at,
            updated_at: self.updated_at,
            message: duplicate_text(&self.message),
        }
    }
}

impl JobLogLine {
    pub fn duplicate(&self) -> (l: JobLogLine)
        ensures
            l@ == self@,
    {
        JobLogLine {
            event: self.event,
            stream: self.stream,
            status: self.status,
            stage: self.stage,
            stage_status: self.stage_status,
            line: self.line.clone(),
            at: self.at,
            sequence: self.sequence,
        }
    }
}

fn duplicate_strings(v: &Vec<String>) -> (r: Vec<String>)
    ensures
        text::strings_view(r@) == text::strings_view(v@),
{
    let mut r: Vec<String> = Vec::new();
    let mut i: usize = 0;
    while i < v.len()
        invariant
            i <= v.len(),
            r@.len() == i,
            forall|j: int| 0 <= j < i ==> #[trigger] r@[j]@ == v@[j]@,
        decreases v.len() - i,
    {
        r.push(v[i].clone());
        i += 1;
    }
    proof {
        assert(text::strings_view(r@) =~= text::strings_view(v@));
    }
    r
}

fn duplicate_stages(v: &Vec<JobStageState>) -> (r: Vec<JobStageState>)
    ensures
        stages_view(r@) == stages_view(v@),
{
    let mut r: Vec<JobStageState> = Vec::new();
    let mut i: usize = 0;
    while i < v.len()
        invariant
            i <= v.len(),
            r@.len() == i,
            forall|j: int| 0 <= j < i ==> #[trigger] r@[j]@ == v@[j]@,
        decreases v.len() - i,
    {
        r.push(v[i].duplicate());
        i += 1;
    }
    proof {
        assert(stages_view(r@) =~= stages_view(v@));
    }
    r
}

fn duplicate_logs(v: &Vec<JobLogLine>) -> (r: Vec<JobLogLine>)
    ensures
        logs_view(r@) == logs_view(v@),
{
    let mut r: Vec<JobLogLine> = Vec::new();
    let mut i: usize = 0;
    while i < v.len()
        invariant
            i <= v.len(),
            r@.len() == i,
            forall|j: int| 0 <= j < i ==> #[trigger] r@[j]@ == v@[j]@,
        decreases v.len() - i,
    {
        r.push(v[i].duplicate());
        i += 1;
    }
    proof {
        assert(logs_view(r@) =~= logs_view(v@));
    }
    r
}

impl Job {
    /// A copy of the job with everything it has logged.
    pub fn duplicate(&self) -> (j: Job)
        ensures
            j@ == self@,
    {
        let j = Job {
            id: self.id,
            kind: self.kind.duplicate(),
            status: self.status,
            current_stage: self.current_stage,
            stages: duplicate_stages(&self.stages),
            created_at: self.created_at,
            updated_at: self.updated_at,
            lines: duplicate_strings(&self.lines),
            events: duplicate_logs(&self.events),
        };
        proof {
            assert(j@ =~= self@);
        }
        j
    }
}

// ---------------------------------------------------------------------------
// Pipelines
// ---------------------------------------------------------------------------

pub open spec fn stage_text(s: JobStage) -> Seq<char> {
    match s {
        JobStage::Generate => "generate"@,
        JobStage::Check => "check"@,
        JobStage::Build => "build"@,
        JobStage::Pack => "pack"@,
        JobStage::Dist => "dist"@,
    }
}

impl JobStage {
    pub fn as_str(self) -> (s: &'static str)
        ensures
            s@ == stage_text(self),
    {
        match self {
            Self::Generate => "generate",
            Self::Check => "check",
            Self::Build => "build",
            Self::Pack => "pack",
            Self::Dist => "dist",
        }
    }
}

impl JobStageState {
    /// A stage not started yet.
    pub fn queued(stage: JobStage) -> (s: Self)
        ensures
            s@ == (StageView {
                stage,
                status: JobStatus::Queued,
                started_at: None,
                updated_at: None,
                message: None,
            }),
    {
        Self { stage, status: JobStatus::Queued, started_at: None, updated_at: None, message: None }
    }
}

/// The stages each kind of job runs, in order. Every pipeline starts by
/// generating the project files.
pub open spec fn pipeline(k: JobKind) -> Seq<JobStage> {
    match k {
        JobKind::Generate { .. } => seq![JobStage::Generate],
        JobKind::Check { .. } => seq![JobStage::Generate, JobStage::Check],
        JobKind::Build { .. } => seq![JobStage::Generate, JobStage::Check, JobStage::Build],
        JobKind::Pack { .. } => seq![JobStage::Generate, JobStage::Pack],
        JobKind::FullAuto { .. } => seq![JobStage::Generate, JobStage::Check, JobStage::Pack],
        JobKind::Dist { .. } => seq![
            JobStage::Generate,
            JobStage::Check,
            JobStage::Build,
            JobStage::Pack,
            JobStage::Dist,
        ],
    }
}

pub fn pipeline_for_kind(kind: &JobKind) -> (v: Vec<JobStage>)
    ensures
        v@ == pipeline(*kind),
{
    let v = match kind {
        JobKind::Generate { .. } => vec![JobStage::Generate],
        JobKind::Check { .. } => vec![JobStage::Generate, JobStage::Check],
        JobKind::Build { .. } => vec![JobStage::Generate, JobStage::Check, JobStage::Build],
        JobKind::Pack { .. } => vec![JobStage::Generate, JobStage::Pack],
        JobKind::FullAuto { .. } => vec![JobStage::Generate, JobStage::Check, JobStage::Pack],
        JobKind::Dist { .. } => vec![
            JobStage::Generate,
            JobStage::Check,
            JobStage::Build,
            JobStage::Pack,
            JobStage::Dist,
        ],
    };
    proof {
        assert(v@ =~= pipeline(*kind));
    }
    v
}

/// The project directory a job works on.
pub fn project_for_kind(kind: &JobKind) -> (p: &String)
    ensures
        p@ == kind_project(*kind),
{
    match kind {
        JobKind::Generate { project } => project,
        JobKind::Check { project } => project,
        JobKind::Build { project } => project,
        JobKind::Pack { project } => project,
        JobKind::Dist { project } => project,
        JobKind::FullAuto { project } => project,
    }
}

pub open spec fn queued_stages(stages: Seq<JobStage>) -> Seq<StageView> {
    stages.map_values(
        |s: JobStage|
            StageView {
                stage: s,
                status: JobStatus::Queued,
                started_at: None,
                updated_at: None,
                message: None,
            },
    )
}

/// A job just queued: no stage current, every stage of its pipeline queued,
/// nothing logged.
pub open spec fn queued_job(id: u128, kind: (nat, Seq<char>), stages: Seq<JobStage>, now: i64) -> JobView {
    JobView {
        id,
        kind,
        status: JobStatus::Queued,
        current_stage: None,
        stages: queued_stages(stages),
        created_at: now,
        updated_at: now,
        lines: Seq::empty(),
        events: Seq::empty(),
    }
}

impl Job {
    /// A new queued job of the given kind.
    pub fn queued(id: u128, kind: JobKind, now: i64) -> (j: Job)
        ensures
            j@ == queued_job(id, kind_view(kind), pipeline(kind), now),
    {
        let stages = pipeline_for_kind(&kind);
        let mut states: Vec<JobStageState> = Vec::new();
        let mut i: usize = 0;
        while i < stages.len()
            invariant
                i <= stages.len(),
                states@.len() == i,
                forall|k: int|
                    0 <= k < i ==> #[trigger] states@[k]@ == (StageView {
                        stage: stages@[k],
                        status: JobStatus::Queued,
                        started_at: None,
                        updated_at: None,
                        message: None,
                    }),
            decreases stages.len() - i,
        {
            states.push(JobStageState::queued(stages[i]));
            i += 1;
        }
        let lines: Vec<String> = Vec::new();
        let events: Vec<JobLogLine> = Vec::new();
        let j = Job {
            id,
            kind,
            status: JobStatus::Queued,
            current_stage: None,
            stages: states,
            created_at: now,
            updated_at: now,
            lines,
            events,
        };
        proof {
            assert(stages_view(j.stages@) =~= queued_stages(stages@));
            assert(text::strings_view(j.lines@) =~= Seq::<Seq<char>>::empty());
            assert(logs_view(j.events@) =~= Seq::<LogView>::empty());
            assert(j@ =~= JobView {
                id,
                kind: kind_view(j.kind),
                status: JobStatus::Queued,
                current_stage: None,
                stages: queued_stages(stages@),
                created_at: now,
                updated_at: now,
                lines: Seq::empty(),
                events: Seq::empty(),
            });
        }
        j
    }
}

// ---------------------------------------------------------------------------
// Noting a line
// ---------------------------------------------------------------------------

/// A stage after a line about it: the new stage status if one is given,
/// started now if it starts running for the first time, updated now, and the
/// line as its message.
pub open spec fn updated_stage(
    s: StageView,
    stage_status: Option<JobStatus>,
    line: Seq<char>,
    at: i64,
) -> StageView {
    StageView {
        stage: s.stage,
        status: match stage_status {
            Some(x) => x,
            None => s.status,
        },
        started_at: if stage_status == Some(JobStatus::Running) && s.started_at is None {
            Some(at)
        } else {
            s.started_at
        },
        updated_at: Some(at),
        message: Some(line),
    }
}

/// The stages after a line about `stage`: the first state of that stage is
/// updated, the others stay.
pub open spec fn update_stages(
    stages: Seq<StageView>,
    stage: JobStage,
    stage_status: Option<JobStatus>,
    line: Seq<char>,
    at: i64,
) -> Seq<StageView>
    decreases stages.len(),
{
    if stages.len() == 0 {
        stages
    } else if stages[0].stage == stage {
        stages.update(0, updated_stage(stages[0], stage_status, line, at))
    } else {
        seq![stages[0]] + update_stages(stages.drop_first(), stage, stage_status, line, at)
    }
}

/// The log entry of a noted line.
pub open spec fn log_entry(
    event: JobEventType,
    stream: JobStream,
    status: JobStatus,
    stage: Option<JobStage>,
    stage_status: Option<JobStatus>,
    line: Seq<char>,
    at: i64,
    sequence: u64,
) -> LogView {
    LogView { event, stream, status, stage, stage_status, line, at, sequence }
}

/// A job after a noted line: its status is the line's, its current stage and
/// that stage's state follow the line when it names a stage, and the line is
/// appended to its lines and events.
pub open spec fn noted_job(
    j: JobView,
    status: JobStatus,
    event: JobEventType,
    stream: JobStream,
    stage: Option<JobStage>,
    stage_status: Option<JobStatus>,
    line: Seq<char>,
    at: i64,
    sequence: u64,
) -> JobView {
    JobView {
        id: j.id,
        kind: j.kind,
        status,
        current_stage: if stage is Some {
            stage
        } else {
            j.current_stage
        },
        stages: match stage {
            Some(st) => update_stages(j.stages, st, stage_status, line, at),
            None => j.stages,
        },
        created_at: j.created_at,
        updated_at: at,
        lines: j.lines.push(line),
        events: j.events.push(log_entry(event, stream, status, stage, stage_status, line, at, sequence)),
    }
}

proof fn lemma_update_stages_at(
    stages: Seq<StageView>,
    stage: JobStage,
    stage_status: Option<JobStatus>,
    line: Seq<char>,
    at: i64,
    i: int,
)
    requires
        0 <= i < stages.len(),
        stages[i].stage == stage,
        forall|j: int| 0 <= j < i ==> stages[j].stage != stage,
    ensures
        update_stages(stages, stage, stage_status, line, at) == stages.update(
            i,
            updated_stage(stages[i], stage_status, line, at),
        ),
    decreases stages.len(),
{
    if i > 0 {
        assert(stages[0].stage != stage);
        let rest = stages.drop_first();
        assert forall|j: int| 0 <= j < i - 1 implies rest[j].stage != stage by {
            assert(rest[j] == stages[j + 1]);
        }
        lemma_update_stages_at(rest, stage, stage_status, line, at, i - 1);
        assert(seq![stages[0]] + rest.update(i - 1, updated_stage(rest[i - 1], stage_status, line, at))
            =~= stages.update(i, updated_stage(stages[i], stage_status, line, at)));
    }
}

proof fn lemma_update_stages_absent(
    stages: Seq<StageView>,
    stage: JobStage,
    stage_status: Option<JobStatus>,
    line: Seq<char>,
    at: i64,
)
    requires
        forall|j: int| 0 <= j < stages.len() ==> stages[j].stage != stage,
    ensures
        update_stages(stages, stage, stage_status, line, at) == stages,
    decreases stages.len(),
{
    if stages.len() > 0 {
        assert(stages[0].stage != stage);
        let rest = stages.drop_first();
        assert forall|j: int| 0 <= j < rest.len() implies rest[j].stage != stage by {
            assert(rest[j] == stages[j + 1]);
        }
        lemma_update_stages_absent(rest, stage, stage_status, line, at);
        assert(seq![stages[0]] + rest =~= stages);
    }
}

fn note_stage(
    stages: &mut Vec<JobStageState>,
    stage: JobStage,
    stage_status: Option<JobStatus>,
    line: &str,
    at: i64,
)
    ensures
        stages_view(final(stages)@) == update_stages(
            stages_view(old(stages)@),
            stage,
            stage_status,
            line@,
            at,
        ),
{
    let ghost before = stages_view(stages@);
    let mut i: usize = 0;
    while i < stages.len()
        invariant
            i <= stages.len(),
            before == stages_view(stages@),
            before == stages_view(old(stages)@),
            forall|j: int| 0 <= j < i ==> #[trigger] before[j].stage != stage,
        decreases stages.len() - i,
    {
        if stages[i].stage == stage {
            proof {
                lemma_update_stages_at(before, stage, stage_status, line@, at, i as int);
            }
            let mut s = stages.remove(i);
            let starts = match stage_status {
                Some(JobStatus::Running) => true,
                _ => false,
            };
            if starts && s.started_at.is_none() {
                s.started_at = Some(at);
            }
            match stage_status {
                Some(x) => {
                    s.status = x;
                },
                None => {},
            }
            s.updated_at = Some(at);
            s.message = Some(text::owned(line));
            stages.insert(i, s);
            proof {
                assert(stages_view(stages@) =~= before.update(
                    i as int,
                    updated_stage(before[i as int], stage_status, line@, at),
                ));
            }
            return;
        }
        i += 1;
    }
    proof {
        lemma_update_stages_absent(before, stage, stage_status, line@, at);
    }
}

impl Job {
    /// Records a line on the job, as `noted_job` says.
    pub fn note(
        &mut self,
        status: JobStatus,
        event: JobEventType,
        stream: JobStream,
        stage: Option<JobStage>,
        stage_status: Option<JobStatus>,
        line: &str,
        at: i64,
        sequence: u64,
    )
        ensures
            final(self)@ == noted_job(
                old(self)@,
                status,
                event,
                stream,
                stage,
                stage_status,
                line@,
                at,
                sequence,
            ),
    {
        let ghost before = self@;
        self.status = status;
        match stage {
            Some(st) => {
                self.current_stage = Some(st);
                note_stage(&mut self.stages, st, stage_status, line, at);
            },
            None => {},
        }
        self.updated_at = at;
        let ghost lines_before = self.lines@;
        self.lines.push(text::owned(line));
        let ghost events_before = self.events@;
        self.events.push(
            JobLogLine {
                event,
                stream,
                status,
                stage,
                stage_status,
                line: text::owned(line),
                at,
                sequence,
            },
        );
        proof {
            assert(text::strings_view(self.lines@) =~= text::strings_view(lines_before).push(line@));
            assert(logs_view(self.events@) =~= logs_view(events_before).push(
                log_entry(event, stream, status, stage, stage_status, line@, at, sequence),
            ));
            assert(self@ =~= noted_job(
                before,
                status,
                event,
                stream,
                stage,
                stage_status,
                line@,
                at,
                sequence,
            ));
        }
    }
}

// ---------------------------------------------------------------------------
// The book of recent jobs
// ---------------------------------------------------------------------------

/// The position of the job with the given id, or -1.
pub open spec fn index_of(jobs: Seq<JobView>, id: u128) -> int
    decreases jobs.len(),
{
    if jobs.len() == 0 {
        -1
    } else if jobs[0].id == id {
        0
    } else {
        let r = index_of(jobs.drop_first(), id);
        if r < 0 {
            -1
        } else {
            r + 1
        }
    }
}

/// Whether a job is still to finish.
pub open spec fn is_active(j: JobView) -> bool {
    j.status == JobStatus::Queued || j.status == JobStatus::Running
}

/// The position of the newest job still to finish, or -1.
pub open spec fn active_index(jobs: Seq<JobView>) -> int
    decreases jobs.len(),
{
    if jobs.len() == 0 {
        -1
    } else if is_active(jobs[0]) {
        0
    } else {
        let r = active_index(jobs.drop_first());
        if r < 0 {
            -1
        } else {
            r + 1
        }
    }
}

pub proof fn lemma_index_of(jobs: Seq<JobView>, id: u128)
    ensures
        index_of(jobs, id) < jobs.len(),
        index_of(jobs, id) >= 0 ==> jobs[index_of(jobs, id)].id == id,
        index_of(jobs, id) >= -1,
        forall|j: int| 0 <= j < jobs.len() && (index_of(jobs, id) < 0 || j < index_of(jobs, id)) ==> #[trigger] jobs[j].id != id,
    decreases jobs.len(),
{
    if jobs.len() > 0 && jobs[0].id != id {
        let rest = jobs.drop_first();
        lemma_index_of(rest, id);
        assert forall|j: int| 0 <= j < jobs.len() && (index_of(jobs, id) < 0 || j < index_of(jobs, id)) implies #[trigger] jobs[j].id != id by {
            if j > 0 {
                assert(jobs[j] == rest[j - 1]);
            }
        }
    }
}

pub proof fn lemma_active_index(jobs: Seq<JobView>)
    ensures
        active_index(jobs) < jobs.len(),
        active_index(jobs) >= -1,
        active_index(jobs) >= 0 ==> is_active(jobs[active_index(jobs)]),
        forall|j: int| 0 <= j < jobs.len() && (active_index(jobs) < 0 || j < active_index(jobs)) ==> !is_active(#[trigger] jobs[j]),
    decreases jobs.len(),
{
    if jobs.len() > 0 && !is_active(jobs[0]) {
        let rest = jobs.drop_first();
        lemma_active_index(rest);
        assert forall|j: int| 0 <= j < jobs.len() && (active_index(jobs) < 0 || j < active_index(jobs)) implies !is_active(#[trigger] jobs[j]) by {
            if j > 0 {
                assert(jobs[j] == rest[j - 1]);
            }
        }
    }
}

/// At most `MAX_RECENT_JOBS` jobs, no two with the same id.
pub open spec fn well_formed(jobs: Seq<JobView>) -> bool {
    &&& jobs.len() <= MAX_RECENT_JOBS
    &&& forall|a: int, b: int| 0 <= a < b < jobs.len() ==> jobs[a].id != jobs[b].id
}

/// The book after a new job: the job first, the older ones after it, the
/// oldest dropped beyond `MAX_RECENT_JOBS`.
pub open spec fn with_new_job(jobs: Seq<JobView>, j: JobView) -> Seq<JobView> {
    let all = seq![j] + jobs;
    if all.len() > MAX_RECENT_JOBS {
        all.take(MAX_RECENT_JOBS as int)
    } else {
        all
    }
}

/// What a noted line is broadcast as.
#[verifier::ext_equal]
pub struct EventView {
    pub job_id: u128,
    pub kind: (nat, Seq<char>),
    pub event: JobEventType,
    pub stream: JobStream,
    pub status: JobStatus,
    pub stage: Option<JobStage>,
    pub stage_status: Option<JobStatus>,
    pub line: Seq<char>,
    pub at: i64,
    pub sequence: u64,
}

impl View for JobEvent {
    type V = EventView;

    open spec fn view(&self) -> EventView {
        EventView {
            job_id: self.job_id,
            kind: kind_view(self.kind),
            event: self.event,
            stream: self.stream,
            status: self.status,
            stage: self.stage,
            stage_status: self.stage_status,
            line: self.line@,
            at: self.at,
            sequence: self.sequence,
        }
    }
}

/// The activity shown for a set of recent jobs: the newest one still to
/// finish, else the newest one, else none.
pub open spec fn activity_of(jobs: Seq<JobView>) -> Option<JobView> {
    if active_index(jobs) >= 0 {
        Some(jobs[active_index(jobs)])
    } else if jobs.len() > 0 {
        Some(jobs[0])
    } else {
        None
    }
}

pub open spec fn activity_view(a: JobActivity) -> (u128, (nat, Seq<char>), JobStatus, Option<JobStage>) {
    (a.job_id, kind_view(a.kind), a.status, a.current_stage)
}

/// The recent jobs, newest first, and the sequence number the next noted
/// line gets.
pub struct JobBook {
    jobs: Vec<Job>,
    next_sequence: u64,
}

pub struct JobBookView {
    pub jobs: Seq<JobView>,
    pub next_sequence: u64,
}

impl View for JobBook {
    type V = JobBookView;

    closed spec fn view(&self) -> JobBookView {
        JobBookView { jobs: jobs_view(self.jobs@), next_sequence: self.next_sequence }
    }
}

impl JobBook {
    /// An empty book whose first line gets sequence number 1.
    pub fn new() -> (b: Self)
        ensures
            b@.jobs == Seq::<JobView>::empty(),
            b@.next_sequence == 1,
    {
        let b = JobBook { jobs: Vec::new(), next_sequence: 1 };
        proof {
            assert(jobs_view(b.jobs@) =~= Seq::<JobView>::empty());
        }
        b
    }

    /// The sequence number the next noted line gets.
    pub fn next_sequence(&self) -> (n: u64)
        ensures
            n == self@.next_sequence,
    {
        self.next_sequence
    }

    fn find(&self, id: u128) -> (k: Option<usize>)
        ensures
            match k {
                Some(i) => index_of(self@.jobs, id) == i as int,
                None => index_of(self@.jobs, id) < 0,
            },
    {
        let ghost jv = self@.jobs;
        proof {
            lemma_index_of(jv, id);
        }
        let mut i: usize = 0;
        while i < self.jobs.len()
            invariant
                i <= self.jobs.len(),
                jv == jobs_view(self.jobs@),
                forall|j: int| 0 <= j < i ==> #[trigger] jv[j].id != id,
            decreases self.jobs.len() - i,
        {
            if self.jobs[i].id == id {
                proof {
                    lemma_index_of(jv, id);
                    assert(jv[i as int].id == id);
                }
                return Some(i);
            }
            i += 1;
        }
        None
    }

    /// Whether the book holds a job with the given id.
    pub fn contains(&self, id: u128) -> (b: bool)
        ensures
            b == (index_of(self@.jobs, id) >= 0),
    {
        self.find(id).is_some()
    }

    /// Adds a new job as the newest, dropping the oldest beyond
    /// `MAX_RECENT_JOBS`.
    pub fn insert(&mut self, job: Job)
        requires
            well_formed(old(self)@.jobs),
            index_of(old(self)@.jobs, job.id) < 0,
        ensures
            final(self)@.jobs == with_new_job(old(self)@.jobs, job@),
            final(self)@.next_sequence == old(self)@.next_sequence,
            well_formed(final(self)@.jobs),
    {
        let ghost before = self@.jobs;
        let ghost j = job@;
        proof {
            lemma_index_of(before, job.id);
        }
        self.jobs.insert(0, job);
        proof {
            assert(jobs_view(self.jobs@) =~= seq![j] + before);
        }
        if self.jobs.len() > MAX_RECENT_JOBS {
            self.jobs.pop();
            proof {
                assert(jobs_view(self.jobs@) =~= (seq![j] + before).take(MAX_RECENT_JOBS as int));
            }
        }
        proof {
            let after = self@.jobs;
            assert forall|a: int, b: int| 0 <= a < b < after.len() implies after[a].id != after[b].id by {
                if a > 0 {
                    assert(after[a] == before[a - 1]);
                }
                assert(after[b] == before[b - 1]);
            }
        }
    }

    /// Records a line on the job with the given id. The line takes the next
    /// sequence number whether or not the job is known; for a known job it
    /// is noted as `noted_job` says and the event to broadcast is returned.
    pub fn note(
        &mut self,
        id: u128,
        status: JobStatus,
        event: JobEventType,
        stream: JobStream,
        stage: Option<JobStage>,
        stage_status: Option<JobStatus>,
        line: &str,
        at: i64,
    ) -> (r: Option<JobEvent>)
        requires
            well_formed(old(self)@.jobs),
            old(self)@.next_sequence < u64::MAX,
        ensures
            final(self)@.next_sequence == old(self)@.next_sequence + 1,
            well_formed(final(self)@.jobs),
            index_of(old(self)@.jobs, id) >= 0 ==> {
                let k = index_of(old(self)@.jobs, id);
                let j = old(self)@.jobs[k];
                &&& final(self)@.jobs == old(self)@.jobs.update(
                    k,
                    noted_job(
                        j,
                        status,
                        event,
                        stream,
                        stage,
                        stage_status,
                        line@,
                        at,
                        old(self)@.next_sequence,
                    ),
                )
                &&& r matches Some(e) && e@ == (EventView {
                    job_id: id,
                    kind: j.kind,
                    event,
                    stream,
                    status,
                    stage,
                    stage_status,
                    line: line@,
                    at,
                    sequence: old(self)@.next_sequence,
                })
            },
            index_of(old(self)@.jobs, id) < 0 ==> final(self)@.jobs == old(self)@.jobs && r is None,
    {
        let ghost before = self@.jobs;
        let sequence = self.next_sequence;
        self.next_sequence = self.next_sequence + 1;
        match self.find(id) {
            Some(k) => {
                proof {
                    lemma_index_of(before, id);
                }
                let mut job = self.jobs.remove(k);
                job.note(status, event, stream, stage, stage_status, line, at, sequence);
                let e = JobEvent {
                    job_id: id,
                    kind: job.kind.duplicate(),
                    event,
                    stream,
                    status,
                    stage,
                    stage_status,
                    line: text::owned(line),
                    at,
                    sequence,
                };
                let ghost noted = job@;
                self.jobs.insert(k, job);
                proof {
                    assert(jobs_view(self.jobs@) =~= before.update(k as int, noted));
                    let after = self@.jobs;
                    assert forall|a: int, b: int| 0 <= a < b < after.len() implies after[a].id
                        != after[b].id by {
                        assert(after[a].id == before[a].id);
                        assert(after[b].id == before[b].id);
                    }
                }
                Some(e)
            },
            None => None,
        }
    }

    /// Copies of the recent jobs, newest first.
    pub fn list(&self) -> (v: Vec<Job>)
        ensures
            jobs_view(v@) == self@.jobs,
    {
        let mut v: Vec<Job> = Vec::new();
        let mut i: usize = 0;
        while i < self.jobs.len()
            invariant
                i <= self.jobs.len(),
                v@.len() == i,
                forall|j: int| 0 <= j < i ==> #[trigger] v@[j]@ == self.jobs@[j]@,
            decreases self.jobs.len() - i,
        {
            v.push(self.jobs[i].duplicate());
            i += 1;
        }
        proof {
            assert(jobs_view(v@) =~= self@.jobs);
        }
        v
    }

    /// A copy of the job with the given id, if the book holds it.
    pub fn get(&self, id: u128) -> (r: Option<Job>)
        ensures
            match r {
                Some(j) => index_of(self@.jobs, id) >= 0 && j@ == self@.jobs[index_of(self@.jobs, id)],
                None => index_of(self@.jobs, id) < 0,
            },
    {
        proof {
            lemma_index_of(self@.jobs, id);
        }
        match self.find(id) {
            Some(k) => Some(self.jobs[k].duplicate()),
            None => None,
        }
    }

    /// The job the workspace is busy with: the newest one still queued or
    /// running, else the newest one.
    pub fn current_activity(&self) -> (r: Option<JobActivity>)
        ensures
            match activity_of(self@.jobs) {
                Some(j) => r matches Some(a) && activity_view(a) == (
                    j.id,
                    j.kind,
                    j.status,
                    j.current_stage,
                ),
                None => r is None,
            },
    {
        let ghost jv = self@.jobs;
        proof {
            lemma_active_index(jv);
        }
        let mut i: usize = 0;
        while i < self.jobs.len()
            invariant
                i <= self.jobs.len(),
                jv == jobs_view(self.jobs@),
                forall|j: int| 0 <= j < i ==> !is_active(#[trigger] jv[j]),
            decreases self.jobs.len() - i,
        {
            let job = &self.jobs[i];
            if job.status == JobStatus::Queued || job.status == JobStatus::Running {
                proof {
                    lemma_active_index(jv);
                    assert(is_active(jv[i as int]));
                }
                return Some(
                    JobActivity {
                        job_id: job.id,
                        kind: job.kind.duplicate(),
                        status: job.status,
                        current_stage: job.current_stage,
                    },
                );
            }
            i += 1;
        }
        if self.jobs.len() > 0 {
            let job = &self.jobs[0];
            Some(
                JobActivity {
                    job_id: job.id,
                    kind: job.kind.duplicate(),
                    status: job.status,
                    current_stage: job.current_stage,
                },
            )
        } else {
            None
        }
    }
}


// ---------------------------------------------------------------------------
// Diagnostics and the lines a running job writes
// ---------------------------------------------------------------------------

/// Whether a diagnostic reads like a linker error: in ASCII lower case it
/// mentions `linking with`, `linker`, `undefined reference` or
/// `ld returned`.
pub open spec fn is_link_failure(diagnostic: Seq<char>) -> bool {
    let lower = text::lower_seq(diagnostic);
    text::has_infix(lower, "linking with"@) || text::has_infix(lower, "linker"@) || text::has_infix(
        lower,
        "undefined reference"@,
    ) || text::has_infix(lower, "ld returned"@)
}

fn contains_str(s: &Vec<char>, needle: &str) -> (b: bool)
    ensures
        b == text::has_infix(s@, needle@),
{
    let n = text::chars_of(needle);
    text::contains_seq(s, &n)
}

pub fn looks_like_link_failure(diagnostic: &str) -> (b: bool)
    ensures
        b == is_link_failure(diagnostic@),
{
    let lower = text::ascii_lowercase(diagnostic);
    contains_str(&lower, "linking with") || contains_str(&lower, "linker") || contains_str(
        &lower,
        "undefined reference",
    ) || contains_str(&lower, "ld returned")
}

pub open spec fn failure_text(stage: JobStage, diagnostic: Seq<char>) -> Seq<char> {
    match stage {
        JobStage::Generate => "generation failure"@,
        JobStage::Check => "syntax/check failure"@,
        JobStage::Build => if is_link_failure(diagnostic) {
            "link failure"@
        } else {
            "build failure"@
        },
        JobStage::Pack => "package failure"@,
        JobStage::Dist => "dist failure"@,
    }
}

/// What kind of failure a stage's error is.
pub fn failure_label(stage: JobStage, diagnostic: &str) -> (s: &'static str)
    ensures
        s@ == failure_text(stage, diagnostic@),
{
    match stage {
        JobStage::Generate => "generation failure",
        JobStage::Check => "syntax/check failure",
        JobStage::Build => if looks_like_link_failure(diagnostic) {
            "link failure"
        } else {
            "build failure"
        },
        JobStage::Pack => "package failure",
        JobStage::Dist => "dist failure",
    }
}

/// The lines of a text that are not blank, in order.
pub open spec fn nonblank_lines(ls: Seq<Seq<char>>) -> Seq<Seq<char>>
    decreases ls.len(),
{
    if ls.len() == 0 {
        Seq::empty()
    } else if text::trim_seq(ls.last()).len() > 0 {
        nonblank_lines(ls.drop_last()).push(ls.last())
    } else {
        nonblank_lines(ls.drop_last())
    }
}

/// The last eight non-blank lines of a diagnostic joined with ` | `, or
/// `no stderr` when it has none.
pub open spec fn tail_text(diagnostic: Seq<char>) -> Seq<char> {
    let nb = nonblank_lines(text::lines_of(diagnostic));
    if nb.len() == 0 {
        "no stderr"@
    } else {
        let k = if nb.len() < 8 {
            nb.len()
        } else {
            8
        };
        text::join_seqs(nb.subrange(nb.len() - k, nb.len() as int), " | "@)
    }
}

fn is_blank_line(s: &String) -> (b: bool)
    ensures
        b == (text::trim_seq(s@).len() == 0),
{
    let chars = text::chars_of(s.as_str());
    text::trim_chars(&chars).len() == 0
}

pub fn diagnostic_tail(diagnostic: &str) -> (r: String)
    ensures
        r@ == tail_text(diagnostic@),
{
    let all = text::lines(diagnostic);
    let ghost ls = text::strings_view(all@);
    let mut nb: Vec<String> = Vec::new();
    let mut i: usize = 0;
    while i < all.len()
        invariant
            i <= all.len(),
            ls == text::strings_view(all@),
            text::strings_view(nb@) == nonblank_lines(ls.take(i as int)),
        decreases all.len() - i,
    {
        proof {
            assert(ls.take(i + 1).drop_last() =~= ls.take(i as int));
        }
        if !is_blank_line(&all[i]) {
            let ghost before = nb@;
            nb.push(all[i].clone());
            proof {
                assert(text::strings_view(nb@) =~= text::strings_view(before).push(ls[i as int]));
            }
        }
        i += 1;
    }
    proof {
        assert(ls.take(i as int) =~= ls);
    }
    if nb.len() == 0 {
        return text::owned("no stderr");
    }
    let k: usize = if nb.len() < 8 {
        nb.len()
    } else {
        8
    };
    let start = nb.len() - k;
    let ghost nbv = text::strings_view(nb@);
    let ghost parts = nbv.subrange(start as int, nb.len() as int);
    let mut r = String::new();
    let mut j: usize = 0;
    while j < k
        invariant
            j <= k,
            start + k == nb.len(),
            nbv == text::strings_view(nb@),
            parts == nbv.subrange(start as int, nb.len() as int),
            r@ == text::join_seqs(parts.take(j as int), " | "@),
        decreases k - j,
    {
        proof {
            text::lemma_join_take(parts, " | "@, j as int);
        }
        if j > 0 {
            text::push_str(&mut r, " | ");
        }
        text::push_str(&mut r, nb[start + j].as_str());
        proof {
            assert(r@ =~= text::join_seqs(parts.take(j + 1), " | "@));
        }
        j += 1;
    }
    proof {
        assert(parts.take(j as int) =~= parts);
    }
    r
}

/// `stage <stage> started`.
pub fn stage_started_line(stage: JobStage) -> (r: String)
    ensures
        r@ == "stage "@ + stage_text(stage) + " started"@,
{
    let mut r = text::owned("stage ");
    text::push_str(&mut r, stage.as_str());
    text::push_str(&mut r, " started");
    r
}

/// `stage <stage> passed`.
pub fn stage_passed_line(stage: JobStage) -> (r: String)
    ensures
        r@ == "stage "@ + stage_text(stage) + " passed"@,
{
    let mut r = text::owned("stage ");
    text::push_str(&mut r, stage.as_str());
    text::push_str(&mut r, " passed");
    r
}

/// `stage <stage> failed: <failure kind>: <error>`.
pub fn stage_failed_line(stage: JobStage, error: &str) -> (r: String)
    ensures
        r@ == "stage "@ + stage_text(stage) + " failed: "@ + failure_text(stage, error@) + ": "@
            + error@,
{
    let mut r = text::owned("stage ");
    text::push_str(&mut r, stage.as_str());
    text::push_str(&mut r, " failed: ");
    text::push_str(&mut r, failure_label(stage, error));
    text::push_str(&mut r, ": ");
    text::push_str(&mut r, error);
    r
}

/// The error a failed stage ends its pipeline with: `<stage> stage failed:
/// <error>`.
pub fn stage_failure_error(stage: JobStage, error: &str) -> (r: String)
    ensures
        r@ == stage_text(stage) + " stage failed: "@ + error@,
{
    let mut r = text::owned(stage.as_str());
    text::push_str(&mut r, " stage failed: ");
    text::push_str(&mut r, error);
    r
}

/// The last line of a failed job: `failed: <error>`.
pub fn job_failed_line(error: &str) -> (r: String)
    ensures
        r@ == "failed: "@ + error@,
{
    let mut r = text::owned("failed: ");
    text::push_str(&mut r, error);
    r
}

/// ``running `<program> <args>` in <project>``.
pub fn running_command_line(program: &str, args: &Vec<String>, project: &str) -> (r: String)
    ensures
        r@ == "running `"@ + program@ + " "@ + text::join_seqs(text::strings_view(args@), " "@)
            + "` in "@ + project@,
{
    let mut r = text::owned("running `");
    text::push_str(&mut r, program);
    text::push_str(&mut r, " ");
    let ghost head = r@;
    let ghost parts = text::strings_view(args@);
    let mut i: usize = 0;
    while i < args.len()
        invariant
            i <= args.len(),
            parts == text::strings_view(args@),
            r@ == head + text::join_seqs(parts.take(i as int), " "@),
        decreases args.len() - i,
    {
        proof {
            text::lemma_join_take(parts, " "@, i as int);
        }
        if i > 0 {
            text::push_str(&mut r, " ");
        }
        text::push_str(&mut r, args[i].as_str());
        proof {
            assert(r@ =~= head + text::join_seqs(parts.take(i + 1), " "@));
        }
        i += 1;
    }
    proof {
        assert(parts.take(i as int) =~= parts);
    }
    text::push_str(&mut r, "` in ");
    text::push_str(&mut r, project);
    r
}

/// The error of a command that exited unsuccessfully, with the tail of what
/// it wrote to stderr.
pub fn command_failure(exit_status: &str, stderr: &str) -> (r: String)
    ensures
        r@ == "command exited with "@ + exit_status@ + "; stderr tail: "@ + tail_text(stderr@),
{
    let mut r = text::owned("command exited with ");
    text::push_str(&mut r, exit_status);
    text::push_str(&mut r, "; stderr tail: ");
    let tail = diagnostic_tail(stderr);
    text::push_str(&mut r, tail.as_str());
    r
}

/// The error for a project file the pack stage needs but cannot find.
pub fn missing_project_file(relative: &str) -> (r: String)
    ensures
        r@ == "missing required project file "@ + relative@,
{
    let mut r = text::owned("missing required project file ");
    text::push_str(&mut r, relative);
    r
}

/// The first line of the generate stage.
pub const LOADING_PROJECT_LINE: &'static str = "loading rads.project.json";

/// The last line of a generate stage that wrote the project's files.
pub const GENERATED_FILES_LINE: &'static str = "generated RADS project files";

/// The first line of the pack stage.
pub const VALIDATING_BLUEPRINT_LINE: &'static str = "validating blueprint";

/// The last line of the pack stage: `writing package plan for <project>`.
pub fn package_plan_line(project: &str) -> (r: String)
    ensures
        r@ == "writing package plan for "@ + project@,
{
    let mut r = text::owned("writing package plan for ");
    text::push_str(&mut r, project);
    r
}

/// The file name of a project's dist artifact: `<slug>.bp`.
pub fn dist_artifact_file(slug: &str) -> (r: String)
    ensures
        r@ == slug@ + ".bp"@,
{
    let mut r = text::owned(slug);
    text::push_str(&mut r, ".bp");
    r
}

/// The line of the dist stage: `wrote dist artifact <path>`.
pub fn dist_artifact_line(path: &str) -> (r: String)
    ensures
        r@ == "wrote dist artifact "@ + path@,
{
    let mut r = text::owned("wrote dist artifact ");
    text::push_str(&mut r, path);
    r
}

/// One step of the pack stage.
pub enum PackStep {
    /// Fail unless the project has this file.
    RequireFile(&'static str),
    /// Read the project model.
    ReadProject,
    /// For a UI2 app, fail unless the project has this file.
    RequireUi2File(&'static str),
    /// Note this line.
    Note(&'static str),
    /// Note the line `pack_collect_line` gives for the app's kind.
    NoteCollecting,
    /// Wait this many milliseconds.
    Pause(u64),
    /// Write the package plan.
    WritePlan,
    /// Note `package_plan_line` for the project.
    NotePlanWritten,
}

pub enum PackStepView {
    RequireFile(Seq<char>),
    ReadProject,
    RequireUi2File(Seq<char>),
    Note(Seq<char>),
    NoteCollecting,
    Pause(u64),
    WritePlan,
    NotePlanWritten,
}

pub open spec fn pack_step_view(s: PackStep) -> PackStepView {
    match s {
        PackStep::RequireFile(f) => PackStepView::RequireFile(f@),
        PackStep::ReadProject => PackStepView::ReadProject,
        PackStep::RequireUi2File(f) => PackStepView::RequireUi2File(f@),
        PackStep::Note(l) => PackStepView::Note(l@),
        PackStep::NoteCollecting => PackStepView::NoteCollecting,
        PackStep::Pause(ms) => PackStepView::Pause(ms),
        PackStep::WritePlan => PackStepView::WritePlan,
        PackStep::NotePlanWritten => PackStepView::NotePlanWritten,
    }
}

/// The pack stage in order: the blueprints must exist, the project is read,
/// a UI2 app must have its layout, then `validating blueprint`, a pause,
/// the collecting line, a pause, the plan is written and its line noted.
pub open spec fn pack_stage() -> Seq<PackStepView> {
    seq![
        PackStepView::RequireFile("app.blueprint.json"@),
        PackStepView::RequireFile("package/package.blueprint.json"@),
        PackStepView::ReadProject,
        PackStepView::RequireUi2File("ui/main.ui2"@),
        PackStepView::Note("validating blueprint"@),
        PackStepView::Pause(120),
        PackStepView::NoteCollecting,
        PackStepView::Pause(120),
        PackStepView::WritePlan,
        PackStepView::NotePlanWritten,
    ]
}

pub fn pack_steps() -> (v: Vec<PackStep>)
    ensures
        v@.map_values(|s: PackStep| pack_step_view(s)) == pack_stage(),
{
    let v = vec![
        PackStep::RequireFile("app.blueprint.json"),
        PackStep::RequireFile("package/package.blueprint.json"),
        PackStep::ReadProject,
        PackStep::RequireUi2File("ui/main.ui2"),
        PackStep::Note(VALIDATING_BLUEPRINT_LINE),
        PackStep::Pause(120),
        PackStep::NoteCollecting,
        PackStep::Pause(120),
        PackStep::WritePlan,
        PackStep::NotePlanWritten,
    ];
    proof {
        reveal_strlit("validating blueprint");
        assert(v@.map_values(|s: PackStep| pack_step_view(s)) =~= pack_stage());
    }
    v
}

/// The project files the pack stage requires: the two blueprints, and the
/// layout for a UI2 app.
pub fn pack_required_files(has_ui2: bool) -> (v: Vec<&'static str>)
    ensures
        v@.map_values(|s: &'static str| s@) == seq!["app.blueprint.json"@, "package/package.blueprint.json"@] + if has_ui2 {
            seq!["ui/main.ui2"@]
        } else {
            Seq::<Seq<char>>::empty()
        },
{
    let mut v = vec!["app.blueprint.json", "package/package.blueprint.json"];
    if has_ui2 {
        v.push("ui/main.ui2");
    }
    proof {
        assert(v@.map_values(|s: &'static str| s@) =~= seq!["app.blueprint.json"@, "package/package.blueprint.json"@] + if has_ui2 {
            seq!["ui/main.ui2"@]
        } else {
            Seq::<Seq<char>>::empty()
        });
    }
    v
}

/// The second line of the pack stage.
pub fn pack_collect_line(has_ui2: bool) -> (s: &'static str)
    ensures
        s@ == if has_ui2 {
            "collecting UI2 layouts and assets"@
        } else {
            "collecting app artifacts and assets"@
        },
{
    if has_ui2 {
        "collecting UI2 layouts and assets"
    } else {
        "collecting app artifacts and assets"
    }
}

impl JobBook {
    /// Books a new job of the given kind, queued with every stage of its
    /// pipeline, and notes its `queued` line.
    pub fn spawn(&mut self, id: u128, kind: JobKind, now: i64) -> (r: Option<JobEvent>)
        requires
            well_formed(old(self)@.jobs),
            index_of(old(self)@.jobs, id) < 0,
            old(self)@.next_sequence < u64::MAX,
        ensures
            well_formed(final(self)@.jobs),
            final(self)@.next_sequence == old(self)@.next_sequence + 1,
            final(self)@.jobs == with_new_job(
                old(self)@.jobs,
                noted_job(
                    queued_job(id, kind_view(kind), pipeline(kind), now),
                    JobStatus::Queued,
                    JobEventType::Queued,
                    JobStream::System,
                    None,
                    None,
                    "queued"@,
                    now,
                    old(self)@.next_sequence,
                ),
            ),
            r matches Some(e) && e@ == (EventView {
                job_id: id,
                kind: kind_view(kind),
                event: JobEventType::Queued,
                stream: JobStream::System,
                status: JobStatus::Queued,
                stage: None,
                stage_status: None,
                line: "queued"@,
                at: now,
                sequence: old(self)@.next_sequence,
            }),
    {
        let ghost kv = kind_view(kind);
        let ghost stages = pipeline(kind);
        let job = Job::queued(id, kind, now);
        let ghost j = job@;
        let ghost before = self@.jobs;
        self.insert(job);
        proof {
            assert(self@.jobs[0] == j);
            assert(index_of(self@.jobs, id) == 0);
        }
        let r = self.note(
            id,
            JobStatus::Queued,
            JobEventType::Queued,
            JobStream::System,
            None,
            None,
            "queued",
            now,
        );
        proof {
            assert(with_new_job(before, j).update(
                0,
                noted_job(
                    j,
                    JobStatus::Queued,
                    JobEventType::Queued,
                    JobStream::System,
                    None,
                    None,
                    "queued"@,
                    now,
                    (self@.next_sequence - 1) as u64,
                ),
            ) =~= with_new_job(
                before,
                noted_job(
                    j,
                    JobStatus::Queued,
                    JobEventType::Queued,
                    JobStream::System,
                    None,
                    None,
                    "queued"@,
                    now,
                    (self@.next_sequence - 1) as u64,
                ),
            ));
        }
        r
    }

    /// Books a new job of the given kind as `spawn` does, under an id drawn at
    /// random (`Uuid::new_v4`), and gives that id with the `queued` line. The
    /// book keeps ids distinct: when the drawn id is one it already holds,
    /// nothing is booked and that id comes back as the error. A job is always
    /// booked into a book that holds no job.
    pub fn spawn_new(&mut self, kind: JobKind, now: i64) -> (r: Result<(u128, JobEvent), u128>)
        requires
            well_formed(old(self)@.jobs),
            old(self)@.next_sequence < u64::MAX,
        ensures
            well_formed(final(self)@.jobs),
            old(self)@.jobs.len() == 0 ==> r is Ok,
            match r {
                Err(id) => index_of(old(self)@.jobs, id) >= 0 && final(self)@ == old(self)@,
                Ok((id, e)) => {
                    &&& index_of(old(self)@.jobs, id) < 0
                    &&& final(self)@.next_sequence == old(self)@.next_sequence + 1
                    &&& final(self)@.jobs == with_new_job(
                        old(self)@.jobs,
                        noted_job(
                            queued_job(id, kind_view(kind), pipeline(kind), now),
                            JobStatus::Queued,
                            JobEventType::Queued,
                            JobStream::System,
                            None,
                            None,
                            "queued"@,
                            now,
                            old(self)@.next_sequence,
                        ),
                    )
                    &&& e@ == (EventView {
                        job_id: id,
                        kind: kind_view(kind),
                        event: JobEventType::Queued,
                        stream: JobStream::System,
                        status: JobStatus::Queued,
                        stage: None,
                        stage_status: None,
                        line: "queued"@,
                        at: now,
                        sequence: old(self)@.next_sequence,
                    })
                },
            },
    {
        let id = crate::model::new_id();
        if self.contains(id) {
            return Err(id);
        }
        match self.spawn(id, kind, now) {
            Some(e) => Ok((id, e)),
            None => Err(id),
        }
    }
}

} // verus!
