//! Decisions of the project watcher: which file-system events count, which
//! paths are ignored, what kind of change is reported, and whether a change
//! starts a full-auto job. Watching and debouncing run in the application.

use vstd::prelude::*;
use crate::text;
use crate::file_store::{self, ComponentView};
use crate::jobs::JobKind;

verus! {

/// The debounce between two jobs started by the watcher, in milliseconds.
pub const WATCH_DEBOUNCE_MS: u64 = 800;

/// What happened to the watched files, as the watcher reports it.
#[derive(Debug, Clone, Copy, PartialEq, Eq, Structural)]
pub enum ProjectFileEventKind {
    Create,
    Modify,
    Remove,
    Other,
}

/// The kind of a file-system event, reduced to what the watcher tells apart.
#[derive(Debug, Clone, Copy, PartialEq, Eq, Structural)]
pub enum FsEventKind {
    Create,
    Modify,
    Remove,
    Other,
}

/// A change under a watched project: the project, the changed paths
/// relative to it, the kind of change and when it was seen (milliseconds
/// since the Unix epoch).
pub struct ProjectFileEvent {
    pub project: String,
    pub paths: Vec<String>,
    pub kind: ProjectFileEventKind,
    pub at_unix_ms: u64,
}

/// Directory and file names whose changes never count.
pub open spec fn ignored_names() -> Seq<Seq<char>> {
    seq![".git"@, "target"@, "dist"@, "package"@, "node_modules"@, ".DS_Store"@]
}


/// Whether a path lies under (or is) an ignored name: one of its
/// components is one.
pub open spec fn ignored_path(path: Seq<char>) -> bool {
    let cs = file_store::components(path);
    exists|i: int| 0 <= i < cs.len() && ignored_names().contains(#[trigger] file_store::component_name(cs[i]))
}

fn is_ignored_name(name: &str) -> (b: bool)
    ensures
        b == ignored_names().contains(name@),
{
    let list = vec![".git", "target", "dist", "package", "node_modules", ".DS_Store"];
    let ghost lv = list@.map_values(|s: &'static str| s@);
    proof {
        assert(lv =~= ignored_names());
    }
    let mut i: usize = 0;
    while i < list.len()
        invariant
            i <= list.len(),
            lv == list@.map_values(|s: &'static str| s@),
            lv == ignored_names(),
            forall|j: int| 0 <= j < i ==> #[trigger] lv[j] != name@,
        decreases list.len() - i,
    {
        if text::str_eq(list[i], name) {
            assert(lv[i as int] == name@);
            return true;
        }
        i += 1;
    }
    false
}

/// Whether a changed path is ignored.
pub fn is_ignored_path(path: &str) -> (b: bool)
    ensures
        b == ignored_path(path@),
{
    let cs = file_store::path_components(path);
    let ghost cv = file_store::components_view(cs@);
    let mut i: usize = 0;
    while i < cs.len()
        invariant
            i <= cs.len(),
            cv == file_store::components_view(cs@),
            cv == file_store::components(path@),
            forall|j: int| 0 <= j < i ==> !ignored_names().contains(#[trigger] file_store::component_name(cv[j])),
        decreases cs.len() - i,
    {
        let hit = match &cs[i] {
            file_store::PathComponent::RootDir => is_ignored_name("/"),
            file_store::PathComponent::CurDir => is_ignored_name("."),
            file_store::PathComponent::ParentDir => is_ignored_name(".."),
            file_store::PathComponent::Normal(n) => is_ignored_name(n.as_str()),
        };
        if hit {
            assert(ignored_names().contains(file_store::component_name(cv[i as int])));
            return true;
        }
        i += 1;
    }
    false
}

pub open spec fn counts(kind: FsEventKind) -> bool {
    kind == FsEventKind::Create || kind == FsEventKind::Modify || kind == FsEventKind::Remove
}

pub open spec fn any_watched(paths: Seq<String>) -> bool {
    exists|i: int| 0 <= i < paths.len() && !ignored_path(#[trigger] paths[i]@)
}

/// Whether an event should run a job or be reported: a creation,
/// modification or removal touching at least one path that is not ignored.
pub fn should_run_for_event(kind: FsEventKind, paths: &Vec<String>) -> (b: bool)
    ensures
        b == (counts(kind) && any_watched(paths@)),
{
    match kind {
        FsEventKind::Create | FsEventKind::Modify | FsEventKind::Remove => {},
        FsEventKind::Other => {
            return false;
        },
    }
    let mut i: usize = 0;
    while i < paths.len()
        invariant
            i <= paths.len(),
            counts(kind),
            forall|j: int| 0 <= j < i ==> ignored_path(#[trigger] paths@[j]@),
        decreases paths.len() - i,
    {
        if !is_ignored_path(paths[i].as_str()) {
            assert(!ignored_path(paths@[i as int]@));
            return true;
        }
        i += 1;
    }
    false
}

/// The paths of an event worth reporting: those not ignored, in order.
pub open spec fn watched_paths(paths: Seq<Seq<char>>) -> Seq<Seq<char>>
    decreases paths.len(),
{
    if paths.len() == 0 {
        Seq::empty()
    } else if ignored_path(paths.last()) {
        watched_paths(paths.drop_last())
    } else {
        watched_paths(paths.drop_last()).push(paths.last())
    }
}

/// The paths of an event that are not ignored.
pub fn reported_paths(paths: &Vec<String>) -> (v: Vec<String>)
    ensures
        text::strings_view(v@) == watched_paths(text::strings_view(paths@)),
{
    let ghost pv = text::strings_view(paths@);
    let mut v: Vec<String> = Vec::new();
    let mut i: usize = 0;
    while i < paths.len()
        invariant
            i <= paths.len(),
            pv == text::strings_view(paths@),
            text::strings_view(v@) == watched_paths(pv.take(i as int)),
        decreases paths.len() - i,
    {
        proof {
            assert(pv.take(i + 1).drop_last() =~= pv.take(i as int));
        }
        if !is_ignored_path(paths[i].as_str()) {
            let ghost before = v@;
            v.push(paths[i].clone());
            proof {
                assert(text::strings_view(v@) =~= text::strings_view(before).push(pv[i as int]));
            }
        }
        i += 1;
    }
    proof {
        assert(pv.take(i as int) =~= pv);
    }
    v
}

/// The kind of change an event reports.
pub fn project_file_event_kind(kind: FsEventKind) -> (k: ProjectFileEventKind)
    ensures
        k == match kind {
            FsEventKind::Create => ProjectFileEventKind::Create,
            FsEventKind::Modify => ProjectFileEventKind::Modify,
            FsEventKind::Remove => ProjectFileEventKind::Remove,
            FsEventKind::Other => ProjectFileEventKind::Other,
        },
{
    match kind {
        FsEventKind::Create => ProjectFileEventKind::Create,
        FsEventKind::Modify => ProjectFileEventKind::Modify,
        FsEventKind::Remove => ProjectFileEventKind::Remove,
        FsEventKind::Other => ProjectFileEventKind::Other,
    }
}

/// The job a watched change starts: a full-auto job on the project when
/// full-auto is on, none otherwise.
pub fn watch_job_kind(project: &str, full_auto: bool) -> (k: Option<JobKind>)
    ensures
        full_auto ==> (k matches Some(j) && j matches JobKind::FullAuto { project: p } && p@
            == project@),
        !full_auto ==> k is None,
{
    if full_auto {
        Some(JobKind::FullAuto { project: text::owned(project) })
    } else {
        None
    }
}

/// Whether enough time has passed since the last job the watcher started.
pub fn debounce_elapsed(since_last_run_ms: u64) -> (b: bool)
    ensures
        b == (since_last_run_ms >= WATCH_DEBOUNCE_MS),
{
    since_last_run_ms >= WATCH_DEBOUNCE_MS
}

} // verus!
