//! Project files as the workspace sees them: relative paths kept inside the
//! project, the names the file listing skips, and which files the generator
//! owns. Paths are `/`-separated, as on Unix.

use vstd::prelude::*;
use crate::text;
use crate::ordering;

verus! {

/// Directory names the file listing never enters.
pub open spec fn ignored_dirs() -> Seq<Seq<char>> {
    seq![".git"@, "target"@, "node_modules"@]
}

/// The files the generator writes, relative to the project root.
pub open spec fn generated_files() -> Seq<Seq<char>> {
    seq![
        "rads.project.json"@,
        "app.blueprint.json"@,
        "package/package.blueprint.json"@,
        "package/manifest.trueos.json"@,
        "ui/main.ui2"@,
        "ui/main.ui2.json"@,
        "ui/index.html"@,
        "ui/styles.css"@,
        "Cargo.toml"@,
        "src/main.rs"@,
        "src/ui.rs"@,
        "src/events.rs"@,
        "README.md"@,
    ]
}

pub enum ProjectFileKind {
    File,
    Directory,
}

/// One entry of the file listing. Times are milliseconds since the Unix
/// epoch.
pub struct ProjectFileEntry {
    pub path: String,
    pub name: String,
    pub kind: ProjectFileKind,
    pub size: u64,
    pub modified_at: Option<i64>,
    pub generated: bool,
    pub writable: bool,
}

pub struct ProjectFileListResponse {
    pub root: String,
    pub files: Vec<ProjectFileEntry>,
}

pub struct ProjectFileReadResponse {
    pub path: String,
    pub absolute_path: String,
    pub contents: String,
    pub size: u64,
    pub modified_at: Option<i64>,
    pub generated: bool,
    pub writable: bool,
}

// ---------------------------------------------------------------------------
// Path components
// ---------------------------------------------------------------------------

/// A component of a `/`-separated path, as `std::path::Path::components`
/// yields it on Unix.
#[derive(Debug)]
pub enum PathComponent {
    RootDir,
    CurDir,
    ParentDir,
    Normal(String),
}

pub enum ComponentView {
    RootDir,
    CurDir,
    ParentDir,
    Normal(Seq<char>),
}

pub open spec fn component_view(c: PathComponent) -> ComponentView {
    match c {
        PathComponent::RootDir => ComponentView::RootDir,
        PathComponent::CurDir => ComponentView::CurDir,
        PathComponent::ParentDir => ComponentView::ParentDir,
        PathComponent::Normal(s) => ComponentView::Normal(s@),
    }
}

pub open spec fn components_view(v: Seq<PathComponent>) -> Seq<ComponentView> {
    v.map_values(|c: PathComponent| component_view(c))
}

/// The text of a component as a path shows it.
pub open spec fn component_name(c: ComponentView) -> Seq<char> {
    match c {
        ComponentView::RootDir => "/"@,
        ComponentView::CurDir => "."@,
        ComponentView::ParentDir => ".."@,
        ComponentView::Normal(n) => n,
    }
}

/// The component a `/`-free part of the path body stands for, if any:
/// empty parts and `.` are skipped.
pub open spec fn part_component(part: Seq<char>) -> Seq<ComponentView> {
    if part.len() == 0 || part == "."@ {
        Seq::empty()
    } else if part == ".."@ {
        seq![ComponentView::ParentDir]
    } else {
        seq![ComponentView::Normal(part)]
    }
}

/// The components of the parts of `s` split at `/`: the finished ones and
/// the part being read.
pub open spec fn body_split(s: Seq<char>) -> (Seq<ComponentView>, Seq<char>)
    decreases s.len(),
{
    if s.len() == 0 {
        (Seq::empty(), Seq::empty())
    } else {
        let prev = body_split(s.drop_last());
        if s.last() == '/' {
            (prev.0 + part_component(prev.1), Seq::empty())
        } else {
            (prev.0, prev.1.push(s.last()))
        }
    }
}

/// The components of the parts of `s` between slashes.
pub open spec fn body_components(s: Seq<char>) -> Seq<ComponentView> {
    let parts = body_split(s);
    parts.0 + part_component(parts.1)
}

/// `Path::components` on Unix: a root for a leading `/`, a current
/// directory for a leading `.` that is the whole path or followed by `/`,
/// then one component per part between slashes, empty parts and `.`
/// skipped and `..` a parent directory.
pub open spec fn components(s: Seq<char>) -> Seq<ComponentView> {
    if s.len() > 0 && s[0] == '/' {
        seq![ComponentView::RootDir] + body_components(s)
    } else if s.len() > 0 && s[0] == '.' && (s.len() == 1 || s[1] == '/') {
        seq![ComponentView::CurDir] + body_components(s)
    } else {
        body_components(s)
    }
}

fn push_part(out: &mut Vec<PathComponent>, part: Vec<char>)
    ensures
        components_view(final(out)@) == components_view(old(out)@) + part_component(part@),
{
    let ghost before = components_view(out@);
    proof {
        reveal_strlit(".");
        reveal_strlit("..");
    }
    if part.len() == 0 || (part.len() == 1 && part[0] == '.') {
        proof {
            if part@.len() == 1 {
                assert(part@ =~= "."@);
            }
            assert(components_view(out@) =~= before + part_component(part@));
        }
        return;
    }
    proof {
        if part@ == "."@ {
            assert(part@[0] == '.');
        }
    }
    if part.len() == 2 && part[0] == '.' && part[1] == '.' {
        proof {
            assert(part@ =~= ".."@);
        }
        out.push(PathComponent::ParentDir);
        proof {
            assert(components_view(out@) =~= before + part_component(part@));
        }
    } else {
        proof {
            if part@ == ".."@ {
                assert(part@[0] == '.' && part@[1] == '.');
            }
        }
        let name = text::string_of(&part);
        out.push(PathComponent::Normal(name));
        proof {
            assert(components_view(out@) =~= before + part_component(part@));
        }
    }
}

/// The components of a path, as `Path::components` yields them on Unix.
pub fn path_components(s: &str) -> (v: Vec<PathComponent>)
    ensures
        components_view(v@) == components(s@),
{
    let chars = text::chars_of(s);
    let mut out: Vec<PathComponent> = Vec::new();
    if chars.len() > 0 && chars[0] == '/' {
        out.push(PathComponent::RootDir);
    } else if chars.len() > 0 && chars[0] == '.' && (chars.len() == 1 || chars[1] == '/') {
        out.push(PathComponent::CurDir);
    }
    let ghost head = components_view(out@);
    let mut part: Vec<char> = Vec::new();
    let mut i: usize = 0;
    while i < chars.len()
        invariant
            i <= chars.len(),
            chars@ == s@,
            (components_view(out@).skip(head.len() as int), part@) == body_split(chars@.take(i as int)),
            components_view(out@).take(head.len() as int) == head,
            components_view(out@).len() >= head.len(),
        decreases chars.len() - i,
    {
        proof {
            assert(chars@.take(i + 1).drop_last() =~= chars@.take(i as int));
        }
        let c = chars[i];
        if c == '/' {
            let mut finished: Vec<char> = Vec::new();
            std::mem::swap(&mut finished, &mut part);
            let ghost before = components_view(out@);
            push_part(&mut out, finished);
            proof {
                let after = components_view(out@);
                assert(after.skip(head.len() as int) =~= before.skip(head.len() as int)
                    + part_component(finished@));
                assert(after.take(head.len() as int) =~= before.take(head.len() as int));
            }
        } else {
            part.push(c);
        }
        i += 1;
    }
    proof {
        assert(chars@.take(i as int) =~= chars@);
    }
    let ghost before = components_view(out@);
    let ghost last = part@;
    push_part(&mut out, part);
    proof {
        let after = components_view(out@);
        assert(after.skip(head.len() as int) =~= before.skip(head.len() as int) + part_component(last));
        assert(after =~= after.take(head.len() as int) + after.skip(head.len() as int));
        assert(after.take(head.len() as int) =~= before.take(head.len() as int));
        assert(after =~= components(s@));
    }
    out
}

/// The last component of a path when it is a name: what `Path::file_name`
/// gives.
pub open spec fn file_name_of(s: Seq<char>) -> Option<Seq<char>> {
    let cs = components(s);
    if cs.len() > 0 && cs.last() is Normal {
        Some(cs.last()->Normal_0)
    } else {
        None
    }
}

/// `Path::file_name`.
pub fn file_name(s: &str) -> (r: Option<String>)
    ensures
        match r {
            Some(n) => file_name_of(s@) == Some(n@),
            None => file_name_of(s@) is None,
        },
{
    let mut cs = path_components(s);
    match cs.pop() {
        Some(PathComponent::Normal(n)) => Some(n),
        _ => None,
    }
}

// ---------------------------------------------------------------------------
// Relative paths inside a project
// ---------------------------------------------------------------------------

/// The names of the components of a path that stays inside the project:
/// none may be a root, or a parent directory; current directories are
/// dropped.
pub open spec fn inside_parts(cs: Seq<ComponentView>) -> Option<Seq<Seq<char>>>
    decreases cs.len(),
{
    if cs.len() == 0 {
        Some(Seq::empty())
    } else {
        match inside_parts(cs.drop_last()) {
            None => None,
            Some(parts) => match cs.last() {
                ComponentView::Normal(p) => Some(parts.push(p)),
                ComponentView::CurDir => Some(parts),
                _ => None,
            },
        }
    }
}

/// Why a requested path is refused.
pub open spec fn relative_path_result(path: Seq<char>) -> Result<Seq<char>, Seq<char>> {
    if path.len() == 0 {
        Err("path is required"@)
    } else {
        match inside_parts(components(path)) {
            None => Err("project file paths must stay inside the project"@),
            Some(parts) => if parts.len() == 0 {
                Err("path must name a project file"@)
            } else {
                Ok(text::join_seqs(parts, "/"@))
            },
        }
    }
}

/// A requested path normalized inside the project: its names joined with
/// `/`, or an error for an empty path, a path that leaves the project (a
/// root or `..`), or one that names no file.
pub fn project_relative_path(path: &str) -> (r: Result<String, String>)
    ensures
        match relative_path_result(path@) {
            Ok(p) => r matches Ok(s) && s@ == p,
            Err(e) => r matches Err(s) && s@ == e,
        },
{
    if path.is_empty() {
        return Err(text::owned("path is required"));
    }
    let cs = path_components(path);
    let ghost cv = components_view(cs@);
    let mut parts: Vec<String> = Vec::new();
    let mut i: usize = 0;
    while i < cs.len()
        invariant
            i <= cs.len(),
            cv == components_view(cs@),
            cv == components(path@),
            path@.len() > 0,
            inside_parts(cv.take(i as int)) == Some(text::strings_view(parts@)),
        decreases cs.len() - i,
    {
        proof {
            assert(cv.take(i + 1).drop_last() =~= cv.take(i as int));
        }
        match &cs[i] {
            PathComponent::Normal(p) => {
                let ghost before = parts@;
                parts.push(p.clone());
                proof {
                    assert(text::strings_view(parts@) =~= text::strings_view(before).push(p@));
                }
            },
            PathComponent::CurDir => {},
            _ => {
                proof {
                    lemma_inside_parts_none(cv, i as int);
                }
                return Err(text::owned("project file paths must stay inside the project"));
            },
        }
        i += 1;
    }
    proof {
        assert(cv.take(i as int) =~= cv);
    }
    if parts.len() == 0 {
        return Err(text::owned("path must name a project file"));
    }
    let ghost ps = text::strings_view(parts@);
    let mut r = String::new();
    let mut j: usize = 0;
    while j < parts.len()
        invariant
            j <= parts.len(),
            ps == text::strings_view(parts@),
            r@ == text::join_seqs(ps.take(j as int), "/"@),
        decreases parts.len() - j,
    {
        proof {
            text::lemma_join_take(ps, "/"@, j as int);
        }
        if j > 0 {
            text::push_str(&mut r, "/");
        }
        text::push_str(&mut r, parts[j].as_str());
        proof {
            assert(r@ =~= text::join_seqs(ps.take(j + 1), "/"@));
        }
        j += 1;
    }
    proof {
        assert(ps.take(j as int) =~= ps);
    }
    Ok(r)
}

proof fn lemma_inside_parts_none(cs: Seq<ComponentView>, i: int)
    requires
        0 <= i < cs.len(),
        cs[i] is RootDir || cs[i] is ParentDir,
    ensures
        inside_parts(cs) is None,
    decreases cs.len(),
{
    if i == cs.len() - 1 {
        match inside_parts(cs.drop_last()) {
            None => {},
            Some(_) => {},
        }
    } else {
        assert(cs.drop_last()[i] == cs[i]);
        lemma_inside_parts_none(cs.drop_last(), i);
    }
}

fn in_list(name: &str, list: &Vec<&'static str>) -> (b: bool)
    ensures
        b == list@.map_values(|s: &'static str| s@).contains(name@),
{
    let ghost lv = list@.map_values(|s: &'static str| s@);
    let mut i: usize = 0;
    while i < list.len()
        invariant
            i <= list.len(),
            lv == list@.map_values(|s: &'static str| s@),
            forall|j: int| 0 <= j < i ==> #[trigger] lv[j] != name@,
        decreases list.len() - i,
    {
        if text::str_eq(list[i], name) {
            assert(lv[i as int] == name@);
            return true;
        }
        i += 1;
    }
    false
}

/// Whether the file listing skips an entry of this name.
pub fn is_ignored_name(name: &str) -> (b: bool)
    ensures
        b == ignored_dirs().contains(name@),
{
    let list = vec![".git", "target", "node_modules"];
    proof {
        assert(list@.map_values(|s: &'static str| s@) =~= ignored_dirs());
    }
    in_list(name, &list)
}

/// `s` with every backslash turned into a slash.
pub open spec fn forward_slashes(s: Seq<char>) -> Seq<char> {
    s.map_values(|c: char| if c == '\\' { '/' } else { c })
}

/// Whether the generator owns the file at this relative path (written with
/// either kind of slash).
pub fn is_generated_file(path: &str) -> (b: bool)
    ensures
        b == generated_files().contains(forward_slashes(path@)),
{
    let chars = text::chars_of(path);
    let mut normalized: Vec<char> = Vec::new();
    let mut i: usize = 0;
    while i < chars.len()
        invariant
            i <= chars.len(),
            chars@ == path@,
            normalized@ == forward_slashes(chars@.take(i as int)),
        decreases chars.len() - i,
    {
        if chars[i] == '\\' {
            normalized.push('/');
        } else {
            normalized.push(chars[i]);
        }
        proof {
            assert(normalized@ =~= forward_slashes(chars@.take(i + 1)));
        }
        i += 1;
    }
    proof {
        assert(chars@.take(i as int) =~= chars@);
    }
    let n = text::string_of(&normalized);
    let list = vec![
        "rads.project.json",
        "app.blueprint.json",
        "package/package.blueprint.json",
        "package/manifest.trueos.json",
        "ui/main.ui2",
        "ui/main.ui2.json",
        "ui/index.html",
        "ui/styles.css",
        "Cargo.toml",
        "src/main.rs",
        "src/ui.rs",
        "src/events.rs",
        "README.md",
    ];
    proof {
        assert(list@.map_values(|s: &'static str| s@) =~= generated_files());
    }
    in_list(n.as_str(), &list)
}


// ---------------------------------------------------------------------------
// Listing order
// ---------------------------------------------------------------------------

/// The parts a listed path is ordered by: the text of each of its
/// components. A listing holds relative paths, made of names only.
pub open spec fn path_key(path: Seq<char>) -> Seq<Seq<char>> {
    components(path).map_values(|c: ComponentView| component_name(c))
}

fn component_text(c: &PathComponent) -> (s: String)
    ensures
        s@ == component_name(component_view(*c)),
{
    match c {
        PathComponent::RootDir => text::owned("/"),
        PathComponent::CurDir => text::owned("."),
        PathComponent::ParentDir => text::owned(".."),
        PathComponent::Normal(n) => n.clone(),
    }
}

/// The parts of a path, as `path_key` gives them.
pub fn path_key_parts(path: &str) -> (v: Vec<String>)
    ensures
        text::strings_view(v@) == path_key(path@),
{
    let cs = path_components(path);
    let ghost cv = components_view(cs@);
    let mut v: Vec<String> = Vec::new();
    let mut i: usize = 0;
    while i < cs.len()
        invariant
            i <= cs.len(),
            cv == components_view(cs@),
            cv == components(path@),
            text::strings_view(v@) == cv.take(i as int).map_values(|c: ComponentView| component_name(c)),
        decreases cs.len() - i,
    {
        let part = component_text(&cs[i]);
        let ghost before = v@;
        v.push(part);
        proof {
            assert(cv.take(i + 1) =~= cv.take(i as int).push(cv[i as int]));
            assert(text::strings_view(v@) =~= text::strings_view(before).push(part@));
            assert(cv.take(i + 1).map_values(|c: ComponentView| component_name(c)) =~= cv.take(
                i as int,
            ).map_values(|c: ComponentView| component_name(c)).push(component_name(cv[i as int])));
        }
        i += 1;
    }
    proof {
        assert(cv.take(i as int) =~= cv);
    }
    v
}

/// Entries with the key they are listed by.
pub open spec fn keyed_entries(v: Seq<ProjectFileEntry>) -> Seq<(Seq<Seq<char>>, ProjectFileEntry)> {
    v.map_values(|e: ProjectFileEntry| (path_key(e.path@), e))
}

/// The entries of a listing in listing order: shallower paths first, then
/// by path part by part; the same entries, as many times each, and entries
/// with the same path keep their order.
pub fn sort_file_entries(entries: Vec<ProjectFileEntry>) -> (r: Vec<ProjectFileEntry>)
    ensures
        exists|s: Seq<(Seq<Seq<char>>, ProjectFileEntry)>|
            {
                &&& s.to_multiset() == keyed_entries(entries@).to_multiset()
                &&& ordering::sorted_by_key(s)
                &&& forall|k: Seq<Seq<char>>| #[trigger] ordering::with_key(s, k)
                    == ordering::with_key(keyed_entries(entries@), k)
                &&& r@ == s.map_values(|p: (Seq<Seq<char>>, ProjectFileEntry)| p.1)
            },
{
    let ghost all = entries@;
    let n = entries.len();
    let mut rest = entries;
    let mut pairs: Vec<(Vec<String>, ProjectFileEntry)> = Vec::new();
    let mut i: usize = 0;
    while i < n
        invariant
            i <= n,
            n == all.len(),
            rest@ == all.skip(i as int),
            ordering::keyed_views(pairs@) == keyed_entries(all.take(i as int)),
        decreases n - i,
    {
        let e = rest.remove(0);
        proof {
            assert(all.skip(i as int)[0] == all[i as int]);
            assert(all.skip(i as int).remove(0) =~= all.skip(i + 1));
        }
        let key = path_key_parts(e.path.as_str());
        let ghost before = pairs@;
        pairs.push((key, e));
        proof {
            assert(all.take(i + 1) =~= all.take(i as int).push(all[i as int]));
            assert(ordering::keyed_views(pairs@) =~= ordering::keyed_views(before).push(
                (path_key(all[i as int].path@), all[i as int]),
            ));
            assert(keyed_entries(all.take(i + 1)) =~= keyed_entries(all.take(i as int)).push(
                (path_key(all[i as int].path@), all[i as int]),
            ));
        }
        i += 1;
    }
    proof {
        assert(all.take(n as int) =~= all);
    }
    let sorted = ordering::sort_by_parts(pairs);
    let ghost s = ordering::keyed_views(sorted@);
    let m = sorted.len();
    let mut left = sorted;
    let mut out: Vec<ProjectFileEntry> = Vec::new();
    let mut j: usize = 0;
    while j < m
        invariant
            j <= m,
            m == s.len(),
            ordering::keyed_views(left@) == s.skip(j as int),
            left@.len() == m - j,
            out@ == s.take(j as int).map_values(|p: (Seq<Seq<char>>, ProjectFileEntry)| p.1),
        decreases m - j,
    {
        let ghost lv = left@;
        let p = left.remove(0);
        proof {
            assert(p == lv[0]);
            assert(ordering::keyed_views(lv)[0] == ordering::keyed_view(p));
            assert(ordering::keyed_views(left@) =~= ordering::keyed_views(lv).remove(0));
            assert(s.skip(j as int).remove(0) =~= s.skip(j + 1));
            assert(s[j as int] == s.skip(j as int)[0]);
        }
        let ghost before = out@;
        out.push(p.1);
        proof {
            assert(s.take(j + 1) =~= s.take(j as int).push(s[j as int]));
            assert(out@ =~= s.take(j + 1).map_values(|p: (Seq<Seq<char>>, ProjectFileEntry)| p.1));
        }
        j += 1;
    }
    proof {
        assert(s.take(m as int) =~= s);
    }
    out
}

} // verus!
