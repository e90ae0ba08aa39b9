//! What generating a project writes: the directories, the JSON documents
//! and the text files, in order, and the errors of project creation.
//! Writing to disk and JSON serialisation happen in the application.

use vstd::prelude::*;
use crate::text;
use crate::model::{self, RadsProject, ValidProjectName};
use crate::project_templates::{self, ProjectTemplate, TemplateView};
use crate::templates;

verus! {

/// A document of the project written as JSON.
#[derive(Debug, Clone, Copy, PartialEq, Eq, Structural)]
pub enum ProjectDocument {
    /// The whole project model.
    Project,
    AppBlueprint,
    PackageBlueprint,
    /// The package manifest.
    Manifest,
    /// The window at this position.
    Window(usize),
}

/// One step of writing a project, relative to its root.
pub enum ProjectFile {
    /// Create this directory and its parents.
    Dir { path: String },
    /// Write this document as pretty JSON.
    Json { path: String, document: ProjectDocument },
    /// Write this text.
    Text { path: String, contents: String },
}

pub enum FileView {
    Dir(Seq<char>),
    Json(Seq<char>, ProjectDocument),
    Text(Seq<char>, Seq<char>),
}

pub open spec fn file_view(f: ProjectFile) -> FileView {
    match f {
        ProjectFile::Dir { path } => FileView::Dir(path@),
        ProjectFile::Json { path, document } => FileView::Json(path@, document),
        ProjectFile::Text { path, contents } => FileView::Text(path@, contents@),
    }
}

pub open spec fn files_view(v: Seq<ProjectFile>) -> Seq<FileView> {
    v.map_values(|f: ProjectFile| file_view(f))
}

/// The files of the window at `i`: its JSON, HTML and CSS under
/// `ui/windows/`, named by its file stem.
pub open spec fn window_files(p: RadsProject, t: TemplateView, i: nat) -> Seq<FileView> {
    let w = p.windows@[i as int];
    let stem = templates::file_stem_text(w.name@, i);
    seq![
        FileView::Json("ui/windows/"@ + stem + ".ui2.json"@, ProjectDocument::Window(i as usize)),
        FileView::Text("ui/windows/"@ + stem + ".html"@, templates::window_html_text(p, t, w)),
        FileView::Text("ui/windows/"@ + stem + ".css"@, templates::window_css_text(p, t, w)),
    ]
}

pub open spec fn all_window_files(p: RadsProject, t: TemplateView, n: nat) -> Seq<FileView>
    decreases n,
{
    if n == 0 {
        Seq::empty()
    } else {
        all_window_files(p, t, (n - 1) as nat) + window_files(p, t, (n - 1) as nat)
    }
}

/// The UI files of a project with a UI2 surface: the windows directory, the
/// main window's JSON, the readable layout, the main HTML and CSS, and each
/// window's files.
pub open spec fn ui_files(p: RadsProject, t: TemplateView) -> Seq<FileView> {
    let w = p.windows@[0];
    seq![
        FileView::Dir("ui/windows"@),
        FileView::Json("ui/main.ui2.json"@, ProjectDocument::Window(0)),
        FileView::Text("ui/main.ui2"@, templates::project_layout(p)),
        FileView::Text("ui/index.html"@, templates::window_html_text(p, t, w)),
        FileView::Text("ui/styles.css"@, templates::window_css_text(p, t, w)),
    ] + all_window_files(p, t, p.windows@.len())
}

/// Everything generating a project from a template writes, in order.
pub open spec fn project_file_plan(p: RadsProject, t: TemplateView, v_path: Seq<char>) -> Seq<FileView> {
    let has_ui = templates::has_ui_surface(p);
    seq![
        FileView::Json("rads.project.json"@, ProjectDocument::Project),
        FileView::Json("app.blueprint.json"@, ProjectDocument::AppBlueprint),
        FileView::Json("package/package.blueprint.json"@, ProjectDocument::PackageBlueprint),
    ] + (if has_ui {
        ui_files(p, t)
    } else {
        Seq::empty()
    }) + seq![
        FileView::Text("Cargo.toml"@, templates::cargo_toml_text(p, v_path)),
        FileView::Text(
            "src/main.rs"@,
            templates::project_tokens(t.main_rs, p, t.id, t.name, templates::TokenEscape::Rust),
        ),
    ] + (if has_ui {
        seq![FileView::Text("src/ui.rs"@, templates::ui_rs_text(p))]
    } else {
        Seq::empty()
    }) + seq![
        FileView::Text("src/events.rs"@, templates::events_rs_text(p, t)),
        FileView::Json("package/manifest.trueos.json"@, ProjectDocument::Manifest),
        FileView::Text("README.md"@, templates::readme_text(p, t)),
    ]
}

fn push_file(v: &mut Vec<ProjectFile>, f: ProjectFile)
    ensures
        files_view(final(v)@) == files_view(old(v)@).push(file_view(f)),
{
    let ghost before = v@;
    v.push(f);
    proof {
        assert(files_view(v@) =~= files_view(before).push(file_view(f)));
    }
}

fn windows_path(stem: &String, suffix: &str) -> (r: String)
    ensures
        r@ == "ui/windows/"@ + stem@ + suffix@,
{
    let mut r = text::owned("ui/windows/");
    text::push_str(&mut r, stem.as_str());
    text::push_str(&mut r, suffix);
    r
}

fn push_window_files(
    v: &mut Vec<ProjectFile>,
    project: &RadsProject,
    template: &ProjectTemplate,
    i: usize,
)
    requires
        i < project.windows@.len(),
    ensures
        files_view(final(v)@) == files_view(old(v)@) + window_files(*project, template@, i as nat),
{
    let ghost before = files_view(v@);
    let window = &project.windows[i];
    let stem = templates::window_file_stem(window, i);
    push_file(v, ProjectFile::Json { path: windows_path(&stem, ".ui2.json"), document: ProjectDocument::Window(i) });
    push_file(
        v,
        ProjectFile::Text {
            path: windows_path(&stem, ".html"),
            contents: templates::html_for_window(project, template, window),
        },
    );
    push_file(
        v,
        ProjectFile::Text {
            path: windows_path(&stem, ".css"),
            contents: templates::css_for_window(project, template, window),
        },
    );
    proof {
        assert(files_view(v@) =~= before + window_files(*project, template@, i as nat));
    }
}

fn push_ui_files(v: &mut Vec<ProjectFile>, project: &RadsProject, template: &ProjectTemplate)
    requires
        project.windows@.len() > 0,
    ensures
        files_view(final(v)@) == files_view(old(v)@) + ui_files(*project, template@),
{
    let ghost start = files_view(v@);
    let window = &project.windows[0];
    push_file(v, ProjectFile::Dir { path: text::owned("ui/windows") });
    push_file(v, ProjectFile::Json { path: text::owned("ui/main.ui2.json"), document: ProjectDocument::Window(0) });
    push_file(v, ProjectFile::Text { path: text::owned("ui/main.ui2"), contents: templates::ui2_layout(project) });
    push_file(
        v,
        ProjectFile::Text {
            path: text::owned("ui/index.html"),
            contents: templates::html_for_window(project, template, window),
        },
    );
    push_file(
        v,
        ProjectFile::Text {
            path: text::owned("ui/styles.css"),
            contents: templates::css_for_window(project, template, window),
        },
    );
    let ghost head = files_view(v@);
    let mut i: usize = 0;
    while i < project.windows.len()
        invariant
            i <= project.windows.len(),
            files_view(v@) == head + all_window_files(*project, template@, i as nat),
        decreases project.windows.len() - i,
    {
        push_window_files(v, project, template, i);
        proof {
            assert(files_view(v@) =~= head + all_window_files(*project, template@, (i + 1) as nat));
        }
        i += 1;
    }
    proof {
        assert(files_view(v@) =~= start + ui_files(*project, template@));
    }
}

/// Everything generating the project from a template writes, in order; the
/// generated `Cargo.toml` depends on the `v` crate at `v_dependency_path`.
pub fn project_files(project: &RadsProject, template: &ProjectTemplate, v_dependency_path: &str) -> (v:
    Vec<ProjectFile>)
    ensures
        files_view(v@) == project_file_plan(*project, template@, v_dependency_path@),
{
    let has_ui = project.app_kind.has_ui2() && project.windows.len() > 0;
    let mut v: Vec<ProjectFile> = Vec::new();
    proof {
        assert(files_view(v@) =~= Seq::<FileView>::empty());
    }
    push_file(&mut v, ProjectFile::Json { path: text::owned("rads.project.json"), document: ProjectDocument::Project });
    push_file(&mut v, ProjectFile::Json { path: text::owned("app.blueprint.json"), document: ProjectDocument::AppBlueprint });
    push_file(
        &mut v,
        ProjectFile::Json {
            path: text::owned("package/package.blueprint.json"),
            document: ProjectDocument::PackageBlueprint,
        },
    );
    let ghost after_json = files_view(v@);
    if has_ui {
        push_ui_files(&mut v, project, template);
    }
    proof {
        assert(files_view(v@) =~= after_json + (if has_ui {
            ui_files(*project, template@)
        } else {
            Seq::empty()
        }));
    }
    let ghost after_ui = files_view(v@);
    push_file(
        &mut v,
        ProjectFile::Text {
            path: text::owned("Cargo.toml"),
            contents: templates::cargo_toml(project, v_dependency_path),
        },
    );
    push_file(
        &mut v,
        ProjectFile::Text {
            path: text::owned("src/main.rs"),
            contents: templates::main_rs_for_template(project, template),
        },
    );
    let ghost after_main = files_view(v@);
    if has_ui {
        push_file(&mut v, ProjectFile::Text { path: text::owned("src/ui.rs"), contents: templates::ui_rs(project) });
    }
    proof {
        assert(files_view(v@) =~= after_main + (if has_ui {
            seq![FileView::Text("src/ui.rs"@, templates::ui_rs_text(*project))]
        } else {
            Seq::empty()
        }));
    }
    push_file(
        &mut v,
        ProjectFile::Text {
            path: text::owned("src/events.rs"),
            contents: templates::events_rs_for_template(project, template),
        },
    );
    push_file(
        &mut v,
        ProjectFile::Json {
            path: text::owned("package/manifest.trueos.json"),
            document: ProjectDocument::Manifest,
        },
    );
    push_file(
        &mut v,
        ProjectFile::Text {
            path: text::owned("README.md"),
            contents: templates::readme_for_template(project, template),
        },
    );
    proof {
        assert(files_view(v@) =~= project_file_plan(*project, template@, v_dependency_path@));
    }
    v
}

/// What regenerating a project writes, from the default starter of its
/// kind.
pub fn write_project_files(project: &RadsProject, v_dependency_path: &str) -> (v: Vec<ProjectFile>)
    ensures
        files_view(v@) == project_file_plan(
            *project,
            project_templates::default_view_for_kind(project.app_kind),
            v_dependency_path@,
        ),
{
    let template = project_templates::default_project_template_for_kind(project.app_kind);
    project_files(project, &template, v_dependency_path)
}

/// The directories a new project starts with.
pub fn project_dirs() -> (v: Vec<&'static str>)
    ensures
        v@.map_values(|s: &'static str| s@) == seq!["src"@, "ui"@, "assets"@, "package"@],
{
    let v = vec!["src", "ui", "assets", "package"];
    proof {
        assert(v@.map_values(|s: &'static str| s@) =~= seq!["src"@, "ui"@, "assets"@, "package"@]);
    }
    v
}

pub open spec fn catalog_ids() -> Seq<Seq<char>> {
    project_templates::template_catalog().map_values(|t: TemplateView| t.id)
}

/// The error for a template id the catalog does not have, listing the ids
/// it has.
pub fn unknown_template_error(template_id: &str) -> (s: String)
    ensures
        s@ == "unknown project template '"@ + template_id@ + "'. available templates: "@
            + text::join_seqs(catalog_ids(), ", "@),
{
    let all = project_templates::available_project_templates();
    let ghost ids = catalog_ids();
    let mut s = text::owned("unknown project template '");
    text::push_str(&mut s, template_id);
    text::push_str(&mut s, "'. available templates: ");
    let ghost head = s@;
    let mut i: usize = 0;
    while i < all.len()
        invariant
            i <= all.len(),
            ids == catalog_ids(),
            project_templates::templates_view(all@) == project_templates::template_catalog(),
            s@ == head + text::join_seqs(ids.take(i as int), ", "@),
        decreases all.len() - i,
    {
        proof {
            text::lemma_join_take(ids, ", "@, i as int);
            assert(ids[i as int] == all@[i as int]@.id);
        }
        if i > 0 {
            text::push_str(&mut s, ", ");
        }
        text::push_str(&mut s, all[i].id);
        proof {
            assert(s@ =~= head + text::join_seqs(ids.take(i + 1), ", "@));
        }
        i += 1;
    }
    proof {
        assert(ids.take(i as int) =~= ids);
    }
    s
}

/// The starter with the given id, or the error naming the ids there are.
pub fn template_for_id(template_id: &str) -> (r: Result<ProjectTemplate, String>)
    ensures
        match project_templates::find_in(project_templates::template_catalog(), template_id@) {
            Some(t) => r matches Ok(found) && found@ == t,
            None => r matches Err(e) && e@ == "unknown project template '"@ + template_id@
                + "'. available templates: "@ + text::join_seqs(catalog_ids(), ", "@),
        },
{
    match project_templates::find_project_template(template_id) {
        Some(t) => Ok(t),
        None => Err(unknown_template_error(template_id)),
    }
}

/// The validated name of a new project, or the error creation stops with.
pub fn creation_name(name: &str) -> (r: Result<ValidProjectName, String>)
    ensures
        match model::spec_validate_project_name(name@) {
            Ok((display, slug)) => r matches Ok(v) && v.display@ == display && v.slug@ == slug,
            Err(_) => r matches Err(e) && e@ == "invalid project name"@,
        },
{
    match model::validate_project_name(name) {
        Ok(v) => Ok(v),
        Err(_) => Err(text::owned("invalid project name")),
    }
}

} // verus!
