//! Properties the library keeps across its operations and for all inputs:
//! the generated file contract, the shape of the default starter, safe
//! escaping, paths that stay inside a project, slugs and handler names.

use vstd::prelude::*;
use crate::text;
use crate::model::{self, ControlKind, RadsProject};
use crate::project_templates::{self, TemplateView};
use crate::templates;
use crate::generator::{self, FileView};
use crate::file_store::{self, ComponentView};
use crate::designer;
use crate::jobs::JobStage;
use crate::pipeline::{self, NoteView, RunAction, RunEvent, RunPhase, RunView};

verus! {

// ---------------------------------------------------------------------------
// The generated file contract
// ---------------------------------------------------------------------------

pub open spec fn path_of(f: FileView) -> Seq<char> {
    match f {
        FileView::Dir(p) => p,
        FileView::Json(p, _) => p,
        FileView::Text(p, _) => p,
    }
}

/// Whether a plan writes a file (not only a directory) at this path.
pub open spec fn writes(plan: Seq<FileView>, path: Seq<char>) -> bool {
    exists|i: int| 0 <= i < plan.len() && !(plan[i] is Dir) && #[trigger] path_of(plan[i]) == path
}

proof fn lemma_window_files_len(p: RadsProject, t: TemplateView, n: nat)
    ensures
        generator::all_window_files(p, t, n).len() == 3 * n,
    decreases n,
{
    if n > 0 {
        lemma_window_files_len(p, t, (n - 1) as nat);
    }
}

proof fn lemma_concat5(a: Seq<FileView>, b: Seq<FileView>, c: Seq<FileView>, d: Seq<FileView>, e: Seq<FileView>)
    ensures
        ({
            let all = a + b + c + d + e;
            let o = a.len() + b.len();
            &&& all.len() == a.len() + b.len() + c.len() + d.len() + e.len()
            &&& forall|k: int| 0 <= k < a.len() ==> all[k] == a[k]
            &&& forall|k: int| 0 <= k < b.len() ==> all[a.len() + k] == b[k]
            &&& forall|k: int| 0 <= k < c.len() ==> all[o + k] == c[k]
            &&& forall|k: int| 0 <= k < d.len() ==> all[o + c.len() + k] == d[k]
            &&& forall|k: int| 0 <= k < e.len() ==> all[o + c.len() + d.len() + k] == e[k]
        }),
{
}

/// The plan as its parts: the blueprints, the UI files, the Cargo manifest
/// and entry point, `src/ui.rs`, and the events, manifest and README.
#[verifier::rlimit(100)]
proof fn lemma_plan_parts(p: RadsProject, t: TemplateView, v_path: Seq<char>)
    ensures
        ({
            let plan = generator::project_file_plan(p, t, v_path);
            let has_ui = templates::has_ui_surface(p);
            let u: int = if has_ui {
                (8 + 3 * p.windows@.len()) as int
            } else {
                3
            };
            let s: int = if has_ui {
                1
            } else {
                0
            };
            &&& plan.len() == u + 5 + s
            &&& path_of(plan[0]) == "rads.project.json"@ && !(plan[0] is Dir)
            &&& path_of(plan[1]) == "app.blueprint.json"@ && !(plan[1] is Dir)
            &&& path_of(plan[2]) == "package/package.blueprint.json"@ && !(plan[2] is Dir)
            &&& path_of(plan[u]) == "Cargo.toml"@ && !(plan[u] is Dir)
            &&& path_of(plan[u + 1]) == "src/main.rs"@ && !(plan[u + 1] is Dir)
            &&& path_of(plan[u + 2 + s]) == "src/events.rs"@ && !(plan[u + 2 + s] is Dir)
            &&& path_of(plan[u + 3 + s]) == "package/manifest.trueos.json"@ && !(plan[u + 3 + s] is Dir)
            &&& path_of(plan[u + 4 + s]) == "README.md"@ && !(plan[u + 4 + s] is Dir)
            &&& has_ui ==> {
                &&& path_of(plan[4]) == "ui/main.ui2.json"@ && !(plan[4] is Dir)
                &&& path_of(plan[5]) == "ui/main.ui2"@ && !(plan[5] is Dir)
                &&& path_of(plan[6]) == "ui/index.html"@ && !(plan[6] is Dir)
                &&& path_of(plan[7]) == "ui/styles.css"@ && !(plan[7] is Dir)
                &&& path_of(plan[u + 2]) == "src/ui.rs"@ && !(plan[u + 2] is Dir)
            }
        }),
{
    let plan = generator::project_file_plan(p, t, v_path);
    let has_ui = templates::has_ui_surface(p);
    lemma_window_files_len(p, t, p.windows@.len());
    let a = seq![
        FileView::Json("rads.project.json"@, generator::ProjectDocument::Project),
        FileView::Json("app.blueprint.json"@, generator::ProjectDocument::AppBlueprint),
        FileView::Json("package/package.blueprint.json"@, generator::ProjectDocument::PackageBlueprint),
    ];
    let b = if has_ui {
        generator::ui_files(p, t)
    } else {
        Seq::empty()
    };
    let c = seq![
        FileView::Text("Cargo.toml"@, templates::cargo_toml_text(p, v_path)),
        FileView::Text(
            "src/main.rs"@,
            templates::project_tokens(t.main_rs, p, t.id, t.name, templates::TokenEscape::Rust),
        ),
    ];
    let d = if has_ui {
        seq![FileView::Text("src/ui.rs"@, templates::ui_rs_text(p))]
    } else {
        Seq::empty()
    };
    let e = seq![
        FileView::Text("src/events.rs"@, templates::events_rs_text(p, t)),
        FileView::Json("package/manifest.trueos.json"@, generator::ProjectDocument::Manifest),
        FileView::Text("README.md"@, templates::readme_text(p, t)),
    ];
    lemma_concat5(a, b, c, d, e);
    assert(c[0] is Text && c[1] is Text);
    assert(e[0] is Text && e[1] is Json && e[2] is Text);
    assert(path_of(c[0]) == "Cargo.toml"@);
    assert(path_of(c[1]) == "src/main.rs"@);
    assert(path_of(e[0]) == "src/events.rs"@);
    assert(path_of(e[1]) == "package/manifest.trueos.json"@);
    assert(path_of(e[2]) == "README.md"@);
    if has_ui {
        let w = p.windows@[0];
        let first5 = seq![
            FileView::Dir("ui/windows"@),
            FileView::Json("ui/main.ui2.json"@, generator::ProjectDocument::Window(0)),
            FileView::Text("ui/main.ui2"@, templates::project_layout(p)),
            FileView::Text("ui/index.html"@, templates::window_html_text(p, t, w)),
            FileView::Text("ui/styles.css"@, templates::window_css_text(p, t, w)),
        ];
        lemma_concat5(first5, generator::all_window_files(p, t, p.windows@.len()), Seq::empty(), Seq::empty(), Seq::empty());
        assert(path_of(d[0]) == "src/ui.rs"@);
    }
}

/// Every generated project is written with the blueprints, the Cargo
/// manifest, `src/main.rs`, `src/events.rs`, the package manifest and the
/// README; a project with a UI2 surface also with `ui/main.ui2`,
/// `ui/main.ui2.json`, `ui/index.html`, `ui/styles.css` and `src/ui.rs`.
pub proof fn generated_file_contract(p: RadsProject, t: TemplateView, v_path: Seq<char>)
    ensures
        ({
            let plan = generator::project_file_plan(p, t, v_path);
            &&& writes(plan, "rads.project.json"@)
            &&& writes(plan, "app.blueprint.json"@)
            &&& writes(plan, "package/package.blueprint.json"@)
            &&& writes(plan, "Cargo.toml"@)
            &&& writes(plan, "src/main.rs"@)
            &&& writes(plan, "src/events.rs"@)
            &&& writes(plan, "package/manifest.trueos.json"@)
            &&& writes(plan, "README.md"@)
            &&& templates::has_ui_surface(p) ==> {
                &&& writes(plan, "ui/main.ui2"@)
                &&& writes(plan, "ui/main.ui2.json"@)
                &&& writes(plan, "ui/index.html"@)
                &&& writes(plan, "ui/styles.css"@)
                &&& writes(plan, "src/ui.rs"@)
            }
        }),
{
    lemma_plan_parts(p, t, v_path);
}

// ---------------------------------------------------------------------------
// The default starter
// ---------------------------------------------------------------------------

/// A project built from the default form starter has one `MainWindow` with
/// system decorations and three controls: a `titleLabel` label wired to
/// `ready`, a `runButton` button wired to `click` and an `inputText` text
/// box wired to `change`, each to its generated handler. It enables
/// `ui2.window` and `ui2.events` and lists `fs.user` and `net.client`
/// disabled.
pub proof fn form_starter_shape(p: RadsProject, display: Seq<char>, slug: Seq<char>, root: Seq<char>)
    requires
        project_templates::is_template_project(
            p,
            project_templates::form_app_view(),
            display,
            slug,
            root,
        ),
    ensures
        p.windows@.len() == 1,
        p.windows@[0].name@ == "MainWindow"@,
        p.windows@[0].decorations.mode == model::WindowDecorationMode::System,
        p.windows@[0].controls@.len() == 3,
        p.windows@[0].controls@[0].kind == ControlKind::Label,
        p.windows@[0].controls@[0].name@ == "titleLabel"@,
        model::events_view(p.windows@[0].controls@[0].events@) == seq![
            ("ready"@, model::spec_handler_name("titleLabel"@, "ready"@)),
        ],
        p.windows@[0].controls@[1].kind == ControlKind::Button,
        p.windows@[0].controls@[1].name@ == "runButton"@,
        model::events_view(p.windows@[0].controls@[1].events@) == seq![
            ("click"@, model::spec_handler_name("runButton"@, "click"@)),
        ],
        p.windows@[0].controls@[2].kind == ControlKind::TextBox,
        p.windows@[0].controls@[2].name@ == "inputText"@,
        model::events_view(p.windows@[0].controls@[2].events@) == seq![
            ("change"@, model::spec_handler_name("inputText"@, "change"@)),
        ],
        model::capabilities_view(p.blueprint.capabilities@) == seq![
            ("ui2.window"@, true, "Create and manage UI2 windows"@),
            ("ui2.events"@, true, "Bind generated UI2 event handlers"@),
            ("fs.user"@, false, "Read and write user-selected files"@),
            ("net.client"@, false, "Open outbound network connections"@),
        ],
{
    let t = project_templates::form_app_view();
    let w = t.window->Some_0;
    assert(project_templates::is_template_window(p.windows@[0], w, t, display, slug));
    assert(project_templates::is_template_control(p.windows@[0].controls@[0], w.controls[0], t, display, slug));
    assert(project_templates::is_template_control(p.windows@[0].controls@[1], w.controls[1], t, display, slug));
    assert(project_templates::is_template_control(p.windows@[0].controls@[2], w.controls[2], t, display, slug));
    assert(t.capabilities =~= seq![
        ("ui2.window"@, true, "Create and manage UI2 windows"@),
        ("ui2.events"@, true, "Bind generated UI2 event handlers"@),
        ("fs.user"@, false, "Read and write user-selected files"@),
        ("net.client"@, false, "Open outbound network connections"@),
    ]);
}

/// Every starter in the catalog lists `fs.user` and `net.client` last, both
/// disabled.
pub proof fn starters_keep_optional_capabilities_off(i: int)
    requires
        0 <= i < project_templates::template_catalog().len(),
    ensures
        ({
            let caps = project_templates::template_catalog()[i].capabilities;
            &&& caps.len() >= 2
            &&& caps[caps.len() - 2] == ("fs.user"@, false, "Read and write user-selected files"@)
            &&& caps[caps.len() - 1] == ("net.client"@, false, "Open outbound network connections"@)
        }),
{
}


// ---------------------------------------------------------------------------
// Escaping
// ---------------------------------------------------------------------------

/// Text escaped for HTML holds no `<`, `>`, `"` or `'`.
pub proof fn html_escaping_is_inert(s: Seq<char>)
    ensures
        forall|i: int|
            0 <= i < templates::html_text_escaped(s).len() ==> {
                let c = #[trigger] templates::html_text_escaped(s)[i];
                c != '<' && c != '>' && c != '"' && c != '\''
            },
    decreases s.len(),
{
    reveal_strlit("&amp;");
    reveal_strlit("&lt;");
    reveal_strlit("&gt;");
    reveal_strlit("&quot;");
    reveal_strlit("&#39;");
    if s.len() > 0 {
        html_escaping_is_inert(s.drop_last());
        let prev = templates::html_text_escaped(s.drop_last());
        let tail = templates::html_text_escape_char(s.last());
        assert forall|i: int| 0 <= i < (prev + tail).len() implies {
            let c = #[trigger] (prev + tail)[i];
            c != '<' && c != '>' && c != '"' && c != '\''
        } by {
            if i >= prev.len() {
                assert((prev + tail)[i] == tail[i - prev.len()]);
            } else {
                assert((prev + tail)[i] == prev[i]);
            }
        }
    }
}

/// Text escaped for a Rust or TOML string literal holds no line break, and
/// every quote in it follows a backslash.
pub proof fn quote_escaping_keeps_one_line(s: Seq<char>)
    ensures
        forall|i: int|
            0 <= i < templates::quote_escaped(s).len() ==> {
                let c = #[trigger] templates::quote_escaped(s)[i];
                c != '\n' && c != '\r'
            },
        forall|i: int|
            0 <= i < templates::quote_escaped(s).len() && #[trigger] templates::quote_escaped(s)[i]
                == '"' ==> i > 0 && templates::quote_escaped(s)[i - 1] == '\\',
    decreases s.len(),
{
    reveal_strlit("\\\\");
    reveal_strlit("\\\"");
    reveal_strlit("\\n");
    reveal_strlit("\\r");
    if s.len() > 0 {
        quote_escaping_keeps_one_line(s.drop_last());
        let prev = templates::quote_escaped(s.drop_last());
        let tail = templates::quote_escape_char(s.last());
        let all = prev + tail;
        assert forall|i: int| 0 <= i < all.len() implies {
            let c = #[trigger] all[i];
            c != '\n' && c != '\r'
        } by {
            if i >= prev.len() {
                assert(all[i] == tail[i - prev.len()]);
            } else {
                assert(all[i] == prev[i]);
            }
        }
        assert forall|i: int| 0 <= i < all.len() && #[trigger] all[i] == '"' implies i > 0 && all[i
            - 1] == '\\' by {
            if i >= prev.len() {
                assert(all[i] == tail[i - prev.len()]);
                assert(tail[i - prev.len()] == '"');
                assert(tail.len() == 2 && i - prev.len() == 1);
                assert(all[i - 1] == tail[0]);
            } else {
                assert(all[i] == prev[i]);
                assert(all[i - 1] == prev[i - 1]);
            }
        }
    }
}

// ---------------------------------------------------------------------------
// Project-relative paths
// ---------------------------------------------------------------------------

/// A name that is safe as one component of a path inside a project.
pub open spec fn plain_name(n: Seq<char>) -> bool {
    n.len() > 0 && n != "."@ && n != ".."@ && !n.contains('/')
}

pub open spec fn normal_names_plain(cs: Seq<ComponentView>) -> bool {
    forall|i: int| 0 <= i < cs.len() ==> (#[trigger] cs[i] matches ComponentView::Normal(n) ==> plain_name(n))
}

proof fn lemma_part_component(part: Seq<char>)
    requires
        !part.contains('/'),
    ensures
        normal_names_plain(file_store::part_component(part)),
{
}

proof fn lemma_body_split(s: Seq<char>)
    ensures
        normal_names_plain(file_store::body_split(s).0),
        !file_store::body_split(s).1.contains('/'),
    decreases s.len(),
{
    if s.len() > 0 {
        lemma_body_split(s.drop_last());
        let prev = file_store::body_split(s.drop_last());
        if s.last() == '/' {
            lemma_part_component(prev.1);
            let pc = file_store::part_component(prev.1);
            assert forall|i: int| 0 <= i < (prev.0 + pc).len() implies (#[trigger] (prev.0 + pc)[i] matches ComponentView::Normal(n) ==> plain_name(n)) by {
                if i < prev.0.len() {
                    assert((prev.0 + pc)[i] == prev.0[i]);
                } else {
                    assert((prev.0 + pc)[i] == pc[i - prev.0.len()]);
                }
            }
            assert(!Seq::<char>::empty().contains('/'));
        } else {
            assert forall|j: int| 0 <= j < prev.1.push(s.last()).len() implies prev.1.push(s.last())[j] != '/' by {
                if j < prev.1.len() {
                    assert(prev.1.push(s.last())[j] == prev.1[j]);
                }
            }
        }
    }
}

proof fn lemma_components_plain(s: Seq<char>)
    ensures
        normal_names_plain(file_store::components(s)),
{
    lemma_body_split(s);
    let parts = file_store::body_split(s);
    lemma_part_component(parts.1);
    let body = file_store::body_components(s);
    let pc = file_store::part_component(parts.1);
    assert forall|i: int| 0 <= i < body.len() implies (#[trigger] body[i] matches ComponentView::Normal(n) ==> plain_name(n)) by {
        if i < parts.0.len() {
            assert(body[i] == parts.0[i]);
        } else {
            assert(body[i] == pc[i - parts.0.len()]);
        }
    }
    let cs = file_store::components(s);
    assert forall|i: int| 0 <= i < cs.len() implies (#[trigger] cs[i] matches ComponentView::Normal(n) ==> plain_name(n)) by {
        if s.len() > 0 && (s[0] == '/' || (s[0] == '.' && (s.len() == 1 || s[1] == '/'))) {
            if i > 0 {
                assert(cs[i] == body[i - 1]);
            }
        } else {
            assert(cs[i] == body[i]);
        }
    }
}

proof fn lemma_inside_parts_plain(cs: Seq<ComponentView>)
    requires
        normal_names_plain(cs),
        file_store::inside_parts(cs) is Some,
    ensures
        forall|i: int|
            0 <= i < file_store::inside_parts(cs)->Some_0.len() ==> plain_name(
                #[trigger] file_store::inside_parts(cs)->Some_0[i],
            ),
    decreases cs.len(),
{
    if cs.len() > 0 {
        let prev = cs.drop_last();
        assert(normal_names_plain(prev)) by {
            assert forall|i: int| 0 <= i < prev.len() implies (#[trigger] prev[i] matches ComponentView::Normal(n) ==> plain_name(n)) by {
                assert(prev[i] == cs[i]);
            }
        }
        lemma_inside_parts_plain(prev);
        assert(cs[cs.len() - 1] == cs.last());
    }
}

/// A path the workspace accepts as project-relative is made of plain names
/// joined by `/`: none empty, `.` or `..`, none holding a `/`. Such a path
/// cannot leave the project.
pub proof fn relative_paths_stay_inside(path: Seq<char>)
    ensures
        file_store::relative_path_result(path) matches Ok(p) ==> exists|parts: Seq<Seq<char>>|
            {
                &&& parts.len() > 0
                &&& p == text::join_seqs(parts, "/"@)
                &&& forall|i: int| 0 <= i < parts.len() ==> plain_name(#[trigger] parts[i])
            },
{
    if file_store::relative_path_result(path) is Ok {
        let cs = file_store::components(path);
        lemma_components_plain(path);
        lemma_inside_parts_plain(cs);
        let parts = file_store::inside_parts(cs)->Some_0;
        assert(parts.len() > 0);
    }
}

/// The names of the plain components of a path, in order.
pub open spec fn normal_names(cs: Seq<ComponentView>) -> Seq<Seq<char>>
    decreases cs.len(),
{
    if cs.len() == 0 {
        Seq::empty()
    } else {
        match cs.last() {
            ComponentView::Normal(p) => normal_names(cs.drop_last()).push(p),
            _ => normal_names(cs.drop_last()),
        }
    }
}

/// A component that leaves the project: a root or a parent directory.
pub open spec fn leaves_project(c: ComponentView) -> bool {
    c is RootDir || c is ParentDir
}

proof fn lemma_inside_parts(cs: Seq<ComponentView>)
    ensures
        file_store::inside_parts(cs) == if exists|i: int| 0 <= i < cs.len() && leaves_project(#[trigger] cs[i]) {
            None
        } else {
            Some(normal_names(cs))
        },
    decreases cs.len(),
{
    if cs.len() > 0 {
        let d = cs.drop_last();
        lemma_inside_parts(d);
        if exists|i: int| 0 <= i < d.len() && leaves_project(#[trigger] d[i]) {
            let i = choose|i: int| 0 <= i < d.len() && leaves_project(#[trigger] d[i]);
            assert(cs[i] == d[i]);
        }
        if exists|i: int| 0 <= i < cs.len() && leaves_project(#[trigger] cs[i]) {
            let i = choose|i: int| 0 <= i < cs.len() && leaves_project(#[trigger] cs[i]);
            if i < cs.len() - 1 {
                assert(d[i] == cs[i]);
            }
        }
    }
}

/// A requested path is refused exactly when it is empty, when one of its
/// components is a root or a parent directory, or when it has no plain
/// name; otherwise it is its plain names joined with `/` (current
/// directories dropped).
pub proof fn relative_paths_are_checked_exactly(path: Seq<char>)
    ensures
        ({
            let cs = file_store::components(path);
            &&& (file_store::relative_path_result(path) is Err) == (path.len() == 0 || (exists|i: int|
                0 <= i < cs.len() && leaves_project(#[trigger] cs[i])) || normal_names(cs).len() == 0)
            &&& file_store::relative_path_result(path) matches Ok(p) ==> p == text::join_seqs(
                normal_names(cs),
                "/"@,
            )
        }),
{
    lemma_inside_parts(file_store::components(path));
}


// ---------------------------------------------------------------------------
// Slugs, names and handler names
// ---------------------------------------------------------------------------

proof fn lemma_trim_start(s: Seq<char>, c: char) -> (k: int)
    ensures
        0 <= k <= s.len(),
        text::trim_char_start(s, c) == s.skip(k),
        text::trim_char_start(s, c).len() > 0 ==> text::trim_char_start(s, c)[0] != c,
    decreases s.len(),
{
    if s.len() > 0 && s[0] == c {
        let k = lemma_trim_start(s.drop_first(), c);
        assert(s.drop_first().skip(k) =~= s.skip(k + 1));
        k + 1
    } else {
        assert(s.skip(0) =~= s);
        0
    }
}

proof fn lemma_trim_end(s: Seq<char>, c: char) -> (k: int)
    ensures
        0 <= k <= s.len(),
        text::trim_char_end(s, c) == s.take(k),
        text::trim_char_end(s, c).len() > 0 ==> text::trim_char_end(s, c).last() != c,
    decreases s.len(),
{
    if s.len() > 0 && s.last() == c {
        let k = lemma_trim_end(s.drop_last(), c);
        assert(s.drop_last().take(k) =~= s.take(k));
        k
    } else {
        assert(s.take(s.len() as int) =~= s);
        s.len() as int
    }
}

/// `trim_matches` keeps a run of the middle of the text: no `c` at either
/// end.
proof fn lemma_trim_matches(s: Seq<char>, c: char) -> (r: (int, int))
    ensures
        0 <= r.0 <= r.1 <= s.len(),
        text::trim_matches_seq(s, c) == s.subrange(r.0, r.1),
        text::trim_matches_seq(s, c).len() > 0 ==> text::trim_matches_seq(s, c)[0] != c
            && text::trim_matches_seq(s, c).last() != c,
{
    let a = lemma_trim_start(s, c);
    let mid = text::trim_char_start(s, c);
    let b = lemma_trim_end(mid, c);
    assert(mid.take(b) =~= s.subrange(a, a + b));
    if b > 0 {
        assert(mid.take(b)[0] == mid[0]);
    }
    (a, a + b)
}

pub open spec fn slug_char(c: char) -> bool {
    text::is_ascii_alnum(c) || c == '-'
}

pub open spec fn no_double_dash(s: Seq<char>) -> bool {
    forall|i: int| 0 <= i < s.len() - 1 ==> !(#[trigger] s[i] == '-' && s[i + 1] == '-')
}

proof fn lemma_slug_run(s: Seq<char>)
    ensures
        model::slug_run(s).out.len() <= model::MAX_PROJECT_SLUG_LEN,
        forall|i: int| 0 <= i < model::slug_run(s).out.len() ==> slug_char(#[trigger] model::slug_run(s).out[i]),
        no_double_dash(model::slug_run(s).out),
        model::slug_run(s).last_dash == (model::slug_run(s).out.len() > 0 && model::slug_run(s).out.last() == '-'),
    decreases s.len(),
{
    if s.len() > 0 {
        lemma_slug_run(s.drop_last());
        let prev = model::slug_run(s.drop_last());
        let next = model::slug_run(s);
        assert forall|i: int| 0 <= i < next.out.len() implies slug_char(#[trigger] next.out[i]) by {
            if i < prev.out.len() {
                assert(next.out[i] == prev.out[i]);
            }
        }
        assert forall|i: int| 0 <= i < next.out.len() - 1 implies !(#[trigger] next.out[i] == '-' && next.out[i + 1] == '-') by {
            if i + 1 < prev.out.len() {
                assert(next.out[i] == prev.out[i]);
                assert(next.out[i + 1] == prev.out[i + 1]);
            } else if next.out.len() > prev.out.len() {
                assert(next.out[i] == prev.out[i]);
            }
        }
    }
}

/// A slug is at most 64 characters, each an ASCII letter, digit or dash,
/// with no dash at either end and never two dashes in a row.
pub proof fn slugs_are_clean(s: Seq<char>)
    ensures
        ({
            let r = model::spec_slugify(s);
            &&& r.len() <= model::MAX_PROJECT_SLUG_LEN
            &&& forall|i: int| 0 <= i < r.len() ==> slug_char(#[trigger] r[i])
            &&& r.len() > 0 ==> r[0] != '-' && r.last() != '-'
            &&& no_double_dash(r)
        }),
{
    let out = model::slug_run(model::lowered(s)).out;
    lemma_slug_run(model::lowered(s));
    let (a, b) = lemma_trim_matches(out, '-');
    let r = model::spec_slugify(s);
    assert forall|i: int| 0 <= i < r.len() implies slug_char(#[trigger] r[i]) by {
        assert(r[i] == out[a + i]);
    }
    assert forall|i: int| 0 <= i < r.len() - 1 implies !(#[trigger] r[i] == '-' && r[i + 1] == '-') by {
        assert(r[i] == out[a + i]);
        assert(r[i + 1] == out[a + i + 1]);
    }
}

pub open spec fn all_ascii(s: Seq<char>) -> bool {
    forall|i: int| 0 <= i < s.len() ==> #[trigger] s[i] <= '\u{7f}'
}

pub open spec fn no_ascii_upper(s: Seq<char>) -> bool {
    forall|i: int| 0 <= i < s.len() ==> !text::is_ascii_upper(#[trigger] s[i])
}

proof fn lemma_lowered_ascii(s: Seq<char>)
    requires
        all_ascii(s),
    ensures
        model::lowered(s).len() == s.len(),
        forall|i: int| 0 <= i < s.len() ==> #[trigger] model::lowered(s)[i] == text::ascii_lower(s[i]),
    decreases s.len(),
{
    if s.len() > 0 {
        lemma_lowered_ascii(s.drop_last());
        let prev = model::lowered(s.drop_last());
        assert forall|i: int| 0 <= i < s.len() implies #[trigger] model::lowered(s)[i] == text::ascii_lower(s[i]) by {
            if i < s.len() - 1 {
                assert(model::lowered(s)[i] == prev[i]);
                assert(s.drop_last()[i] == s[i]);
            }
        }
    }
}

proof fn lemma_slug_run_lower(s: Seq<char>)
    requires
        no_ascii_upper(s),
    ensures
        no_ascii_upper(model::slug_run(s).out),
    decreases s.len(),
{
    if s.len() > 0 {
        lemma_slug_run_lower(s.drop_last());
        let prev = model::slug_run(s.drop_last());
        let next = model::slug_run(s);
        assert(s.drop_last().len() < s.len());
        assert forall|i: int| 0 <= i < next.out.len() implies !text::is_ascii_upper(#[trigger] next.out[i]) by {
            if i < prev.out.len() {
                assert(next.out[i] == prev.out[i]);
            } else {
                assert(s.last() == s[s.len() - 1]);
            }
        }
    }
}

/// Building the slug of a clean slug copies it, character by character.
proof fn lemma_slug_run_clean(r: Seq<char>, i: int)
    requires
        r.len() <= model::MAX_PROJECT_SLUG_LEN,
        forall|j: int| 0 <= j < r.len() ==> slug_char(#[trigger] r[j]),
        r.len() > 0 ==> r[0] != '-',
        no_double_dash(r),
        0 <= i <= r.len(),
    ensures
        model::slug_run(r.take(i)) == (model::SlugState {
            out: r.take(i),
            last_dash: i > 0 && r[i - 1] == '-',
            stopped: false,
        }),
    decreases i,
{
    if i == 0 {
        assert(r.take(0) =~= Seq::<char>::empty());
    } else {
        lemma_slug_run_clean(r, i - 1);
        assert(r.take(i).drop_last() =~= r.take(i - 1));
        assert(r.take(i).last() == r[i - 1]);
        assert(r.take(i - 1).push(r[i - 1]) =~= r.take(i));
        if r[i - 1] == '-' && i >= 2 {
            assert(!(r[i - 2] == '-' && r[i - 1] == '-'));
        }
    }
}

/// A slug built without ASCII capitals holds only lowercase ASCII letters,
/// digits and dashes, and is its own slug.
pub(crate) proof fn lemma_lower_slug_is_stable(s: Seq<char>)
    requires
        no_ascii_upper(model::slug_run(model::lowered(s)).out),
    ensures
        forall|i: int|
            0 <= i < model::spec_slugify(s).len() ==> lower_slug_char(#[trigger] model::spec_slugify(s)[i]),
        model::spec_slugify(model::spec_slugify(s)) == model::spec_slugify(s),
{
    let l = model::lowered(s);
    slugs_are_clean(s);
    let out = model::slug_run(l).out;
    let (a, b) = lemma_trim_matches(out, '-');
    let r = model::spec_slugify(s);
    assert(r == out.subrange(a, b));
    assert(no_ascii_upper(r)) by {
        assert forall|i: int| 0 <= i < r.len() implies !text::is_ascii_upper(#[trigger] r[i]) by {
            assert(r[i] == out[a + i]);
        }
    }
    assert forall|i: int| 0 <= i < r.len() implies lower_slug_char(#[trigger] r[i]) by {
        assert(slug_char(r[i]));
        assert(!text::is_ascii_upper(r[i]));
    }
    assert(all_ascii(r)) by {
        assert forall|i: int| 0 <= i < r.len() implies #[trigger] r[i] <= '\u{7f}' by {
            assert(slug_char(r[i]));
        }
    }
    lemma_lowered_ascii(r);
    assert(model::lowered(r) =~= r) by {
        assert forall|i: int| 0 <= i < r.len() implies #[trigger] model::lowered(r)[i] == r[i] by {
            assert(slug_char(r[i]));
            assert(!text::is_ascii_upper(r[i]));
        }
    }
    lemma_slug_run_clean(r, r.len() as int);
    assert(r.take(r.len() as int) =~= r);
    assert(model::slug_run(r).out == r);
    assert(text::trim_char_start(r, '-') == r);
    assert(text::trim_char_end(r, '-') == r);
}

/// A lowercase ASCII letter, a digit or a dash.
pub open spec fn lower_slug_char(c: char) -> bool {
    text::is_ascii_lower(c) || text::is_ascii_digit(c) || c == '-'
}

/// The slug of a name written in ASCII is stable: slugifying it again gives
/// it back.
pub proof fn ascii_slugs_are_stable(s: Seq<char>)
    requires
        all_ascii(s),
    ensures
        model::spec_slugify(model::spec_slugify(s)) == model::spec_slugify(s),
{
    let l = model::lowered(s);
    lemma_lowered_ascii(s);
    assert(no_ascii_upper(l)) by {
        assert forall|i: int| 0 <= i < l.len() implies !text::is_ascii_upper(#[trigger] l[i]) by {
            assert(l[i] == text::ascii_lower(s[i]));
        }
    }
    lemma_slug_run_lower(l);
    lemma_lower_slug_is_stable(s);
}

/// An accepted project name is the trimmed input, at most 80 characters,
/// without path separators or control characters, and its slug is the
/// non-empty, non-reserved slug of that name.
pub proof fn accepted_names_have_slugs(input: Seq<char>)
    ensures
        model::spec_validate_project_name(input) matches Ok(v) ==> {
            &&& v.0 == text::trim_seq(input)
            &&& v.0.len() <= model::MAX_PROJECT_NAME_LEN
            &&& !model::has_path_separator(v.0)
            &&& !model::has_control_char(v.0)
            &&& v.1 == model::spec_slugify(v.0)
            &&& v.1.len() > 0
            &&& !model::reserved_names().contains(v.1)
        },
{
}

pub open spec fn ident_char(c: char) -> bool {
    text::is_ascii_lower(c) || text::is_ascii_digit(c) || c == '_'
}

pub open spec fn all_ident(s: Seq<char>) -> bool {
    forall|i: int| 0 <= i < s.len() ==> ident_char(#[trigger] s[i])
}

proof fn lemma_fragment_run(s: Seq<char>)
    ensures
        all_ident(model::fragment_run(s).out),
    decreases s.len(),
{
    if s.len() > 0 {
        lemma_fragment_run(s.drop_last());
        let prev = model::fragment_run(s.drop_last());
        let next = model::fragment_run(s);
        let c = s.last();
        if text::is_ascii_alnum(c) {
            let o = if text::is_ascii_upper(c) && prev.out.len() > 0 && !prev.separated {
                prev.out.push('_')
            } else {
                prev.out
            };
            assert(all_ident(o)) by {
                assert forall|i: int| 0 <= i < o.len() implies ident_char(#[trigger] o[i]) by {
                    if i < prev.out.len() {
                        assert(o[i] == prev.out[i]);
                    }
                }
            }
            assert(ident_char(text::ascii_lower(c)));
            assert forall|i: int| 0 <= i < next.out.len() implies ident_char(#[trigger] next.out[i]) by {
                if i < o.len() {
                    assert(next.out[i] == o[i]);
                }
            }
        } else {
            assert forall|i: int| 0 <= i < next.out.len() implies ident_char(#[trigger] next.out[i]) by {
                if i < prev.out.len() {
                    assert(next.out[i] == prev.out[i]);
                }
            }
        }
    }
}

proof fn lemma_fragment_ident(s: Seq<char>)
    ensures
        all_ident(model::spec_identifier_fragment(s)),
        model::spec_identifier_fragment(s).len() > 0,
{
    lemma_fragment_run(s);
    let out = model::fragment_run(s).out;
    let (a, b) = lemma_trim_matches(out, '_');
    let t = text::trim_matches_seq(out, '_');
    assert(all_ident(t)) by {
        assert forall|i: int| 0 <= i < t.len() implies ident_char(#[trigger] t[i]) by {
            assert(t[i] == out[a + i]);
        }
    }
    reveal_strlit("control");
    reveal_strlit("c_");
    let f = model::spec_identifier_fragment(s);
    if t.len() > 0 && text::is_ascii_digit(t[0]) {
        assert forall|i: int| 0 <= i < f.len() implies ident_char(#[trigger] f[i]) by {
            if i >= 2 {
                assert(f[i] == t[i - 2]);
            }
        }
    }
}

/// A generated handler name is `on_` followed by lowercase ASCII letters,
/// digits and underscores: a valid Rust function name.
pub proof fn handler_names_are_identifiers(control: Seq<char>, event: Seq<char>)
    ensures
        ({
            let h = model::spec_handler_name(control, event);
            &&& h.len() > 3
            &&& h.take(3) == "on_"@
            &&& all_ident(h)
        }),
{
    reveal_strlit("on_");
    reveal_strlit("_");
    lemma_fragment_ident(control);
    lemma_fragment_ident(event);
    let c = model::spec_identifier_fragment(control);
    let e = model::spec_identifier_fragment(event);
    let h = model::spec_handler_name(control, event);
    assert(h.take(3) =~= "on_"@);
    assert forall|i: int| 0 <= i < h.len() implies ident_char(#[trigger] h[i]) by {
        if i >= 3 && i < 3 + c.len() {
            assert(h[i] == c[i - 3]);
        } else if i >= 4 + c.len() {
            assert(h[i] == e[i - 4 - c.len()]);
        }
    }
}

/// A control added without a requested name gets one that no control of
/// the window had.
pub proof fn added_names_are_fresh(
    c: model::Ui2Control,
    request: designer::AddControlRequest,
    before: Seq<model::Ui2Control>,
)
    requires
        designer::is_added_control(c, request, before),
        !designer::name_given(request.name),
    ensures
        !designer::name_taken(before, c.name@),
{
}

/// Snapping lands on a multiple of the grid.
pub proof fn snapping_lands_on_the_grid(value: i32, grid: u32)
    ensures
        designer::spec_snap_value(value, grid) % designer::grid_i32(grid) == 0,
{
    let g = designer::grid_i32(grid);
    let q = designer::tdiv(designer::snap_sum(value, grid), g);
    let gg: u32 = if grid < 1 {
        1u32
    } else {
        grid
    };
    assert(1u32 <= gg ==> (gg as i32) != 0i32) by (bit_vector);
    assert(g != 0);
    assert((q * g) % g == 0) by (nonlinear_arith)
        requires
            g != 0,
    ;
}

/// A grid of at most `i32::MAX` is used as it is, or as 1 when it is 0, and
/// snapping then rounds the distance from zero half up and keeps the sign.
proof fn lemma_snap_value_by_sign(value: i32, grid: u32)
    requires
        grid <= i32::MAX,
    ensures
        designer::grid_i32(grid) == (if grid < 1 { 1 } else { grid as int }),
        designer::tdiv(designer::grid_i32(grid), 2) == designer::grid_i32(grid) / 2,
        value >= 0 ==> designer::spec_snap_value(value, grid) == half_up(
            value as int,
            designer::grid_i32(grid),
        ),
        value < 0 ==> designer::spec_snap_value(value, grid) == -half_up(
            -value,
            designer::grid_i32(grid),
        ),
{
    let gg: u32 = if grid < 1 {
        1u32
    } else {
        grid
    };
    assert(gg <= 0x7fff_ffffu32 ==> (gg as i32) as int == gg as int) by (bit_vector);
    let g = designer::grid_i32(grid);
    let h = g / 2;
    let s = designer::snap_sum(value, grid);
    let q = designer::tdiv(s, g);
    if value < 0 {
        assert(s == value - h);
        assert(q == -((-value + h) / g));
        assert(q * g == -(((-value + h) / g) * g)) by (nonlinear_arith)
            requires
                q == -((-value + h) / g),
        ;
    }
}

/// `a` rounded to a multiple of `g`, halves up.
pub open spec fn half_up(a: int, g: int) -> int {
    ((a + g / 2) / g) * g
}

/// What rounding half up does for a value that is not negative.
proof fn lemma_half_up(a: int, g: int, k: int)
    requires
        a >= 0,
        g >= 1,
    ensures
        half_up(a, g) >= 0,
        half_up(a, g) % g == 0,
        designer::abs(half_up(a, g) - a) <= g / 2,
        designer::abs(k * g - a) >= designer::abs(half_up(a, g) - a),
        designer::abs(k * g - a) == designer::abs(half_up(a, g) - a) ==> designer::abs(k * g)
            <= half_up(a, g),
        half_up(half_up(a, g), g) == half_up(a, g),
{
    let h = g / 2;
    let s = a + h;
    let q = s / g;
    let m = s % g;
    let r = q * g;
    vstd::arithmetic::div_mod::lemma_fundamental_div_mod(s, g);
    vstd::arithmetic::div_mod::lemma_mod_pos_bound(s, g);
    vstd::arithmetic::div_mod::lemma_fundamental_div_mod(g, 2);
    vstd::arithmetic::div_mod::lemma_mod_pos_bound(g, 2);
    assert(g * q == q * g) by (nonlinear_arith);
    assert(r == a + h - m);
    assert(q >= 0) by (nonlinear_arith)
        requires
            s >= 0,
            g >= 1,
            q == s / g,
    ;
    assert(r >= 0) by (nonlinear_arith)
        requires
            q >= 0,
            g >= 1,
            r == q * g,
    ;
    assert(r % g == 0) by (nonlinear_arith)
        requires
            g >= 1,
            r == q * g,
    ;
    let d = k - q;
    assert(k * g == r + d * g) by (nonlinear_arith)
        requires
            d == k - q,
            r == q * g,
    ;
    if d >= 1 {
        assert(d * g >= g) by (nonlinear_arith)
            requires
                d >= 1,
                g >= 1,
        ;
    } else if d <= -1 {
        assert(d * g <= -g) by (nonlinear_arith)
            requires
                d <= -1,
                g >= 1,
        ;
        if d * g == -g && m == 0 && 2 * h == g {
            assert(q >= 1) by (nonlinear_arith)
                requires
                    q * g == a + h,
                    a >= 0,
                    h >= 1,
                    g == 2 * h,
                    q >= 0,
            ;
            assert(r >= g) by (nonlinear_arith)
                requires
                    q >= 1,
                    g >= 1,
                    r == q * g,
            ;
        }
    } else {
        assert(d * g == 0) by (nonlinear_arith)
            requires
                d == 0,
        ;
    }
    // Rounding a multiple of `g` gives it back.
    vstd::arithmetic::div_mod::lemma_fundamental_div_mod_converse(r + h, g, q, h);
}

/// Rounding half up keeps the order of values that are not negative.
proof fn lemma_half_up_keeps_order(a: int, b: int, g: int)
    requires
        0 <= a <= b,
        g >= 1,
    ensures
        half_up(a, g) <= half_up(b, g),
{
    let h = g / 2;
    vstd::arithmetic::div_mod::lemma_div_is_ordered(a + h, b + h, g);
    let qa = (a + h) / g;
    let qb = (b + h) / g;
    assert(qa * g <= qb * g) by (nonlinear_arith)
        requires
            qa <= qb,
            g >= 1,
    ;
}

/// Snapping to a grid of at most `i32::MAX` (0 counting as 1) takes the
/// nearest multiple of the grid: the result is a multiple of it, lies within
/// half a grid of the value, no multiple `k` times the grid is closer, and of
/// two multiples that are equally close it takes the one farther from zero.
pub proof fn snapping_takes_the_nearest_multiple(value: i32, grid: u32, k: int)
    requires
        grid <= i32::MAX,
    ensures
        ({
            let g = designer::grid_i32(grid);
            let r = designer::spec_snap_value(value, grid);
            &&& r % g == 0
            &&& designer::abs(r - value) <= g / 2
            &&& designer::abs(k * g - value) >= designer::abs(r - value)
            &&& designer::abs(k * g - value) == designer::abs(r - value) ==> designer::abs(k * g)
                <= designer::abs(r)
        }),
{
    lemma_snap_value_by_sign(value, grid);
    let g = designer::grid_i32(grid);
    if value >= 0 {
        lemma_half_up(value as int, g, k);
    } else {
        lemma_half_up(-value, g, -k);
        let x = half_up(-value, g);
        let q = (-value + g / 2) / g;
        assert(-x == (-q) * g) by (nonlinear_arith)
            requires
                x == q * g,
        ;
        vstd::arithmetic::div_mod::lemma_mod_multiples_basic(-q, g);
        assert((-k) * g == -(k * g)) by (nonlinear_arith);
    }
}

/// Snapping to a grid of at most `i32::MAX` is symmetric around zero.
pub proof fn snapping_is_symmetric(value: i32, grid: u32)
    requires
        grid <= i32::MAX,
        value != i32::MIN,
    ensures
        designer::spec_snap_value((-value) as i32, grid) == -designer::spec_snap_value(value, grid),
{
    lemma_snap_value_by_sign(value, grid);
    lemma_snap_value_by_sign((-value) as i32, grid);
    if value == 0 {
        let g = designer::grid_i32(grid);
        vstd::arithmetic::div_mod::lemma_fundamental_div_mod_converse(g / 2, g, 0, g / 2);
        assert(half_up(0, g) == 0);
    }
}

/// Snapping a value that is already on a grid of at most `i32::MAX` leaves it
/// where it is.
pub proof fn snapping_twice_changes_nothing(value: i32, grid: u32)
    requires
        grid <= i32::MAX,
        designer::i32_fits(designer::spec_snap_value(value, grid)),
    ensures
        designer::spec_snap_value(designer::spec_snap_value(value, grid) as i32, grid)
            == designer::spec_snap_value(value, grid),
{
    let g = designer::grid_i32(grid);
    let r = designer::spec_snap_value(value, grid);
    lemma_snap_value_by_sign(value, grid);
    lemma_snap_value_by_sign(r as i32, grid);
    if value >= 0 {
        lemma_half_up(value as int, g, 0);
    } else {
        lemma_half_up(-value, g, 0);
        if r == 0 {
            vstd::arithmetic::div_mod::lemma_fundamental_div_mod_converse(g / 2, g, 0, g / 2);
            assert(half_up(0, g) == 0);
        }
    }
}

/// Snapping to a grid of at most `i32::MAX` keeps the order of values.
pub proof fn snapping_keeps_order(v1: i32, v2: i32, grid: u32)
    requires
        grid <= i32::MAX,
        v1 <= v2,
    ensures
        designer::spec_snap_value(v1, grid) <= designer::spec_snap_value(v2, grid),
{
    let g = designer::grid_i32(grid);
    lemma_snap_value_by_sign(v1, grid);
    lemma_snap_value_by_sign(v2, grid);
    if v1 >= 0 {
        lemma_half_up_keeps_order(v1 as int, v2 as int, g);
    } else if v2 < 0 {
        lemma_half_up_keeps_order(-v2, -v1, g);
    } else {
        lemma_half_up(-v1, g, 0);
        lemma_half_up(v2 as int, g, 0);
    }
}

// ---------------------------------------------------------------------------
// Splitting command lines
// ---------------------------------------------------------------------------

/// The words `str::split_whitespace` gives: the maximal runs of characters
/// that are not whitespace, in order. A character that is not whitespace
/// extends the last word when the character before it is not whitespace
/// either, and starts a new word otherwise.
pub open spec fn whitespace_words(s: Seq<char>) -> Seq<Seq<char>>
    decreases s.len(),
{
    if s.len() == 0 {
        Seq::empty()
    } else {
        let before = whitespace_words(s.drop_last());
        let c = s.last();
        if text::is_unicode_whitespace(c) {
            before
        } else if s.len() >= 2 && !text::is_unicode_whitespace(s[s.len() - 2]) {
            before.update(before.len() - 1, before.last().push(c))
        } else {
            before.push(seq![c])
        }
    }
}

/// No quote and no backslash.
pub open spec fn unquoted(s: Seq<char>) -> bool {
    forall|i: int| 0 <= i < s.len() ==> #[trigger] s[i] != '\'' && s[i] != '"' && s[i] != '\\'
}

proof fn lemma_unquoted_split_run(s: Seq<char>)
    requires
        unquoted(s),
    ensures
        ({
            let st = crate::localcoder::split_run(s);
            &&& st.quote == crate::localcoder::Quote::Plain
            &&& !st.escaped
            &&& st.started == (s.len() > 0 && !text::is_unicode_whitespace(s.last()))
            &&& !st.started ==> st.current.len() == 0 && st.args == whitespace_words(s)
            &&& st.started ==> st.args.push(st.current) == whitespace_words(s)
        }),
    decreases s.len(),
{
    if s.len() > 0 {
        let p = s.drop_last();
        assert forall|i: int| 0 <= i < p.len() implies #[trigger] p[i] != '\'' && p[i] != '"'
            && p[i] != '\\' by {
            assert(p[i] == s[i]);
        }
        lemma_unquoted_split_run(p);
        let c = s.last();
        assert(c == s[s.len() - 1]);
        let st = crate::localcoder::split_run(p);
        let w = whitespace_words(p);
        if !text::is_unicode_whitespace(c) {
            if st.started {
                assert(p.last() == s[s.len() - 2]);
                assert(w.last() == st.current);
                assert(w.update(w.len() - 1, w.last().push(c)) =~= st.args.push(
                    st.current.push(c),
                ));
            } else {
                assert(p.len() > 0 ==> p.last() == s[s.len() - 2]);
                assert(st.current.push(c) =~= seq![c]);
            }
        }
    }
}

/// A command line with no quote and no backslash splits exactly as
/// `str::split_whitespace` splits it.
pub proof fn unquoted_args_split_at_whitespace(s: Seq<char>)
    requires
        unquoted(s),
    ensures
        crate::localcoder::spec_split_args(s) == Ok::<Seq<Seq<char>>, crate::localcoder::SplitError>(
            whitespace_words(s),
        ),
{
    lemma_unquoted_split_run(s);
}

#[verifier::spinoff_prover]
proof fn lemma_double_quoted_run(w: Seq<char>, k: int)
    requires
        forall|i: int| 0 <= i < w.len() ==> #[trigger] w[i] != '"' && w[i] != '\\',
        0 <= k <= w.len(),
    ensures
        crate::localcoder::split_run(seq!['"'] + w.take(k)) == (crate::localcoder::SplitState {
            quote: crate::localcoder::Quote::Double,
            escaped: false,
            current: w.take(k),
            started: true,
            args: Seq::empty(),
        }),
    decreases k,
{
    let s = seq!['"'] + w.take(k);
    if k == 0 {
        assert(s.drop_last() =~= Seq::<char>::empty());
        assert(w.take(0) =~= Seq::<char>::empty());
        assert(!text::is_unicode_whitespace('"'));
        assert(crate::localcoder::split_run(s.drop_last()) == crate::localcoder::split_start());
        assert(s.last() == '"');
    } else {
        lemma_double_quoted_run(w, k - 1);
        assert(s.drop_last() =~= seq!['"'] + w.take(k - 1));
        assert(s.last() == w[k - 1]);
        assert(w.take(k - 1).push(w[k - 1]) =~= w.take(k));
    }
}

/// Inside double quotes only a double quote ends the quote: every other
/// character but a backslash is kept as it is, so a text without `"` or `\`
/// in double quotes is one word, that text (an apostrophe included).
#[verifier::spinoff_prover]
pub proof fn double_quotes_keep_their_text(w: Seq<char>)
    requires
        forall|i: int| 0 <= i < w.len() ==> #[trigger] w[i] != '"' && w[i] != '\\',
    ensures
        crate::localcoder::spec_split_args(seq!['"'] + w + seq!['"']) == Ok::<
            Seq<Seq<char>>,
            crate::localcoder::SplitError,
        >(seq![w]),
{
    lemma_double_quoted_run(w, w.len() as int);
    let s = seq!['"'] + w + seq!['"'];
    assert(w.take(w.len() as int) =~= w);
    assert(s.drop_last() =~= seq!['"'] + w.take(w.len() as int));
    assert(s.last() == '"');
    assert(Seq::<Seq<char>>::empty().push(w) =~= seq![w]);
}

#[verifier::spinoff_prover]
proof fn lemma_single_quoted_run(w: Seq<char>, k: int)
    requires
        forall|i: int| 0 <= i < w.len() ==> #[trigger] w[i] != '\'',
        0 <= k <= w.len(),
    ensures
        crate::localcoder::split_run(seq!['\''] + w.take(k)) == (crate::localcoder::SplitState {
            quote: crate::localcoder::Quote::Single,
            escaped: false,
            current: w.take(k),
            started: true,
            args: Seq::empty(),
        }),
    decreases k,
{
    let s = seq!['\''] + w.take(k);
    if k == 0 {
        assert(s.drop_last() =~= Seq::<char>::empty());
        assert(w.take(0) =~= Seq::<char>::empty());
        assert(!text::is_unicode_whitespace('\''));
        assert(crate::localcoder::split_run(s.drop_last()) == crate::localcoder::split_start());
        assert(s.last() == '\'');
    } else {
        lemma_single_quoted_run(w, k - 1);
        assert(s.drop_last() =~= seq!['\''] + w.take(k - 1));
        assert(s.last() == w[k - 1]);
        assert(w.take(k - 1).push(w[k - 1]) =~= w.take(k));
    }
}

/// Inside single quotes everything is kept as it is until the next single
/// quote: a text without `'` in single quotes is one word, that text
/// (double quotes, backslashes and whitespace included).
#[verifier::spinoff_prover]
pub proof fn single_quotes_keep_their_text(w: Seq<char>)
    requires
        forall|i: int| 0 <= i < w.len() ==> #[trigger] w[i] != '\'',
    ensures
        crate::localcoder::spec_split_args(seq!['\''] + w + seq!['\'']) == Ok::<
            Seq<Seq<char>>,
            crate::localcoder::SplitError,
        >(seq![w]),
{
    lemma_single_quoted_run(w, w.len() as int);
    let s = seq!['\''] + w + seq!['\''];
    assert(w.take(w.len() as int) =~= w);
    assert(s.drop_last() =~= seq!['\''] + w.take(w.len() as int));
    assert(s.last() == '\'');
    assert(Seq::<Seq<char>>::empty().push(w) =~= seq![w]);
}

/// Inside double quotes a backslash keeps the next character, whatever it
/// is, a double quote included: `"\c"` is the one word `c`.
#[verifier::spinoff_prover]
pub proof fn a_backslash_in_double_quotes_keeps_the_next_character(c: char)
    ensures
        crate::localcoder::spec_split_args(seq!['"', '\\', c, '"']) == Ok::<
            Seq<Seq<char>>,
            crate::localcoder::SplitError,
        >(seq![seq![c]]),
{
    let s1 = seq!['"'];
    let s2 = seq!['"', '\\'];
    let s3 = seq!['"', '\\', c];
    let s4 = seq!['"', '\\', c, '"'];
    assert(s1.drop_last() =~= Seq::<char>::empty());
    assert(s2.drop_last() =~= s1);
    assert(s3.drop_last() =~= s2);
    assert(s4.drop_last() =~= s3);
    assert(!text::is_unicode_whitespace('"'));
    assert(crate::localcoder::split_run(s1.drop_last()) == crate::localcoder::split_start());
    assert(s1.last() == '"' && s2.last() == '\\' && s3.last() == c && s4.last() == '"');
    let st1 = crate::localcoder::split_run(s1);
    assert(st1.quote == crate::localcoder::Quote::Double && !st1.escaped && st1.started);
    assert(st1.current == Seq::<char>::empty() && st1.args == Seq::<Seq<char>>::empty());
    let st2 = crate::localcoder::split_run(s2);
    assert(st2.quote == crate::localcoder::Quote::Double && st2.escaped && st2.started);
    let st3 = crate::localcoder::split_run(s3);
    assert(st3.quote == crate::localcoder::Quote::Double && !st3.escaped && st3.current == seq![c]);
    let st4 = crate::localcoder::split_run(s4);
    assert(st4.quote == crate::localcoder::Quote::Plain && !st4.escaped && st4.started);
    assert(st4.args.push(st4.current) =~= seq![seq![c]]);
}

/// A backslash outside quotes makes the next character, whatever it is, a
/// word of its own characters: `\c` is the one word `c`.
#[verifier::spinoff_prover]
pub proof fn a_backslash_keeps_the_next_character(c: char)
    ensures
        crate::localcoder::spec_split_args(seq!['\\', c]) == Ok::<
            Seq<Seq<char>>,
            crate::localcoder::SplitError,
        >(seq![seq![c]]),
{
    let s = seq!['\\', c];
    let b = seq!['\\'];
    assert(s.drop_last() =~= b);
    assert(b.drop_last() =~= Seq::<char>::empty());
    assert(!text::is_unicode_whitespace('\\'));
    assert(crate::localcoder::split_run(b.drop_last()) == crate::localcoder::split_start());
    assert(b.last() == '\\');
    assert(crate::localcoder::split_run(b).escaped);
    assert(s.last() == c);
    assert(Seq::<char>::empty().push(c) =~= seq![c]);
    assert(Seq::<Seq<char>>::empty().push(seq![c]) =~= seq![seq![c]]);
}

/// Aligning moves or resizes a rectangle in one respect only: left, top,
/// right and bottom alignment bring that edge onto the anchor's, the two
/// centre alignments bring the centre (half the size, rounded toward zero,
/// from the near edge) onto the anchor's, and same width or height takes
/// the anchor's width or height. Every other field stays as it was.
#[verifier::spinoff_prover]
pub proof fn aligning_changes_one_field(rect: model::Rect, anchor: model::Rect, alignment: designer::Alignment)
    requires
        designer::align_fits(rect, anchor, alignment),
    ensures
        ({
            let r = designer::spec_align_rect(rect, anchor, alignment);
            match alignment {
                designer::Alignment::Left => r == model::Rect { x: anchor.x, ..rect },
                designer::Alignment::Top => r == model::Rect { y: anchor.y, ..rect },
                designer::Alignment::Right => r.y == rect.y && r.w == rect.w && r.h == rect.h
                    && r.x + (r.w as i32) == anchor.x + (anchor.w as i32),
                designer::Alignment::Bottom => r.x == rect.x && r.w == rect.w && r.h == rect.h
                    && r.y + (r.h as i32) == anchor.y + (anchor.h as i32),
                designer::Alignment::HorizontalCenter => r.y == rect.y && r.w == rect.w && r.h
                    == rect.h && r.x + designer::tdiv(r.w as i32 as int, 2) == anchor.x
                    + designer::tdiv(anchor.w as i32 as int, 2),
                designer::Alignment::VerticalCenter => r.x == rect.x && r.w == rect.w && r.h
                    == rect.h && r.y + designer::tdiv(r.h as i32 as int, 2) == anchor.y
                    + designer::tdiv(anchor.h as i32 as int, 2),
                designer::Alignment::SameWidth => r.x == rect.x && r.y == rect.y && r.h == rect.h
                    && r.w == anchor.w,
                designer::Alignment::SameHeight => r.x == rect.x && r.y == rect.y && r.w == rect.w
                    && r.h == anchor.h,
            }
        }),
{
}

// ---------------------------------------------------------------------------
// Window properties
// ---------------------------------------------------------------------------

/// The window with the given decorations in place of its own.
pub open spec fn with_switch(w: model::Ui2Window, d: model::WindowDecorations) -> model::Ui2Window {
    model::Ui2Window { decorations: d, ..w }
}

proof fn lemma_key_titlebar()
    ensures
        crate::server::window_key_of("titlebar"@) == crate::server::WindowKey::Titlebar,
{
    reveal_strlit("name");
    reveal_strlit("caption");
    reveal_strlit("title-twemoji");
    reveal_strlit("title-icon");
    reveal_strlit("twemoji");
    reveal_strlit("x");
    reveal_strlit("geometry.x");
    reveal_strlit("y");
    reveal_strlit("geometry.y");
    reveal_strlit("w");
    reveal_strlit("width");
    reveal_strlit("geometry.w");
    reveal_strlit("geometry.width");
    reveal_strlit("h");
    reveal_strlit("height");
    reveal_strlit("geometry.h");
    reveal_strlit("geometry.height");
    reveal_strlit("titlebar");
    assert("titlebar"@.len() != "name"@.len());
    assert("titlebar"@ != "name"@);
    assert("titlebar"@.len() != "caption"@.len());
    assert("titlebar"@ != "caption"@);
    assert("titlebar"@.len() != "title-twemoji"@.len());
    assert("titlebar"@ != "title-twemoji"@);
    assert("titlebar"@.len() != "title-icon"@.len());
    assert("titlebar"@ != "title-icon"@);
    assert("titlebar"@.len() != "twemoji"@.len());
    assert("titlebar"@ != "twemoji"@);
    assert("titlebar"@.len() != "x"@.len());
    assert("titlebar"@ != "x"@);
    assert("titlebar"@.len() != "geometry.x"@.len());
    assert("titlebar"@ != "geometry.x"@);
    assert("titlebar"@.len() != "y"@.len());
    assert("titlebar"@ != "y"@);
    assert("titlebar"@.len() != "geometry.y"@.len());
    assert("titlebar"@ != "geometry.y"@);
    assert("titlebar"@.len() != "w"@.len());
    assert("titlebar"@ != "w"@);
    assert("titlebar"@.len() != "width"@.len());
    assert("titlebar"@ != "width"@);
    assert("titlebar"@.len() != "geometry.w"@.len());
    assert("titlebar"@ != "geometry.w"@);
    assert("titlebar"@.len() != "geometry.width"@.len());
    assert("titlebar"@ != "geometry.width"@);
    assert("titlebar"@.len() != "h"@.len());
    assert("titlebar"@ != "h"@);
    assert("titlebar"@.len() != "height"@.len());
    assert("titlebar"@ != "height"@);
    assert("titlebar"@.len() != "geometry.h"@.len());
    assert("titlebar"@ != "geometry.h"@);
    assert("titlebar"@.len() != "geometry.height"@.len());
    assert("titlebar"@ != "geometry.height"@);
}

proof fn lemma_key_decorations_titlebar()
    ensures
        crate::server::window_key_of("decorations.titlebar"@) == crate::server::WindowKey::Titlebar,
{
    reveal_strlit("name");
    reveal_strlit("caption");
    reveal_strlit("title-twemoji");
    reveal_strlit("title-icon");
    reveal_strlit("twemoji");
    reveal_strlit("x");
    reveal_strlit("geometry.x");
    reveal_strlit("y");
    reveal_strlit("geometry.y");
    reveal_strlit("w");
    reveal_strlit("width");
    reveal_strlit("geometry.w");
    reveal_strlit("geometry.width");
    reveal_strlit("h");
    reveal_strlit("height");
    reveal_strlit("geometry.h");
    reveal_strlit("geometry.height");
    reveal_strlit("titlebar");
    reveal_strlit("decorations.titlebar");
    assert("decorations.titlebar"@.len() != "name"@.len());
    assert("decorations.titlebar"@ != "name"@);
    assert("decorations.titlebar"@.len() != "caption"@.len());
    assert("decorations.titlebar"@ != "caption"@);
    assert("decorations.titlebar"@.len() != "title-twemoji"@.len());
    assert("decorations.titlebar"@ != "title-twemoji"@);
    assert("decorations.titlebar"@.len() != "title-icon"@.len());
    assert("decorations.titlebar"@ != "title-icon"@);
    assert("decorations.titlebar"@.len() != "twemoji"@.len());
    assert("decorations.titlebar"@ != "twemoji"@);
    assert("decorations.titlebar"@.len() != "x"@.len());
    assert("decorations.titlebar"@ != "x"@);
    assert("decorations.titlebar"@.len() != "geometry.x"@.len());
    assert("decorations.titlebar"@ != "geometry.x"@);
    assert("decorations.titlebar"@.len() != "y"@.len());
    assert("decorations.titlebar"@ != "y"@);
    assert("decorations.titlebar"@.len() != "geometry.y"@.len());
    assert("decorations.titlebar"@ != "geometry.y"@);
    assert("decorations.titlebar"@.len() != "w"@.len());
    assert("decorations.titlebar"@ != "w"@);
    assert("decorations.titlebar"@.len() != "width"@.len());
    assert("decorations.titlebar"@ != "width"@);
    assert("decorations.titlebar"@.len() != "geometry.w"@.len());
    assert("decorations.titlebar"@ != "geometry.w"@);
    assert("decorations.titlebar"@.len() != "geometry.width"@.len());
    assert("decorations.titlebar"@ != "geometry.width"@);
    assert("decorations.titlebar"@.len() != "h"@.len());
    assert("decorations.titlebar"@ != "h"@);
    assert("decorations.titlebar"@.len() != "height"@.len());
    assert("decorations.titlebar"@ != "height"@);
    assert("decorations.titlebar"@.len() != "geometry.h"@.len());
    assert("decorations.titlebar"@ != "geometry.h"@);
    assert("decorations.titlebar"@.len() != "geometry.height"@.len());
    assert("decorations.titlebar"@ != "geometry.height"@);
    assert("decorations.titlebar"@.len() != "titlebar"@.len());
    assert("decorations.titlebar"@ != "titlebar"@);
}

proof fn lemma_key_close()
    ensures
        crate::server::window_key_of("close"@) == crate::server::WindowKey::Close,
{
    reveal_strlit("name");
    reveal_strlit("caption");
    reveal_strlit("title-twemoji");
    reveal_strlit("title-icon");
    reveal_strlit("twemoji");
    reveal_strlit("x");
    reveal_strlit("geometry.x");
    reveal_strlit("y");
    reveal_strlit("geometry.y");
    reveal_strlit("w");
    reveal_strlit("width");
    reveal_strlit("geometry.w");
    reveal_strlit("geometry.width");
    reveal_strlit("h");
    reveal_strlit("height");
    reveal_strlit("geometry.h");
    reveal_strlit("geometry.height");
    reveal_strlit("titlebar");
    reveal_strlit("decorations.titlebar");
    reveal_strlit("close");
    assert("close"@.len() != "name"@.len());
    assert("close"@ != "name"@);
    assert("close"@.len() != "caption"@.len());
    assert("close"@ != "caption"@);
    assert("close"@.len() != "title-twemoji"@.len());
    assert("close"@ != "title-twemoji"@);
    assert("close"@.len() != "title-icon"@.len());
    assert("close"@ != "title-icon"@);
    assert("close"@.len() != "twemoji"@.len());
    assert("close"@ != "twemoji"@);
    assert("close"@.len() != "x"@.len());
    assert("close"@ != "x"@);
    assert("close"@.len() != "geometry.x"@.len());
    assert("close"@ != "geometry.x"@);
    assert("close"@.len() != "y"@.len());
    assert("close"@ != "y"@);
    assert("close"@.len() != "geometry.y"@.len());
    assert("close"@ != "geometry.y"@);
    assert("close"@.len() != "w"@.len());
    assert("close"@ != "w"@);
    assert("close"@[0] != "width"@[0]);
    assert("close"@ != "width"@);
    assert("close"@.len() != "geometry.w"@.len());
    assert("close"@ != "geometry.w"@);
    assert("close"@.len() != "geometry.width"@.len());
    assert("close"@ != "geometry.width"@);
    assert("close"@.len() != "h"@.len());
    assert("close"@ != "h"@);
    assert("close"@.len() != "height"@.len());
    assert("close"@ != "height"@);
    assert("close"@.len() != "geometry.h"@.len());
    assert("close"@ != "geometry.h"@);
    assert("close"@.len() != "geometry.height"@.len());
    assert("close"@ != "geometry.height"@);
    assert("close"@.len() != "titlebar"@.len());
    assert("close"@ != "titlebar"@);
    assert("close"@.len() != "decorations.titlebar"@.len());
    assert("close"@ != "decorations.titlebar"@);
}

proof fn lemma_key_decorations_close()
    ensures
        crate::server::window_key_of("decorations.close"@) == crate::server::WindowKey::Close,
{
    reveal_strlit("name");
    reveal_strlit("caption");
    reveal_strlit("title-twemoji");
    reveal_strlit("title-icon");
    reveal_strlit("twemoji");
    reveal_strlit("x");
    reveal_strlit("geometry.x");
    reveal_strlit("y");
    reveal_strlit("geometry.y");
    reveal_strlit("w");
    reveal_strlit("width");
    reveal_strlit("geometry.w");
    reveal_strlit("geometry.width");
    reveal_strlit("h");
    reveal_strlit("height");
    reveal_strlit("geometry.h");
    reveal_strlit("geometry.height");
    reveal_strlit("titlebar");
    reveal_strlit("decorations.titlebar");
    reveal_strlit("close");
    reveal_strlit("decorations.close");
    assert("decorations.close"@.len() != "name"@.len());
    assert("decorations.close"@ != "name"@);
    assert("decorations.close"@.len() != "caption"@.len());
    assert("decorations.close"@ != "caption"@);
    assert("decorations.close"@.len() != "title-twemoji"@.len());
    assert("decorations.close"@ != "title-twemoji"@);
    assert("decorations.close"@.len() != "title-icon"@.len());
    assert("decorations.close"@ != "title-icon"@);
    assert("decorations.close"@.len() != "twemoji"@.len());
    assert("decorations.close"@ != "twemoji"@);
    assert("decorations.close"@.len() != "x"@.len());
    assert("decorations.close"@ != "x"@);
    assert("decorations.close"@.len() != "geometry.x"@.len());
    assert("decorations.close"@ != "geometry.x"@);
    assert("decorations.close"@.len() != "y"@.len());
    assert("decorations.close"@ != "y"@);
    assert("decorations.close"@.len() != "geometry.y"@.len());
    assert("decorations.close"@ != "geometry.y"@);
    assert("decorations.close"@.len() != "w"@.len());
    assert("decorations.close"@ != "w"@);
    assert("decorations.close"@.len() != "width"@.len());
    assert("decorations.close"@ != "width"@);
    assert("decorations.close"@.len() != "geometry.w"@.len());
    assert("decorations.close"@ != "geometry.w"@);
    assert("decorations.close"@.len() != "geometry.width"@.len());
    assert("decorations.close"@ != "geometry.width"@);
    assert("decorations.close"@.len() != "h"@.len());
    assert("decorations.close"@ != "h"@);
    assert("decorations.close"@.len() != "height"@.len());
    assert("decorations.close"@ != "height"@);
    assert("decorations.close"@.len() != "geometry.h"@.len());
    assert("decorations.close"@ != "geometry.h"@);
    assert("decorations.close"@.len() != "geometry.height"@.len());
    assert("decorations.close"@ != "geometry.height"@);
    assert("decorations.close"@.len() != "titlebar"@.len());
    assert("decorations.close"@ != "titlebar"@);
    assert("decorations.close"@.len() != "decorations.titlebar"@.len());
    assert("decorations.close"@ != "decorations.titlebar"@);
    assert("decorations.close"@.len() != "close"@.len());
    assert("decorations.close"@ != "close"@);
}

proof fn lemma_key_minimize()
    ensures
        crate::server::window_key_of("minimize"@) == crate::server::WindowKey::Minimize,
{
    reveal_strlit("name");
    reveal_strlit("caption");
    reveal_strlit("title-twemoji");
    reveal_strlit("title-icon");
    reveal_strlit("twemoji");
    reveal_strlit("x");
    reveal_strlit("geometry.x");
    reveal_strlit("y");
    reveal_strlit("geometry.y");
    reveal_strlit("w");
    reveal_strlit("width");
    reveal_strlit("geometry.w");
    reveal_strlit("geometry.width");
    reveal_strlit("h");
    reveal_strlit("height");
    reveal_strlit("geometry.h");
    reveal_strlit("geometry.height");
    reveal_strlit("titlebar");
    reveal_strlit("decorations.titlebar");
    reveal_strlit("close");
    reveal_strlit("decorations.close");
    reveal_strlit("minimize");
    assert("minimize"@.len() != "name"@.len());
    assert("minimize"@ != "name"@);
    assert("minimize"@.len() != "caption"@.len());
    assert("minimize"@ != "caption"@);
    assert("minimize"@.len() != "title-twemoji"@.len());
    assert("minimize"@ != "title-twemoji"@);
    assert("minimize"@.len() != "title-icon"@.len());
    assert("minimize"@ != "title-icon"@);
    assert("minimize"@.len() != "twemoji"@.len());
    assert("minimize"@ != "twemoji"@);
    assert("minimize"@.len() != "x"@.len());
    assert("minimize"@ != "x"@);
    assert("minimize"@.len() != "geometry.x"@.len());
    assert("minimize"@ != "geometry.x"@);
    assert("minimize"@.len() != "y"@.len());
    assert("minimize"@ != "y"@);
    assert("minimize"@.len() != "geometry.y"@.len());
    assert("minimize"@ != "geometry.y"@);
    assert("minimize"@.len() != "w"@.len());
    assert("minimize"@ != "w"@);
    assert("minimize"@.len() != "width"@.len());
    assert("minimize"@ != "width"@);
    assert("minimize"@.len() != "geometry.w"@.len());
    assert("minimize"@ != "geometry.w"@);
    assert("minimize"@.len() != "geometry.width"@.len());
    assert("minimize"@ != "geometry.width"@);
    assert("minimize"@.len() != "h"@.len());
    assert("minimize"@ != "h"@);
    assert("minimize"@.len() != "height"@.len());
    assert("minimize"@ != "height"@);
    assert("minimize"@.len() != "geometry.h"@.len());
    assert("minimize"@ != "geometry.h"@);
    assert("minimize"@.len() != "geometry.height"@.len());
    assert("minimize"@ != "geometry.height"@);
    assert("minimize"@[0] != "titlebar"@[0]);
    assert("minimize"@ != "titlebar"@);
    assert("minimize"@.len() != "decorations.titlebar"@.len());
    assert("minimize"@ != "decorations.titlebar"@);
    assert("minimize"@.len() != "close"@.len());
    assert("minimize"@ != "close"@);
    assert("minimize"@.len() != "decorations.close"@.len());
    assert("minimize"@ != "decorations.close"@);
}

proof fn lemma_key_decorations_minimize()
    ensures
        crate::server::window_key_of("decorations.minimize"@) == crate::server::WindowKey::Minimize,
{
    reveal_strlit("name");
    reveal_strlit("caption");
    reveal_strlit("title-twemoji");
    reveal_strlit("title-icon");
    reveal_strlit("twemoji");
    reveal_strlit("x");
    reveal_strlit("geometry.x");
    reveal_strlit("y");
    reveal_strlit("geometry.y");
    reveal_strlit("w");
    reveal_strlit("width");
    reveal_strlit("geometry.w");
    reveal_strlit("geometry.width");
    reveal_strlit("h");
    reveal_strlit("height");
    reveal_strlit("geometry.h");
    reveal_strlit("geometry.height");
    reveal_strlit("titlebar");
    reveal_strlit("decorations.titlebar");
    reveal_strlit("close");
    reveal_strlit("decorations.close");
    reveal_strlit("minimize");
    reveal_strlit("decorations.minimize");
    assert("decorations.minimize"@.len() != "name"@.len());
    assert("decorations.minimize"@ != "name"@);
    assert("decorations.minimize"@.len() != "caption"@.len());
    assert("decorations.minimize"@ != "caption"@);
    assert("decorations.minimize"@.len() != "title-twemoji"@.len());
    assert("decorations.minimize"@ != "title-twemoji"@);
    assert("decorations.minimize"@.len() != "title-icon"@.len());
    assert("decorations.minimize"@ != "title-icon"@);
    assert("decorations.minimize"@.len() != "twemoji"@.len());
    assert("decorations.minimize"@ != "twemoji"@);
    assert("decorations.minimize"@.len() != "x"@.len());
    assert("decorations.minimize"@ != "x"@);
    assert("decorations.minimize"@.len() != "geometry.x"@.len());
    assert("decorations.minimize"@ != "geometry.x"@);
    assert("decorations.minimize"@.len() != "y"@.len());
    assert("decorations.minimize"@ != "y"@);
    assert("decorations.minimize"@.len() != "geometry.y"@.len());
    assert("decorations.minimize"@ != "geometry.y"@);
    assert("decorations.minimize"@.len() != "w"@.len());
    assert("decorations.minimize"@ != "w"@);
    assert("decorations.minimize"@.len() != "width"@.len());
    assert("decorations.minimize"@ != "width"@);
    assert("decorations.minimize"@.len() != "geometry.w"@.len());
    assert("decorations.minimize"@ != "geometry.w"@);
    assert("decorations.minimize"@.len() != "geometry.width"@.len());
    assert("decorations.minimize"@ != "geometry.width"@);
    assert("decorations.minimize"@.len() != "h"@.len());
    assert("decorations.minimize"@ != "h"@);
    assert("decorations.minimize"@.len() != "height"@.len());
    assert("decorations.minimize"@ != "height"@);
    assert("decorations.minimize"@.len() != "geometry.h"@.len());
    assert("decorations.minimize"@ != "geometry.h"@);
    assert("decorations.minimize"@.len() != "geometry.height"@.len());
    assert("decorations.minimize"@ != "geometry.height"@);
    assert("decorations.minimize"@.len() != "titlebar"@.len());
    assert("decorations.minimize"@ != "titlebar"@);
    assert("decorations.minimize"@[12] != "decorations.titlebar"@[12]);
    assert("decorations.minimize"@ != "decorations.titlebar"@);
    assert("decorations.minimize"@.len() != "close"@.len());
    assert("decorations.minimize"@ != "close"@);
    assert("decorations.minimize"@.len() != "decorations.close"@.len());
    assert("decorations.minimize"@ != "decorations.close"@);
    assert("decorations.minimize"@.len() != "minimize"@.len());
    assert("decorations.minimize"@ != "minimize"@);
}

proof fn lemma_key_maximize()
    ensures
        crate::server::window_key_of("maximize"@) == crate::server::WindowKey::Maximize,
{
    reveal_strlit("name");
    reveal_strlit("caption");
    reveal_strlit("title-twemoji");
    reveal_strlit("title-icon");
    reveal_strlit("twemoji");
    reveal_strlit("x");
    reveal_strlit("geometry.x");
    reveal_strlit("y");
    reveal_strlit("geometry.y");
    reveal_strlit("w");
    reveal_strlit("width");
    reveal_strlit("geometry.w");
    reveal_strlit("geometry.width");
    reveal_strlit("h");
    reveal_strlit("height");
    reveal_strlit("geometry.h");
    reveal_strlit("geometry.height");
    reveal_strlit("titlebar");
    reveal_strlit("decorations.titlebar");
    reveal_strlit("close");
    reveal_strlit("decorations.close");
    reveal_strlit("minimize");
    reveal_strlit("decorations.minimize");
    reveal_strlit("maximize");
    assert("maximize"@.len() != "name"@.len());
    assert("maximize"@ != "name"@);
    assert("maximize"@.len() != "caption"@.len());
    assert("maximize"@ != "caption"@);
    assert("maximize"@.len() != "title-twemoji"@.len());
    assert("maximize"@ != "title-twemoji"@);
    assert("maximize"@.len() != "title-icon"@.len());
    assert("maximize"@ != "title-icon"@);
    assert("maximize"@.len() != "twemoji"@.len());
    assert("maximize"@ != "twemoji"@);
    assert("maximize"@.len() != "x"@.len());
    assert("maximize"@ != "x"@);
    assert("maximize"@.len() != "geometry.x"@.len());
    assert("maximize"@ != "geometry.x"@);
    assert("maximize"@.len() != "y"@.len());
    assert("maximize"@ != "y"@);
    assert("maximize"@.len() != "geometry.y"@.len());
    assert("maximize"@ != "geometry.y"@);
    assert("maximize"@.len() != "w"@.len());
    assert("maximize"@ != "w"@);
    assert("maximize"@.len() != "width"@.len());
    assert("maximize"@ != "width"@);
    assert("maximize"@.len() != "geometry.w"@.len());
    assert("maximize"@ != "geometry.w"@);
    assert("maximize"@.len() != "geometry.width"@.len());
    assert("maximize"@ != "geometry.width"@);
    assert("maximize"@.len() != "h"@.len());
    assert("maximize"@ != "h"@);
    assert("maximize"@.len() != "height"@.len());
    assert("maximize"@ != "height"@);
    assert("maximize"@.len() != "geometry.h"@.len());
    assert("maximize"@ != "geometry.h"@);
    assert("maximize"@.len() != "geometry.height"@.len());
    assert("maximize"@ != "geometry.height"@);
    assert("maximize"@[0] != "titlebar"@[0]);
    assert("maximize"@ != "titlebar"@);
    assert("maximize"@.len() != "decorations.titlebar"@.len());
    assert("maximize"@ != "decorations.titlebar"@);
    assert("maximize"@.len() != "close"@.len());
    assert("maximize"@ != "close"@);
    assert("maximize"@.len() != "decorations.close"@.len());
    assert("maximize"@ != "decorations.close"@);
    assert("maximize"@[1] != "minimize"@[1]);
    assert("maximize"@ != "minimize"@);
    assert("maximize"@.len() != "decorations.minimize"@.len());
    assert("maximize"@ != "decorations.minimize"@);
}

proof fn lemma_key_decorations_maximize()
    ensures
        crate::server::window_key_of("decorations.maximize"@) == crate::server::WindowKey::Maximize,
{
    reveal_strlit("name");
    reveal_strlit("caption");
    reveal_strlit("title-twemoji");
    reveal_strlit("title-icon");
    reveal_strlit("twemoji");
    reveal_strlit("x");
    reveal_strlit("geometry.x");
    reveal_strlit("y");
    reveal_strlit("geometry.y");
    reveal_strlit("w");
    reveal_strlit("width");
    reveal_strlit("geometry.w");
    reveal_strlit("geometry.width");
    reveal_strlit("h");
    reveal_strlit("height");
    reveal_strlit("geometry.h");
    reveal_strlit("geometry.height");
    reveal_strlit("titlebar");
    reveal_strlit("decorations.titlebar");
    reveal_strlit("close");
    reveal_strlit("decorations.close");
    reveal_strlit("minimize");
    reveal_strlit("decorations.minimize");
    reveal_strlit("maximize");
    reveal_strlit("decorations.maximize");
    assert("decorations.maximize"@.len() != "name"@.len());
    assert("decorations.maximize"@ != "name"@);
    assert("decorations.maximize"@.len() != "caption"@.len());
    assert("decorations.maximize"@ != "caption"@);
    assert("decorations.maximize"@.len() != "title-twemoji"@.len());
    assert("decorations.maximize"@ != "title-twemoji"@);
    assert("decorations.maximize"@.len() != "title-icon"@.len());
    assert("decorations.maximize"@ != "title-icon"@);
    assert("decorations.maximize"@.len() != "twemoji"@.len());
    assert("decorations.maximize"@ != "twemoji"@);
    assert("decorations.maximize"@.len() != "x"@.len());
    assert("decorations.maximize"@ != "x"@);
    assert("decorations.maximize"@.len() != "geometry.x"@.len());
    assert("decorations.maximize"@ != "geometry.x"@);
    assert("decorations.maximize"@.len() != "y"@.len());
    assert("decorations.maximize"@ != "y"@);
    assert("decorations.maximize"@.len() != "geometry.y"@.len());
    assert("decorations.maximize"@ != "geometry.y"@);
    assert("decorations.maximize"@.len() != "w"@.len());
    assert("decorations.maximize"@ != "w"@);
    assert("decorations.maximize"@.len() != "width"@.len());
    assert("decorations.maximize"@ != "width"@);
    assert("decorations.maximize"@.len() != "geometry.w"@.len());
    assert("decorations.maximize"@ != "geometry.w"@);
    assert("decorations.maximize"@.len() != "geometry.width"@.len());
    assert("decorations.maximize"@ != "geometry.width"@);
    assert("decorations.maximize"@.len() != "h"@.len());
    assert("decorations.maximize"@ != "h"@);
    assert("decorations.maximize"@.len() != "height"@.len());
    assert("decorations.maximize"@ != "height"@);
    assert("decorations.maximize"@.len() != "geometry.h"@.len());
    assert("decorations.maximize"@ != "geometry.h"@);
    assert("decorations.maximize"@.len() != "geometry.height"@.len());
    assert("decorations.maximize"@ != "geometry.height"@);
    assert("decorations.maximize"@.len() != "titlebar"@.len());
    assert("decorations.maximize"@ != "titlebar"@);
    assert("decorations.maximize"@[12] != "decorations.titlebar"@[12]);
    assert("decorations.maximize"@ != "decorations.titlebar"@);
    assert("decorations.maximize"@.len() != "close"@.len());
    assert("decorations.maximize"@ != "close"@);
    assert("decorations.maximize"@.len() != "decorations.close"@.len());
    assert("decorations.maximize"@ != "decorations.close"@);
    assert("decorations.maximize"@.len() != "minimize"@.len());
    assert("decorations.maximize"@ != "minimize"@);
    assert("decorations.maximize"@[13] != "decorations.minimize"@[13]);
    assert("decorations.maximize"@ != "decorations.minimize"@);
    assert("decorations.maximize"@.len() != "maximize"@.len());
    assert("decorations.maximize"@ != "maximize"@);
}

proof fn lemma_key_resizable()
    ensures
        crate::server::window_key_of("resizable"@) == crate::server::WindowKey::Resizable,
{
    reveal_strlit("name");
    reveal_strlit("caption");
    reveal_strlit("title-twemoji");
    reveal_strlit("title-icon");
    reveal_strlit("twemoji");
    reveal_strlit("x");
    reveal_strlit("geometry.x");
    reveal_strlit("y");
    reveal_strlit("geometry.y");
    reveal_strlit("w");
    reveal_strlit("width");
    reveal_strlit("geometry.w");
    reveal_strlit("geometry.width");
    reveal_strlit("h");
    reveal_strlit("height");
    reveal_strlit("geometry.h");
    reveal_strlit("geometry.height");
    reveal_strlit("titlebar");
    reveal_strlit("decorations.titlebar");
    reveal_strlit("close");
    reveal_strlit("decorations.close");
    reveal_strlit("minimize");
    reveal_strlit("decorations.minimize");
    reveal_strlit("maximize");
    reveal_strlit("decorations.maximize");
    reveal_strlit("resizable");
    assert("resizable"@.len() != "name"@.len());
    assert("resizable"@ != "name"@);
    assert("resizable"@.len() != "caption"@.len());
    assert("resizable"@ != "caption"@);
    assert("resizable"@.len() != "title-twemoji"@.len());
    assert("resizable"@ != "title-twemoji"@);
    assert("resizable"@.len() != "title-icon"@.len());
    assert("resizable"@ != "title-icon"@);
    assert("resizable"@.len() != "twemoji"@.len());
    assert("resizable"@ != "twemoji"@);
    assert("resizable"@.len() != "x"@.len());
    assert("resizable"@ != "x"@);
    assert("resizable"@.len() != "geometry.x"@.len());
    assert("resizable"@ != "geometry.x"@);
    assert("resizable"@.len() != "y"@.len());
    assert("resizable"@ != "y"@);
    assert("resizable"@.len() != "geometry.y"@.len());
    assert("resizable"@ != "geometry.y"@);
    assert("resizable"@.len() != "w"@.len());
    assert("resizable"@ != "w"@);
    assert("resizable"@.len() != "width"@.len());
    assert("resizable"@ != "width"@);
    assert("resizable"@.len() != "geometry.w"@.len());
    assert("resizable"@ != "geometry.w"@);
    assert("resizable"@.len() != "geometry.width"@.len());
    assert("resizable"@ != "geometry.width"@);
    assert("resizable"@.len() != "h"@.len());
    assert("resizable"@ != "h"@);
    assert("resizable"@.len() != "height"@.len());
    assert("resizable"@ != "height"@);
    assert("resizable"@.len() != "geometry.h"@.len());
    assert("resizable"@ != "geometry.h"@);
    assert("resizable"@.len() != "geometry.height"@.len());
    assert("resizable"@ != "geometry.height"@);
    assert("resizable"@.len() != "titlebar"@.len());
    assert("resizable"@ != "titlebar"@);
    assert("resizable"@.len() != "decorations.titlebar"@.len());
    assert("resizable"@ != "decorations.titlebar"@);
    assert("resizable"@.len() != "close"@.len());
    assert("resizable"@ != "close"@);
    assert("resizable"@.len() != "decorations.close"@.len());
    assert("resizable"@ != "decorations.close"@);
    assert("resizable"@.len() != "minimize"@.len());
    assert("resizable"@ != "minimize"@);
    assert("resizable"@.len() != "decorations.minimize"@.len());
    assert("resizable"@ != "decorations.minimize"@);
    assert("resizable"@.len() != "maximize"@.len());
    assert("resizable"@ != "maximize"@);
    assert("resizable"@.len() != "decorations.maximize"@.len());
    assert("resizable"@ != "decorations.maximize"@);
}

proof fn lemma_key_decorations_resizable()
    ensures
        crate::server::window_key_of("decorations.resizable"@) == crate::server::WindowKey::Resizable,
{
    reveal_strlit("name");
    reveal_strlit("caption");
    reveal_strlit("title-twemoji");
    reveal_strlit("title-icon");
    reveal_strlit("twemoji");
    reveal_strlit("x");
    reveal_strlit("geometry.x");
    reveal_strlit("y");
    reveal_strlit("geometry.y");
    reveal_strlit("w");
    reveal_strlit("width");
    reveal_strlit("geometry.w");
    reveal_strlit("geometry.width");
    reveal_strlit("h");
    reveal_strlit("height");
    reveal_strlit("geometry.h");
    reveal_strlit("geometry.height");
    reveal_strlit("titlebar");
    reveal_strlit("decorations.titlebar");
    reveal_strlit("close");
    reveal_strlit("decorations.close");
    reveal_strlit("minimize");
    reveal_strlit("decorations.minimize");
    reveal_strlit("maximize");
    reveal_strlit("decorations.maximize");
    reveal_strlit("resizable");
    reveal_strlit("decorations.resizable");
    assert("decorations.resizable"@.len() != "name"@.len());
    assert("decorations.resizable"@ != "name"@);
    assert("decorations.resizable"@.len() != "caption"@.len());
    assert("decorations.resizable"@ != "caption"@);
    assert("decorations.resizable"@.len() != "title-twemoji"@.len());
    assert("decorations.resizable"@ != "title-twemoji"@);
    assert("decorations.resizable"@.len() != "title-icon"@.len());
    assert("decorations.resizable"@ != "title-icon"@);
    assert("decorations.resizable"@.len() != "twemoji"@.len());
    assert("decorations.resizable"@ != "twemoji"@);
    assert("decorations.resizable"@.len() != "x"@.len());
    assert("decorations.resizable"@ != "x"@);
    assert("decorations.resizable"@.len() != "geometry.x"@.len());
    assert("decorations.resizable"@ != "geometry.x"@);
    assert("decorations.resizable"@.len() != "y"@.len());
    assert("decorations.resizable"@ != "y"@);
    assert("decorations.resizable"@.len() != "geometry.y"@.len());
    assert("decorations.resizable"@ != "geometry.y"@);
    assert("decorations.resizable"@.len() != "w"@.len());
    assert("decorations.resizable"@ != "w"@);
    assert("decorations.resizable"@.len() != "width"@.len());
    assert("decorations.resizable"@ != "width"@);
    assert("decorations.resizable"@.len() != "geometry.w"@.len());
    assert("decorations.resizable"@ != "geometry.w"@);
    assert("decorations.resizable"@.len() != "geometry.width"@.len());
    assert("decorations.resizable"@ != "geometry.width"@);
    assert("decorations.resizable"@.len() != "h"@.len());
    assert("decorations.resizable"@ != "h"@);
    assert("decorations.resizable"@.len() != "height"@.len());
    assert("decorations.resizable"@ != "height"@);
    assert("decorations.resizable"@.len() != "geometry.h"@.len());
    assert("decorations.resizable"@ != "geometry.h"@);
    assert("decorations.resizable"@.len() != "geometry.height"@.len());
    assert("decorations.resizable"@ != "geometry.height"@);
    assert("decorations.resizable"@.len() != "titlebar"@.len());
    assert("decorations.resizable"@ != "titlebar"@);
    assert("decorations.resizable"@.len() != "decorations.titlebar"@.len());
    assert("decorations.resizable"@ != "decorations.titlebar"@);
    assert("decorations.resizable"@.len() != "close"@.len());
    assert("decorations.resizable"@ != "close"@);
    assert("decorations.resizable"@.len() != "decorations.close"@.len());
    assert("decorations.resizable"@ != "decorations.close"@);
    assert("decorations.resizable"@.len() != "minimize"@.len());
    assert("decorations.resizable"@ != "minimize"@);
    assert("decorations.resizable"@.len() != "decorations.minimize"@.len());
    assert("decorations.resizable"@ != "decorations.minimize"@);
    assert("decorations.resizable"@.len() != "maximize"@.len());
    assert("decorations.resizable"@ != "maximize"@);
    assert("decorations.resizable"@.len() != "decorations.maximize"@.len());
    assert("decorations.resizable"@ != "decorations.maximize"@);
    assert("decorations.resizable"@.len() != "resizable"@.len());
    assert("decorations.resizable"@ != "resizable"@);
}

proof fn lemma_key_always_on_top()
    ensures
        crate::server::window_key_of("always-on-top"@) == crate::server::WindowKey::AlwaysOnTop,
{
    reveal_strlit("name");
    reveal_strlit("caption");
    reveal_strlit("title-twemoji");
    reveal_strlit("title-icon");
    reveal_strlit("twemoji");
    reveal_strlit("x");
    reveal_strlit("geometry.x");
    reveal_strlit("y");
    reveal_strlit("geometry.y");
    reveal_strlit("w");
    reveal_strlit("width");
    reveal_strlit("geometry.w");
    reveal_strlit("geometry.width");
    reveal_strlit("h");
    reveal_strlit("height");
    reveal_strlit("geometry.h");
    reveal_strlit("geometry.height");
    reveal_strlit("titlebar");
    reveal_strlit("decorations.titlebar");
    reveal_strlit("close");
    reveal_strlit("decorations.close");
    reveal_strlit("minimize");
    reveal_strlit("decorations.minimize");
    reveal_strlit("maximize");
    reveal_strlit("decorations.maximize");
    reveal_strlit("resizable");
    reveal_strlit("decorations.resizable");
    reveal_strlit("always-on-top");
    assert("always-on-top"@.len() != "name"@.len());
    assert("always-on-top"@ != "name"@);
    assert("always-on-top"@.len() != "caption"@.len());
    assert("always-on-top"@ != "caption"@);
    assert("always-on-top"@[0] != "title-twemoji"@[0]);
    assert("always-on-top"@ != "title-twemoji"@);
    assert("always-on-top"@.len() != "title-icon"@.len());
    assert("always-on-top"@ != "title-icon"@);
    assert("always-on-top"@.len() != "twemoji"@.len());
    assert("always-on-top"@ != "twemoji"@);
    assert("always-on-top"@.len() != "x"@.len());
    assert("always-on-top"@ != "x"@);
    assert("always-on-top"@.len() != "geometry.x"@.len());
    assert("always-on-top"@ != "geometry.x"@);
    assert("always-on-top"@.len() != "y"@.len());
    assert("always-on-top"@ != "y"@);
    assert("always-on-top"@.len() != "geometry.y"@.len());
    assert("always-on-top"@ != "geometry.y"@);
    assert("always-on-top"@.len() != "w"@.len());
    assert("always-on-top"@ != "w"@);
    assert("always-on-top"@.len() != "width"@.len());
    assert("always-on-top"@ != "width"@);
    assert("always-on-top"@.len() != "geometry.w"@.len());
    assert("always-on-top"@ != "geometry.w"@);
    assert("always-on-top"@.len() != "geometry.width"@.len());
    assert("always-on-top"@ != "geometry.width"@);
    assert("always-on-top"@.len() != "h"@.len());
    assert("always-on-top"@ != "h"@);
    assert("always-on-top"@.len() != "height"@.len());
    assert("always-on-top"@ != "height"@);
    assert("always-on-top"@.len() != "geometry.h"@.len());
    assert("always-on-top"@ != "geometry.h"@);
    assert("always-on-top"@.len() != "geometry.height"@.len());
    assert("always-on-top"@ != "geometry.height"@);
    assert("always-on-top"@.len() != "titlebar"@.len());
    assert("always-on-top"@ != "titlebar"@);
    assert("always-on-top"@.len() != "decorations.titlebar"@.len());
    assert("always-on-top"@ != "decorations.titlebar"@);
    assert("always-on-top"@.len() != "close"@.len());
    assert("always-on-top"@ != "close"@);
    assert("always-on-top"@.len() != "decorations.close"@.len());
    assert("always-on-top"@ != "decorations.close"@);
    assert("always-on-top"@.len() != "minimize"@.len());
    assert("always-on-top"@ != "minimize"@);
    assert("always-on-top"@.len() != "decorations.minimize"@.len());
    assert("always-on-top"@ != "decorations.minimize"@);
    assert("always-on-top"@.len() != "maximize"@.len());
    assert("always-on-top"@ != "maximize"@);
    assert("always-on-top"@.len() != "decorations.maximize"@.len());
    assert("always-on-top"@ != "decorations.maximize"@);
    assert("always-on-top"@.len() != "resizable"@.len());
    assert("always-on-top"@ != "resizable"@);
    assert("always-on-top"@.len() != "decorations.resizable"@.len());
    assert("always-on-top"@ != "decorations.resizable"@);
}

proof fn lemma_key_decorations_always_on_top()
    ensures
        crate::server::window_key_of("decorations.always-on-top"@) == crate::server::WindowKey::AlwaysOnTop,
{
    reveal_strlit("name");
    reveal_strlit("caption");
    reveal_strlit("title-twemoji");
    reveal_strlit("title-icon");
    reveal_strlit("twemoji");
    reveal_strlit("x");
    reveal_strlit("geometry.x");
    reveal_strlit("y");
    reveal_strlit("geometry.y");
    reveal_strlit("w");
    reveal_strlit("width");
    reveal_strlit("geometry.w");
    reveal_strlit("geometry.width");
    reveal_strlit("h");
    reveal_strlit("height");
    reveal_strlit("geometry.h");
    reveal_strlit("geometry.height");
    reveal_strlit("titlebar");
    reveal_strlit("decorations.titlebar");
    reveal_strlit("close");
    reveal_strlit("decorations.close");
    reveal_strlit("minimize");
    reveal_strlit("decorations.minimize");
    reveal_strlit("maximize");
    reveal_strlit("decorations.maximize");
    reveal_strlit("resizable");
    reveal_strlit("decorations.resizable");
    reveal_strlit("always-on-top");
    reveal_strlit("decorations.always-on-top");
    assert("decorations.always-on-top"@.len() != "name"@.len());
    assert("decorations.always-on-top"@ != "name"@);
    assert("decorations.always-on-top"@.len() != "caption"@.len());
    assert("decorations.always-on-top"@ != "caption"@);
    assert("decorations.always-on-top"@.len() != "title-twemoji"@.len());
    assert("decorations.always-on-top"@ != "title-twemoji"@);
    assert("decorations.always-on-top"@.len() != "title-icon"@.len());
    assert("decorations.always-on-top"@ != "title-icon"@);
    assert("decorations.always-on-top"@.len() != "twemoji"@.len());
    assert("decorations.always-on-top"@ != "twemoji"@);
    assert("decorations.always-on-top"@.len() != "x"@.len());
    assert("decorations.always-on-top"@ != "x"@);
    assert("decorations.always-on-top"@.len() != "geometry.x"@.len());
    assert("decorations.always-on-top"@ != "geometry.x"@);
    assert("decorations.always-on-top"@.len() != "y"@.len());
    assert("decorations.always-on-top"@ != "y"@);
    assert("decorations.always-on-top"@.len() != "geometry.y"@.len());
    assert("decorations.always-on-top"@ != "geometry.y"@);
    assert("decorations.always-on-top"@.len() != "w"@.len());
    assert("decorations.always-on-top"@ != "w"@);
    assert("decorations.always-on-top"@.len() != "width"@.len());
    assert("decorations.always-on-top"@ != "width"@);
    assert("decorations.always-on-top"@.len() != "geometry.w"@.len());
    assert("decorations.always-on-top"@ != "geometry.w"@);
    assert("decorations.always-on-top"@.len() != "geometry.width"@.len());
    assert("decorations.always-on-top"@ != "geometry.width"@);
    assert("decorations.always-on-top"@.len() != "h"@.len());
    assert("decorations.always-on-top"@ != "h"@);
    assert("decorations.always-on-top"@.len() != "height"@.len());
    assert("decorations.always-on-top"@ != "height"@);
    assert("decorations.always-on-top"@.len() != "geometry.h"@.len());
    assert("decorations.always-on-top"@ != "geometry.h"@);
    assert("decorations.always-on-top"@.len() != "geometry.height"@.len());
    assert("decorations.always-on-top"@ != "geometry.height"@);
    assert("decorations.always-on-top"@.len() != "titlebar"@.len());
    assert("decorations.always-on-top"@ != "titlebar"@);
    assert("decorations.always-on-top"@.len() != "decorations.titlebar"@.len());
    assert("decorations.always-on-top"@ != "decorations.titlebar"@);
    assert("decorations.always-on-top"@.len() != "close"@.len());
    assert("decorations.always-on-top"@ != "close"@);
    assert("decorations.always-on-top"@.len() != "decorations.close"@.len());
    assert("decorations.always-on-top"@ != "decorations.close"@);
    assert("decorations.always-on-top"@.len() != "minimize"@.len());
    assert("decorations.always-on-top"@ != "minimize"@);
    assert("decorations.always-on-top"@.len() != "decorations.minimize"@.len());
    assert("decorations.always-on-top"@ != "decorations.minimize"@);
    assert("decorations.always-on-top"@.len() != "maximize"@.len());
    assert("decorations.always-on-top"@ != "maximize"@);
    assert("decorations.always-on-top"@.len() != "decorations.maximize"@.len());
    assert("decorations.always-on-top"@ != "decorations.maximize"@);
    assert("decorations.always-on-top"@.len() != "resizable"@.len());
    assert("decorations.always-on-top"@ != "resizable"@);
    assert("decorations.always-on-top"@.len() != "decorations.resizable"@.len());
    assert("decorations.always-on-top"@ != "decorations.resizable"@);
    assert("decorations.always-on-top"@.len() != "always-on-top"@.len());
    assert("decorations.always-on-top"@ != "always-on-top"@);
}

proof fn lemma_key_name()
    ensures
        crate::server::window_key_of("name"@) == crate::server::WindowKey::Name,
{
    reveal_strlit("name");
}

proof fn lemma_key_caption()
    ensures
        crate::server::window_key_of("caption"@) == crate::server::WindowKey::Caption,
{
    reveal_strlit("name");
    reveal_strlit("caption");
    assert("caption"@.len() != "name"@.len());
    assert("caption"@ != "name"@);
}

proof fn lemma_key_title_twemoji()
    ensures
        crate::server::window_key_of("title-twemoji"@) == crate::server::WindowKey::TitleIcon,
{
    reveal_strlit("name");
    reveal_strlit("caption");
    reveal_strlit("title-twemoji");
    assert("title-twemoji"@.len() != "name"@.len());
    assert("title-twemoji"@ != "name"@);
    assert("title-twemoji"@.len() != "caption"@.len());
    assert("title-twemoji"@ != "caption"@);
}

proof fn lemma_key_title_icon()
    ensures
        crate::server::window_key_of("title-icon"@) == crate::server::WindowKey::TitleIcon,
{
    reveal_strlit("name");
    reveal_strlit("caption");
    reveal_strlit("title-twemoji");
    reveal_strlit("title-icon");
    assert("title-icon"@.len() != "name"@.len());
    assert("title-icon"@ != "name"@);
    assert("title-icon"@.len() != "caption"@.len());
    assert("title-icon"@ != "caption"@);
    assert("title-icon"@.len() != "title-twemoji"@.len());
    assert("title-icon"@ != "title-twemoji"@);
}

proof fn lemma_key_twemoji()
    ensures
        crate::server::window_key_of("twemoji"@) == crate::server::WindowKey::TitleIcon,
{
    reveal_strlit("name");
    reveal_strlit("caption");
    reveal_strlit("title-twemoji");
    reveal_strlit("title-icon");
    reveal_strlit("twemoji");
    assert("twemoji"@.len() != "name"@.len());
    assert("twemoji"@ != "name"@);
    assert("twemoji"@[0] != "caption"@[0]);
    assert("twemoji"@ != "caption"@);
    assert("twemoji"@.len() != "title-twemoji"@.len());
    assert("twemoji"@ != "title-twemoji"@);
    assert("twemoji"@.len() != "title-icon"@.len());
    assert("twemoji"@ != "title-icon"@);
}

proof fn lemma_key_x()
    ensures
        crate::server::window_key_of("x"@) == crate::server::WindowKey::X,
{
    reveal_strlit("name");
    reveal_strlit("caption");
    reveal_strlit("title-twemoji");
    reveal_strlit("title-icon");
    reveal_strlit("twemoji");
    reveal_strlit("x");
    assert("x"@.len() != "name"@.len());
    assert("x"@ != "name"@);
    assert("x"@.len() != "caption"@.len());
    assert("x"@ != "caption"@);
    assert("x"@.len() != "title-twemoji"@.len());
    assert("x"@ != "title-twemoji"@);
    assert("x"@.len() != "title-icon"@.len());
    assert("x"@ != "title-icon"@);
    assert("x"@.len() != "twemoji"@.len());
    assert("x"@ != "twemoji"@);
}

proof fn lemma_key_geometry_x()
    ensures
        crate::server::window_key_of("geometry.x"@) == crate::server::WindowKey::X,
{
    reveal_strlit("name");
    reveal_strlit("caption");
    reveal_strlit("title-twemoji");
    reveal_strlit("title-icon");
    reveal_strlit("twemoji");
    reveal_strlit("x");
    reveal_strlit("geometry.x");
    assert("geometry.x"@.len() != "name"@.len());
    assert("geometry.x"@ != "name"@);
    assert("geometry.x"@.len() != "caption"@.len());
    assert("geometry.x"@ != "caption"@);
    assert("geometry.x"@.len() != "title-twemoji"@.len());
    assert("geometry.x"@ != "title-twemoji"@);
    assert("geometry.x"@[0] != "title-icon"@[0]);
    assert("geometry.x"@ != "title-icon"@);
    assert("geometry.x"@.len() != "twemoji"@.len());
    assert("geometry.x"@ != "twemoji"@);
    assert("geometry.x"@.len() != "x"@.len());
    assert("geometry.x"@ != "x"@);
}

proof fn lemma_key_y()
    ensures
        crate::server::window_key_of("y"@) == crate::server::WindowKey::Y,
{
    reveal_strlit("name");
    reveal_strlit("caption");
    reveal_strlit("title-twemoji");
    reveal_strlit("title-icon");
    reveal_strlit("twemoji");
    reveal_strlit("x");
    reveal_strlit("geometry.x");
    reveal_strlit("y");
    assert("y"@.len() != "name"@.len());
    assert("y"@ != "name"@);
    assert("y"@.len() != "caption"@.len());
    assert("y"@ != "caption"@);
    assert("y"@.len() != "title-twemoji"@.len());
    assert("y"@ != "title-twemoji"@);
    assert("y"@.len() != "title-icon"@.len());
    assert("y"@ != "title-icon"@);
    assert("y"@.len() != "twemoji"@.len());
    assert("y"@ != "twemoji"@);
    assert("y"@[0] != "x"@[0]);
    assert("y"@ != "x"@);
    assert("y"@.len() != "geometry.x"@.len());
    assert("y"@ != "geometry.x"@);
}

proof fn lemma_key_geometry_y()
    ensures
        crate::server::window_key_of("geometry.y"@) == crate::server::WindowKey::Y,
{
    reveal_strlit("name");
    reveal_strlit("caption");
    reveal_strlit("title-twemoji");
    reveal_strlit("title-icon");
    reveal_strlit("twemoji");
    reveal_strlit("x");
    reveal_strlit("geometry.x");
    reveal_strlit("y");
    reveal_strlit("geometry.y");
    assert("geometry.y"@.len() != "name"@.len());
    assert("geometry.y"@ != "name"@);
    assert("geometry.y"@.len() != "caption"@.len());
    assert("geometry.y"@ != "caption"@);
    assert("geometry.y"@.len() != "title-twemoji"@.len());
    assert("geometry.y"@ != "title-twemoji"@);
    assert("geometry.y"@[0] != "title-icon"@[0]);
    assert("geometry.y"@ != "title-icon"@);
    assert("geometry.y"@.len() != "twemoji"@.len());
    assert("geometry.y"@ != "twemoji"@);
    assert("geometry.y"@.len() != "x"@.len());
    assert("geometry.y"@ != "x"@);
    assert("geometry.y"@[9] != "geometry.x"@[9]);
    assert("geometry.y"@ != "geometry.x"@);
    assert("geometry.y"@.len() != "y"@.len());
    assert("geometry.y"@ != "y"@);
}

proof fn lemma_key_w()
    ensures
        crate::server::window_key_of("w"@) == crate::server::WindowKey::Width,
{
    reveal_strlit("name");
    reveal_strlit("caption");
    reveal_strlit("title-twemoji");
    reveal_strlit("title-icon");
    reveal_strlit("twemoji");
    reveal_strlit("x");
    reveal_strlit("geometry.x");
    reveal_strlit("y");
    reveal_strlit("geometry.y");
    reveal_strlit("w");
    assert("w"@.len() != "name"@.len());
    assert("w"@ != "name"@);
    assert("w"@.len() != "caption"@.len());
    assert("w"@ != "caption"@);
    assert("w"@.len() != "title-twemoji"@.len());
    assert("w"@ != "title-twemoji"@);
    assert("w"@.len() != "title-icon"@.len());
    assert("w"@ != "title-icon"@);
    assert("w"@.len() != "twemoji"@.len());
    assert("w"@ != "twemoji"@);
    assert("w"@[0] != "x"@[0]);
    assert("w"@ != "x"@);
    assert("w"@.len() != "geometry.x"@.len());
    assert("w"@ != "geometry.x"@);
    assert("w"@[0] != "y"@[0]);
    assert("w"@ != "y"@);
    assert("w"@.len() != "geometry.y"@.len());
    assert("w"@ != "geometry.y"@);
}

proof fn lemma_key_width()
    ensures
        crate::server::window_key_of("width"@) == crate::server::WindowKey::Width,
{
    reveal_strlit("name");
    reveal_strlit("caption");
    reveal_strlit("title-twemoji");
    reveal_strlit("title-icon");
    reveal_strlit("twemoji");
    reveal_strlit("x");
    reveal_strlit("geometry.x");
    reveal_strlit("y");
    reveal_strlit("geometry.y");
    reveal_strlit("w");
    reveal_strlit("width");
    assert("width"@.len() != "name"@.len());
    assert("width"@ != "name"@);
    assert("width"@.len() != "caption"@.len());
    assert("width"@ != "caption"@);
    assert("width"@.len() != "title-twemoji"@.len());
    assert("width"@ != "title-twemoji"@);
    assert("width"@.len() != "title-icon"@.len());
    assert("width"@ != "title-icon"@);
    assert("width"@.len() != "twemoji"@.len());
    assert("width"@ != "twemoji"@);
    assert("width"@.len() != "x"@.len());
    assert("width"@ != "x"@);
    assert("width"@.len() != "geometry.x"@.len());
    assert("width"@ != "geometry.x"@);
    assert("width"@.len() != "y"@.len());
    assert("width"@ != "y"@);
    assert("width"@.len() != "geometry.y"@.len());
    assert("width"@ != "geometry.y"@);
    assert("width"@.len() != "w"@.len());
    assert("width"@ != "w"@);
}

proof fn lemma_key_geometry_w()
    ensures
        crate::server::window_key_of("geometry.w"@) == crate::server::WindowKey::Width,
{
    reveal_strlit("name");
    reveal_strlit("caption");
    reveal_strlit("title-twemoji");
    reveal_strlit("title-icon");
    reveal_strlit("twemoji");
    reveal_strlit("x");
    reveal_strlit("geometry.x");
    reveal_strlit("y");
    reveal_strlit("geometry.y");
    reveal_strlit("w");
    reveal_strlit("width");
    reveal_strlit("geometry.w");
    assert("geometry.w"@.len() != "name"@.len());
    assert("geometry.w"@ != "name"@);
    assert("geometry.w"@.len() != "caption"@.len());
    assert("geometry.w"@ != "caption"@);
    assert("geometry.w"@.len() != "title-twemoji"@.len());
    assert("geometry.w"@ != "title-twemoji"@);
    assert("geometry.w"@[0] != "title-icon"@[0]);
    assert("geometry.w"@ != "title-icon"@);
    assert("geometry.w"@.len() != "twemoji"@.len());
    assert("geometry.w"@ != "twemoji"@);
    assert("geometry.w"@.len() != "x"@.len());
    assert("geometry.w"@ != "x"@);
    assert("geometry.w"@[9] != "geometry.x"@[9]);
    assert("geometry.w"@ != "geometry.x"@);
    assert("geometry.w"@.len() != "y"@.len());
    assert("geometry.w"@ != "y"@);
    assert("geometry.w"@[9] != "geometry.y"@[9]);
    assert("geometry.w"@ != "geometry.y"@);
    assert("geometry.w"@.len() != "w"@.len());
    assert("geometry.w"@ != "w"@);
    assert("geometry.w"@.len() != "width"@.len());
    assert("geometry.w"@ != "width"@);
}

proof fn lemma_key_geometry_width()
    ensures
        crate::server::window_key_of("geometry.width"@) == crate::server::WindowKey::Width,
{
    reveal_strlit("name");
    reveal_strlit("caption");
    reveal_strlit("title-twemoji");
    reveal_strlit("title-icon");
    reveal_strlit("twemoji");
    reveal_strlit("x");
    reveal_strlit("geometry.x");
    reveal_strlit("y");
    reveal_strlit("geometry.y");
    reveal_strlit("w");
    reveal_strlit("width");
    reveal_strlit("geometry.w");
    reveal_strlit("geometry.width");
    assert("geometry.width"@.len() != "name"@.len());
    assert("geometry.width"@ != "name"@);
    assert("geometry.width"@.len() != "caption"@.len());
    assert("geometry.width"@ != "caption"@);
    assert("geometry.width"@.len() != "title-twemoji"@.len());
    assert("geometry.width"@ != "title-twemoji"@);
    assert("geometry.width"@.len() != "title-icon"@.len());
    assert("geometry.width"@ != "title-icon"@);
    assert("geometry.width"@.len() != "twemoji"@.len());
    assert("geometry.width"@ != "twemoji"@);
    assert("geometry.width"@.len() != "x"@.len());
    assert("geometry.width"@ != "x"@);
    assert("geometry.width"@.len() != "geometry.x"@.len());
    assert("geometry.width"@ != "geometry.x"@);
    assert("geometry.width"@.len() != "y"@.len());
    assert("geometry.width"@ != "y"@);
    assert("geometry.width"@.len() != "geometry.y"@.len());
    assert("geometry.width"@ != "geometry.y"@);
    assert("geometry.width"@.len() != "w"@.len());
    assert("geometry.width"@ != "w"@);
    assert("geometry.width"@.len() != "width"@.len());
    assert("geometry.width"@ != "width"@);
    assert("geometry.width"@.len() != "geometry.w"@.len());
    assert("geometry.width"@ != "geometry.w"@);
}

proof fn lemma_key_h()
    ensures
        crate::server::window_key_of("h"@) == crate::server::WindowKey::Height,
{
    reveal_strlit("name");
    reveal_strlit("caption");
    reveal_strlit("title-twemoji");
    reveal_strlit("title-icon");
    reveal_strlit("twemoji");
    reveal_strlit("x");
    reveal_strlit("geometry.x");
    reveal_strlit("y");
    reveal_strlit("geometry.y");
    reveal_strlit("w");
    reveal_strlit("width");
    reveal_strlit("geometry.w");
    reveal_strlit("geometry.width");
    reveal_strlit("h");
    assert("h"@.len() != "name"@.len());
    assert("h"@ != "name"@);
    assert("h"@.len() != "caption"@.len());
    assert("h"@ != "caption"@);
    assert("h"@.len() != "title-twemoji"@.len());
    assert("h"@ != "title-twemoji"@);
    assert("h"@.len() != "title-icon"@.len());
    assert("h"@ != "title-icon"@);
    assert("h"@.len() != "twemoji"@.len());
    assert("h"@ != "twemoji"@);
    assert("h"@[0] != "x"@[0]);
    assert("h"@ != "x"@);
    assert("h"@.len() != "geometry.x"@.len());
    assert("h"@ != "geometry.x"@);
    assert("h"@[0] != "y"@[0]);
    assert("h"@ != "y"@);
    assert("h"@.len() != "geometry.y"@.len());
    assert("h"@ != "geometry.y"@);
    assert("h"@[0] != "w"@[0]);
    assert("h"@ != "w"@);
    assert("h"@.len() != "width"@.len());
    assert("h"@ != "width"@);
    assert("h"@.len() != "geometry.w"@.len());
    assert("h"@ != "geometry.w"@);
    assert("h"@.len() != "geometry.width"@.len());
    assert("h"@ != "geometry.width"@);
}

proof fn lemma_key_height()
    ensures
        crate::server::window_key_of("height"@) == crate::server::WindowKey::Height,
{
    reveal_strlit("name");
    reveal_strlit("caption");
    reveal_strlit("title-twemoji");
    reveal_strlit("title-icon");
    reveal_strlit("twemoji");
    reveal_strlit("x");
    reveal_strlit("geometry.x");
    reveal_strlit("y");
    reveal_strlit("geometry.y");
    reveal_strlit("w");
    reveal_strlit("width");
    reveal_strlit("geometry.w");
    reveal_strlit("geometry.width");
    reveal_strlit("h");
    reveal_strlit("height");
    assert("height"@.len() != "name"@.len());
    assert("height"@ != "name"@);
    assert("height"@.len() != "caption"@.len());
    assert("height"@ != "caption"@);
    assert("height"@.len() != "title-twemoji"@.len());
    assert("height"@ != "title-twemoji"@);
    assert("height"@.len() != "title-icon"@.len());
    assert("height"@ != "title-icon"@);
    assert("height"@.len() != "twemoji"@.len());
    assert("height"@ != "twemoji"@);
    assert("height"@.len() != "x"@.len());
    assert("height"@ != "x"@);
    assert("height"@.len() != "geometry.x"@.len());
    assert("height"@ != "geometry.x"@);
    assert("height"@.len() != "y"@.len());
    assert("height"@ != "y"@);
    assert("height"@.len() != "geometry.y"@.len());
    assert("height"@ != "geometry.y"@);
    assert("height"@.len() != "w"@.len());
    assert("height"@ != "w"@);
    assert("height"@.len() != "width"@.len());
    assert("height"@ != "width"@);
    assert("height"@.len() != "geometry.w"@.len());
    assert("height"@ != "geometry.w"@);
    assert("height"@.len() != "geometry.width"@.len());
    assert("height"@ != "geometry.width"@);
    assert("height"@.len() != "h"@.len());
    assert("height"@ != "h"@);
}

proof fn lemma_key_geometry_h()
    ensures
        crate::server::window_key_of("geometry.h"@) == crate::server::WindowKey::Height,
{
    reveal_strlit("name");
    reveal_strlit("caption");
    reveal_strlit("title-twemoji");
    reveal_strlit("title-icon");
    reveal_strlit("twemoji");
    reveal_strlit("x");
    reveal_strlit("geometry.x");
    reveal_strlit("y");
    reveal_strlit("geometry.y");
    reveal_strlit("w");
    reveal_strlit("width");
    reveal_strlit("geometry.w");
    reveal_strlit("geometry.width");
    reveal_strlit("h");
    reveal_strlit("height");
    reveal_strlit("geometry.h");
    assert("geometry.h"@.len() != "name"@.len());
    assert("geometry.h"@ != "name"@);
    assert("geometry.h"@.len() != "caption"@.len());
    assert("geometry.h"@ != "caption"@);
    assert("geometry.h"@.len() != "title-twemoji"@.len());
    assert("geometry.h"@ != "title-twemoji"@);
    assert("geometry.h"@[0] != "title-icon"@[0]);
    assert("geometry.h"@ != "title-icon"@);
    assert("geometry.h"@.len() != "twemoji"@.len());
    assert("geometry.h"@ != "twemoji"@);
    assert("geometry.h"@.len() != "x"@.len());
    assert("geometry.h"@ != "x"@);
    assert("geometry.h"@[9] != "geometry.x"@[9]);
    assert("geometry.h"@ != "geometry.x"@);
    assert("geometry.h"@.len() != "y"@.len());
    assert("geometry.h"@ != "y"@);
    assert("geometry.h"@[9] != "geometry.y"@[9]);
    assert("geometry.h"@ != "geometry.y"@);
    assert("geometry.h"@.len() != "w"@.len());
    assert("geometry.h"@ != "w"@);
    assert("geometry.h"@.len() != "width"@.len());
    assert("geometry.h"@ != "width"@);
    assert("geometry.h"@[9] != "geometry.w"@[9]);
    assert("geometry.h"@ != "geometry.w"@);
    assert("geometry.h"@.len() != "geometry.width"@.len());
    assert("geometry.h"@ != "geometry.width"@);
    assert("geometry.h"@.len() != "h"@.len());
    assert("geometry.h"@ != "h"@);
    assert("geometry.h"@.len() != "height"@.len());
    assert("geometry.h"@ != "height"@);
}

proof fn lemma_key_geometry_height()
    ensures
        crate::server::window_key_of("geometry.height"@) == crate::server::WindowKey::Height,
{
    reveal_strlit("name");
    reveal_strlit("caption");
    reveal_strlit("title-twemoji");
    reveal_strlit("title-icon");
    reveal_strlit("twemoji");
    reveal_strlit("x");
    reveal_strlit("geometry.x");
    reveal_strlit("y");
    reveal_strlit("geometry.y");
    reveal_strlit("w");
    reveal_strlit("width");
    reveal_strlit("geometry.w");
    reveal_strlit("geometry.width");
    reveal_strlit("h");
    reveal_strlit("height");
    reveal_strlit("geometry.h");
    reveal_strlit("geometry.height");
    assert("geometry.height"@.len() != "name"@.len());
    assert("geometry.height"@ != "name"@);
    assert("geometry.height"@.len() != "caption"@.len());
    assert("geometry.height"@ != "caption"@);
    assert("geometry.height"@.len() != "title-twemoji"@.len());
    assert("geometry.height"@ != "title-twemoji"@);
    assert("geometry.height"@.len() != "title-icon"@.len());
    assert("geometry.height"@ != "title-icon"@);
    assert("geometry.height"@.len() != "twemoji"@.len());
    assert("geometry.height"@ != "twemoji"@);
    assert("geometry.height"@.len() != "x"@.len());
    assert("geometry.height"@ != "x"@);
    assert("geometry.height"@.len() != "geometry.x"@.len());
    assert("geometry.height"@ != "geometry.x"@);
    assert("geometry.height"@.len() != "y"@.len());
    assert("geometry.height"@ != "y"@);
    assert("geometry.height"@.len() != "geometry.y"@.len());
    assert("geometry.height"@ != "geometry.y"@);
    assert("geometry.height"@.len() != "w"@.len());
    assert("geometry.height"@ != "w"@);
    assert("geometry.height"@.len() != "width"@.len());
    assert("geometry.height"@ != "width"@);
    assert("geometry.height"@.len() != "geometry.w"@.len());
    assert("geometry.height"@ != "geometry.w"@);
    assert("geometry.height"@.len() != "geometry.width"@.len());
    assert("geometry.height"@ != "geometry.width"@);
    assert("geometry.height"@.len() != "h"@.len());
    assert("geometry.height"@ != "h"@);
    assert("geometry.height"@.len() != "height"@.len());
    assert("geometry.height"@ != "height"@);
    assert("geometry.height"@.len() != "geometry.h"@.len());
    assert("geometry.height"@ != "geometry.h"@);
}

/// The other window keys set their own field and nothing else: the name and
/// caption take the value as it is, the title icon takes it unless it is
/// blank, and `x`, `y`, the width and the height take the number the value
/// is, when it is a number of the field's type.
#[verifier::spinoff_prover]
pub proof fn window_keys_set_their_own_field(w: model::Ui2Window, p: model::Property)
    ensures
        ({
            let k = crate::server::normalized_key(p.key@);
            let g = w.geometry;
            let r = crate::server::applied_property(w, p);
            let sn = text::signed_decimal(p.value@);
            let un = text::unsigned_decimal(p.value@);
            &&& k == "name"@ ==> r == Ok::<model::Ui2Window, Seq<char>>(model::Ui2Window { name: p.value, ..w })
            &&& k == "caption"@ ==> r == Ok::<model::Ui2Window, Seq<char>>(
                model::Ui2Window { caption: p.value, ..w },
            )
            &&& (k == "title-twemoji"@ || k == "title-icon"@ || k == "twemoji"@) ==> r == Ok::<
                model::Ui2Window,
                Seq<char>,
            >(
                model::Ui2Window {
                    title_twemoji: if text::trim_seq(p.value@).len() > 0 {
                        Some(p.value)
                    } else {
                        None
                    },
                    ..w
                },
            )
            &&& (k == "x"@ || k == "geometry.x"@) && sn is Some && i32::MIN <= sn->Some_0 <= i32::MAX ==> r
                == Ok::<model::Ui2Window, Seq<char>>(
                model::Ui2Window { geometry: model::Rect { x: sn->Some_0 as i32, ..g }, ..w },
            )
            &&& (k == "y"@ || k == "geometry.y"@) && sn is Some && i32::MIN <= sn->Some_0 <= i32::MAX ==> r
                == Ok::<model::Ui2Window, Seq<char>>(
                model::Ui2Window { geometry: model::Rect { y: sn->Some_0 as i32, ..g }, ..w },
            )
            &&& (k == "w"@ || k == "width"@ || k == "geometry.w"@ || k == "geometry.width"@) && un is Some && 0 <= un->Some_0 <= u32::MAX ==> r == Ok::<model::Ui2Window, Seq<char>>(
                model::Ui2Window { geometry: model::Rect { w: un->Some_0 as u32, ..g }, ..w },
            )
            &&& (k == "h"@ || k == "height"@ || k == "geometry.h"@ || k == "geometry.height"@) && un is Some && 0 <= un->Some_0 <= u32::MAX ==> r == Ok::<model::Ui2Window, Seq<char>>(
                model::Ui2Window { geometry: model::Rect { h: un->Some_0 as u32, ..g }, ..w },
            )
        }),
{
    lemma_key_name();
    lemma_key_caption();
    lemma_key_title_twemoji();
    lemma_key_title_icon();
    lemma_key_twemoji();
    lemma_key_x();
    lemma_key_geometry_x();
    lemma_key_y();
    lemma_key_geometry_y();
    lemma_key_w();
    lemma_key_width();
    lemma_key_geometry_w();
    lemma_key_geometry_width();
    lemma_key_h();
    lemma_key_height();
    lemma_key_geometry_h();
    lemma_key_geometry_height();
}

/// Window property keys are read without regard to ASCII case and with `_`
/// read as `-`: each character of the key stands, in order, with an
/// underscore as a dash and an ASCII capital as its small letter.
#[verifier::spinoff_prover]
pub proof fn window_keys_ignore_case_and_underscores(k: Seq<char>)
    ensures
        crate::server::normalized_key(k).len() == k.len(),
        forall|i: int|
            0 <= i < k.len() ==> #[trigger] crate::server::normalized_key(k)[i] == if k[i] == '_' {
                '-'
            } else if 'A' <= k[i] <= 'Z' {
                ((k[i] as u32) + 32) as char
            } else {
                k[i]
            },
{
}

/// What each decoration key names.
proof fn use_window_key_facts()
    ensures
        crate::server::window_key_of("titlebar"@) == crate::server::WindowKey::Titlebar,
        crate::server::window_key_of("decorations.titlebar"@) == crate::server::WindowKey::Titlebar,
        crate::server::window_key_of("close"@) == crate::server::WindowKey::Close,
        crate::server::window_key_of("decorations.close"@) == crate::server::WindowKey::Close,
        crate::server::window_key_of("minimize"@) == crate::server::WindowKey::Minimize,
        crate::server::window_key_of("decorations.minimize"@) == crate::server::WindowKey::Minimize,
        crate::server::window_key_of("maximize"@) == crate::server::WindowKey::Maximize,
        crate::server::window_key_of("decorations.maximize"@) == crate::server::WindowKey::Maximize,
        crate::server::window_key_of("resizable"@) == crate::server::WindowKey::Resizable,
        crate::server::window_key_of("decorations.resizable"@) == crate::server::WindowKey::Resizable,
        crate::server::window_key_of("always-on-top"@) == crate::server::WindowKey::AlwaysOnTop,
        crate::server::window_key_of("decorations.always-on-top"@) == crate::server::WindowKey::AlwaysOnTop,
{
    lemma_key_titlebar();
    lemma_key_decorations_titlebar();
    lemma_key_close();
    lemma_key_decorations_close();
    lemma_key_minimize();
    lemma_key_decorations_minimize();
    lemma_key_maximize();
    lemma_key_decorations_maximize();
    lemma_key_resizable();
    lemma_key_decorations_resizable();
    lemma_key_always_on_top();
    lemma_key_decorations_always_on_top();
}


/// A key naming a decoration switch (the switch's name, alone or after
/// `decorations.`, in any ASCII case and with `_` for `-`), given a boolean
/// value, sets that switch to the value and changes nothing else of the
/// window.
#[verifier::spinoff_prover]
pub proof fn decoration_keys_set_their_own_switch(w: model::Ui2Window, p: model::Property, b: bool)
    requires
        crate::server::bool_value(p.value@) == Some(b),
    ensures
        ({
            let k = crate::server::normalized_key(p.key@);
            let d = w.decorations;
            let r = crate::server::applied_property(w, p);
            &&& (k == "titlebar"@ || k == "decorations.titlebar"@) ==> r == Ok::<model::Ui2Window, Seq<char>>(
                with_switch(w, model::WindowDecorations { titlebar: b, ..d }),
            )
            &&& (k == "close"@ || k == "decorations.close"@) ==> r == Ok::<model::Ui2Window, Seq<char>>(
                with_switch(w, model::WindowDecorations { close: b, ..d }),
            )
            &&& (k == "minimize"@ || k == "decorations.minimize"@) ==> r == Ok::<model::Ui2Window, Seq<char>>(
                with_switch(w, model::WindowDecorations { minimize: b, ..d }),
            )
            &&& (k == "maximize"@ || k == "decorations.maximize"@) ==> r == Ok::<model::Ui2Window, Seq<char>>(
                with_switch(w, model::WindowDecorations { maximize: b, ..d }),
            )
            &&& (k == "resizable"@ || k == "decorations.resizable"@) ==> r == Ok::<model::Ui2Window, Seq<char>>(
                with_switch(w, model::WindowDecorations { resizable: b, ..d }),
            )
            &&& (k == "always-on-top"@ || k == "decorations.always-on-top"@) ==> r == Ok::<
                model::Ui2Window,
                Seq<char>,
            >(with_switch(w, model::WindowDecorations { always_on_top: b, ..d }))
        }),
{
    use_window_key_facts();
}




// ---------------------------------------------------------------------------
// Handler stubs
// ---------------------------------------------------------------------------

/// A handler binding as (handler, event, control name).
pub type Binding = (Seq<char>, Seq<char>, Seq<char>);

/// The bindings of one control's events, in order.
pub open spec fn event_bindings(control: Seq<char>, es: Seq<model::EventBinding>) -> Seq<Binding>
    decreases es.len(),
{
    if es.len() == 0 {
        Seq::empty()
    } else {
        event_bindings(control, es.drop_last()).push((es.last().handler@, es.last().event@, control))
    }
}

/// The bindings of the controls' events, control by control.
pub open spec fn control_bindings(cs: Seq<model::Ui2Control>) -> Seq<Binding>
    decreases cs.len(),
{
    if cs.len() == 0 {
        Seq::empty()
    } else {
        control_bindings(cs.drop_last()) + event_bindings(cs.last().name@, cs.last().events@)
    }
}

/// Every handler binding of a project's windows, window by window.
pub open spec fn window_bindings(ws: Seq<model::Ui2Window>) -> Seq<Binding>
    decreases ws.len(),
{
    if ws.len() == 0 {
        Seq::empty()
    } else {
        window_bindings(ws.drop_last()) + control_bindings(ws.last().controls@)
    }
}

/// Whether some binding of `b` is for handler `h`.
pub open spec fn binds(b: Seq<Binding>, h: Seq<char>) -> bool {
    exists|i: int| 0 <= i < b.len() && #[trigger] b[i].0 == h
}

/// The bindings that use a handler for the first time, in order.
pub open spec fn first_uses(b: Seq<Binding>) -> Seq<Binding>
    decreases b.len(),
{
    if b.len() == 0 {
        Seq::empty()
    } else if binds(b.drop_last(), b.last().0) {
        first_uses(b.drop_last())
    } else {
        first_uses(b.drop_last()).push(b.last())
    }
}

/// The stubs for the given bindings, one after another.
pub open spec fn stubs_for(b: Seq<Binding>) -> Seq<char>
    decreases b.len(),
{
    if b.len() == 0 {
        Seq::empty()
    } else {
        stubs_for(b.drop_last()) + templates::stub_text(b.last())
    }
}

pub open spec fn handlers_of(b: Seq<Binding>) -> Set<Seq<char>> {
    Set::new(|h: Seq<char>| binds(b, h))
}

#[verifier::spinoff_prover]
proof fn lemma_binds_push(b: Seq<Binding>, x: Binding, h: Seq<char>)
    ensures
        binds(b.push(x), h) == (binds(b, h) || x.0 == h),
{
    if binds(b, h) {
        let i = choose|i: int| 0 <= i < b.len() && #[trigger] b[i].0 == h;
        assert(b.push(x)[i] == b[i]);
    }
    if x.0 == h {
        assert(b.push(x)[b.len() as int] == x);
    }
    if binds(b.push(x), h) {
        let i = choose|i: int| 0 <= i < b.push(x).len() && #[trigger] b.push(x)[i].0 == h;
        if i < b.len() {
            assert(b.push(x)[i] == b[i]);
        }
    }
}

/// Adding bindings one control at a time: what has been written for the
/// bindings so far, then the control's stubs for handlers not seen yet,
/// is what is written for all of them.
#[verifier::spinoff_prover]
proof fn lemma_event_stubs(prior: Seq<Binding>, control: Seq<char>, es: Seq<model::EventBinding>)
    ensures
        stubs_for(first_uses(prior)) + templates::event_stubs(control, es, handlers_of(prior)).0
            == stubs_for(first_uses(prior + event_bindings(control, es))),
        templates::event_stubs(control, es, handlers_of(prior)).1 == handlers_of(
            prior + event_bindings(control, es),
        ),
    decreases es.len(),
{
    let t = event_bindings(control, es);
    if es.len() == 0 {
        assert(prior + t =~= prior);
        assert(stubs_for(first_uses(prior)) + Seq::<char>::empty() =~= stubs_for(first_uses(prior)));
    } else {
        let d = es.drop_last();
        lemma_event_stubs(prior, control, d);
        let x = (es.last().handler@, es.last().event@, control);
        let before = prior + event_bindings(control, d);
        assert(prior + t =~= before.push(x));
        assert((prior + t).drop_last() =~= before);
        assert((prior + t).last() == x);
        assert forall|h: Seq<char>| binds(before.push(x), h) == (binds(before, h) || x.0 == h) by {
            lemma_binds_push(before, x, h);
        }
        assert(handlers_of(before.push(x)) =~= handlers_of(before).insert(x.0));
        let prev = templates::event_stubs(control, d, handlers_of(prior));
        if !binds(before, x.0) {
            assert(stubs_for(first_uses(before.push(x))) == stubs_for(first_uses(before)) + templates::stub_text(x)) by {
                assert(first_uses(before.push(x)) == first_uses(before).push(x));
                assert(first_uses(before).push(x).drop_last() =~= first_uses(before));
            }
            assert(stubs_for(first_uses(prior)) + (prev.0 + templates::stub_text(x)) =~= (
            stubs_for(first_uses(prior)) + prev.0) + templates::stub_text(x));
        }
    }
}

#[verifier::spinoff_prover]
proof fn lemma_control_stubs(prior: Seq<Binding>, cs: Seq<model::Ui2Control>)
    ensures
        stubs_for(first_uses(prior)) + templates::control_stubs(cs, handlers_of(prior)).0
            == stubs_for(first_uses(prior + control_bindings(cs))),
        templates::control_stubs(cs, handlers_of(prior)).1 == handlers_of(prior + control_bindings(cs)),
    decreases cs.len(),
{
    if cs.len() == 0 {
        assert(prior + control_bindings(cs) =~= prior);
        assert(stubs_for(first_uses(prior)) + Seq::<char>::empty() =~= stubs_for(first_uses(prior)));
    } else {
        let d = cs.drop_last();
        lemma_control_stubs(prior, d);
        let before = prior + control_bindings(d);
        lemma_event_stubs(before, cs.last().name@, cs.last().events@);
        assert(prior + control_bindings(cs) =~= before + event_bindings(cs.last().name@, cs.last().events@));
        let prev = templates::control_stubs(d, handlers_of(prior));
        let next = templates::event_stubs(cs.last().name@, cs.last().events@, prev.1);
        assert(stubs_for(first_uses(prior)) + (prev.0 + next.0) =~= (stubs_for(first_uses(prior))
            + prev.0) + next.0);
    }
}

#[verifier::spinoff_prover]
proof fn lemma_window_stubs(prior: Seq<Binding>, ws: Seq<model::Ui2Window>)
    ensures
        stubs_for(first_uses(prior)) + templates::window_stubs(ws, handlers_of(prior)).0
            == stubs_for(first_uses(prior + window_bindings(ws))),
        templates::window_stubs(ws, handlers_of(prior)).1 == handlers_of(prior + window_bindings(ws)),
    decreases ws.len(),
{
    if ws.len() == 0 {
        assert(prior + window_bindings(ws) =~= prior);
        assert(stubs_for(first_uses(prior)) + Seq::<char>::empty() =~= stubs_for(first_uses(prior)));
    } else {
        let d = ws.drop_last();
        lemma_window_stubs(prior, d);
        let before = prior + window_bindings(d);
        lemma_control_stubs(before, ws.last().controls@);
        assert(prior + window_bindings(ws) =~= before + control_bindings(ws.last().controls@));
        let prev = templates::window_stubs(d, handlers_of(prior));
        let next = templates::control_stubs(ws.last().controls@, prev.1);
        assert(stubs_for(first_uses(prior)) + (prev.0 + next.0) =~= (stubs_for(first_uses(prior))
            + prev.0) + next.0);
    }
}

#[verifier::spinoff_prover]
proof fn lemma_first_uses(b: Seq<Binding>)
    ensures
        forall|i: int, j: int| 0 <= i < j < first_uses(b).len() ==> #[trigger] first_uses(b)[i].0
            != #[trigger] first_uses(b)[j].0,
        forall|h: Seq<char>| #[trigger] binds(first_uses(b), h) == binds(b, h),
    decreases b.len(),
{
    if b.len() > 0 {
        let d = b.drop_last();
        let x = b.last();
        lemma_first_uses(d);
        assert(b =~= d.push(x));
        assert forall|h: Seq<char>| #[trigger] binds(b, h) == (binds(d, h) || x.0 == h) by {
            lemma_binds_push(d, x, h);
        }
        if binds(d, x.0) {
            assert(first_uses(b) == first_uses(d));
        } else {
            let f = first_uses(d);
            assert(first_uses(b) == f.push(x));
            assert forall|h: Seq<char>| #[trigger] binds(f.push(x), h) == (binds(f, h) || x.0 == h) by {
                lemma_binds_push(f, x, h);
            }
            assert forall|i: int, j: int| 0 <= i < j < f.push(x).len() implies #[trigger] f.push(x)[i].0
                != #[trigger] f.push(x)[j].0 by {
                assert(f.push(x)[i] == f[i]);
                if j < f.len() {
                    assert(f.push(x)[j] == f[j]);
                } else {
                    assert(f.push(x)[j] == x);
                    if f[i].0 == x.0 {
                        assert(binds(f, x.0));
                    }
                }
            }
        }
    }
}

/// The generated `events.rs` is the template's text, ended by a newline,
/// then one stub for each handler bound in the project: every handler gets
/// exactly one stub, in the order in which the windows' controls first use
/// it, and no handler that is not bound gets one.
#[verifier::spinoff_prover]
pub proof fn each_handler_gets_one_stub(p: RadsProject, t: TemplateView)
    ensures
        ({
            let b = window_bindings(p.windows@);
            let f = first_uses(b);
            &&& templates::events_rs_text(p, t) == templates::with_newline(
                templates::project_tokens(t.events_rs, p, t.id, t.name, templates::TokenEscape::Rust),
            ) + stubs_for(f)
            &&& forall|i: int, j: int| 0 <= i < j < f.len() ==> #[trigger] f[i].0 != #[trigger] f[j].0
            &&& forall|h: Seq<char>| #[trigger] binds(f, h) == binds(b, h)
        }),
{
    let e = Seq::<Binding>::empty();
    assert(handlers_of(e) =~= Set::<Seq<char>>::empty());
    lemma_window_stubs(e, p.windows@);
    assert(e + window_bindings(p.windows@) =~= window_bindings(p.windows@));
    assert(stubs_for(first_uses(e)) + templates::window_stubs(p.windows@, Set::empty()).0
        =~= templates::window_stubs(p.windows@, Set::empty()).0);
    lemma_first_uses(window_bindings(p.windows@));
}


// ---------------------------------------------------------------------------
// Templates and jobs
// ---------------------------------------------------------------------------

proof fn lemma_find_in(v: Seq<TemplateView>, id: Seq<char>)
    ensures
        (project_templates::find_in(v, id) is Some) == (exists|i: int| 0 <= i < v.len() && #[trigger] v[i].id == id),
        project_templates::find_in(v, id) matches Some(t) ==> t.id == id && exists|i: int|
            0 <= i < v.len() && #[trigger] v[i] == t && forall|j: int| 0 <= j < i ==> v[j].id != id,
    decreases v.len(),
{
    if v.len() > 0 {
        let rest = v.drop_first();
        lemma_find_in(rest, id);
        if v[0].id == id {
            assert(v[0] == v[0]);
        } else {
            if exists|i: int| 0 <= i < v.len() && #[trigger] v[i].id == id {
                let i = choose|i: int| 0 <= i < v.len() && #[trigger] v[i].id == id;
                assert(rest[i - 1] == v[i]);
            }
            if project_templates::find_in(rest, id) is Some {
                let t = project_templates::find_in(rest, id)->0;
                let i = choose|i: int| 0 <= i < rest.len() && #[trigger] rest[i] == t && forall|j: int| 0 <= j < i ==> rest[j].id != id;
                assert(v[i + 1] == t);
                assert forall|j: int| 0 <= j < i + 1 implies v[j].id != id by {
                    if j > 0 {
                        assert(v[j] == rest[j - 1]);
                    }
                }
            }
        }
    }
}

/// A starter is found by an id exactly when one in the catalog has that id,
/// and what is found is the first starter with that id.
pub proof fn starters_are_found_exactly_by_their_ids(id: Seq<char>)
    ensures
        ({
            let c = project_templates::template_catalog();
            &&& (project_templates::find_in(c, id) is Some) == (exists|i: int| 0 <= i < c.len() && #[trigger] c[i].id == id)
            &&& project_templates::find_in(c, id) matches Some(t) ==> t.id == id && exists|i: int|
                0 <= i < c.len() && #[trigger] c[i] == t && forall|j: int| 0 <= j < i ==> c[j].id != id
        }),
{
    lemma_find_in(project_templates::template_catalog(), id);
}

/// Every starter of the catalog is found by its id.
pub proof fn starters_are_found_by_id(i: int)
    requires
        0 <= i < project_templates::template_catalog().len(),
    ensures
        project_templates::find_in(
            project_templates::template_catalog(),
            project_templates::template_catalog()[i].id,
        ) == Some(project_templates::template_catalog()[i]),
{
    reveal_strlit("blank-ui2");
    reveal_strlit("form-app");
    reveal_strlit("canvas-app");
    reveal_strlit("tool-window");
    reveal_strlit("service-app");
    reveal_strlit("shell-app");
    let c = project_templates::template_catalog();
    let id = c[i].id;
    assert(c.drop_first() =~= seq![c[1], c[2], c[3], c[4], c[5]]);
    assert(c.drop_first().drop_first() =~= seq![c[2], c[3], c[4], c[5]]);
    assert(c.drop_first().drop_first().drop_first() =~= seq![c[3], c[4], c[5]]);
    assert(c.drop_first().drop_first().drop_first().drop_first() =~= seq![c[4], c[5]]);
    assert(c.drop_first().drop_first().drop_first().drop_first().drop_first() =~= seq![c[5]]);
    assert(c[0].id != c[1].id && c[0].id != c[2].id && c[0].id != c[3].id && c[0].id != c[4].id && c[0].id != c[5].id) by {
        assert(c[0].id[0] == 'b');
        assert(c[1].id[0] == 'f');
        assert(c[2].id[0] == 'c');
        assert(c[3].id[0] == 't');
        assert(c[4].id.len() == 11 && c[5].id.len() == 9 && c[0].id.len() == 9);
        assert(c[5].id[1] == 'h');
    }
    assert(c[1].id != c[2].id && c[1].id != c[3].id && c[1].id != c[4].id && c[1].id != c[5].id) by {
        assert(c[1].id[0] == 'f');
        assert(c[2].id[0] == 'c');
        assert(c[3].id[0] == 't');
        assert(c[4].id[0] == 's');
        assert(c[5].id[0] == 's');
    }
    assert(c[2].id != c[3].id && c[2].id != c[4].id && c[2].id != c[5].id) by {
        assert(c[2].id[0] == 'c');
        assert(c[3].id[0] == 't');
        assert(c[4].id[0] == 's');
        assert(c[5].id[0] == 's');
    }
    assert(c[3].id != c[4].id && c[3].id != c[5].id) by {
        assert(c[3].id[0] == 't');
        assert(c[4].id[0] == 's');
        assert(c[5].id[0] == 's');
    }
    assert(c[4].id != c[5].id) by {
        assert(c[4].id.len() == 11 && c[5].id.len() == 9);
    }
    reveal_with_fuel(project_templates::find_in, 7);
}

/// Lines of a job in order: every sequence number below the next one to
/// give, each larger than those before it.
pub open spec fn sequenced(j: crate::jobs::JobView, next: u64) -> bool {
    &&& forall|a: int| 0 <= a < j.events.len() ==> (#[trigger] j.events[a]).sequence < next
    &&& forall|a: int, b: int| 0 <= a < b < j.events.len() ==> (#[trigger] j.events[a]).sequence
        < (#[trigger] j.events[b]).sequence
}

/// A new job has no lines, so its lines are in order; noting a line with
/// the next sequence number keeps them in order.
pub proof fn job_lines_stay_in_order(
    j: crate::jobs::JobView,
    status: crate::jobs::JobStatus,
    event: crate::jobs::JobEventType,
    stream: crate::jobs::JobStream,
    stage: Option<crate::jobs::JobStage>,
    stage_status: Option<crate::jobs::JobStatus>,
    line: Seq<char>,
    at: i64,
    next: u64,
)
    requires
        sequenced(j, next),
        next < u64::MAX,
    ensures
        sequenced(
            crate::jobs::noted_job(j, status, event, stream, stage, stage_status, line, at, next),
            (next + 1) as u64,
        ),
        forall|id: u128, kind: (nat, Seq<char>), stages: Seq<crate::jobs::JobStage>, now: i64|
            sequenced(#[trigger] crate::jobs::queued_job(id, kind, stages, now), next),
{
    let n = crate::jobs::noted_job(j, status, event, stream, stage, stage_status, line, at, next);
    assert forall|a: int| 0 <= a < n.events.len() implies (#[trigger] n.events[a]).sequence < (next + 1) as u64 by {
        if a < j.events.len() {
            assert(n.events[a] == j.events[a]);
        }
    }
    assert forall|a: int, b: int| 0 <= a < b < n.events.len() implies (#[trigger] n.events[a]).sequence
        < (#[trigger] n.events[b]).sequence by {
        assert(n.events[a] == j.events[a]);
        if b < j.events.len() {
            assert(n.events[b] == j.events[b]);
        }
    }
}

/// A new job with a fresh id comes first among the recent jobs and is found
/// there by its id; the older jobs follow in their order; the book keeps at
/// most `MAX_RECENT_JOBS` jobs with distinct ids, and when it was full, the
/// oldest job is no longer found.
pub proof fn new_jobs_come_first(jobs: Seq<crate::jobs::JobView>, j: crate::jobs::JobView)
    requires
        crate::jobs::well_formed(jobs),
        crate::jobs::index_of(jobs, j.id) < 0,
    ensures
        ({
            let after = crate::jobs::with_new_job(jobs, j);
            let max = crate::jobs::MAX_RECENT_JOBS as int;
            &&& after[0] == j
            &&& crate::jobs::index_of(after, j.id) == 0
            &&& after.len() == if jobs.len() + 1 > max { max } else { jobs.len() + 1int }
            &&& forall|i: int| 0 <= i < jobs.len() && i + 1 < max ==> #[trigger] after[i + 1] == jobs[i]
            &&& crate::jobs::well_formed(after)
            &&& jobs.len() == max ==> crate::jobs::index_of(after, jobs[max - 1].id) < 0
        }),
{
    let after = crate::jobs::with_new_job(jobs, j);
    let max = crate::jobs::MAX_RECENT_JOBS as int;
    crate::jobs::lemma_index_of(jobs, j.id);
    assert forall|a: int, b: int| 0 <= a < b < after.len() implies after[a].id != after[b].id by {
        if a == 0 {
            assert(after[b] == jobs[b - 1]);
        } else {
            assert(after[a] == jobs[a - 1]);
            assert(after[b] == jobs[b - 1]);
        }
    }
    if jobs.len() == max {
        let gone = jobs[max - 1].id;
        crate::jobs::lemma_index_of(after, gone);
        let k = crate::jobs::index_of(after, gone);
        if k >= 0 {
            if k == 0 {
                assert(after[0].id == j.id);
                assert(jobs[max - 1].id != j.id);
            } else {
                assert(after[k] == jobs[k - 1]);
                assert(k - 1 < max - 1);
            }
        }
    }
}

/// The job a spawn books is found first by its id, with its kind, queued, at
/// no stage yet, with each stage of its pipeline queued in pipeline order, and
/// with one line noted: `queued`, with the status `Queued`.
pub proof fn spawned_jobs_start_queued(
    jobs: Seq<crate::jobs::JobView>,
    id: u128,
    kind: (nat, Seq<char>),
    stages: Seq<crate::jobs::JobStage>,
    now: i64,
    sequence: u64,
)
    requires
        crate::jobs::well_formed(jobs),
        crate::jobs::index_of(jobs, id) < 0,
    ensures
        ({
            let after = crate::jobs::with_new_job(
                jobs,
                crate::jobs::noted_job(
                    crate::jobs::queued_job(id, kind, stages, now),
                    crate::jobs::JobStatus::Queued,
                    crate::jobs::JobEventType::Queued,
                    crate::jobs::JobStream::System,
                    None,
                    None,
                    "queued"@,
                    now,
                    sequence,
                ),
            );
            let j = after[crate::jobs::index_of(after, id)];
            &&& crate::jobs::index_of(after, id) == 0
            &&& j.id == id
            &&& j.kind == kind
            &&& j.status == crate::jobs::JobStatus::Queued
            &&& j.current_stage is None
            &&& j.stages.len() == stages.len()
            &&& forall|i: int| 0 <= i < stages.len() ==> (#[trigger] j.stages[i]).stage == stages[i]
                && j.stages[i].status == crate::jobs::JobStatus::Queued
            &&& j.lines == seq!["queued"@]
            &&& j.events.len() == 1
            &&& j.events[0].line == "queued"@
            &&& j.events[0].status == crate::jobs::JobStatus::Queued
            &&& j.events[0].sequence == sequence
        }),
{
    let n = crate::jobs::noted_job(
        crate::jobs::queued_job(id, kind, stages, now),
        crate::jobs::JobStatus::Queued,
        crate::jobs::JobEventType::Queued,
        crate::jobs::JobStream::System,
        None,
        None,
        "queued"@,
        now,
        sequence,
    );
    new_jobs_come_first(jobs, n);
    assert(n.lines =~= seq!["queued"@]);
}

/// The activity shown is the newest job that is queued or running when there
/// is one, and never a finished job then; only when no job is queued or
/// running is it the newest job, and with no job there is none.
#[verifier::spinoff_prover]
pub proof fn activity_is_the_newest_unfinished_job(jobs: Seq<crate::jobs::JobView>)
    ensures
        (exists|i: int| 0 <= i < jobs.len() && (#[trigger] jobs[i].status == crate::jobs::JobStatus::Queued
            || jobs[i].status == crate::jobs::JobStatus::Running)) ==> exists|i: int|
            {
                &&& 0 <= i < jobs.len()
                &&& crate::jobs::activity_of(jobs) == Some(#[trigger] jobs[i])
                &&& (jobs[i].status == crate::jobs::JobStatus::Queued || jobs[i].status
                    == crate::jobs::JobStatus::Running)
                &&& forall|k: int| 0 <= k < i ==> #[trigger] jobs[k].status != crate::jobs::JobStatus::Queued
                    && jobs[k].status != crate::jobs::JobStatus::Running
            },
        (forall|i: int| 0 <= i < jobs.len() ==> #[trigger] jobs[i].status != crate::jobs::JobStatus::Queued
            && jobs[i].status != crate::jobs::JobStatus::Running) ==> crate::jobs::activity_of(jobs) == if jobs.len() > 0 {
            Some(jobs[0])
        } else {
            None
        },
{
    crate::jobs::lemma_active_index(jobs);
    let a = crate::jobs::active_index(jobs);
    if exists|i: int| 0 <= i < jobs.len() && (#[trigger] jobs[i].status == crate::jobs::JobStatus::Queued
        || jobs[i].status == crate::jobs::JobStatus::Running) {
        let i = choose|i: int| 0 <= i < jobs.len() && (#[trigger] jobs[i].status == crate::jobs::JobStatus::Queued
            || jobs[i].status == crate::jobs::JobStatus::Running);
        assert(crate::jobs::is_active(jobs[i]));
        assert(a >= 0);
        assert(jobs[a] == jobs[a]);
    } else {
        if a >= 0 {
            assert(crate::jobs::is_active(jobs[a]));
            assert(jobs[a].status == crate::jobs::JobStatus::Queued || jobs[a].status == crate::jobs::JobStatus::Running);
        }
    }
}


// ---------------------------------------------------------------------------
// Running a job's pipeline
// ---------------------------------------------------------------------------

/// A run after a sequence of events: where it is, every line noted on the
/// way, in order, and the last thing it asked for.
pub open spec fn run_through(r: RunView, es: Seq<RunEvent>) -> (RunView, Seq<NoteView>, RunAction)
    decreases es.len(),
{
    if es.len() == 0 {
        (r, Seq::empty(), RunAction::Stop)
    } else {
        let prev = run_through(r, es.drop_last());
        let step = pipeline::run_step(prev.0, es.last());
        (RunView { stages: prev.0.stages, phase: step.0 }, prev.1 + step.1, step.2)
    }
}

/// `k` stages passing one after the other.
pub open spec fn passes(k: nat) -> Seq<RunEvent> {
    Seq::new(k, |i: int| RunEvent::StagePassed)
}

/// The lines of the first `k` stages of a pipeline when each passes.
pub open spec fn passed_lines(stages: Seq<JobStage>, k: nat) -> Seq<NoteView>
    decreases k,
{
    if k == 0 {
        Seq::empty()
    } else {
        passed_lines(stages, (k - 1) as nat) + seq![
            pipeline::stage_started_note(stages[k - 1]),
            pipeline::stage_passed_note(stages[k - 1]),
        ]
    }
}

pub open spec fn fresh_run(stages: Seq<JobStage>) -> RunView {
    RunView { stages, phase: RunPhase::Waiting }
}

/// Stages run in pipeline order, each only once the one before it passed:
/// a job that was picked up and saw `k` stages pass is running stage `k`,
/// and has noted `started` and then each passed stage's start and pass.
pub proof fn stages_run_in_order(stages: Seq<JobStage>, k: nat)
    requires
        stages.len() <= usize::MAX,
        k < stages.len(),
    ensures
        ({
            let out = run_through(fresh_run(stages), seq![RunEvent::Begin] + passes(k));
            &&& out.0.stages == stages
            &&& out.0.phase == RunPhase::Running(k as usize)
            &&& out.2 == RunAction::RunStage(stages[k as int])
            &&& out.1 == seq![pipeline::started_note()] + passed_lines(stages, k) + seq![
                pipeline::stage_started_note(stages[k as int]),
            ]
        }),
    decreases k,
{
    let es = seq![RunEvent::Begin] + passes(k);
    let r = fresh_run(stages);
    if k == 0 {
        let e0 = es.drop_last();
        assert(e0 =~= Seq::<RunEvent>::empty());
        assert(es.last() == RunEvent::Begin);
        let prev = run_through(r, e0);
        assert(prev == (r, Seq::<NoteView>::empty(), RunAction::Stop));
        let step = pipeline::run_step(prev.0, es.last());
        assert(step.0 == RunPhase::Running(0));
        let out = run_through(r, es);
        assert(out == (RunView { stages: prev.0.stages, phase: step.0 }, prev.1 + step.1, step.2));
        assert(out.1 =~= seq![pipeline::started_note()] + passed_lines(stages, k) + seq![
            pipeline::stage_started_note(stages[k as int]),
        ]);
    } else {
        stages_run_in_order(stages, (k - 1) as nat);
        let e0 = es.drop_last();
        assert(e0 =~= seq![RunEvent::Begin] + passes((k - 1) as nat));
        assert(es.last() == RunEvent::StagePassed);
        let prev = run_through(r, e0);
        assert(prev.0.phase == RunPhase::Running((k - 1) as usize));
        let step = pipeline::run_step(prev.0, es.last());
        assert(step == pipeline::advance(stages, k - 1));
        let out = run_through(r, es);
        assert(out == (RunView { stages: prev.0.stages, phase: step.0 }, prev.1 + step.1, step.2));
        assert(out.1 =~= seq![pipeline::started_note()] + passed_lines(stages, k) + seq![
            pipeline::stage_started_note(stages[k as int]),
        ]);
    }
}

/// A job whose stages all pass runs each of them, notes `started`, each
/// stage's start and pass, then `finished`, and stops.
pub proof fn passing_runs_finish(stages: Seq<JobStage>)
    requires
        stages.len() <= usize::MAX,
        stages.len() > 0,
    ensures
        ({
            let out = run_through(fresh_run(stages), seq![RunEvent::Begin] + passes(stages.len()));
            &&& out.0.phase == RunPhase::Over
            &&& out.2 == RunAction::Stop
            &&& out.1 == seq![pipeline::started_note()] + passed_lines(stages, stages.len()) + seq![
                pipeline::finished_note(),
            ]
        }),
{
    let n = stages.len();
    let r = fresh_run(stages);
    stages_run_in_order(stages, (n - 1) as nat);
    let es = seq![RunEvent::Begin] + passes(n);
    let e0 = es.drop_last();
    assert(e0 =~= seq![RunEvent::Begin] + passes((n - 1) as nat));
    assert(es.last() == RunEvent::StagePassed);
    let prev = run_through(r, e0);
    let step = pipeline::run_step(prev.0, es.last());
    assert(step == pipeline::advance(stages, n - 1));
    let out = run_through(r, es);
    assert(out == (RunView { stages: prev.0.stages, phase: step.0 }, prev.1 + step.1, step.2));
    assert(out.1 =~= seq![pipeline::started_note()] + passed_lines(stages, n) + seq![
        pipeline::finished_note(),
    ]);
}

/// A failing stage ends the job: after `k` stages passed and stage `k`
/// failed, the failure and `failed: <stage> stage failed: <error>` are the
/// last lines, no further stage runs, and the job is over.
pub proof fn failure_stops_the_job(stages: Seq<JobStage>, k: nat, error: String)
    requires
        stages.len() <= usize::MAX,
        k < stages.len(),
    ensures
        ({
            let out = run_through(
                fresh_run(stages),
                seq![RunEvent::Begin] + passes(k) + seq![RunEvent::StageFailed(error)],
            );
            &&& out.0.phase == RunPhase::Over
            &&& out.2 == RunAction::Stop
            &&& out.1 == seq![pipeline::started_note()] + passed_lines(stages, k) + seq![
                pipeline::stage_started_note(stages[k as int]),
                pipeline::stage_failed_note(stages[k as int], error@),
                pipeline::job_failed_note(stages[k as int], error@),
            ]
        }),
{
    let r = fresh_run(stages);
    stages_run_in_order(stages, k);
    let es = seq![RunEvent::Begin] + passes(k) + seq![RunEvent::StageFailed(error)];
    let e0 = es.drop_last();
    assert(e0 =~= seq![RunEvent::Begin] + passes(k));
    assert(es.last() == RunEvent::StageFailed(error));
    let prev = run_through(r, e0);
    let step = pipeline::run_step(prev.0, es.last());
    let out = run_through(r, es);
    assert(out == (RunView { stages: prev.0.stages, phase: step.0 }, prev.1 + step.1, step.2));
    assert(out.1 =~= seq![pipeline::started_note()] + passed_lines(stages, k) + seq![
        pipeline::stage_started_note(stages[k as int]),
        pipeline::stage_failed_note(stages[k as int], error@),
        pipeline::job_failed_note(stages[k as int], error@),
    ]);
}

proof fn lemma_passed_lines_running(stages: Seq<JobStage>, k: nat)
    requires
        k <= stages.len(),
    ensures
        passed_lines(stages, k).len() == 2 * k,
        forall|i: int| 0 <= i < passed_lines(stages, k).len() ==> (#[trigger] passed_lines(stages, k)[i]).status
            == crate::jobs::JobStatus::Running,
    decreases k,
{
    if k > 0 {
        lemma_passed_lines_running(stages, (k - 1) as nat);
        let prev = passed_lines(stages, (k - 1) as nat);
        assert forall|i: int| 0 <= i < passed_lines(stages, k).len() implies (#[trigger] passed_lines(
            stages,
            k,
        )[i]).status == crate::jobs::JobStatus::Running by {
            if i < prev.len() {
                assert(passed_lines(stages, k)[i] == prev[i]);
            }
        }
    }
}

/// A job goes from running to passed or to failed: every line of a run is
/// noted with the status running, except the last line of a job whose stages
/// all passed, which is passed, and the two lines of a failing stage, which
/// are failed.
pub proof fn job_status_follows_the_flow(stages: Seq<JobStage>, k: nat, error: String)
    requires
        stages.len() <= usize::MAX,
        stages.len() > 0,
        k < stages.len(),
    ensures
        ({
            let ok = run_through(fresh_run(stages), seq![RunEvent::Begin] + passes(stages.len())).1;
            &&& ok.last().status == crate::jobs::JobStatus::Passed
            &&& forall|i: int| 0 <= i < ok.len() - 1 ==> (#[trigger] ok[i]).status
                == crate::jobs::JobStatus::Running
        }),
        ({
            let bad = run_through(
                fresh_run(stages),
                seq![RunEvent::Begin] + passes(k) + seq![RunEvent::StageFailed(error)],
            ).1;
            &&& bad.len() >= 2
            &&& bad[bad.len() - 2].status == crate::jobs::JobStatus::Failed
            &&& bad.last().status == crate::jobs::JobStatus::Failed
            &&& forall|i: int| 0 <= i < bad.len() - 2 ==> (#[trigger] bad[i]).status
                == crate::jobs::JobStatus::Running
        }),
{
    let n = stages.len();
    passing_runs_finish(stages);
    failure_stops_the_job(stages, k, error);
    lemma_passed_lines_running(stages, n);
    lemma_passed_lines_running(stages, k);
    let ok = run_through(fresh_run(stages), seq![RunEvent::Begin] + passes(n)).1;
    let pl = passed_lines(stages, n);
    assert forall|i: int| 0 <= i < ok.len() - 1 implies (#[trigger] ok[i]).status
        == crate::jobs::JobStatus::Running by {
        if i > 0 {
            assert(ok[i] == pl[i - 1]);
        }
    }
    let bad = run_through(
        fresh_run(stages),
        seq![RunEvent::Begin] + passes(k) + seq![RunEvent::StageFailed(error)],
    ).1;
    let pk = passed_lines(stages, k);
    assert forall|i: int| 0 <= i < bad.len() - 2 implies (#[trigger] bad[i]).status
        == crate::jobs::JobStatus::Running by {
        if 0 < i <= pk.len() {
            assert(bad[i] == pk[i - 1]);
        }
    }
}

/// Once a run is over, nothing it is told notes a line or runs a stage.
pub proof fn over_runs_stay_over(r: RunView, e: RunEvent)
    requires
        r.phase == RunPhase::Over,
    ensures
        pipeline::run_step(r, e) == (RunPhase::Over, Seq::<NoteView>::empty(), RunAction::Stop),
{
}

} // verus!
