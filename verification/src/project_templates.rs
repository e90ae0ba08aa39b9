//! The project template catalog: the starters a new project is built from,
//! and the rendering of their placeholders into a concrete project.

use vstd::prelude::*;
use crate::text;
use crate::model::{
    self, AppBlueprint, AppKind, Capability, ControlKind, EventBinding, PackageArtifact,
    PackageBlueprint, Property, RadsProject, Rect, Ui2Control, Ui2Window, ValidProjectName,
    WindowDecorationMode, WindowDecorations,
};
use crate::ui2_options::{
    Ui2HorizontalScrollbarSide, Ui2HtmlCssDescription, Ui2ResizeMode, Ui2ScrollbarMode, Ui2Size,
    Ui2VerticalScrollbarSide, Ui2WindowOptions,
};

verus! {

pub const BLANK_UI2_TEMPLATE_ID: &'static str = "blank-ui2";

pub const FORM_APP_TEMPLATE_ID: &'static str = "form-app";

pub const CANVAS_APP_TEMPLATE_ID: &'static str = "canvas-app";

pub const TOOL_WINDOW_TEMPLATE_ID: &'static str = "tool-window";

pub const SERVICE_APP_TEMPLATE_ID: &'static str = "service-app";

pub const SHELL_APP_TEMPLATE_ID: &'static str = "shell-app";

pub const COMMON_MAIN_RS: &'static str = r#"mod events;
mod ui;

fn main() {
    let windows = ui::create_all_windows();
    if windows.is_empty() {
        v::vshell::line("failed to create UI2 windows");
        return;
    }

    events::wire_main_window();
    v::vshell::line("started {{WINDOW_CAPTION}}");

    let _windows = windows;
}
"#;

pub const BLANK_EVENTS_RS: &'static str = r#"pub fn wire_main_window() {
    v::vshell::line("blank UI2 window ready");
}
"#;

pub const FORM_EVENTS_RS: &'static str = r#"pub fn wire_main_window() {
    v::vshell::line("UI2 event stubs registered");
}
"#;

pub const CANVAS_EVENTS_RS: &'static str = r#"pub fn wire_main_window() {
    v::vshell::line("canvas app event stubs registered");
}
"#;

pub const TOOL_EVENTS_RS: &'static str = r#"pub fn wire_main_window() {
    v::vshell::line("tool window event stubs registered");
}
"#;

pub const NO_UI_HTML: &'static str = "";

pub const NO_UI_CSS: &'static str = "";

pub const SERVICE_MAIN_RS: &'static str = r#"fn main() {
    v::vshell::line("service {{APP_DISPLAY_NAME}} starting");
    v::vshell::line("background service loop is ready to wire to TRUEOS tasks");
}
"#;

pub const SERVICE_EVENTS_RS: &'static str = r#"pub fn register_service_handlers() {
    v::vshell::line("service handlers registered");
}
"#;

pub const SHELL_MAIN_RS: &'static str = r#"fn main() {
    v::vshell::line("{{APP_DISPLAY_NAME}} shell ready");
    v::vshell::line("wire commands here as the shell surface grows");
}
"#;

pub const SHELL_EVENTS_RS: &'static str = r#"pub fn register_shell_commands() {
    v::vshell::line("shell command table registered");
}
"#;

pub const BLANK_HTML: &'static str = r#"<!doctype html>
<html lang="en">
<head>
  <meta charset="utf-8">
  <meta name="viewport" content="width=device-width, initial-scale=1">
  <title>{{APP_DISPLAY_NAME}}</title>
  <link rel="stylesheet" href="styles.css">
</head>
<body>
  <main id="app" data-app-id="{{APP_ID}}" data-template="{{TEMPLATE_ID}}"></main>
</body>
</html>
"#;

pub const BLANK_CSS: &'static str = r#"html,
body {
  margin: 0;
  min-height: 100%;
  font-family: system-ui, sans-serif;
  background: #f7f8fa;
  color: #1e242c;
}

#app {
  min-height: 100vh;
}
"#;

pub const FORM_HTML: &'static str = r#"<!doctype html>
<html lang="en">
<head>
  <meta charset="utf-8">
  <meta name="viewport" content="width=device-width, initial-scale=1">
  <title>{{APP_DISPLAY_NAME}}</title>
  <link rel="stylesheet" href="styles.css">
</head>
<body>
  <main class="form-shell" data-app-id="{{APP_ID}}" data-template="{{TEMPLATE_ID}}">
    <h1>{{APP_DISPLAY_NAME}}</h1>
    <label>
      Input
      <input name="inputText" placeholder="Type here">
    </label>
    <button name="runButton" type="button">Click me</button>
  </main>
</body>
</html>
"#;

pub const FORM_CSS: &'static str = r#"html,
body {
  margin: 0;
  min-height: 100%;
  font-family: system-ui, sans-serif;
  background: #f3f6f8;
  color: #20262e;
}

.form-shell {
  display: grid;
  gap: 16px;
  max-width: 360px;
  padding: 32px;
}

label {
  display: grid;
  gap: 8px;
}

input,
button {
  font: inherit;
}
"#;

pub const CANVAS_HTML: &'static str = r#"<!doctype html>
<html lang="en">
<head>
  <meta charset="utf-8">
  <meta name="viewport" content="width=device-width, initial-scale=1">
  <title>{{APP_DISPLAY_NAME}}</title>
  <link rel="stylesheet" href="styles.css">
</head>
<body>
  <main class="canvas-shell" data-app-id="{{APP_ID}}" data-template="{{TEMPLATE_ID}}">
    <header>
      <h1>{{APP_DISPLAY_NAME}}</h1>
      <button name="clearButton" type="button">Clear</button>
    </header>
    <canvas name="drawingCanvas" width="720" height="420"></canvas>
  </main>
</body>
</html>
"#;

pub const CANVAS_CSS: &'static str = r#"html,
body {
  margin: 0;
  min-height: 100%;
  font-family: system-ui, sans-serif;
  background: #eef2f5;
  color: #17202a;
}

.canvas-shell {
  display: grid;
  gap: 14px;
  padding: 24px;
}

.canvas-shell header {
  align-items: center;
  display: flex;
  justify-content: space-between;
}

canvas {
  background: #ffffff;
  border: 1px solid #9aa8b5;
}
"#;

pub const TOOL_HTML: &'static str = r#"<!doctype html>
<html lang="en">
<head>
  <meta charset="utf-8">
  <meta name="viewport" content="width=device-width, initial-scale=1">
  <title>{{APP_DISPLAY_NAME}}</title>
  <link rel="stylesheet" href="styles.css">
</head>
<body>
  <main class="tool-shell" data-app-id="{{APP_ID}}" data-template="{{TEMPLATE_ID}}">
    <nav aria-label="Tools">
      <button name="newButton" type="button">New</button>
      <button name="runButton" type="button">Run</button>
    </nav>
    <section>
      <h1>{{APP_DISPLAY_NAME}}</h1>
      <ul name="itemList">
        <li>Project</li>
        <li>Assets</li>
        <li>Build</li>
      </ul>
    </section>
  </main>
</body>
</html>
"#;

pub const TOOL_CSS: &'static str = r#"html,
body {
  margin: 0;
  min-height: 100%;
  font-family: system-ui, sans-serif;
  background: #f5f5f2;
  color: #222623;
}

.tool-shell {
  display: grid;
  grid-template-columns: 112px 1fr;
  min-height: 100vh;
}

nav {
  align-content: start;
  background: #2f463d;
  display: grid;
  gap: 8px;
  padding: 12px;
}

section {
  padding: 20px;
}
"#;

pub const DEFAULT_PROJECT_TEMPLATE_ID: &'static str = FORM_APP_TEMPLATE_ID;

// ---------------------------------------------------------------------------
// Types
// ---------------------------------------------------------------------------

#[derive(Debug)]
pub struct ProjectTemplate {
    pub id: &'static str,
    pub name: &'static str,
    pub description: &'static str,
    pub app_kind: AppKind,
    pub initial_html: &'static str,
    pub initial_css: &'static str,
    pub starter_main_rs: &'static str,
    pub starter_events_rs: &'static str,
    pub window: Option<TemplateWindow>,
    pub capabilities: Vec<TemplateCapability>,
}

#[derive(Debug)]
pub struct TemplateWindow {
    pub name: &'static str,
    pub caption: &'static str,
    pub geometry: Rect,
    pub decorations: WindowDecorations,
    pub options: Ui2WindowOptions,
    pub controls: Vec<TemplateControl>,
}

#[derive(Debug)]
pub struct TemplateControl {
    pub kind: ControlKind,
    pub name: &'static str,
    pub caption: &'static str,
    pub geometry: Rect,
    pub properties: Vec<TemplateProperty>,
    pub events: Vec<TemplateEvent>,
}

#[derive(Debug)]
pub struct TemplateProperty {
    pub key: &'static str,
    pub value: &'static str,
}

#[derive(Debug)]
pub struct TemplateEvent {
    pub event: &'static str,
    pub handler: &'static str,
}

#[derive(Debug)]
pub struct TemplateCapability {
    pub key: &'static str,
    pub enabled: bool,
    pub note: &'static str,
}

// ---------------------------------------------------------------------------
// Views
// ---------------------------------------------------------------------------

/// A template control as plain values.
#[verifier::ext_equal]
pub struct TemplateControlView {
    pub kind: ControlKind,
    pub name: Seq<char>,
    pub caption: Seq<char>,
    pub geometry: Rect,
    pub properties: Seq<(Seq<char>, Seq<char>)>,
    pub events: Seq<(Seq<char>, Seq<char>)>,
}

/// A template window as plain values.
#[verifier::ext_equal]
pub struct TemplateWindowView {
    pub name: Seq<char>,
    pub caption: Seq<char>,
    pub geometry: Rect,
    pub decorations: WindowDecorations,
    pub options: Ui2WindowOptions,
    pub controls: Seq<TemplateControlView>,
}

/// A template as plain values.
#[verifier::ext_equal]
pub struct TemplateView {
    pub id: Seq<char>,
    pub name: Seq<char>,
    pub description: Seq<char>,
    pub app_kind: AppKind,
    pub html: Seq<char>,
    pub css: Seq<char>,
    pub main_rs: Seq<char>,
    pub events_rs: Seq<char>,
    pub window: Option<TemplateWindowView>,
    pub capabilities: Seq<(Seq<char>, bool, Seq<char>)>,
}

impl View for TemplateProperty {
    type V = (Seq<char>, Seq<char>);

    open spec fn view(&self) -> (Seq<char>, Seq<char>) {
        (self.key@, self.value@)
    }
}

impl View for TemplateEvent {
    type V = (Seq<char>, Seq<char>);

    open spec fn view(&self) -> (Seq<char>, Seq<char>) {
        (self.event@, self.handler@)
    }
}

impl View for TemplateCapability {
    type V = (Seq<char>, bool, Seq<char>);

    open spec fn view(&self) -> (Seq<char>, bool, Seq<char>) {
        (self.key@, self.enabled, self.note@)
    }
}

pub open spec fn template_properties_view(v: Seq<TemplateProperty>) -> Seq<(Seq<char>, Seq<char>)> {
    v.map_values(|p: TemplateProperty| p@)
}

pub open spec fn template_events_view(v: Seq<TemplateEvent>) -> Seq<(Seq<char>, Seq<char>)> {
    v.map_values(|e: TemplateEvent| e@)
}

pub open spec fn template_capabilities_view(v: Seq<TemplateCapability>) -> Seq<
    (Seq<char>, bool, Seq<char>),
> {
    v.map_values(|c: TemplateCapability| c@)
}

impl View for TemplateControl {
    type V = TemplateControlView;

    open spec fn view(&self) -> TemplateControlView {
        TemplateControlView {
            kind: self.kind,
            name: self.name@,
            caption: self.caption@,
            geometry: self.geometry,
            properties: template_properties_view(self.properties@),
            events: template_events_view(self.events@),
        }
    }
}

pub open spec fn template_controls_view(v: Seq<TemplateControl>) -> Seq<TemplateControlView> {
    v.map_values(|c: TemplateControl| c@)
}

impl View for TemplateWindow {
    type V = TemplateWindowView;

    open spec fn view(&self) -> TemplateWindowView {
        TemplateWindowView {
            name: self.name@,
            caption: self.caption@,
            geometry: self.geometry,
            decorations: self.decorations,
            options: self.options,
            controls: template_controls_view(self.controls@),
        }
    }
}

impl View for ProjectTemplate {
    type V = TemplateView;

    open spec fn view(&self) -> TemplateView {
        TemplateView {
            id: self.id@,
            name: self.name@,
            description: self.description@,
            app_kind: self.app_kind,
            html: self.initial_html@,
            css: self.initial_css@,
            main_rs: self.starter_main_rs@,
            events_rs: self.starter_events_rs@,
            window: match self.window {
                Some(w) => Some(w@),
                None => None,
            },
            capabilities: template_capabilities_view(self.capabilities@),
        }
    }
}

// ---------------------------------------------------------------------------
// The catalog
// ---------------------------------------------------------------------------

/// The switches for user files and outbound network, present and off in
/// every starter.
pub open spec fn optional_capabilities() -> Seq<(Seq<char>, bool, Seq<char>)> {
    seq![
        ("fs.user"@, false, "Read and write user-selected files"@),
        ("net.client"@, false, "Open outbound network connections"@),
    ]
}

/// A starter control with no events of its own.
pub open spec fn control_view(
    kind: ControlKind,
    name: Seq<char>,
    caption: Seq<char>,
    geometry: Rect,
    properties: Seq<(Seq<char>, Seq<char>)>,
) -> TemplateControlView {
    TemplateControlView { kind, name, caption, geometry, properties, events: seq![] }
}

/// The main window every UI2 starter has: named `MainWindow`, titled with the
/// app's display name.
pub open spec fn main_window_view(
    geometry: Rect,
    decorations: WindowDecorations,
    options: Ui2WindowOptions,
    controls: Seq<TemplateControlView>,
) -> TemplateWindowView {
    TemplateWindowView {
        name: "MainWindow"@,
        caption: "{{APP_DISPLAY_NAME}}"@,
        geometry,
        decorations,
        options,
        controls,
    }
}

/// Window options of a freely resizable starter window with no scrollbars.
pub open spec fn resizable_options(min_size: Ui2Size, preserve_scale: bool) -> Ui2WindowOptions {
    Ui2WindowOptions {
        min_size,
        max_size: None,
        resize_mode: Ui2ResizeMode::Both,
        scrollbars: Ui2ScrollbarMode::Off,
        vertical_scrollbar_side: Ui2VerticalScrollbarSide::Left,
        horizontal_scrollbar_side: Ui2HorizontalScrollbarSide::Bottom,
        hit_test_visible: true,
        preserve_scale,
    }
}

/// The decorations of the tool window: no minimise, restore or maximise, not
/// resizable, always on top.
pub open spec fn tool_decorations() -> WindowDecorations {
    WindowDecorations {
        minimize: false,
        restore: false,
        maximize: false,
        resizable: false,
        resize_button: false,
        always_on_top: true,
        ..model::default_decorations()
    }
}

/// The options of the tool window: fixed at 560x360, scrollbars when needed.
pub open spec fn tool_options() -> Ui2WindowOptions {
    Ui2WindowOptions {
        min_size: Ui2Size { width: 560, height: 360 },
        max_size: Some(Ui2Size { width: 560, height: 360 }),
        resize_mode: Ui2ResizeMode::Fixed,
        scrollbars: Ui2ScrollbarMode::Auto,
        vertical_scrollbar_side: Ui2VerticalScrollbarSide::Left,
        horizontal_scrollbar_side: Ui2HorizontalScrollbarSide::Bottom,
        hit_test_visible: true,
        preserve_scale: false,
    }
}

pub open spec fn blank_ui2_view() -> TemplateView {
    TemplateView {
        id: BLANK_UI2_TEMPLATE_ID@,
        name: "Blank UI2"@,
        description: "An empty UI2 window with starter markup and styling."@,
        app_kind: AppKind::Ui2,
        html: BLANK_HTML@,
        css: BLANK_CSS@,
        main_rs: COMMON_MAIN_RS@,
        events_rs: BLANK_EVENTS_RS@,
        window: Some(
            main_window_view(
                Rect { x: 80, y: 80, w: 640, h: 420 },
                model::default_decorations(),
                resizable_options(Ui2Size { width: 320, height: 240 }, false),
                seq![],
            ),
        ),
        capabilities: seq![
            ("ui2.window"@, true, "Create and manage a UI2 window"@),
            ("ui2.events"@, false, "No starter controls require generated event handlers"@),
        ] + optional_capabilities(),
    }
}

pub open spec fn form_app_view() -> TemplateView {
    TemplateView {
        id: FORM_APP_TEMPLATE_ID@,
        name: "Form App"@,
        description: "A small event-driven form with a label, button, and text input."@,
        app_kind: AppKind::Ui2,
        html: FORM_HTML@,
        css: FORM_CSS@,
        main_rs: COMMON_MAIN_RS@,
        events_rs: FORM_EVENTS_RS@,
        window: Some(
            main_window_view(
                Rect { x: 80, y: 80, w: 720, h: 460 },
                model::default_decorations(),
                resizable_options(Ui2Size { width: 320, height: 240 }, false),
                seq![
                    control_view(
                        ControlKind::Label,
                        "titleLabel"@,
                        "TRUEOS UI2 app"@,
                        Rect { x: 32, y: 34, w: 220, h: 28 },
                        seq![],
                    ),
                    control_view(
                        ControlKind::Button,
                        "runButton"@,
                        "Click me"@,
                        Rect { x: 32, y: 86, w: 128, h: 38 },
                        seq![],
                    ),
                    control_view(
                        ControlKind::TextBox,
                        "inputText"@,
                        "Type here"@,
                        Rect { x: 32, y: 144, w: 260, h: 34 },
                        seq![],
                    ),
                ],
            ),
        ),
        capabilities: seq![
            ("ui2.window"@, true, "Create and manage UI2 windows"@),
            ("ui2.events"@, true, "Bind generated UI2 event handlers"@),
        ] + optional_capabilities(),
    }
}

pub open spec fn canvas_app_view() -> TemplateView {
    TemplateView {
        id: CANVAS_APP_TEMPLATE_ID@,
        name: "Canvas App"@,
        description: "A drawing-oriented starter with a large canvas and clear action."@,
        app_kind: AppKind::Ui2,
        html: CANVAS_HTML@,
        css: CANVAS_CSS@,
        main_rs: COMMON_MAIN_RS@,
        events_rs: CANVAS_EVENTS_RS@,
        window: Some(
            main_window_view(
                Rect { x: 60, y: 60, w: 960, h: 640 },
                model::default_decorations(),
                resizable_options(Ui2Size { width: 640, height: 420 }, true),
                seq![
                    control_view(
                        ControlKind::Label,
                        "titleLabel"@,
                        "Canvas workspace"@,
                        Rect { x: 24, y: 24, w: 220, h: 28 },
                        seq![],
                    ),
                    control_view(
                        ControlKind::Button,
                        "clearButton"@,
                        "Clear"@,
                        Rect { x: 812, y: 22, w: 96, h: 34 },
                        seq![("variant"@, "secondary"@)],
                    ),
                    control_view(
                        ControlKind::Canvas,
                        "drawingCanvas"@,
                        ""@,
                        Rect { x: 24, y: 72, w: 884, h: 520 },
                        seq![("surface"@, "software"@), ("background"@, "#ffffff"@)],
                    ),
                ],
            ),
        ),
        capabilities: seq![
            ("ui2.window"@, true, "Create and manage UI2 windows"@),
            ("ui2.events"@, true, "Bind generated UI2 event handlers"@),
            ("ui2.canvas"@, true, "Draw to a UI2 canvas control"@),
        ] + optional_capabilities(),
    }
}

pub open spec fn tool_window_view() -> TemplateView {
    TemplateView {
        id: TOOL_WINDOW_TEMPLATE_ID@,
        name: "Tool Window"@,
        description: "A compact utility window with toolbar, list, and detail panel."@,
        app_kind: AppKind::Ui2,
        html: TOOL_HTML@,
        css: TOOL_CSS@,
        main_rs: COMMON_MAIN_RS@,
        events_rs: TOOL_EVENTS_RS@,
        window: Some(
            main_window_view(
                Rect { x: 120, y: 120, w: 560, h: 360 },
                tool_decorations(),
                tool_options(),
                seq![
                    control_view(
                        ControlKind::Toolbar,
                        "mainToolbar"@,
                        "Tools"@,
                        Rect { x: 0, y: 0, w: 560, h: 38 },
                        seq![("dock"@, "top"@), ("items"@, "New,Run,Settings"@)],
                    ),
                    control_view(
                        ControlKind::Label,
                        "titleLabel"@,
                        "Tool window"@,
                        Rect { x: 20, y: 58, w: 180, h: 24 },
                        seq![],
                    ),
                    control_view(
                        ControlKind::ListBox,
                        "itemList"@,
                        "Items"@,
                        Rect { x: 20, y: 96, w: 180, h: 212 },
                        seq![("items"@, "Project,Assets,Build"@)],
                    ),
                    control_view(
                        ControlKind::Panel,
                        "detailsPanel"@,
                        "Details"@,
                        Rect { x: 224, y: 58, w: 316, h: 250 },
                        seq![],
                    ),
                ],
            ),
        ),
        capabilities: seq![
            ("ui2.window"@, true, "Create and manage a compact UI2 tool window"@),
            ("ui2.events"@, true, "Bind generated UI2 event handlers"@),
            ("ui2.toolbar"@, true, "Use toolbar-style navigation controls"@),
        ] + optional_capabilities(),
    }
}

pub open spec fn service_app_view() -> TemplateView {
    TemplateView {
        id: SERVICE_APP_TEMPLATE_ID@,
        name: "Service App"@,
        description: "A classic background service app with no UI2 window surface."@,
        app_kind: AppKind::Service,
        html: NO_UI_HTML@,
        css: NO_UI_CSS@,
        main_rs: SERVICE_MAIN_RS@,
        events_rs: SERVICE_EVENTS_RS@,
        window: None,
        capabilities: seq![
            ("service.background"@, true, "Run as a classic background service"@),
            ("service.events"@, true, "Register service lifecycle handlers"@),
        ] + optional_capabilities(),
    }
}

pub open spec fn shell_app_view() -> TemplateView {
    TemplateView {
        id: SHELL_APP_TEMPLATE_ID@,
        name: "Shell App"@,
        description: "A command-oriented shell app separated from UI2 window composition."@,
        app_kind: AppKind::Shell,
        html: NO_UI_HTML@,
        css: NO_UI_CSS@,
        main_rs: SHELL_MAIN_RS@,
        events_rs: SHELL_EVENTS_RS@,
        window: None,
        capabilities: seq![
            ("shell.commands"@, true, "Expose command-oriented shell entry points"@),
            ("shell.streams"@, true, "Write text streams through TRUEOS shell surfaces"@),
        ] + optional_capabilities(),
    }
}

/// The six starters, in the order the catalog lists them.
pub open spec fn template_catalog() -> Seq<TemplateView> {
    seq![
        blank_ui2_view(),
        form_app_view(),
        canvas_app_view(),
        tool_window_view(),
        service_app_view(),
        shell_app_view(),
    ]
}

pub open spec fn templates_view(v: Seq<ProjectTemplate>) -> Seq<TemplateView> {
    v.map_values(|t: ProjectTemplate| t@)
}

/// The first template of `v` with the given id.
pub open spec fn find_in(v: Seq<TemplateView>, id: Seq<char>) -> Option<TemplateView>
    decreases v.len(),
{
    if v.len() == 0 {
        None
    } else if v[0].id == id {
        Some(v[0])
    } else {
        find_in(v.drop_first(), id)
    }
}

/// The starter for each kind of app: the form app for UI2, and the service
/// and shell starters for the other two.
pub open spec fn default_view_for_kind(k: AppKind) -> TemplateView {
    match k {
        AppKind::Ui2 => form_app_view(),
        AppKind::Service => service_app_view(),
        AppKind::Shell => shell_app_view(),
    }
}

fn push_optional_capabilities(v: &mut Vec<TemplateCapability>)
    ensures
        template_capabilities_view(final(v)@) == template_capabilities_view(old(v)@)
            + optional_capabilities(),
{
    let ghost before = template_capabilities_view(v@);
    v.push(
        TemplateCapability {
            key: "fs.user",
            enabled: false,
            note: "Read and write user-selected files",
        },
    );
    v.push(
        TemplateCapability {
            key: "net.client",
            enabled: false,
            note: "Open outbound network connections",
        },
    );
    proof {
        assert(template_capabilities_view(v@) =~= before + optional_capabilities());
    }
}

/// The capabilities given, followed by the two optional ones.
fn capabilities_with(mut v: Vec<TemplateCapability>) -> (r: Vec<TemplateCapability>)
    ensures
        template_capabilities_view(r@) == template_capabilities_view(v@) + optional_capabilities(),
{
    push_optional_capabilities(&mut v);
    v
}

fn template_control(
    kind: ControlKind,
    name: &'static str,
    caption: &'static str,
    geometry: Rect,
    properties: Vec<TemplateProperty>,
) -> (c: TemplateControl)
    ensures
        c@ == control_view(kind, name@, caption@, geometry, template_properties_view(properties@)),
{
    let events: Vec<TemplateEvent> = Vec::new();
    proof {
        assert(template_events_view(events@) =~= Seq::<(Seq<char>, Seq<char>)>::empty());
    }
    TemplateControl { kind, name, caption, geometry, properties, events }
}

fn main_template_window(
    geometry: Rect,
    decorations: WindowDecorations,
    options: Ui2WindowOptions,
    controls: Vec<TemplateControl>,
) -> (w: TemplateWindow)
    ensures
        w@ == main_window_view(geometry, decorations, options, template_controls_view(controls@)),
{
    TemplateWindow {
        name: "MainWindow",
        caption: "{{APP_DISPLAY_NAME}}",
        geometry,
        decorations,
        options,
        controls,
    }
}

fn resizable_window_options(min_width: u32, min_height: u32, preserve_scale: bool) -> (o:
    Ui2WindowOptions)
    ensures
        o == resizable_options(Ui2Size { width: min_width, height: min_height }, preserve_scale),
{
    Ui2WindowOptions {
        min_size: Ui2Size::new(min_width, min_height),
        max_size: None,
        resize_mode: Ui2ResizeMode::Both,
        scrollbars: Ui2ScrollbarMode::Off,
        vertical_scrollbar_side: Ui2VerticalScrollbarSide::Left,
        horizontal_scrollbar_side: Ui2HorizontalScrollbarSide::Bottom,
        hit_test_visible: true,
        preserve_scale,
    }
}

fn no_properties() -> (v: Vec<TemplateProperty>)
    ensures
        template_properties_view(v@) == Seq::<(Seq<char>, Seq<char>)>::empty(),
{
    let v: Vec<TemplateProperty> = Vec::new();
    proof {
        assert(template_properties_view(v@) =~= Seq::<(Seq<char>, Seq<char>)>::empty());
    }
    v
}

fn blank_ui2_template() -> (t: ProjectTemplate)
    ensures
        t@ == blank_ui2_view(),
{
    let controls: Vec<TemplateControl> = Vec::new();
    proof {
        assert(template_controls_view(controls@) =~= Seq::<TemplateControlView>::empty());
    }
    let window = main_template_window(
        Rect { x: 80, y: 80, w: 640, h: 420 },
        WindowDecorations::default(),
        resizable_window_options(320, 240, false),
        controls,
    );
    let caps = vec![
        TemplateCapability {
            key: "ui2.window",
            enabled: true,
            note: "Create and manage a UI2 window",
        },
        TemplateCapability {
            key: "ui2.events",
            enabled: false,
            note: "No starter controls require generated event handlers",
        },
    ];
    proof {
        assert(template_capabilities_view(caps@) =~= seq![
            ("ui2.window"@, true, "Create and manage a UI2 window"@),
            ("ui2.events"@, false, "No starter controls require generated event handlers"@),
        ]);
    }
    let t = ProjectTemplate {
        id: BLANK_UI2_TEMPLATE_ID,
        name: "Blank UI2",
        description: "An empty UI2 window with starter markup and styling.",
        app_kind: AppKind::Ui2,
        initial_html: BLANK_HTML,
        initial_css: BLANK_CSS,
        starter_main_rs: COMMON_MAIN_RS,
        starter_events_rs: BLANK_EVENTS_RS,
        window: Some(window),
        capabilities: capabilities_with(caps),
    };
    proof {
        assert(t@ =~~= blank_ui2_view());
    }
    t
}

fn form_app_template() -> (t: ProjectTemplate)
    ensures
        t@ == form_app_view(),
{
    let controls = vec![
        template_control(
            ControlKind::Label,
            "titleLabel",
            "TRUEOS UI2 app",
            Rect { x: 32, y: 34, w: 220, h: 28 },
            no_properties(),
        ),
        template_control(
            ControlKind::Button,
            "runButton",
            "Click me",
            Rect { x: 32, y: 86, w: 128, h: 38 },
            no_properties(),
        ),
        template_control(
            ControlKind::TextBox,
            "inputText",
            "Type here",
            Rect { x: 32, y: 144, w: 260, h: 34 },
            no_properties(),
        ),
    ];
    let window = main_template_window(
        Rect { x: 80, y: 80, w: 720, h: 460 },
        WindowDecorations::default(),
        resizable_window_options(320, 240, false),
        controls,
    );
    let caps = vec![
        TemplateCapability {
            key: "ui2.window",
            enabled: true,
            note: "Create and manage UI2 windows",
        },
        TemplateCapability {
            key: "ui2.events",
            enabled: true,
            note: "Bind generated UI2 event handlers",
        },
    ];
    proof {
        assert(template_capabilities_view(caps@) =~= seq![
            ("ui2.window"@, true, "Create and manage UI2 windows"@),
            ("ui2.events"@, true, "Bind generated UI2 event handlers"@),
        ]);
    }
    let t = ProjectTemplate {
        id: FORM_APP_TEMPLATE_ID,
        name: "Form App",
        description: "A small event-driven form with a label, button, and text input.",
        app_kind: AppKind::Ui2,
        initial_html: FORM_HTML,
        initial_css: FORM_CSS,
        starter_main_rs: COMMON_MAIN_RS,
        starter_events_rs: FORM_EVENTS_RS,
        window: Some(window),
        capabilities: capabilities_with(caps),
    };
    proof {
        assert(t@ =~~= form_app_view());
    }
    t
}

fn canvas_controls() -> (v: Vec<TemplateControl>)
    ensures
        template_controls_view(v@) == canvas_app_view().window->Some_0.controls,
{
    let clear_properties = vec![TemplateProperty { key: "variant", value: "secondary" }];
    proof {
        assert(template_properties_view(clear_properties@) =~= seq![("variant"@, "secondary"@)]);
    }
    let canvas_properties = vec![
        TemplateProperty { key: "surface", value: "software" },
        TemplateProperty { key: "background", value: "#ffffff" },
    ];
    proof {
        assert(template_properties_view(canvas_properties@) =~= seq![
            ("surface"@, "software"@),
            ("background"@, "#ffffff"@),
        ]);
    }
    let v = vec![
        template_control(
            ControlKind::Label,
            "titleLabel",
            "Canvas workspace",
            Rect { x: 24, y: 24, w: 220, h: 28 },
            no_properties(),
        ),
        template_control(
            ControlKind::Button,
            "clearButton",
            "Clear",
            Rect { x: 812, y: 22, w: 96, h: 34 },
            clear_properties,
        ),
        template_control(
            ControlKind::Canvas,
            "drawingCanvas",
            "",
            Rect { x: 24, y: 72, w: 884, h: 520 },
            canvas_properties,
        ),
    ];
    proof {
        assert(template_controls_view(v@) =~~= canvas_app_view().window->Some_0.controls);
    }
    v
}

fn canvas_app_template() -> (t: ProjectTemplate)
    ensures
        t@ == canvas_app_view(),
{
    let window = main_template_window(
        Rect { x: 60, y: 60, w: 960, h: 640 },
        WindowDecorations::default(),
        resizable_window_options(640, 420, true),
        canvas_controls(),
    );
    let caps = vec![
        TemplateCapability {
            key: "ui2.window",
            enabled: true,
            note: "Create and manage UI2 windows",
        },
        TemplateCapability {
            key: "ui2.events",
            enabled: true,
            note: "Bind generated UI2 event handlers",
        },
        TemplateCapability { key: "ui2.canvas", enabled: true, note: "Draw to a UI2 canvas control" },
    ];
    proof {
        assert(template_capabilities_view(caps@) =~= seq![
            ("ui2.window"@, true, "Create and manage UI2 windows"@),
            ("ui2.events"@, true, "Bind generated UI2 event handlers"@),
            ("ui2.canvas"@, true, "Draw to a UI2 canvas control"@),
        ]);
    }
    let t = ProjectTemplate {
        id: CANVAS_APP_TEMPLATE_ID,
        name: "Canvas App",
        description: "A drawing-oriented starter with a large canvas and clear action.",
        app_kind: AppKind::Ui2,
        initial_html: CANVAS_HTML,
        initial_css: CANVAS_CSS,
        starter_main_rs: COMMON_MAIN_RS,
        starter_events_rs: CANVAS_EVENTS_RS,
        window: Some(window),
        capabilities: capabilities_with(caps),
    };
    proof {
        assert(t@ =~~= canvas_app_view());
    }
    t
}

fn tool_controls() -> (v: Vec<TemplateControl>)
    ensures
        template_controls_view(v@) == tool_window_view().window->Some_0.controls,
{
    let toolbar_properties = vec![
        TemplateProperty { key: "dock", value: "top" },
        TemplateProperty { key: "items", value: "New,Run,Settings" },
    ];
    proof {
        assert(template_properties_view(toolbar_properties@) =~= seq![
            ("dock"@, "top"@),
            ("items"@, "New,Run,Settings"@),
        ]);
    }
    let list_properties = vec![TemplateProperty { key: "items", value: "Project,Assets,Build" }];
    proof {
        assert(template_properties_view(list_properties@) =~= seq![
            ("items"@, "Project,Assets,Build"@),
        ]);
    }
    let v = vec![
        template_control(
            ControlKind::Toolbar,
            "mainToolbar",
            "Tools",
            Rect { x: 0, y: 0, w: 560, h: 38 },
            toolbar_properties,
        ),
        template_control(
            ControlKind::Label,
            "titleLabel",
            "Tool window",
            Rect { x: 20, y: 58, w: 180, h: 24 },
            no_properties(),
        ),
        template_control(
            ControlKind::ListBox,
            "itemList",
            "Items",
            Rect { x: 20, y: 96, w: 180, h: 212 },
            list_properties,
        ),
        template_control(
            ControlKind::Panel,
            "detailsPanel",
            "Details",
            Rect { x: 224, y: 58, w: 316, h: 250 },
            no_properties(),
        ),
    ];
    proof {
        assert(template_controls_view(v@) =~~= tool_window_view().window->Some_0.controls);
    }
    v
}

fn tool_window_template() -> (t: ProjectTemplate)
    ensures
        t@ == tool_window_view(),
{
    let decorations = WindowDecorations {
        mode: WindowDecorationMode::System,
        titlebar: true,
        bottom_bar: true,
        title_icon: true,
        toggle_composition: true,
        fork: true,
        close: true,
        minimize: false,
        restore: false,
        maximize: false,
        preserve_vm: true,
        resizable: false,
        resize_button: false,
        rotate_buttons: false,
        always_on_top: true,
    };
    let options = Ui2WindowOptions {
        min_size: Ui2Size::new(560, 360),
        max_size: Some(Ui2Size::new(560, 360)),
        resize_mode: Ui2ResizeMode::Fixed,
        scrollbars: Ui2ScrollbarMode::Auto,
        vertical_scrollbar_side: Ui2VerticalScrollbarSide::Left,
        horizontal_scrollbar_side: Ui2HorizontalScrollbarSide::Bottom,
        hit_test_visible: true,
        preserve_scale: false,
    };
    let window = main_template_window(
        Rect { x: 120, y: 120, w: 560, h: 360 },
        decorations,
        options,
        tool_controls(),
    );
    let caps = vec![
        TemplateCapability {
            key: "ui2.window",
            enabled: true,
            note: "Create and manage a compact UI2 tool window",
        },
        TemplateCapability {
            key: "ui2.events",
            enabled: true,
            note: "Bind generated UI2 event handlers",
        },
        TemplateCapability {
            key: "ui2.toolbar",
            enabled: true,
            note: "Use toolbar-style navigation controls",
        },
    ];
    proof {
        assert(template_capabilities_view(caps@) =~= seq![
            ("ui2.window"@, true, "Create and manage a compact UI2 tool window"@),
            ("ui2.events"@, true, "Bind generated UI2 event handlers"@),
            ("ui2.toolbar"@, true, "Use toolbar-style navigation controls"@),
        ]);
    }
    let t = ProjectTemplate {
        id: TOOL_WINDOW_TEMPLATE_ID,
        name: "Tool Window",
        description: "A compact utility window with toolbar, list, and detail panel.",
        app_kind: AppKind::Ui2,
        initial_html: TOOL_HTML,
        initial_css: TOOL_CSS,
        starter_main_rs: COMMON_MAIN_RS,
        starter_events_rs: TOOL_EVENTS_RS,
        window: Some(window),
        capabilities: capabilities_with(caps),
    };
    proof {
        assert(t@ =~~= tool_window_view());
    }
    t
}

fn service_app_template() -> (t: ProjectTemplate)
    ensures
        t@ == service_app_view(),
{
    let caps = vec![
        TemplateCapability {
            key: "service.background",
            enabled: true,
            note: "Run as a classic background service",
        },
        TemplateCapability {
            key: "service.events",
            enabled: true,
            note: "Register service lifecycle handlers",
        },
    ];
    proof {
        assert(template_capabilities_view(caps@) =~= seq![
            ("service.background"@, true, "Run as a classic background service"@),
            ("service.events"@, true, "Register service lifecycle handlers"@),
        ]);
    }
    let t = ProjectTemplate {
        id: SERVICE_APP_TEMPLATE_ID,
        name: "Service App",
        description: "A classic background service app with no UI2 window surface.",
        app_kind: AppKind::Service,
        initial_html: NO_UI_HTML,
        initial_css: NO_UI_CSS,
        starter_main_rs: SERVICE_MAIN_RS,
        starter_events_rs: SERVICE_EVENTS_RS,
        window: None,
        capabilities: capabilities_with(caps),
    };
    proof {
        assert(t@ =~~= service_app_view());
    }
    t
}

fn shell_app_template() -> (t: ProjectTemplate)
    ensures
        t@ == shell_app_view(),
{
    let caps = vec![
        TemplateCapability {
            key: "shell.commands",
            enabled: true,
            note: "Expose command-oriented shell entry points",
        },
        TemplateCapability {
            key: "shell.streams",
            enabled: true,
            note: "Write text streams through TRUEOS shell surfaces",
        },
    ];
    proof {
        assert(template_capabilities_view(caps@) =~= seq![
            ("shell.commands"@, true, "Expose command-oriented shell entry points"@),
            ("shell.streams"@, true, "Write text streams through TRUEOS shell surfaces"@),
        ]);
    }
    let t = ProjectTemplate {
        id: SHELL_APP_TEMPLATE_ID,
        name: "Shell App",
        description: "A command-oriented shell app separated from UI2 window composition.",
        app_kind: AppKind::Shell,
        initial_html: NO_UI_HTML,
        initial_css: NO_UI_CSS,
        starter_main_rs: SHELL_MAIN_RS,
        starter_events_rs: SHELL_EVENTS_RS,
        window: None,
        capabilities: capabilities_with(caps),
    };
    proof {
        assert(t@ =~~= shell_app_view());
    }
    t
}

/// Every starter, in catalog order.
pub fn available_project_templates() -> (v: Vec<ProjectTemplate>)
    ensures
        templates_view(v@) == template_catalog(),
{
    let v = vec![
        blank_ui2_template(),
        form_app_template(),
        canvas_app_template(),
        tool_window_template(),
        service_app_template(),
        shell_app_template(),
    ];
    proof {
        assert(templates_view(v@) =~= template_catalog());
    }
    v
}

/// The first starter with the given id, if any.
pub fn find_project_template(id: &str) -> (r: Option<ProjectTemplate>)
    ensures
        match r {
            Some(t) => find_in(template_catalog(), id@) == Some(t@),
            None => find_in(template_catalog(), id@) is None,
        },
{
    let mut all = available_project_templates();
    let ghost catalog = template_catalog();
    let mut i: usize = 0;
    proof {
        assert(catalog.skip(0) =~= catalog);
    }
    while i < all.len()
        invariant
            i <= all.len(),
            all.len() == 6,
            catalog == template_catalog(),
            templates_view(all@) == catalog,
            find_in(catalog, id@) == find_in(catalog.skip(i as int), id@),
        decreases all.len() - i,
    {
        proof {
            assert(catalog.skip(i as int)[0] == all@[i as int]@);
            assert(catalog.skip(i as int).drop_first() =~= catalog.skip(i + 1));
        }
        if text::str_eq(all[i].id, id) {
            let t = all.remove(i);
            return Some(t);
        }
        i += 1;
    }
    None
}

/// The form app starter.
pub fn default_project_template() -> (t: ProjectTemplate)
    ensures
        t@ == form_app_view(),
        t@.id == DEFAULT_PROJECT_TEMPLATE_ID@,
{
    form_app_template()
}

/// The starter a new project of the given kind gets when none is chosen.
pub fn default_project_template_for_kind(app_kind: AppKind) -> (t: ProjectTemplate)
    ensures
        t@ == default_view_for_kind(app_kind),
{
    match app_kind {
        AppKind::Ui2 => form_app_template(),
        AppKind::Service => service_app_template(),
        AppKind::Shell => shell_app_template(),
    }
}

// ---------------------------------------------------------------------------
// Rendering
// ---------------------------------------------------------------------------

/// The HTML escape of one character.
pub open spec fn html_escape_char(c: char) -> Seq<char> {
    if c == '&' {
        "&amp;"@
    } else if c == '<' {
        "&lt;"@
    } else if c == '>' {
        "&gt;"@
    } else if c == '"' {
        "&quot;"@
    } else if c == '\'' {
        "&#039;"@
    } else {
        seq![c]
    }
}

/// `s` with `&`, `<`, `>`, `"` and `'` written as HTML entities.
pub open spec fn html_escaped(s: Seq<char>) -> Seq<char>
    decreases s.len(),
{
    if s.len() == 0 {
        Seq::empty()
    } else {
        html_escaped(s.drop_last()) + html_escape_char(s.last())
    }
}

/// `input` with each placeholder replaced by its value, in this order:
/// display name, app id, project slug, template id, template name.
pub open spec fn rendered(
    input: Seq<char>,
    display: Seq<char>,
    app_id: Seq<char>,
    slug: Seq<char>,
    template_id: Seq<char>,
    template_name: Seq<char>,
) -> Seq<char> {
    text::replace_seq(
        text::replace_seq(
            text::replace_seq(
                text::replace_seq(
                    text::replace_seq(input, "{{APP_DISPLAY_NAME}}"@, display),
                    "{{APP_ID}}"@,
                    app_id,
                ),
                "{{PROJECT_SLUG}}"@,
                slug,
            ),
            "{{TEMPLATE_ID}}"@,
            template_id,
        ),
        "{{TEMPLATE_NAME}}"@,
        template_name,
    )
}

/// The same rendering with every value HTML-escaped first.
pub open spec fn rendered_html(
    input: Seq<char>,
    display: Seq<char>,
    app_id: Seq<char>,
    slug: Seq<char>,
    template_id: Seq<char>,
    template_name: Seq<char>,
) -> Seq<char> {
    rendered(
        input,
        html_escaped(display),
        html_escaped(app_id),
        html_escaped(slug),
        html_escaped(template_id),
        html_escaped(template_name),
    )
}

/// Template text rendered for the project named `display`/`slug`.
pub open spec fn render_for(input: Seq<char>, t: TemplateView, display: Seq<char>, slug: Seq<char>) -> Seq<
    char,
> {
    rendered(input, display, model::app_id_for(slug), slug, t.id, t.name)
}

fn escape_html(input: &str) -> (r: String)
    ensures
        r@ == html_escaped(input@),
{
    let chars = text::chars_of(input);
    let mut out = String::new();
    let mut i: usize = 0;
    while i < chars.len()
        invariant
            i <= chars.len(),
            chars@ == input@,
            out@ == html_escaped(chars@.take(i as int)),
        decreases chars.len() - i,
    {
        let c = chars[i];
        proof {
            assert(chars@.take(i + 1).drop_last() =~= chars@.take(i as int));
        }
        if c == '&' {
            text::push_str(&mut out, "&amp;");
        } else if c == '<' {
            text::push_str(&mut out, "&lt;");
        } else if c == '>' {
            text::push_str(&mut out, "&gt;");
        } else if c == '"' {
            text::push_str(&mut out, "&quot;");
        } else if c == '\'' {
            text::push_str(&mut out, "&#039;");
        } else {
            text::push_char(&mut out, c);
        }
        i += 1;
    }
    proof {
        assert(chars@.take(i as int) =~= chars@);
    }
    out
}

pub(crate) fn render_values(
    input: &str,
    display: &str,
    app_id: &str,
    slug: &str,
    template_id: &str,
    template_name: &str,
) -> (r: String)
    ensures
        r@ == rendered(input@, display@, app_id@, slug@, template_id@, template_name@),
{
    proof {
        reveal_strlit("{{APP_DISPLAY_NAME}}");
        reveal_strlit("{{APP_ID}}");
        reveal_strlit("{{PROJECT_SLUG}}");
        reveal_strlit("{{TEMPLATE_ID}}");
        reveal_strlit("{{TEMPLATE_NAME}}");
    }
    let a = text::replace_str(input, "{{APP_DISPLAY_NAME}}", display);
    let b = text::replace_str(a.as_str(), "{{APP_ID}}", app_id);
    let c = text::replace_str(b.as_str(), "{{PROJECT_SLUG}}", slug);
    let d = text::replace_str(c.as_str(), "{{TEMPLATE_ID}}", template_id);
    text::replace_str(d.as_str(), "{{TEMPLATE_NAME}}", template_name)
}

fn render_template_text(
    input: &str,
    name: &ValidProjectName,
    app_id: &str,
    template: &ProjectTemplate,
) -> (r: String)
    ensures
        r@ == rendered(input@, name.display@, app_id@, name.slug@, template.id@, template.name@),
{
    render_values(input, name.display.as_str(), app_id, name.slug.as_str(), template.id, template.name)
}

fn render_template_html(
    input: &str,
    name: &ValidProjectName,
    app_id: &str,
    template: &ProjectTemplate,
) -> (r: String)
    ensures
        r@ == rendered_html(input@, name.display@, app_id@, name.slug@, template.id@, template.name@),
{
    let display = escape_html(name.display.as_str());
    let app = escape_html(app_id);
    let slug = escape_html(name.slug.as_str());
    let id = escape_html(template.id);
    let title = escape_html(template.name);
    render_values(input, display.as_str(), app.as_str(), slug.as_str(), id.as_str(), title.as_str())
}

// ---------------------------------------------------------------------------
// Building a project
// ---------------------------------------------------------------------------

/// The pairs of a template list with each value rendered for the project.
pub open spec fn rendered_pairs(
    v: Seq<(Seq<char>, Seq<char>)>,
    t: TemplateView,
    display: Seq<char>,
    slug: Seq<char>,
) -> Seq<(Seq<char>, Seq<char>)> {
    v.map_values(|p: (Seq<char>, Seq<char>)| (p.0, render_for(p.1, t, display, slug)))
}

/// The control a template control becomes: a new control of its kind, name,
/// rendered caption and geometry, whose starter properties and events give
/// way to the template's own where it lists any, with values rendered.
pub open spec fn is_template_control(
    c: Ui2Control,
    tc: TemplateControlView,
    t: TemplateView,
    display: Seq<char>,
    slug: Seq<char>,
) -> bool {
    &&& c.kind == tc.kind
    &&& c.name@ == tc.name
    &&& c.caption@ == render_for(tc.caption, t, display, slug)
    &&& c.geometry == tc.geometry
    &&& model::properties_view(c.properties@) == if tc.properties.len() == 0 {
        seq![model::starter_property(tc.kind)]
    } else {
        rendered_pairs(tc.properties, t, display, slug)
    }
    &&& model::events_view(c.events@) == if tc.events.len() == 0 {
        seq![
            (
                model::default_event(tc.kind),
                model::spec_handler_name(tc.name, model::default_event(tc.kind)),
            ),
        ]
    } else {
        rendered_pairs(tc.events, t, display, slug)
    }
}

/// The window a template window becomes: its name, geometry, decorations and
/// options, the rendered caption, the template's HTML and CSS rendered, and
/// each template control built in order.
pub open spec fn is_template_window(
    win: Ui2Window,
    w: TemplateWindowView,
    t: TemplateView,
    display: Seq<char>,
    slug: Seq<char>,
) -> bool {
    &&& win.name@ == w.name
    &&& win.caption@ == render_for(w.caption, t, display, slug)
    &&& win.title_twemoji is None
    &&& win.geometry == w.geometry
    &&& win.decorations == w.decorations
    &&& win.options == w.options
    &&& win.ui_description.html@ == rendered_html(
        t.html,
        display,
        model::app_id_for(slug),
        slug,
        t.id,
        t.name,
    )
    &&& win.ui_description.css@ == render_for(t.css, t, display, slug)
    &&& win.controls@.len() == w.controls.len()
    &&& forall|i: int|
        0 <= i < w.controls.len() ==> #[trigger] is_template_control(
            win.controls@[i],
            w.controls[i],
            t,
            display,
            slug,
        )
}

/// The artifacts a package lists: the app binary, and the layout, markup and
/// stylesheet when the app has a UI2 window.
pub open spec fn package_artifact_views(app_kind: AppKind, has_ui: bool) -> Seq<
    (Seq<char>, Seq<char>, Seq<char>),
> {
    seq![("binary"@, "target/trueos/app.tapp"@, model::app_kind_package_target(app_kind))] + if has_ui {
        seq![
            ("layout"@, "ui/main.ui2"@, "ui2-layout"@),
            ("html"@, "ui/index.html"@, "ui2-markup"@),
            ("stylesheet"@, "ui/styles.css"@, "ui2-style"@),
        ]
    } else {
        Seq::empty()
    }
}

/// Whether a project built from `t` has a UI2 surface.
pub open spec fn template_has_ui(t: TemplateView) -> bool {
    t.app_kind == AppKind::Ui2 && t.window is Some
}

/// The blueprint description of a project built from a template.
pub open spec fn template_description(t: TemplateView, display: Seq<char>) -> Seq<char> {
    display + " generated from the "@ + model::app_kind_label(t.app_kind) + " "@ + t.name
        + " template."@
}

/// The project `build_project` makes of template `t` for a validated name.
pub open spec fn is_template_project(
    p: RadsProject,
    t: TemplateView,
    display: Seq<char>,
    slug: Seq<char>,
    root: Seq<char>,
) -> bool {
    let has_ui = template_has_ui(t);
    let runtime = model::app_kind_runtime(t.app_kind);
    &&& p.name@ == display
    &&& p.slug@ == slug
    &&& p.root@ == root
    &&& p.app_kind == t.app_kind
    &&& model::is_app_identity(p.blueprint, display, slug)
    &&& p.blueprint.ui_layout@ == if has_ui {
        "ui/main.ui2"@
    } else {
        Seq::<char>::empty()
    }
    &&& p.blueprint.description@ == template_description(t, display)
    &&& model::capabilities_view(p.blueprint.capabilities@) == t.capabilities
    &&& model::is_metadata(p.blueprint.metadata, runtime)
    &&& model::is_package_identity(p.package, slug)
    &&& model::artifacts_view(p.package.artifacts@) == package_artifact_views(t.app_kind, has_ui)
    &&& model::is_metadata(p.package.metadata, runtime)
    &&& match t.window {
        None => p.windows@.len() == 0,
        Some(w) => p.windows@.len() == 1 && is_template_window(p.windows@[0], w, t, display, slug),
    }
}

fn package_artifacts(app_kind: AppKind, has_ui: bool) -> (v: Vec<PackageArtifact>)
    ensures
        model::artifacts_view(v@) == package_artifact_views(app_kind, has_ui),
{
    let mut artifacts = vec![
        model::artifact("binary", "target/trueos/app.tapp", app_kind.package_target()),
    ];
    if has_ui {
        artifacts.push(model::artifact("layout", "ui/main.ui2", "ui2-layout"));
        artifacts.push(model::artifact("html", "ui/index.html", "ui2-markup"));
        artifacts.push(model::artifact("stylesheet", "ui/styles.css", "ui2-style"));
    }
    proof {
        assert(model::artifacts_view(artifacts@) =~= package_artifact_views(app_kind, has_ui));
    }
    artifacts
}

impl TemplateCapability {
    fn to_capability(&self) -> (c: Capability)
        ensures
            model::capability_view(c) == self@,
    {
        model::capability(self.key, self.enabled, self.note)
    }
}

impl TemplateControl {
    fn rendered_properties(
        &self,
        name: &ValidProjectName,
        app_id: &str,
        template: &ProjectTemplate,
    ) -> (v: Vec<Property>)
        requires
            app_id@ == model::app_id_for(name.slug@),
        ensures
            model::properties_view(v@) == rendered_pairs(
                template_properties_view(self.properties@),
                template@,
                name.display@,
                name.slug@,
            ),
    {
        let ghost pv = template_properties_view(self.properties@);
        let mut out: Vec<Property> = Vec::new();
        let mut i: usize = 0;
        while i < self.properties.len()
            invariant
                i <= self.properties.len(),
                pv == template_properties_view(self.properties@),
                app_id@ == model::app_id_for(name.slug@),
                out@.len() == i,
                forall|j: int|
                    0 <= j < i ==> #[trigger] model::property_view(out@[j]) == (
                        pv[j].0,
                        render_for(pv[j].1, template@, name.display@, name.slug@),
                    ),
            decreases self.properties.len() - i,
        {
            let p = &self.properties[i];
            let value = render_template_text(p.value, name, app_id, template);
            out.push(Property { key: text::owned(p.key), value });
            i += 1;
        }
        proof {
            assert(model::properties_view(out@) =~= rendered_pairs(
                pv,
                template@,
                name.display@,
                name.slug@,
            ));
        }
        out
    }

    fn rendered_events(
        &self,
        name: &ValidProjectName,
        app_id: &str,
        template: &ProjectTemplate,
    ) -> (v: Vec<EventBinding>)
        requires
            app_id@ == model::app_id_for(name.slug@),
        ensures
            model::events_view(v@) == rendered_pairs(
                template_events_view(self.events@),
                template@,
                name.display@,
                name.slug@,
            ),
    {
        let ghost ev = template_events_view(self.events@);
        let mut out: Vec<EventBinding> = Vec::new();
        let mut i: usize = 0;
        while i < self.events.len()
            invariant
                i <= self.events.len(),
                ev == template_events_view(self.events@),
                app_id@ == model::app_id_for(name.slug@),
                out@.len() == i,
                forall|j: int|
                    0 <= j < i ==> #[trigger] model::event_view(out@[j]) == (
                        ev[j].0,
                        render_for(ev[j].1, template@, name.display@, name.slug@),
                    ),
            decreases self.events.len() - i,
        {
            let e = &self.events[i];
            let handler = render_template_text(e.handler, name, app_id, template);
            out.push(EventBinding { event: text::owned(e.event), handler });
            i += 1;
        }
        proof {
            assert(model::events_view(out@) =~= rendered_pairs(
                ev,
                template@,
                name.display@,
                name.slug@,
            ));
        }
        out
    }

    fn to_control(&self, name: &ValidProjectName, app_id: &str, template: &ProjectTemplate) -> (c:
        Ui2Control)
        requires
            app_id@ == model::app_id_for(name.slug@),
        ensures
            is_template_control(c, self@, template@, name.display@, name.slug@),
    {
        let caption = render_template_text(self.caption, name, app_id, template);
        let mut control = Ui2Control::new(
            self.kind,
            self.name,
            caption.as_str(),
            self.geometry.x,
            self.geometry.y,
            self.geometry.w,
            self.geometry.h,
        );
        if self.properties.len() > 0 {
            control.properties = self.rendered_properties(name, app_id, template);
        }
        if self.events.len() > 0 {
            control.events = self.rendered_events(name, app_id, template);
        }
        control
    }
}

impl ProjectTemplate {
    fn build_controls(
        &self,
        template_window: &TemplateWindow,
        name: &ValidProjectName,
        app_id: &str,
    ) -> (v: Vec<Ui2Control>)
        requires
            app_id@ == model::app_id_for(name.slug@),
        ensures
            v@.len() == template_window.controls@.len(),
            forall|i: int|
                0 <= i < v@.len() ==> #[trigger] is_template_control(
                    v@[i],
                    template_window.controls@[i]@,
                    self@,
                    name.display@,
                    name.slug@,
                ),
    {
        let mut out: Vec<Ui2Control> = Vec::new();
        let mut i: usize = 0;
        while i < template_window.controls.len()
            invariant
                i <= template_window.controls.len(),
                app_id@ == model::app_id_for(name.slug@),
                out@.len() == i,
                forall|j: int|
                    0 <= j < i ==> #[trigger] is_template_control(
                        out@[j],
                        template_window.controls@[j]@,
                        self@,
                        name.display@,
                        name.slug@,
                    ),
            decreases template_window.controls.len() - i,
        {
            let c = template_window.controls[i].to_control(name, app_id, self);
            out.push(c);
            i += 1;
        }
        out
    }

    fn build_window(&self, template_window: &TemplateWindow, name: &ValidProjectName, app_id: &str) -> (w:
        Ui2Window)
        requires
            app_id@ == model::app_id_for(name.slug@),
        ensures
            is_template_window(w, template_window@, self@, name.display@, name.slug@),
    {
        let controls = self.build_controls(template_window, name, app_id);
        let html = render_template_html(self.initial_html, name, app_id, self);
        let css = render_template_text(self.initial_css, name, app_id, self);
        let w = Ui2Window {
            id: model::new_id(),
            name: text::owned(template_window.name),
            caption: render_template_text(template_window.caption, name, app_id, self),
            title_twemoji: None,
            geometry: template_window.geometry,
            decorations: template_window.decorations,
            options: template_window.options,
            ui_description: Ui2HtmlCssDescription { html, css },
            controls,
        };
        proof {
            assert forall|i: int| 0 <= i < template_window@.controls.len() implies #[trigger] is_template_control(
                w.controls@[i],
                template_window@.controls[i],
                self@,
                name.display@,
                name.slug@,
            ) by {
                assert(template_window@.controls[i] == template_window.controls@[i]@);
            }
        }
        w
    }

    fn build_capabilities(&self) -> (v: Vec<Capability>)
        ensures
            model::capabilities_view(v@) == self@.capabilities,
    {
        let mut out: Vec<Capability> = Vec::new();
        let mut i: usize = 0;
        while i < self.capabilities.len()
            invariant
                i <= self.capabilities.len(),
                out@.len() == i,
                forall|j: int|
                    0 <= j < i ==> #[trigger] model::capability_view(out@[j])
                        == self.capabilities@[j]@,
            decreases self.capabilities.len() - i,
        {
            out.push(self.capabilities[i].to_capability());
            i += 1;
        }
        proof {
            assert(model::capabilities_view(out@) =~= self@.capabilities);
        }
        out
    }

    fn build_blueprint(&self, name: &ValidProjectName, app_id: &String, has_ui: bool) -> (b:
        AppBlueprint)
        requires
            app_id@ == model::app_id_for(name.slug@),
        ensures
            model::is_app_identity(b, name.display@, name.slug@),
            b.ui_layout@ == if has_ui {
                "ui/main.ui2"@
            } else {
                Seq::<char>::empty()
            },
            b.description@ == template_description(self@, name.display@),
            model::capabilities_view(b.capabilities@) == self@.capabilities,
            model::is_metadata(b.metadata, model::app_kind_runtime(self.app_kind)),
    {
        let mut description = name.display.clone();
        text::push_str(&mut description, " generated from the ");
        text::push_str(&mut description, self.app_kind.label());
        text::push_str(&mut description, " ");
        text::push_str(&mut description, self.name);
        text::push_str(&mut description, " template.");
        let ui_layout = if has_ui {
            text::owned("ui/main.ui2")
        } else {
            String::new()
        };
        let authors = vec![text::owned("TRUEOS RADS")];
        proof {
            assert(text::strings_view(authors@) =~= seq!["TRUEOS RADS"@]);
            assert(description@ =~= template_description(self@, name.display@));
        }
        AppBlueprint {
            schema: text::owned("trueos.app.blueprint/v1"),
            app_id: app_id.clone(),
            slug: name.slug.clone(),
            display_name: name.display.clone(),
            version: text::owned("0.1.0"),
            entrypoint: text::owned("src/main.rs"),
            ui_layout,
            description,
            license: text::owned("MIT OR Apache-2.0"),
            authors,
            capabilities: self.build_capabilities(),
            metadata: model::metadata_for(self.app_kind.runtime()),
        }
    }

    fn build_package(&self, name: &ValidProjectName, has_ui: bool) -> (p: PackageBlueprint)
        ensures
            model::is_package_identity(p, name.slug@),
            model::artifacts_view(p.artifacts@) == package_artifact_views(self.app_kind, has_ui),
            model::is_metadata(p.metadata, model::app_kind_runtime(self.app_kind)),
    {
        PackageBlueprint {
            schema: text::owned("trueos.package.blueprint/v1"),
            package_id: model::package_id_of(name.slug.as_str()),
            app_id: model::app_id_of(name.slug.as_str()),
            name: name.slug.clone(),
            version: text::owned("0.1.0"),
            entrypoint: text::owned("src/main.rs"),
            artifacts: package_artifacts(self.app_kind, has_ui),
            metadata: model::metadata_for(self.app_kind.runtime()),
        }
    }

    /// A new project for a validated name, laid out as this template says.
    pub fn build_project(&self, name: ValidProjectName, root: &str) -> (p: RadsProject)
        ensures
            is_template_project(p, self@, name.display@, name.slug@, root@),
    {
        let app_id = model::app_id_of(name.slug.as_str());
        let windows: Vec<Ui2Window> = match &self.window {
            Some(w) => vec![self.build_window(w, &name, app_id.as_str())],
            None => Vec::new(),
        };
        let has_ui = self.app_kind.has_ui2() && windows.len() > 0;
        let blueprint = self.build_blueprint(&name, &app_id, has_ui);
        let package = self.build_package(&name, has_ui);
        RadsProject {
            id: model::new_id(),
            root: text::owned(root),
            app_kind: self.app_kind,
            blueprint,
            package,
            name: name.display,
            slug: name.slug,
            windows,
        }
    }
}

} // verus!
