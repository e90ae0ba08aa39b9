use trueos_rads::generator::{
    creation_name, project_dirs, project_files, template_for_id, write_project_files,
    ProjectDocument, ProjectFile,
};
use trueos_rads::model::{
    validate_project_name, AppKind, ControlKind, ProjectNameError, RadsProject, Ui2Window,
};
use trueos_rads::project_templates::{
    available_project_templates, default_project_template, ProjectTemplate, BLANK_UI2_TEMPLATE_ID,
    CANVAS_APP_TEMPLATE_ID, DEFAULT_PROJECT_TEMPLATE_ID, FORM_APP_TEMPLATE_ID,
    SERVICE_APP_TEMPLATE_ID, SHELL_APP_TEMPLATE_ID, TOOL_WINDOW_TEMPLATE_ID,
};

const V_PATH: &str = "/opt/trueos/v";

fn generate(name: &str, template_id: &str) -> (RadsProject, ProjectTemplate, Vec<ProjectFile>) {
    let template = template_for_id(template_id).unwrap();
    let valid = creation_name(name).unwrap();
    let root = format!("/tmp/rads-workspace/{}", valid.slug);
    let project = template.build_project(valid, &root);
    let files = project_files(&project, &template, V_PATH);
    (project, template, files)
}

fn has_path(files: &[ProjectFile], wanted: &str) -> bool {
    files.iter().any(|file| match file {
        ProjectFile::Dir { path } => path == wanted,
        ProjectFile::Json { path, .. } => path == wanted,
        ProjectFile::Text { path, .. } => path == wanted,
    })
}

fn text_of<'a>(files: &'a [ProjectFile], wanted: &str) -> &'a str {
    files
        .iter()
        .find_map(|file| match file {
            ProjectFile::Text { path, contents } if path == wanted => Some(contents.as_str()),
            _ => None,
        })
        .unwrap_or_else(|| panic!("missing generated file: {wanted}"))
}

fn json_document(files: &[ProjectFile], wanted: &str) -> ProjectDocument {
    files
        .iter()
        .find_map(|file| match file {
            ProjectFile::Json { path, document } if path == wanted => Some(*document),
            _ => None,
        })
        .unwrap_or_else(|| panic!("missing generated document: {wanted}"))
}

#[test]
fn validates_project_names_before_generation() {
    assert_eq!(
        validate_project_name("   ").unwrap_err(),
        ProjectNameError::Empty
    );
    assert_eq!(
        validate_project_name("../escape").unwrap_err(),
        ProjectNameError::ContainsPathSeparator
    );
    assert_eq!(
        validate_project_name("!!!").unwrap_err(),
        ProjectNameError::NoSlug
    );
    assert_eq!(
        validate_project_name("con").unwrap_err(),
        ProjectNameError::ReservedName
    );

    let valid = validate_project_name("  Hello, UI2 App!  ").unwrap();
    assert_eq!(valid.display, "Hello, UI2 App!");
    assert_eq!(valid.slug, "hello-ui2-app");
}

#[test]
fn template_catalog_exposes_expected_starters() {
    let templates = available_project_templates();
    let ids = templates
        .iter()
        .map(|template| template.id)
        .collect::<Vec<_>>();

    assert_eq!(
        ids,
        vec![
            BLANK_UI2_TEMPLATE_ID,
            FORM_APP_TEMPLATE_ID,
            CANVAS_APP_TEMPLATE_ID,
            TOOL_WINDOW_TEMPLATE_ID,
            SERVICE_APP_TEMPLATE_ID,
            SHELL_APP_TEMPLATE_ID,
        ]
    );
    assert_eq!(default_project_template().id, DEFAULT_PROJECT_TEMPLATE_ID);

    for template in templates {
        assert!(!template.description.is_empty());
        assert!(template.starter_main_rs.contains("fn main()"));
        assert!(!template.capabilities.is_empty());
        if template.app_kind.has_ui2() {
            assert!(template.initial_html.contains("<!doctype html>"));
            assert!(template.initial_css.contains("body"));
            assert!(template.starter_events_rs.contains("wire_main_window"));
            let window = template.window.as_ref().unwrap();
            assert!(window.geometry.w > 0);
            assert!(window.geometry.h > 0);
        } else {
            assert!(template.window.is_none());
        }
    }
}

#[test]
fn unknown_template_id_reports_available_ids() {
    let err = template_for_id("missing-template").unwrap_err();

    assert!(err.contains("unknown project template 'missing-template'"));
    assert!(err.contains(BLANK_UI2_TEMPLATE_ID));
    assert!(err.contains(FORM_APP_TEMPLATE_ID));
    assert!(err.contains(CANVAS_APP_TEMPLATE_ID));
    assert!(err.contains(TOOL_WINDOW_TEMPLATE_ID));
    assert!(err.contains(SERVICE_APP_TEMPLATE_ID));
    assert!(err.contains(SHELL_APP_TEMPLATE_ID));
    assert_eq!(
        err,
        "unknown project template 'missing-template'. available templates: blank-ui2, form-app, canvas-app, tool-window, service-app, shell-app"
    );
}

#[test]
fn invalid_names_are_refused_before_generation() {
    assert_eq!(creation_name("../escape").unwrap_err(), "invalid project name");
    assert_eq!(creation_name(" Hello UI2 ").unwrap().slug, "hello-ui2");
}

#[test]
fn creates_starter_project() {
    let (project, _, files) = generate("Hello UI2", DEFAULT_PROJECT_TEMPLATE_ID);
    assert!(has_path(&files, "app.blueprint.json"));
    assert!(has_path(&files, "ui/main.ui2.json"));
    assert_eq!(project.windows.len(), 1);
}

#[test]
fn creates_rich_starter_project_files() {
    let (project, _, files) = generate("Hello UI2", DEFAULT_PROJECT_TEMPLATE_ID);

    assert_eq!(project.slug, "hello-ui2");
    assert_eq!(project.blueprint.schema, "trueos.app.blueprint/v1");
    assert_eq!(project.package.schema, "trueos.package.blueprint/v1");
    for relative in [
        "rads.project.json",
        "app.blueprint.json",
        "package/package.blueprint.json",
        "package/manifest.trueos.json",
        "ui/main.ui2.json",
        "ui/main.ui2",
        "src/main.rs",
        "src/ui.rs",
        "src/events.rs",
        "README.md",
    ] {
        assert!(has_path(&files, relative), "missing generated file: {relative}");
    }
}

#[test]
fn starter_generation_writes_expected_contract_files() {
    let (project, _, files) = generate("Hello UI2", DEFAULT_PROJECT_TEMPLATE_ID);

    assert_eq!(project.name, "Hello UI2");
    assert_eq!(project.slug, "hello-ui2");
    assert_eq!(project.root, "/tmp/rads-workspace/hello-ui2");
    assert_eq!(project.blueprint.schema, "trueos.app.blueprint/v1");
    assert_eq!(project.blueprint.app_id, "dev.trueos.hello-ui2");
    assert_eq!(project.blueprint.entrypoint, "src/main.rs");
    assert_eq!(project.blueprint.ui_layout, "ui/main.ui2");
    assert_eq!(project.package.schema, "trueos.package.blueprint/v1");
    assert_eq!(project.package.package_id, "dev.trueos.hello-ui2.package");
    assert_eq!(project.windows.len(), 1);

    for relative in [
        "rads.project.json",
        "app.blueprint.json",
        "package/package.blueprint.json",
        "ui/main.ui2.json",
        "ui/main.ui2",
        "Cargo.toml",
        "src/main.rs",
        "src/ui.rs",
        "src/events.rs",
        "package/manifest.trueos.json",
        "README.md",
    ] {
        assert!(has_path(&files, relative), "missing generated file: {relative}");
    }

    assert_eq!(json_document(&files, "rads.project.json"), ProjectDocument::Project);
    assert_eq!(json_document(&files, "ui/main.ui2.json"), ProjectDocument::Window(0));
    assert_eq!(project.windows[0].controls.len(), 3);

    let layout = text_of(&files, "ui/main.ui2");
    assert!(layout.contains("decorations { titlebar: true"));
    assert!(layout.contains("decoration-flags [titlebar, close, minimize, maximize, resizable]"));
    assert!(layout.contains("textbox inputText"));
    assert!(layout.contains("change -> on_input_text_change"));
}

#[test]
fn generated_layout_serializes_decorations_and_events() {
    let (_, _, files) = generate("Decor Test", DEFAULT_PROJECT_TEMPLATE_ID);

    let layout = text_of(&files, "ui/main.ui2");
    assert!(layout.contains("decorations { titlebar: true"));
    assert!(layout.contains("decoration-flags [titlebar, close, minimize, maximize, resizable]"));
    assert!(layout.contains("button runButton"));
    assert!(layout.contains("click -> on_run_button_click"));
    assert!(layout.contains("textbox inputText"));
    assert!(layout.contains("change -> on_input_text_change"));
}

#[test]
fn generated_rust_contains_ui_module_and_event_stubs() {
    let (_, _, files) = generate("Stub Test", DEFAULT_PROJECT_TEMPLATE_ID);

    let main_rs = text_of(&files, "src/main.rs");
    let ui_rs = text_of(&files, "src/ui.rs");
    let events_rs = text_of(&files, "src/events.rs");

    assert!(main_rs.contains("mod events;"));
    assert!(main_rs.contains("mod ui;"));
    assert!(ui_rs.contains("pub const MAIN_LAYOUT"));
    assert!(ui_rs.contains("pub const MAIN_WINDOW_DECORATIONS"));
    assert!(events_rs.contains("pub fn wire_main_window()"));
    assert!(events_rs.contains("pub fn on_run_button_click()"));
    assert!(events_rs.contains("pub fn on_input_text_change()"));
}

#[test]
fn generated_ui2_project_supports_multiple_windows() {
    let (mut project, _, _) = generate("Many Windows", DEFAULT_PROJECT_TEMPLATE_ID);
    let mut second = Ui2Window::named_window("SettingsWindow", "Settings", 140, 140, 520, 360);
    second.title_twemoji = Some("⚡".to_string());
    project.windows.push(second);
    let files = write_project_files(&project, V_PATH);

    let layout = text_of(&files, "ui/main.ui2");
    let ui_rs = text_of(&files, "src/ui.rs");

    assert!(layout.contains("window MainWindow"));
    assert!(layout.contains("window SettingsWindow"));
    assert!(layout.contains("title-twemoji \"⚡\""));
    assert!(has_path(&files, "ui/windows/main.ui2.json"));
    assert!(has_path(&files, "ui/windows/settingswindow.ui2.json"));
    assert!(has_path(&files, "ui/windows/settingswindow.html"));
    assert!(has_path(&files, "ui/windows/settingswindow.css"));
    assert_eq!(
        json_document(&files, "ui/windows/settingswindow.ui2.json"),
        ProjectDocument::Window(1)
    );
    assert!(ui_rs.contains("pub fn create_window_0()"));
    assert!(ui_rs.contains("pub fn create_window_1()"));
    assert!(ui_rs.contains("pub fn create_all_windows()"));
}

#[test]
fn create_project_keeps_existing_form_starter_contract() {
    let (project, _, files) = generate("Hello UI2", DEFAULT_PROJECT_TEMPLATE_ID);

    assert_eq!(project.windows[0].controls.len(), 3);
    assert_eq!(project.app_kind, AppKind::Ui2);
    assert_eq!(project.windows[0].geometry.w, 720);
    assert!(has_path(&files, "ui/index.html"));
    assert!(has_path(&files, "ui/styles.css"));
    assert!(has_path(&files, "ui/windows/main.ui2.json"));

    let html = text_of(&files, "ui/index.html");
    let events = text_of(&files, "src/events.rs");

    assert!(html.contains("class=\"form-shell\""));
    assert!(events.contains("UI2 event stubs registered"));
    assert!(events.contains("pub fn on_run_button_click()"));
    assert!(events.contains("pub fn on_input_text_change()"));
}

#[test]
fn generator_uses_selected_canvas_template() {
    let (project, _, files) = generate("Canvas Pad", CANVAS_APP_TEMPLATE_ID);

    let window = &project.windows[0];
    assert_eq!(window.geometry.w, 960);
    assert_eq!(window.geometry.h, 640);
    assert!(
        project
            .blueprint
            .capabilities
            .iter()
            .any(|capability| capability.key == "ui2.canvas" && capability.enabled)
    );
    assert!(window.controls.iter().any(|control| {
        matches!(&control.kind, ControlKind::Canvas) && control.name == "drawingCanvas"
    }));

    let layout = text_of(&files, "ui/main.ui2");
    let html = text_of(&files, "ui/index.html");
    let css = text_of(&files, "ui/styles.css");
    let ui_rs = text_of(&files, "src/ui.rs");
    let events = text_of(&files, "src/events.rs");

    assert!(layout.contains("canvas drawingCanvas"));
    assert!(html.contains("<canvas name=\"drawingCanvas\""));
    assert!(html.contains("data-template=\"canvas-app\""));
    assert!(css.contains(".canvas-shell"));
    assert!(ui_rs.contains("pub const MAIN_HTML"));
    assert!(ui_rs.contains("pub const MAIN_CSS"));
    assert!(events.contains("canvas app event stubs registered"));
    assert!(events.contains("pub fn on_drawing_canvas_draw()"));
}

#[test]
fn blank_template_generates_empty_window() {
    let (project, _, files) = generate("Blank Slate", BLANK_UI2_TEMPLATE_ID);

    assert!(project.windows[0].controls.is_empty());
    assert!(
        project
            .blueprint
            .capabilities
            .iter()
            .any(|capability| capability.key == "ui2.events" && !capability.enabled)
    );

    let events = text_of(&files, "src/events.rs");
    assert!(events.contains("blank UI2 window ready"));
    assert!(!events.contains("pub fn on_"));
}

#[test]
fn service_and_shell_templates_have_no_ui2_surface() {
    let (service, _, service_files) = generate("Index Service", SERVICE_APP_TEMPLATE_ID);
    let (shell, _, shell_files) = generate("Ops Shell", SHELL_APP_TEMPLATE_ID);

    assert_eq!(service.app_kind, AppKind::Service);
    assert_eq!(shell.app_kind, AppKind::Shell);
    assert!(service.windows.is_empty());
    assert!(shell.windows.is_empty());
    assert_eq!(service.blueprint.ui_layout, "");
    assert_eq!(shell.blueprint.ui_layout, "");
    assert!(!has_path(&service_files, "src/ui.rs"));
    assert!(!has_path(&shell_files, "src/ui.rs"));
    assert!(!has_path(&service_files, "ui/main.ui2"));
    assert!(!has_path(&shell_files, "ui/main.ui2"));

    let service_main = text_of(&service_files, "src/main.rs");
    let shell_main = text_of(&shell_files, "src/main.rs");
    assert!(service_main.contains("service Index Service starting"));
    assert!(shell_main.contains("Ops Shell shell ready"));
}

#[test]
fn generated_html_and_css_are_stored_on_the_window_model() {
    let (project, _, files) = generate("HTML CSS Model", DEFAULT_PROJECT_TEMPLATE_ID);
    let stored_window = &project.windows[0];
    let html = text_of(&files, "ui/index.html");
    let css = text_of(&files, "ui/styles.css");

    assert!(stored_window.ui_description.html.contains("form-shell"));
    assert_eq!(stored_window.ui_description.html, html);
    assert_eq!(stored_window.ui_description.css, css);
}

#[test]
fn cargo_manifest_points_at_the_given_v_dependency() {
    let (_, _, files) = generate("Cargo Check", DEFAULT_PROJECT_TEMPLATE_ID);
    let cargo = text_of(&files, "Cargo.toml");
    assert!(cargo.contains("name = \"cargo-check\""));
    assert!(cargo.contains(V_PATH));
}

#[test]
fn project_directories_are_created_first() {
    assert_eq!(project_dirs(), vec!["src", "ui", "assets", "package"]);
}

#[test]
fn every_template_builds_a_project_of_its_kind() {
    for template in available_project_templates() {
        let valid = validate_project_name("Kind Check").unwrap();
        let project = template.build_project(valid, "/tmp/kind-check");
        assert_eq!(project.app_kind, template.app_kind);
        assert_eq!(project.windows.len(), usize::from(template.window.is_some()));
        assert_eq!(project.root, "/tmp/kind-check");
    }
}
