use trueos_rads::model::{ControlKind, RadsProject, Ui2Control, Ui2Window};
use trueos_rads::project_templates::default_project_template;
use trueos_rads::templates::{
    cargo_toml, control_kind_name, control_to_ui2_snippet, escape_html, events_rs, main_rs,
    readme, ui2_layout, ui_rs, window_file_stem, window_to_ui2_snippet, html,
};

#[test]
fn control_snippets_quote_captions_like_debug() {
    let mut control = Ui2Control::new(ControlKind::Button, "runButton", "Say \"hi\"\n", 8, 16, 120, 32);
    control.properties.clear();
    let snippet = control_to_ui2_snippet(&control);
    assert_eq!(
        snippet,
        "button runButton at 8,16 size 120x32 caption \"Say \\\"hi\\\"\\n\" props [] events [click -> on_run_button_click]"
    );
    let control = Ui2Control::new(ControlKind::TextBox, "t", "Search", 0, 0, 10, 10);
    assert_eq!(
        control_to_ui2_snippet(&control),
        "textbox t at 0,0 size 10x10 caption \"Search\" props [placeholder=\"Type here\"] events [change -> on_t_change]"
    );
}

#[test]
fn control_kinds_have_layout_names() {
    assert_eq!(control_kind_name(&ControlKind::TextBox), "textbox");
    assert_eq!(control_kind_name(&ControlKind::CheckBox), "checkbox");
    assert_eq!(control_kind_name(&ControlKind::ListBox), "listbox");
    assert_eq!(control_kind_name(&ControlKind::Canvas), "canvas");
}

#[test]
fn window_snippets_carry_decorations_and_options() {
    let mut window = Ui2Window::named_window("Tools", "Tool \"box\"", 1, -2, 300, 200);
    window.title_twemoji = Some("🛠".to_string());
    let snippet = window_to_ui2_snippet(&window);
    assert!(snippet.starts_with("window Tools caption \"Tool \\\"box\\\"\" at 1,-2 size 300x200 {\n"));
    assert!(snippet.contains("  decorations { titlebar: true, close: true"));
    assert!(snippet.contains("window-options { resize_mode: both, scrollbars: none"));
    assert!(snippet.contains("title-twemoji \"🛠\""));
    assert!(snippet.contains("decoration-flags [titlebar, close, minimize, maximize, resizable]"));
}

#[test]
fn layout_starts_with_the_app_line() {
    let project = RadsProject::starter("Hello UI2", "/tmp/hello");
    let layout = ui2_layout(&project);
    assert!(layout.starts_with(
        "app \"Hello UI2\" id \"dev.trueos.hello-ui2\" version \"0.1.0\"\n\nwindow MainWindow"
    ));
}

#[test]
fn window_file_stems_name_secondary_windows() {
    let main = Ui2Window::main_window("x");
    assert_eq!(window_file_stem(&main, 0), "main");
    let w = Ui2Window::named_window("Settings Window", "S", 0, 0, 1, 1);
    assert_eq!(window_file_stem(&w, 1), "settings-window");
    let w = Ui2Window::named_window("!!!", "S", 0, 0, 1, 1);
    assert_eq!(window_file_stem(&w, 2), "window-3");
}

#[test]
fn html_escaping_covers_markup_characters() {
    assert_eq!(
        escape_html("<b class=\"x\">&'</b>"),
        "&lt;b class=&quot;x&quot;&gt;&amp;&#39;&lt;/b&gt;"
    );
    assert_eq!(escape_html("plain"), "plain");
}

#[test]
fn generated_sources_name_the_project() {
    let project = RadsProject::starter("Hello UI2", "/tmp/hello");
    let main = main_rs(&project);
    assert!(main.contains("fn main()"));
    assert!(main.contains("mod ui;"));
    let events = events_rs(&project);
    assert!(events.contains("pub fn on_run_button_click()"));
    assert!(events.contains("pub fn on_input_text_change()"));
    let ui = ui_rs(&project);
    assert!(ui.contains("pub const APP_ID: &str = \"dev.trueos.hello-ui2\";"));
    assert!(ui.contains("pub fn create_window_0()"));
    let readme = readme(&project);
    assert!(readme.starts_with("# Hello UI2\n"));
    let cargo = cargo_toml(&project, "../v \"quoted\"");
    assert!(cargo.contains("name = \"hello-ui2\""));
    assert!(cargo.contains("v = { path = \"../v \\\"quoted\\\"\" }"));
    let page = html(&project, &default_project_template());
    assert_eq!(page, project.windows[0].ui_description.html);
    let mut blank = RadsProject::starter("Blank Page", "/tmp/blank");
    blank.windows[0].ui_description.html = "   ".to_string();
    let rendered = html(&blank, &default_project_template());
    assert!(rendered.contains("<!doctype html>"));
    assert!(rendered.contains("Blank Page"));
    blank.windows.clear();
    assert_eq!(html(&blank, &default_project_template()), "");
}

#[test]
fn windowless_projects_get_an_empty_ui_module() {
    let mut project = RadsProject::starter("Empty", "/tmp/empty");
    project.windows.clear();
    let ui = ui_rs(&project);
    assert!(ui.contains("pub const APP_ID: &str = \"\";"));
    assert!(ui.contains("Vec::new()"));
}
