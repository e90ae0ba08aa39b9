use trueos_rads::designer::{default_palette, default_palette_categories};
use trueos_rads::model::{
    event_handler_name, identifier_fragment, is_reserved_name, joined_flags, slugify,
    validate_project_name, AppKind, ControlKind, ProjectNameError, RadsProject, Ui2Control,
    Ui2Window, WindowDecorations, MAX_PROJECT_NAME_LEN, MAX_PROJECT_SLUG_LEN,
};
use trueos_rads::ui2_options::{
    Ui2HtmlCssDescription, Ui2ResizeMode, Ui2ScrollbarMode, Ui2Size, Ui2WindowOptions,
};

#[test]
fn palette_and_slugify_cover_documented_names() {
    let categories = default_palette_categories();
    assert_eq!(categories.len(), 4);
    assert!(categories.iter().all(|category| !category.items.is_empty()));

    let kinds = default_palette()
        .into_iter()
        .map(|item| item.kind)
        .collect::<Vec<_>>();

    assert!(kinds.iter().any(|kind| matches!(kind, ControlKind::Button)));
    assert!(kinds.iter().any(|kind| matches!(kind, ControlKind::Label)));
    assert!(kinds.iter().any(|kind| matches!(kind, ControlKind::TextBox)));
    assert!(kinds.iter().any(|kind| matches!(kind, ControlKind::CheckBox)));
    assert!(kinds.iter().any(|kind| matches!(kind, ControlKind::Panel)));
    assert!(kinds.iter().any(|kind| matches!(kind, ControlKind::ListBox)));
    assert!(kinds.iter().any(|kind| matches!(kind, ControlKind::Canvas)));
    assert!(kinds.iter().any(|kind| matches!(kind, ControlKind::Menu)));
    assert!(kinds.iter().any(|kind| matches!(kind, ControlKind::Toolbar)));

    assert_eq!(slugify(" Hello, UI2!! "), "hello-ui2");
    assert_eq!(slugify("RADS_pack.auto"), "rads-pack-auto");
    assert_eq!(
        validate_project_name("../escape").unwrap_err(),
        ProjectNameError::ContainsPathSeparator
    );
    assert_eq!(
        validate_project_name("  RADS Pack  ").unwrap().slug,
        "rads-pack"
    );
}

#[test]
fn legacy_window_json_gets_window_options_and_html_css_defaults() {
    let options = Ui2WindowOptions::default();
    assert_eq!(options.min_size, Ui2Size::new(320, 240));
    assert_eq!(options.max_size, None);
    assert_eq!(options.resize_mode, Ui2ResizeMode::Both);
    assert_eq!(options.scrollbars, Ui2ScrollbarMode::Off);
    assert!(options.hit_test_visible);
    assert!(!options.preserve_scale);

    let decorations = WindowDecorations::default();
    assert!(decorations.titlebar);
    assert!(decorations.close);
    assert!(decorations.minimize);
    assert!(decorations.maximize);
    assert!(decorations.resizable);
    assert!(!decorations.always_on_top);

    let description = Ui2HtmlCssDescription::default();
    assert!(description.html.contains("ui2-window"));
    assert!(description.css.contains(".ui2-window"));
}

#[test]
fn slugs_are_lowercase_dashed_and_bounded() {
    assert_eq!(slugify("--a--b--"), "a-b");
    assert_eq!(slugify("ÄBC Ünï"), "bc-n");
    assert_eq!(slugify(""), "");
    let long = "x".repeat(200);
    assert_eq!(slugify(&long).len(), MAX_PROJECT_SLUG_LEN);
}

#[test]
fn every_project_name_error_has_its_message() {
    assert_eq!(
        validate_project_name("\u{7}bell").unwrap_err(),
        ProjectNameError::ContainsControlCharacter
    );
    let too_long = "n".repeat(MAX_PROJECT_NAME_LEN + 1);
    assert_eq!(
        validate_project_name(&too_long).unwrap_err(),
        ProjectNameError::TooLong {
            max: MAX_PROJECT_NAME_LEN
        }
    );
    assert!(validate_project_name(&"n".repeat(MAX_PROJECT_NAME_LEN)).is_ok());
    assert_eq!(
        validate_project_name("a\\b").unwrap_err(),
        ProjectNameError::ContainsPathSeparator
    );
    assert_eq!(
        ProjectNameError::Empty.message(),
        "project name cannot be empty"
    );
    assert_eq!(
        ProjectNameError::TooLong { max: 80 }.message(),
        "project name must be 80 characters or fewer"
    );
    assert_eq!(
        ProjectNameError::ReservedName.message(),
        "project name is reserved by the filesystem"
    );
    assert_eq!(
        ProjectNameError::NoSlug.message(),
        "project name must contain at least one ASCII letter or number"
    );
}

#[test]
fn reserved_names_are_device_names() {
    for name in ["con", "prn", "aux", "nul", "com1", "com9", "lpt1", "lpt9", ".", ".."] {
        assert!(is_reserved_name(name), "{name}");
    }
    assert!(!is_reserved_name("com10"));
    assert!(!is_reserved_name("console"));
    assert_eq!(
        validate_project_name("LPT3").unwrap_err(),
        ProjectNameError::ReservedName
    );
}

#[test]
fn handler_names_are_snake_case_identifiers() {
    assert_eq!(event_handler_name("runButton", "click"), "on_run_button_click");
    assert_eq!(event_handler_name("inputText", "change"), "on_input_text_change");
    assert_eq!(identifier_fragment("HTTPServer 2"), "h_t_t_p_server_2");
    assert_eq!(identifier_fragment("--x"), "x");
}

#[test]
fn decorations_render_flags_and_literal() {
    let mut d = WindowDecorations::default();
    assert_eq!(
        d.to_flags(),
        vec!["titlebar", "close", "minimize", "maximize", "resizable"]
    );
    assert_eq!(
        joined_flags(&d),
        "titlebar, close, minimize, maximize, resizable"
    );
    d.close = false;
    d.always_on_top = true;
    assert_eq!(
        d.to_ui2_literal(),
        "{ titlebar: true, close: false, minimize: true, maximize: true, resizable: true, always_on_top: true }"
    );
    assert_eq!(
        joined_flags(&d),
        "titlebar, minimize, maximize, resizable, always-on-top"
    );
}

#[test]
fn app_kinds_name_their_runtime() {
    assert_eq!(AppKind::default(), AppKind::Ui2);
    assert_eq!(AppKind::Ui2.label(), "UI2 App");
    assert_eq!(AppKind::Service.runtime(), "TRUEOS/service");
    assert_eq!(AppKind::Shell.package_target(), "trueos-shell");
    assert!(AppKind::Ui2.has_ui2());
    assert!(!AppKind::Service.has_ui2());
}

#[test]
fn starter_project_has_the_form_window() {
    let project = RadsProject::starter("Hello UI2", "/tmp/hello");
    assert_eq!(project.slug, "hello-ui2");
    assert_eq!(project.blueprint.app_id, "dev.trueos.hello-ui2");
    assert_eq!(project.package.package_id, "dev.trueos.hello-ui2.package");
    assert_eq!(project.windows.len(), 1);
    let names = project.windows[0]
        .controls
        .iter()
        .map(|c| c.name.as_str())
        .collect::<Vec<_>>();
    assert!(names.contains(&"runButton"));
    assert!(names.contains(&"inputText"));
}

#[test]
fn new_controls_get_distinct_random_ids() {
    let a = Ui2Control::new(ControlKind::Button, "a", "A", 0, 0, 10, 10);
    let b = Ui2Control::new(ControlKind::Button, "a", "A", 0, 0, 10, 10);
    assert_ne!(a.id, b.id);
    assert_eq!((a.id >> 76) & 0xf, 4);
    assert_eq!((a.id >> 62) & 0x3, 2);
    assert_eq!(a.events[0].handler, "on_a_click");
}

#[test]
fn named_windows_keep_geometry_and_start_empty() {
    let w = Ui2Window::named_window("SettingsWindow", "Settings", 140, 150, 520, 360);
    assert_eq!(w.name, "SettingsWindow");
    assert_eq!(w.caption, "Settings");
    assert_eq!((w.geometry.x, w.geometry.y, w.geometry.w, w.geometry.h), (140, 150, 520, 360));
    assert!(w.controls.is_empty());
    assert_eq!(w.title_twemoji, None);
}
