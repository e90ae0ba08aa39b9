use trueos_rads::jobs::{JobActivity, JobKind, JobStage, JobStatus};
use trueos_rads::localcoder::LocalCoderErrorKind;
use trueos_rads::model::{property, AppKind, RadsProject, Ui2Window};
use trueos_rads::server::{
    apply_window_properties, apply_window_property, asset_extension, asset_warning,
    decode_asset_contents, import_asset_bytes,
    delete_control, escape_html_text, job_kind_for_request, localcoder_status_code, new_window,
    parse_bool, parse_i32, parse_u32, runtime_response, sanitize_asset_name, template_files,
    template_summaries, template_tags, unique_window_name, update_ui_description,
    window_name_stem, UpdateUiDescriptionRequest,
};
use trueos_rads::ui2_options::Ui2HtmlCssDescription;

#[test]
fn integers_parse_or_say_why_not() {
    assert_eq!(parse_i32("x", "-42"), Ok(-42));
    assert_eq!(parse_i32("x", "+7"), Ok(7));
    let err = parse_i32("x", "4.5").unwrap_err();
    assert!(err.starts_with("invalid integer for `x`: "));
    assert_eq!(err, format!("invalid integer for `x`: {}", "4.5".parse::<i32>().unwrap_err()));
    assert_eq!(parse_u32("w", "640"), Ok(640));
    let err = parse_u32("w", "-1").unwrap_err();
    assert_eq!(
        err,
        format!("invalid unsigned integer for `w`: {}", "-1".parse::<u32>().unwrap_err())
    );
    assert!(parse_u32("w", "4294967296").is_err());
}

#[test]
fn booleans_accept_the_documented_words() {
    for word in ["true", "1", "YES", "On"] {
        assert_eq!(parse_bool("k", word), Ok(true), "{word}");
    }
    for word in ["false", "0", "No", "OFF"] {
        assert_eq!(parse_bool("k", word), Ok(false), "{word}");
    }
    assert_eq!(
        parse_bool("k", "maybe").unwrap_err(),
        "invalid boolean for `k`: maybe"
    );
}

#[test]
fn asset_names_are_single_file_names() {
    assert_eq!(sanitize_asset_name("  logo.png ").unwrap(), "logo.png");
    assert_eq!(sanitize_asset_name("   ").unwrap_err(), "asset name is required");
    assert_eq!(
        sanitize_asset_name("img/logo.png").unwrap_err(),
        "asset name cannot contain path separators"
    );
    assert_eq!(asset_extension("Logo.PNG").unwrap(), "png");
    assert_eq!(asset_extension("a.jpeg").unwrap(), "jpeg");
    assert_eq!(asset_extension("a.bmp").unwrap(), "bmp");
    assert_eq!(
        asset_extension("a.gif").unwrap_err(),
        "asset type must be JPG, JPEG, PNG, SVG, or BMP"
    );
    assert!(asset_extension("noext").is_err());
    assert_eq!(
        asset_warning("bmp"),
        Some("BMP assets usually waste package space; prefer PNG or SVG.")
    );
    assert_eq!(asset_warning("png"), None);
}

#[test]
fn job_requests_name_a_known_kind() {
    assert!(matches!(
        job_kind_for_request("Generate", "/p").unwrap(),
        JobKind::Generate { .. }
    ));
    assert!(matches!(job_kind_for_request("auto", "/p").unwrap(), JobKind::FullAuto { .. }));
    match job_kind_for_request("DIST", "/proj").unwrap() {
        JobKind::Dist { project } => assert_eq!(project, "/proj"),
        other => panic!("unexpected {other:?}"),
    }
    assert_eq!(
        job_kind_for_request("deploy", "/p").unwrap_err(),
        "unknown job kind; expected generate, check, build, pack, dist, or auto"
    );
}

#[test]
fn localcoder_errors_map_to_http_statuses() {
    assert_eq!(localcoder_status_code(LocalCoderErrorKind::Unavailable), 503);
    assert_eq!(localcoder_status_code(LocalCoderErrorKind::InvalidArgs), 400);
    assert_eq!(localcoder_status_code(LocalCoderErrorKind::TimedOut), 504);
    assert_eq!(localcoder_status_code(LocalCoderErrorKind::SpawnFailed), 502);
    assert_eq!(localcoder_status_code(LocalCoderErrorKind::Io), 502);
    assert_eq!(localcoder_status_code(LocalCoderErrorKind::ExitFailed), 502);
}

#[test]
fn html_text_is_escaped() {
    assert_eq!(
        escape_html_text("<a href=\"x\">Tom & 'Jerry'</a>"),
        "&lt;a href=&quot;x&quot;&gt;Tom &amp; &#39;Jerry&#39;&lt;/a&gt;"
    );
}

#[test]
fn window_names_are_camel_case_and_unique() {
    assert_eq!(window_name_stem("settings panel"), "SettingsPanelWindow");
    assert_eq!(window_name_stem("About window"), "AboutWindow");
    assert_eq!(window_name_stem("!!"), "Window");
    assert_eq!(window_name_stem("2nd view"), "Window2ndView");
    let project = RadsProject::starter("Hello", "/tmp/hello");
    assert_eq!(unique_window_name(&project, "main window"), "MainWindow2");
    assert_eq!(unique_window_name(&project, "tools"), "ToolsWindow");
}

#[test]
fn new_windows_cascade_and_get_markup() {
    let project = RadsProject::starter("Hello", "/tmp/hello");
    let window = new_window(&project, None, None).unwrap();
    assert_eq!(window.caption, "Window 2");
    assert_eq!(window.name, "Window2");
    assert_eq!((window.geometry.x, window.geometry.y), (124, 124));
    assert_eq!((window.geometry.w, window.geometry.h), (680, 420));
    assert!(window.ui_description.html.contains("<title>Window 2</title>"));
    assert!(window.ui_description.html.contains("href=\"window2.css\""));
    assert!(window.ui_description.css.contains(".ui2-window"));

    let named = new_window(&project, Some("prefs".to_string()), Some("Preferences".to_string())).unwrap();
    assert_eq!(named.name, "PrefsWindow");
    assert_eq!(named.caption, "Preferences");

    let mut service = RadsProject::starter("Svc", "/tmp/svc");
    service.app_kind = AppKind::Service;
    assert_eq!(
        new_window(&service, None, None).unwrap_err(),
        "only UI2 apps can create UI2 windows"
    );
}

#[test]
fn window_properties_apply_or_leave_the_window_alone() {
    let mut window = Ui2Window::main_window("Props");
    apply_window_property(&mut window, property("Geometry.Width", "900")).unwrap();
    apply_window_property(&mut window, property("always_on_top", "yes")).unwrap();
    apply_window_property(&mut window, property("title-icon", "⚡")).unwrap();
    assert_eq!(window.geometry.w, 900);
    assert!(window.decorations.always_on_top);
    assert_eq!(window.title_twemoji.as_deref(), Some("⚡"));
    apply_window_property(&mut window, property("twemoji", "  ")).unwrap();
    assert_eq!(window.title_twemoji, None);

    let err = apply_window_property(&mut window, property("x", "left")).unwrap_err();
    assert!(err.starts_with("invalid integer for `x`"));
    assert_eq!(window.geometry.x, 80);
    assert_eq!(
        apply_window_property(&mut window, property("shape", "round")).unwrap_err(),
        "unknown window property `shape`"
    );

    let window = Ui2Window::main_window("Batch");
    let updated = apply_window_properties(
        window,
        vec![property("caption", "Renamed"), property("h", "300")],
    )
    .unwrap();
    assert_eq!(updated.caption, "Renamed");
    assert_eq!(updated.geometry.h, 300);
}

#[test]
fn deleting_controls_reports_missing_ones() {
    let project = RadsProject::starter("Del", "/tmp/del");
    let id = project.windows[0].controls[0].id;
    let before = project.windows[0].controls.len();
    let project = delete_control(project, id).unwrap();
    assert_eq!(project.windows[0].controls.len(), before - 1);
    assert!(project.windows[0].controls.iter().all(|c| c.id != id));
    assert_eq!(delete_control(project, id).unwrap_err(), "control not found");
}

#[test]
fn ui_description_updates_the_first_window_by_default() {
    let project = RadsProject::starter("Desc", "/tmp/desc");
    let updated = update_ui_description(
        project,
        UpdateUiDescriptionRequest {
            window_id: None,
            description: Some("An app".to_string()),
            ui_description: Some(Ui2HtmlCssDescription {
                html: "<main></main>".to_string(),
                css: "main {}".to_string(),
            }),
            html: None,
            css: Some("body {}".to_string()),
        },
    )
    .unwrap();
    assert_eq!(updated.blueprint.description, "An app");
    assert_eq!(updated.windows[0].ui_description.html, "<main></main>");
    assert_eq!(updated.windows[0].ui_description.css, "body {}");
}

#[test]
fn template_listing_describes_each_starter() {
    assert_eq!(template_tags(AppKind::Ui2), vec!["ui2", "blueprint", "package"]);
    assert_eq!(
        template_tags(AppKind::Shell),
        vec!["shell", "command", "blueprint", "package"]
    );
    assert_eq!(template_files(AppKind::Service, false).len(), 8);
    assert_eq!(template_files(AppKind::Ui2, true).len(), 16);
    assert_eq!(template_files(AppKind::Ui2, false).len(), 8);
    let summaries = template_summaries();
    assert_eq!(summaries.len(), 6);
    assert_eq!(summaries[0].id, "blank-ui2");
}

#[test]
fn runtime_reports_the_current_job() {
    let r = runtime_response(
        true,
        false,
        Some("/p".to_string()),
        None,
        true,
        Some(JobActivity {
            job_id: 9,
            kind: JobKind::Check {
                project: "/p".to_string(),
            },
            status: JobStatus::Running,
            current_stage: Some(JobStage::Check),
        }),
    );
    assert!(r.full_auto);
    assert!(!r.watch);
    assert_eq!(r.current_job_id, Some(9));
    assert_eq!(r.current_status, Some(JobStatus::Running));
    assert_eq!(r.current_stage, Some(JobStage::Check));
}

#[test]
fn imported_assets_are_checked_then_decoded() {
    assert_eq!(decode_asset_contents(b"aGVsbG8=").unwrap(), b"hello".to_vec());
    let err = decode_asset_contents(b"not base64!").unwrap_err();
    assert!(err.starts_with("asset contents are not valid base64: "));
    assert!(err.len() > "asset contents are not valid base64: ".len());

    let (name, bytes) = import_asset_bytes("  logo.png ", b"iVBORw==").unwrap();
    assert_eq!(name, "logo.png");
    assert_eq!(bytes, vec![0x89, 0x50, 0x4e, 0x47]);
    assert_eq!(import_asset_bytes("   ", b"!!").unwrap_err(), "asset name is required");
    assert_eq!(
        import_asset_bytes("a/b.png", b"!!").unwrap_err(),
        "asset name cannot contain path separators"
    );
    assert_eq!(
        import_asset_bytes("notes.txt", b"!!").unwrap_err(),
        "asset type must be JPG, JPEG, PNG, SVG, or BMP"
    );
    assert!(import_asset_bytes("x.svg", b"!!")
        .unwrap_err()
        .starts_with("asset contents are not valid base64: "));
}
