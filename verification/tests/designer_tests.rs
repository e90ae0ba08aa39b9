use trueos_rads::designer::{
    add_control, align_controls, align_rect, change_control_property, default_palette,
    default_palette_categories, move_control, object_inspector_for_selection,
    object_inspector_for_window, sanitize_identifier, select_control, snap, snap_rect,
    unique_control_name, update_designer_state, update_window, AddControlRequest,
    AlignControlsRequest, Alignment, ControlPropertyChangeRequest, DesignerState,
    MoveControlRequest, ObjectInspectorData, ObjectInspectorEditor, ObjectInspectorField,
    ObjectInspectorSection, ObjectInspectorTarget, SelectControlRequest, SnapSettings,
    UpdateDesignerStateRequest, UpdateWindowRequest, add_position_ok, snap_fits_exec,
    snap_value_fits_exec,
};
use trueos_rads::model::{ControlKind, RadsProject, Rect, Ui2Control, Ui2Window};
use trueos_rads::templates::{control_to_ui2_snippet, ui2_layout};
use trueos_rads::ui2_options::{
    Ui2HtmlCssDescription, Ui2ResizeMode, Ui2ScrollbarMode, Ui2Size, Ui2WindowOptions,
};

fn control_by_id(window: &Ui2Window, id: u128) -> &Ui2Control {
    window.controls.iter().find(|control| control.id == id).unwrap()
}

fn section<'a>(inspector: &'a ObjectInspectorData, id: &str) -> &'a ObjectInspectorSection {
    inspector
        .sections
        .iter()
        .find(|section| section.id == id)
        .unwrap_or_else(|| panic!("missing section {id}"))
}

fn field<'a>(section: &'a ObjectInspectorSection, key: &str) -> &'a ObjectInspectorField {
    section
        .fields
        .iter()
        .find(|field| field.key == key)
        .unwrap_or_else(|| panic!("missing field {key}"))
}

fn assert_text_area(field: &ObjectInspectorField, language: &str) {
    match &field.editor {
        ObjectInspectorEditor::TextArea {
            language: Some(actual),
        } => assert_eq!(actual, language),
        editor => panic!("expected {language} text area editor, got {editor:?}"),
    }
}

#[test]
fn palette_items_include_property_defaults() {
    let text_box = default_palette()
        .into_iter()
        .find(|item| matches!(item.kind, ControlKind::TextBox))
        .expect("text box palette item");

    assert_eq!(text_box.category, "Standard");
    assert!(
        text_box
            .default_properties
            .iter()
            .any(|property| property.key == "placeholder")
    );
}

#[test]
fn control_property_changes_can_set_and_remove_values() {
    let mut window = Ui2Window::main_window("Designer");
    let window_id = window.id;
    let control_id = window.controls[0].id;

    assert!(change_control_property(
        &mut window,
        ControlPropertyChangeRequest {
            window_id,
            control_id,
            key: "visible".to_string(),
            value: Some("true".to_string()),
        },
    ));
    assert!(
        window.controls[0]
            .properties
            .iter()
            .any(|property| property.key == "visible" && property.value == "true")
    );

    assert!(change_control_property(
        &mut window,
        ControlPropertyChangeRequest {
            window_id,
            control_id,
            key: "visible".to_string(),
            value: None,
        },
    ));
    assert!(
        !window.controls[0]
            .properties
            .iter()
            .any(|property| property.key == "visible")
    );
}

#[test]
fn alignment_snap_selection_and_inspector_are_data_only() {
    let mut window = Ui2Window::main_window("Designer");
    let window_id = window.id;
    let anchor_id = window.controls[0].id;
    let target_id = window.controls[1].id;

    let snapped = snap_rect(
        Rect {
            x: 13,
            y: 18,
            w: 119,
            h: 35,
        },
        SnapSettings {
            enabled: true,
            grid: 8,
        },
    );
    assert_eq!(snapped.x, 16);
    assert_eq!(snapped.w, 120);

    let changed = align_controls(
        &mut window,
        AlignControlsRequest {
            window_id,
            control_ids: vec![anchor_id, target_id],
            anchor_control_id: Some(anchor_id),
            alignment: Alignment::Left,
        },
    );
    assert_eq!(changed, 1);
    assert_eq!(window.controls[0].geometry.x, window.controls[1].geometry.x);

    let mut state = DesignerState {
        active_window: window_id,
        selected_control: None,
        grid: 8,
        snap_to_grid: true,
        palette: default_palette_categories(),
    };
    assert!(select_control(
        &mut state,
        SelectControlRequest {
            window_id,
            control_id: Some(target_id),
        },
    ));
    assert_eq!(state.selected_control, Some(target_id));

    let inspector = object_inspector_for_selection(&window, state.selected_control);
    assert!(
        inspector
            .sections
            .iter()
            .any(|section| section.id == "properties")
    );
}

#[test]
fn designer_adds_palette_control_with_snap_and_inspector_data() {
    let mut window = Ui2Window::main_window("Palette Smoke");
    let window_id = window.id;

    let control_id = add_control(
        &mut window,
        AddControlRequest {
            window_id,
            kind: ControlKind::TextBox,
            x: 57,
            y: 159,
            id: None,
            name: None,
            caption: Some("Search".to_string()),
            snap: Some(SnapSettings {
                enabled: true,
                grid: 8,
            }),
        },
    )
    .unwrap();

    let control = control_by_id(&window, control_id);

    assert_eq!(control.name, "textbox1");
    assert_eq!(control.caption, "Search");
    assert_eq!(control.geometry.x, 56);
    assert_eq!(control.geometry.y, 160);
    assert_eq!(control.geometry.w, 180);
    assert_eq!(control.geometry.h, 32);
    assert!(
        control
            .properties
            .iter()
            .any(|property| property.key == "placeholder")
    );
    assert_eq!(control.events[0].event, "change");
    assert_eq!(control.events[0].handler, "on_textbox1_change");

    let snippet = control_to_ui2_snippet(control);
    assert!(snippet.contains("textbox textbox1 at 56,160 size 180x32"));
    assert!(snippet.contains("caption \"Search\""));
    assert!(snippet.contains("events [change -> on_textbox1_change]"));

    let inspector = object_inspector_for_selection(&window, Some(control_id));
    assert!(
        inspector
            .sections
            .iter()
            .any(|section| section.id == "properties")
    );
    assert!(
        inspector
            .sections
            .iter()
            .any(|section| section.id == "events")
    );
}

#[test]
fn public_featurecheck_apis_render_designer_and_ui2_shapes() {
    let categories = default_palette_categories();
    assert_eq!(
        categories
            .iter()
            .map(|category| category.name.as_str())
            .collect::<Vec<_>>(),
        ["Standard", "Containers", "Data", "Navigation"]
    );
    assert_eq!(default_palette().len(), 9);

    let mut window = Ui2Window::main_window("Featurecheck APIs");
    let window_id = window.id;
    let control_id = add_control(
        &mut window,
        AddControlRequest {
            window_id,
            kind: ControlKind::Canvas,
            x: 101,
            y: 103,
            id: None,
            name: None,
            caption: Some("Drawing".to_string()),
            snap: Some(SnapSettings {
                enabled: true,
                grid: 10,
            }),
        },
    )
    .unwrap();
    let control = control_by_id(&window, control_id);
    assert_eq!(control.name, "canvas1");
    assert_eq!(control.geometry.x, 100);
    assert_eq!(control.geometry.y, 100);
    assert!(control.events.iter().any(|event| event.event == "draw"));

    let snippet = control_to_ui2_snippet(control);
    assert!(snippet.contains("canvas canvas1 at 100,100"));
    assert!(snippet.contains("draw -> on_canvas1_draw"));

    let inspector = object_inspector_for_selection(&window, Some(control_id));
    assert!(
        inspector
            .sections
            .iter()
            .any(|section| section.id == "properties")
    );
    assert!(
        inspector
            .sections
            .iter()
            .any(|section| section.id == "events")
    );

    let project = RadsProject::starter("Featurecheck Layout", "/tmp/rads-layout");
    let layout = ui2_layout(&project);
    assert!(layout.contains("app \"Featurecheck Layout\""));
    assert!(layout.contains("window MainWindow"));
    assert!(layout.contains("decoration-flags [titlebar, close, minimize, maximize, resizable]"));
    assert!(layout.contains("textbox inputText"));
}

#[test]
fn window_options_and_ui_description_update_and_round_trip() {
    let mut window = Ui2Window::main_window("Options");
    let window_id = window.id;
    let options = Ui2WindowOptions {
        min_size: Ui2Size::new(480, 320),
        max_size: Some(Ui2Size::new(1280, 900)),
        resize_mode: Ui2ResizeMode::Width,
        scrollbars: Ui2ScrollbarMode::Auto,
        hit_test_visible: false,
        preserve_scale: true,
        ..Ui2WindowOptions::default()
    };
    let ui_description = Ui2HtmlCssDescription {
        html: r#"<main class="custom-window"></main>"#.to_string(),
        css: ".custom-window { display: grid; }\n".to_string(),
    };

    assert!(update_window(
        &mut window,
        UpdateWindowRequest {
            window_id,
            caption: Some("Options Dialog".to_string()),
            geometry: None,
            decorations: None,
            options: Some(options),
            ui_description: Some(ui_description.clone()),
        },
    ));

    assert_eq!(window.caption, "Options Dialog");
    assert_eq!(window.options, options);
    assert_eq!(window.ui_description, ui_description);

    assert_eq!(window.options.min_size.width, 480);
    assert_eq!(window.options.max_size.unwrap().height, 900);
    assert_eq!(window.options.resize_mode.as_str(), "width");
    assert_eq!(window.options.scrollbars.as_str(), "auto");
    assert!(!window.options.hit_test_visible);
    assert!(window.options.preserve_scale);
    assert_eq!(
        window.ui_description.html,
        r#"<main class="custom-window"></main>"#
    );
}

#[test]
fn window_inspector_exposes_app_wanted_options_and_ui_description() {
    let mut window = Ui2Window::main_window("Inspector");
    window.options.max_size = Some(Ui2Size::new(1024, 768));
    window.options.scrollbars = Ui2ScrollbarMode::Both;
    window.options.preserve_scale = true;
    window.decorations.always_on_top = true;

    let inspector = object_inspector_for_window(&window);
    let snapshot = inspector.window_options.as_ref().unwrap();
    assert_eq!(snapshot.caption, "Inspector");
    assert_eq!(snapshot.max_size, Some(Ui2Size::new(1024, 768)));
    assert!(
        snapshot
            .decoration_flags
            .iter()
            .any(|flag| flag == "always-on-top")
    );
    assert!(
        inspector
            .ui_description
            .as_ref()
            .unwrap()
            .html
            .contains("<main")
    );

    let options = section(&inspector, "window-options");
    assert_eq!(field(options, "min-width").value, "320");
    assert_eq!(field(options, "max-width").value, "1024");
    assert_eq!(field(options, "scrollbars").value, "both");
    assert_eq!(field(options, "preserve-scale").value, "true");

    match &field(options, "resize-mode").editor {
        ObjectInspectorEditor::Select { options } => {
            assert!(options.iter().any(|option| option == "both"));
        }
        editor => panic!("expected resize-mode select editor, got {editor:?}"),
    }

    let decorations = section(&inspector, "decorations");
    assert!(
        field(decorations, "decoration-flags")
            .value
            .contains("always-on-top")
    );

    let ui_description = section(&inspector, "ui-description");
    assert_text_area(field(ui_description, "ui-description.html"), "html");
    assert_text_area(field(ui_description, "ui-description.css"), "css");
}

#[test]
fn snapping_rounds_to_the_nearest_grid_line() {
    assert_eq!(snap(13, 8), 16);
    assert_eq!(snap(11, 8), 8);
    assert_eq!(snap(-13, 8), -8);
    assert_eq!(snap(7, 1), 7);
}

#[test]
fn snapping_is_skipped_when_disabled() {
    let rect = Rect {
        x: 13,
        y: 18,
        w: 119,
        h: 35,
    };
    assert_eq!(
        snap_rect(
            rect,
            SnapSettings {
                enabled: false,
                grid: 8
            }
        ),
        rect
    );
}

#[test]
fn align_rect_moves_only_the_aligned_edge() {
    let rect = Rect {
        x: 10,
        y: 20,
        w: 30,
        h: 40,
    };
    let anchor = Rect {
        x: 100,
        y: 200,
        w: 50,
        h: 60,
    };
    assert_eq!(align_rect(rect, anchor, Alignment::Left).x, 100);
    assert_eq!(align_rect(rect, anchor, Alignment::Right).x, 120);
    assert_eq!(align_rect(rect, anchor, Alignment::Top).y, 200);
    assert_eq!(align_rect(rect, anchor, Alignment::Bottom).y, 220);
    assert_eq!(align_rect(rect, anchor, Alignment::HorizontalCenter).x, 110);
    assert_eq!(align_rect(rect, anchor, Alignment::VerticalCenter).y, 210);
    assert_eq!(align_rect(rect, anchor, Alignment::SameWidth).w, 50);
    assert_eq!(align_rect(rect, anchor, Alignment::SameHeight).h, 60);
    assert_eq!(align_rect(rect, anchor, Alignment::SameHeight).w, 30);
}

#[test]
fn add_control_rejects_a_foreign_window() {
    let mut window = Ui2Window::main_window("Foreign");
    let before = window.controls.len();
    let r = add_control(
        &mut window,
        AddControlRequest {
            window_id: 7,
            kind: ControlKind::Button,
            x: 0,
            y: 0,
            id: None,
            name: None,
            caption: None,
            snap: None,
        },
    );
    assert!(r.is_none());
    assert_eq!(window.controls.len(), before);
}

fn add_plain(window: &mut Ui2Window, kind: ControlKind, name: Option<&str>) -> u128 {
    let window_id = window.id;
    add_control(
        window,
        AddControlRequest {
            window_id,
            kind,
            x: 3,
            y: 13,
            id: None,
            name: name.map(str::to_string),
            caption: None,
            snap: None,
        },
    )
    .unwrap()
}

#[test]
fn added_names_count_up_and_given_names_stay() {
    let mut window = Ui2Window::main_window("Names");
    let first = add_plain(&mut window, ControlKind::Button, None);
    let second = add_plain(&mut window, ControlKind::Button, None);
    let named = add_plain(&mut window, ControlKind::Label, Some("title"));
    let blank = add_plain(&mut window, ControlKind::Label, Some("   "));
    assert_eq!(control_by_id(&window, first).name, "button1");
    assert_eq!(control_by_id(&window, second).name, "button2");
    assert_eq!(control_by_id(&window, named).name, "title");
    assert_eq!(control_by_id(&window, blank).name, "label1");
    assert_eq!(control_by_id(&window, first).geometry.x, 0);
    assert_eq!(control_by_id(&window, first).geometry.y, 16);
    assert_eq!(control_by_id(&window, first).events[0].handler, "on_button1_click");
    assert_eq!(unique_control_name(&window, "fresh name"), "fresh_name1");
    assert_eq!(unique_control_name(&window, "Button"), "button3");
}

#[test]
fn sanitize_identifier_replaces_separators() {
    assert_eq!(sanitize_identifier("my control"), "my_control");
    assert_eq!(sanitize_identifier("9lives"), "c_9lives");
    assert_eq!(sanitize_identifier("__Run  Now__"), "run_now");
    assert_eq!(sanitize_identifier(""), "control");
}

#[test]
fn move_control_changes_only_the_geometry() {
    let mut window = Ui2Window::main_window("Move");
    let window_id = window.id;
    let control_id = window.controls[0].id;
    let geometry = Rect {
        x: 5,
        y: 6,
        w: 70,
        h: 80,
    };
    assert!(move_control(
        &mut window,
        MoveControlRequest {
            window_id,
            control_id,
            geometry,
        }
    ));
    assert_eq!(
        window.controls[0].geometry,
        Rect {
            x: 8,
            y: 8,
            w: 70,
            h: 80
        }
    );
    let small = Rect {
        x: -13,
        y: 0,
        w: 2,
        h: 3,
    };
    assert!(move_control(
        &mut window,
        MoveControlRequest {
            window_id,
            control_id,
            geometry: small,
        }
    ));
    assert_eq!(
        window.controls[0].geometry,
        Rect {
            x: -8,
            y: 0,
            w: 8,
            h: 8
        }
    );
    assert!(!move_control(
        &mut window,
        MoveControlRequest {
            window_id,
            control_id: 42,
            geometry,
        }
    ));
}

#[test]
fn designer_state_updates_and_clears_selection() {
    let mut state = DesignerState {
        active_window: 1,
        selected_control: Some(9),
        grid: 8,
        snap_to_grid: true,
        palette: default_palette_categories(),
    };
    assert!(!select_control(
        &mut state,
        SelectControlRequest {
            window_id: 2,
            control_id: None,
        }
    ));
    assert_eq!(state.selected_control, Some(9));
    update_designer_state(
        &mut state,
        UpdateDesignerStateRequest {
            active_window: Some(3),
            selected_control: None,
            clear_selection: true,
            grid: Some(0),
            snap_to_grid: Some(false),
        },
    );
    assert_eq!(state.active_window, 3);
    assert_eq!(state.selected_control, None);
    assert_eq!(state.grid, 1);
    assert!(!state.snap_to_grid);
}

#[test]
fn inspector_for_missing_control_shows_the_window() {
    let window = Ui2Window::main_window("Missing");
    let inspector = object_inspector_for_selection(&window, Some(12345));
    assert!(matches!(inspector.target, ObjectInspectorTarget::Window { .. }));
}

#[test]
fn positions_are_checked_before_placing_a_control() {
    let request = |x: i32, y: i32, snap: Option<SnapSettings>| AddControlRequest {
        window_id: 1,
        kind: ControlKind::Button,
        x,
        y,
        id: None,
        name: None,
        caption: None,
        snap,
    };
    assert!(add_position_ok(&request(57, 159, Some(SnapSettings { enabled: true, grid: 8 }))));
    assert!(add_position_ok(&request(57, 159, None)));
    assert!(!add_position_ok(&request(i32::MAX, 0, None)));
    assert!(add_position_ok(&request(i32::MAX, 0, Some(SnapSettings { enabled: false, grid: 8 }))));
    assert!(!add_position_ok(&request(0, i32::MIN, Some(SnapSettings { enabled: true, grid: 8 }))));
    assert!(add_position_ok(&request(1_500_000_000, 3, Some(SnapSettings { enabled: true, grid: 1 << 21 }))));
    assert!(snap_value_fits_exec(13, 8));
    assert!(!snap_value_fits_exec(i32::MAX, 8));
    assert!(!snap_value_fits_exec(i32::MIN, 8));
    assert!(snap_value_fits_exec(i32::MAX - 4, 8));
    assert!(!snap_value_fits_exec(i32::MAX - 3, 8));
    assert!(snap_fits_exec(13, 8));
    assert!(!snap_fits_exec(i32::MAX, 8));
    assert!(!snap_fits_exec(5, 0));
}
