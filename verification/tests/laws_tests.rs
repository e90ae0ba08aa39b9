use trueos_rads::designer::snap_value;
use trueos_rads::jobs::{pipeline_for_kind, JobBook, JobKind, JobStatus, MAX_RECENT_JOBS};
use trueos_rads::localcoder::split_args;
use trueos_rads::file_store::project_relative_path;
use trueos_rads::model::{event_handler_name, slugify, validate_project_name};
use trueos_rads::project_templates::{available_project_templates, find_project_template};
use trueos_rads::templates::escape_html;

#[test]
fn every_starter_keeps_optional_capabilities_off() {
    for template in available_project_templates() {
        let n = template.capabilities.len();
        assert!(n >= 2);
        assert_eq!(template.capabilities[n - 2].key, "fs.user");
        assert!(!template.capabilities[n - 2].enabled);
        assert_eq!(template.capabilities[n - 1].key, "net.client");
        assert!(!template.capabilities[n - 1].enabled);
    }
}

#[test]
fn every_starter_is_found_by_its_id() {
    for template in available_project_templates() {
        let found = find_project_template(template.id).unwrap();
        assert_eq!(found.id, template.id);
        assert_eq!(found.name, template.name);
    }
    assert!(find_project_template("nope").is_none());
}

#[test]
fn snapped_values_are_grid_multiples() {
    for value in [-1000, -13, -4, -3, 0, 3, 4, 5, 13, 999] {
        for grid in [1u32, 2, 7, 8, 10] {
            assert_eq!(snap_value(value, grid) % grid as i32, 0, "{value} {grid}");
        }
    }
    assert_eq!(snap_value(13, 0), 13);
}

#[test]
fn slugs_are_clean_even_for_odd_names() {
    for name in ["  --Ünïcödé!!__Name--  ", "a---b", "ÄÖÜ", "x".repeat(100).as_str(), "9 lives"] {
        let slug = slugify(name);
        assert!(slug.len() <= 64);
        assert!(slug.chars().all(|c| c.is_ascii_alphanumeric() || c == '-'));
        assert!(!slug.starts_with('-') && !slug.ends_with('-'));
        assert!(!slug.contains("--"));
    }
}

#[test]
fn accepted_names_have_nonempty_slugs() {
    let valid = validate_project_name("  Mixed Case 42  ").unwrap();
    assert_eq!(valid.display, "Mixed Case 42");
    assert_eq!(valid.slug, "mixed-case-42");
}

#[test]
fn handler_names_are_identifiers() {
    let name = event_handler_name("9 Weird-Name", "on Change!");
    assert!(name.starts_with("on_"));
    assert!(name.chars().all(|c| c.is_ascii_alphanumeric() || c == '_'));
    assert_eq!(name, "on_c_9_weird_name_on_change");
}

#[test]
fn escaped_html_holds_no_markup_characters() {
    let escaped = escape_html("<script>alert('x' + \"y\")</script>");
    assert!(!escaped.contains(['<', '>', '"', '\'']));
}

#[test]
fn accepted_relative_paths_never_climb_out() {
    for path in ["a/b", "./a", "a/./b/", "x//y"] {
        let p = project_relative_path(path).unwrap();
        assert!(!p.starts_with('/'));
        assert!(!p.split('/').any(|part| part == ".." || part == "." || part.is_empty()));
    }
}

#[test]
fn ascii_slugs_are_stable() {
    for name in [" Hello, UI2!! ", "RADS_pack.auto", "--A--B--", "x".repeat(90).as_str(), "con", ""] {
        let slug = slugify(name);
        assert_eq!(slugify(&slug), slug, "{name}");
    }
}

#[test]
fn slugs_of_any_name_are_lowercase_and_stable() {
    let slug = slugify("İSTANBUL Ünïcode");
    assert_eq!(slug, "i-stanbul-n-code");
    for name in ["İSTANBUL Ünïcode", "ΣΊΣΥΦΟΣ Ǆemal", "ÅNGSTRÖM Ⅻ", "ß-Straße"] {
        let slug = slugify(name);
        assert!(slug.chars().all(|c| c.is_ascii_lowercase() || c.is_ascii_digit() || c == '-'));
        assert_eq!(slugify(&slug), slug, "{name}");
    }
}

#[test]
fn snapping_takes_the_nearest_multiple() {
    assert_eq!(snap_value(13, 8), 16);
    assert_eq!(snap_value(57, 8), 56);
    assert_eq!(snap_value(101, 10), 100);
    assert_eq!(snap_value(-4, 8), -8);
    assert_eq!(snap_value(5, 0), 5);
    assert_eq!(snap_value(4, 8), 8);
    assert_eq!(snap_value(3, 8), 0);
    assert_eq!(snap_value(-3, 8), 0);
    assert_eq!(snap_value(7, 3), 6);
    assert_eq!(snap_value(8, 3), 9);
    for grid in [1u32, 2, 3, 8, 10] {
        let mut last = i32::MIN;
        for value in -40..=40 {
            let r = snap_value(value, grid);
            let g = grid as i32;
            assert_eq!(r % g, 0);
            assert!((r - value).abs() <= g / 2);
            for k in -20..=20 {
                let d = (k * g - value).abs();
                assert!(d >= (r - value).abs());
                if d == (r - value).abs() {
                    assert!((k * g).abs() <= r.abs());
                }
            }
            assert_eq!(snap_value(-value, grid), -r);
            assert_eq!(snap_value(r, grid), r);
            assert!(last <= r);
            last = r;
        }
    }
}

#[test]
fn unquoted_args_split_at_whitespace() {
    for line in ["", "   ", "run", "  a  b\tc ", "--model x\u{3000}--fast\n", "one\u{a0}two"] {
        let expected: Vec<String> = line.split_whitespace().map(String::from).collect();
        assert_eq!(split_args(line), Ok(expected), "{line:?}");
    }
    assert_eq!(split_args("  a  b\tc "), Ok(vec!["a".to_string(), "b".to_string(), "c".to_string()]));
}

#[test]
fn new_jobs_come_first() {
    let kind = |p: &str| JobKind::Generate { project: p.to_string() };
    let mut book = JobBook::new();
    for id in 1..=(MAX_RECENT_JOBS as u128) {
        book.spawn(id, kind("/tmp/p"), id as i64).unwrap();
    }
    assert_eq!(book.list().len(), MAX_RECENT_JOBS);
    assert!(book.get(1).is_some());
    book.spawn(500, kind("/tmp/q"), 900).unwrap();
    let jobs = book.list();
    assert_eq!(jobs.len(), MAX_RECENT_JOBS);
    assert_eq!(jobs[0].id, 500);
    assert_eq!(jobs[1].id, MAX_RECENT_JOBS as u128);
    assert!(book.get(500).is_some());
    assert!(book.get(1).is_none());
    assert!(book.get(2).is_some());
}

#[test]
fn starters_are_found_exactly_by_their_ids() {
    for t in available_project_templates() {
        assert_eq!(find_project_template(t.id).unwrap().id, t.id);
    }
    assert!(find_project_template("missing-template").is_none());
    assert!(find_project_template("").is_none());
    assert!(find_project_template("Canvas-App").is_none());
    assert_eq!(find_project_template("canvas-app").unwrap().name, "Canvas App");
}

#[test]
fn relative_paths_are_checked_exactly() {
    assert_eq!(project_relative_path("./src/./events.rs").unwrap(), "src/events.rs");
    assert_eq!(project_relative_path("a//b/").unwrap(), "a/b");
    assert!(project_relative_path("").is_err());
    assert!(project_relative_path("./.").is_err());
    assert!(project_relative_path("/etc/passwd").is_err());
    assert!(project_relative_path("src/../Cargo.toml").is_err());
    assert!(project_relative_path("../Cargo.toml").unwrap_err().contains("inside the project"));
}

#[test]
fn spawned_jobs_start_queued() {
    let kind = JobKind::Generate { project: "/tmp/p".to_string() };
    let mut book = JobBook::new();
    book.spawn(9, kind.duplicate(), 77);
    let job = book.get(9).unwrap();
    assert_eq!(job.status, JobStatus::Queued);
    assert!(job.current_stage.is_none());
    let stages = job.stages.iter().map(|s| s.stage).collect::<Vec<_>>();
    assert_eq!(stages, pipeline_for_kind(&kind));
    assert!(job.stages.iter().all(|s| s.status == JobStatus::Queued));
    assert_eq!(job.lines, vec!["queued".to_string()]);
    assert_eq!(job.events.len(), 1);
    assert_eq!(job.events[0].line, "queued");
    assert_eq!(job.events[0].sequence, 1);
}
