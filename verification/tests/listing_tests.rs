use trueos_rads::file_store::{
    path_key_parts, sort_file_entries, ProjectFileEntry, ProjectFileKind,
};
use trueos_rads::ordering::{key_less, sort_by_parts, str_less};
use trueos_rads::server::asset_entries;

fn entry(path: &str) -> ProjectFileEntry {
    ProjectFileEntry {
        path: path.to_string(),
        name: path.rsplit('/').next().unwrap().to_string(),
        kind: ProjectFileKind::File,
        size: path.len() as u64,
        modified_at: None,
        generated: false,
        writable: true,
    }
}

#[test]
fn strings_compare_by_code_point() {
    assert!(str_less("a", "b"));
    assert!(str_less("a", "ab"));
    assert!(!str_less("ab", "a"));
    assert!(!str_less("a", "a"));
    assert!(str_less("Z", "a"));
    assert!(str_less("z", "é"));
    assert!(!str_less("", ""));
}

#[test]
fn keys_compare_by_depth_then_parts() {
    let k = |parts: &[&str]| parts.iter().map(|p| p.to_string()).collect::<Vec<_>>();
    assert!(key_less(&k(&["zz"]), &k(&["a", "b"])));
    assert!(key_less(&k(&["a", "b"]), &k(&["a-b", "a"])));
    assert!(!key_less(&k(&["a", "b"]), &k(&["a", "b"])));
    assert!(key_less(&k(&["src", "a.rs"]), &k(&["src", "b.rs"])));
}

#[test]
fn file_entries_list_shallow_paths_first() {
    let entries = vec![
        entry("src/main.rs"),
        entry("ui/windows/main.ui2.json"),
        entry("Cargo.toml"),
        entry("ui"),
        entry("src"),
        entry("src/events.rs"),
        entry("README.md"),
    ];
    let sorted = sort_file_entries(entries);
    let paths = sorted.iter().map(|e| e.path.as_str()).collect::<Vec<_>>();
    assert_eq!(
        paths,
        vec![
            "Cargo.toml",
            "README.md",
            "src",
            "ui",
            "src/events.rs",
            "src/main.rs",
            "ui/windows/main.ui2.json"
        ]
    );
    assert_eq!(path_key_parts("ui/windows/x"), vec!["ui", "windows", "x"]);
}

#[test]
fn path_order_compares_parts_not_text() {
    let sorted = sort_file_entries(vec![entry("a-b/c"), entry("a/b")]);
    assert_eq!(sorted[0].path, "a/b");
    assert_eq!(sorted[1].path, "a-b/c");
}

#[test]
fn sorting_keeps_equal_keys_in_order() {
    let k = |s: &str| vec![s.to_string()];
    let sorted = sort_by_parts(vec![(k("b"), 1), (k("a"), 2), (k("b"), 3), (k("a"), 4)]);
    let values = sorted.iter().map(|p| p.1).collect::<Vec<_>>();
    assert_eq!(values, vec![2, 4, 1, 3]);
    assert!(sort_by_parts::<u8>(Vec::new()).is_empty());
}

#[test]
fn assets_list_accepted_images_by_name() {
    let files = vec![
        ("zebra.PNG".to_string(), 10),
        ("notes.txt".to_string(), 5),
        ("Logo.svg".to_string(), 7),
        ("old.bmp".to_string(), 900),
        ("noext".to_string(), 1),
        ("apple.jpeg".to_string(), 3),
    ];
    let assets = asset_entries(&files);
    let names = assets.iter().map(|a| a.name.as_str()).collect::<Vec<_>>();
    assert_eq!(names, vec!["Logo.svg", "apple.jpeg", "old.bmp", "zebra.PNG"]);
    assert_eq!(assets[3].extension, "png");
    assert_eq!(assets[3].path, "assets/zebra.PNG");
    assert_eq!(assets[3].size, 10);
    assert_eq!(assets[3].warning, None);
    assert_eq!(
        assets[2].warning,
        Some("BMP assets usually waste package space; prefer PNG or SVG.")
    );
    assert!(asset_entries(&Vec::new()).is_empty());
}

#[test]
fn equal_paths_and_names_keep_their_order() {
    let mut first = entry("src/a.rs");
    first.size = 1;
    let mut second = entry("src/a.rs");
    second.size = 2;
    let sorted = sort_file_entries(vec![entry("src/z.rs"), first, entry("a"), second]);
    let listed = sorted.iter().map(|e| (e.path.as_str(), e.size)).collect::<Vec<_>>();
    assert_eq!(listed, vec![("a", 1), ("src/a.rs", 1), ("src/a.rs", 2), ("src/z.rs", 8)]);

    let files = vec![
        ("b.png".to_string(), 3),
        ("a.png".to_string(), 2),
        ("b.png".to_string(), 1),
        ("a.png".to_string(), 9),
    ];
    let assets = asset_entries(&files);
    let listed = assets.iter().map(|a| (a.name.as_str(), a.size)).collect::<Vec<_>>();
    assert_eq!(listed, vec![("a.png", 2), ("a.png", 9), ("b.png", 3), ("b.png", 1)]);
}
