use trueos_rads::file_store::{
    file_name, is_generated_file, is_ignored_name, path_components, project_relative_path,
    PathComponent,
};

#[test]
fn rejects_paths_outside_project() {
    let err = project_relative_path("../Cargo.toml").unwrap_err();
    assert!(err.contains("inside the project"));
    assert_eq!(
        project_relative_path("/etc/passwd").unwrap_err(),
        "project file paths must stay inside the project"
    );
    assert_eq!(
        project_relative_path("src/../../x").unwrap_err(),
        "project file paths must stay inside the project"
    );
}

#[test]
fn relative_paths_are_normalized() {
    assert_eq!(project_relative_path("src/events.rs").unwrap(), "src/events.rs");
    assert_eq!(project_relative_path("./ui//main.ui2/").unwrap(), "ui/main.ui2");
    assert_eq!(project_relative_path("").unwrap_err(), "path is required");
    assert_eq!(project_relative_path("./.").unwrap_err(), "path must name a project file");
}

#[test]
fn components_follow_unix_paths() {
    let cs = path_components("/a/./b/../c/");
    assert!(matches!(cs[0], PathComponent::RootDir));
    assert!(matches!(&cs[1], PathComponent::Normal(n) if n == "a"));
    assert!(matches!(&cs[2], PathComponent::Normal(n) if n == "b"));
    assert!(matches!(cs[3], PathComponent::ParentDir));
    assert!(matches!(&cs[4], PathComponent::Normal(n) if n == "c"));
    assert_eq!(cs.len(), 5);
    let cs = path_components("./x");
    assert!(matches!(cs[0], PathComponent::CurDir));
    assert_eq!(cs.len(), 2);
}

#[test]
fn file_names_are_the_last_normal_component() {
    assert_eq!(file_name("src/main.rs").as_deref(), Some("main.rs"));
    assert_eq!(file_name("logo.png").as_deref(), Some("logo.png"));
    assert_eq!(file_name("a/.."), None);
    assert_eq!(file_name("/"), None);
}

#[test]
fn generated_and_ignored_names_are_known() {
    assert!(is_generated_file("src/events.rs"));
    assert!(is_generated_file("ui\\main.ui2"));
    assert!(!is_generated_file("src/helper.rs"));
    assert!(is_ignored_name("target"));
    assert!(is_ignored_name(".git"));
    assert!(!is_ignored_name("dist"));
}
