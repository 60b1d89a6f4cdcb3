use cider::executor::ShellDialect;
use cider::path::{curate_filepath, get_path_as_string, is_absolute, resolve};

#[test]
fn a_parent_component_removes_the_last_directory() {
    assert_eq!(resolve("../x", "/a/b"), "/a/x");
}

#[test]
fn an_absolute_path_is_unchanged() {
    assert_eq!(resolve("/abs/path", "/a/b"), "/abs/path");
    assert_eq!(resolve("C:/Users/me", "/a/b"), "C:/Users/me");
    assert_eq!(resolve("D:\\Coding Projects", "/a/b"), "D:\\Coding Projects");
}

#[test]
fn an_absent_output_is_the_default_below_the_root() {
    assert_eq!(get_path_as_string(None, "/a/b", true), "/a/b/dist/cider");
}

#[test]
fn an_absent_source_is_the_root() {
    assert_eq!(get_path_as_string(None, "/a/b", false), "/a/b");
}

#[test]
fn a_given_path_is_resolved() {
    assert_eq!(
        get_path_as_string(Some("./out/../build".to_string()), "/a/b", true),
        "/a/b/build"
    );
    assert_eq!(
        get_path_as_string(Some("/srv".to_string()), "/a/b", false),
        "/srv"
    );
    assert_eq!(
        get_path_as_string(Some("src/main".to_string()), "/a/b", false),
        "/a/b/src/main"
    );
}

#[test]
fn current_directory_components_are_dropped() {
    assert_eq!(resolve("./", "/a/b"), "/a/b");
    assert_eq!(resolve("./x/./y", "/a/b"), "/a/b/x/y");
    assert_eq!(resolve("", "/a/b"), "/a/b");
}

#[test]
fn absolute_looking_paths_are_recognised() {
    assert!(is_absolute("/x"));
    assert!(is_absolute("c:x"));
    assert!(!is_absolute("x/y"));
    assert!(!is_absolute(""));
    assert!(!is_absolute("./x"));
}

#[test]
fn test_filepath_curation() {
    assert_eq!(
        "test\\log1.txt".to_owned(),
        curate_filepath("test", "log1.txt", ShellDialect::Windows)
    );
    assert_eq!(
        "test/log1.txt".to_owned(),
        curate_filepath("test", "log1.txt", ShellDialect::Posix)
    );
}

#[test]
fn test_filepath_overcuration() {
    assert_eq!(
        "test\\log1.txt".to_owned(),
        curate_filepath("test\\", "log1.txt", ShellDialect::Windows)
    );
    assert_eq!(
        "test/log1.txt".to_owned(),
        curate_filepath("test/", "log1.txt", ShellDialect::Posix)
    );
}

#[test]
fn a_file_without_a_name_gets_the_default_name() {
    assert_eq!(
        curate_filepath("dist/logs", "", ShellDialect::Posix),
        "dist/logs/default_output.txt"
    );
}
