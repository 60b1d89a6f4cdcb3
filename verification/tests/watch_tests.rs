use cider::loglevel::{parse_log_level, LogLevel};
use cider::text::has_suffix;
use cider::watcher::{changed_since, enters_directory, get_least_time, skips_file};

#[test]
fn the_least_time_is_the_shortest_of_the_times() {
    assert_eq!(get_least_time(1_000, &vec![700, 30, 90]), 30);
    assert_eq!(get_least_time(1_000, &vec![]), 1_000);
    assert_eq!(get_least_time(10, &vec![700, 30, 90]), 10);
    assert_eq!(get_least_time(5, &vec![5, 5]), 5);
    assert_eq!(get_least_time(u128::MAX, &vec![u128::MAX, 0]), 0);
}

#[test]
fn a_change_is_a_shorter_time_than_before() {
    assert!(changed_since(3, 10));
    assert!(!changed_since(10, 10));
    assert!(!changed_since(11, 10));
}

#[test]
fn classes_and_lock_files_are_not_watched() {
    assert!(skips_file("Main.class"));
    assert!(skips_file("package-lock.json"));
    assert!(skips_file("..class"));
    assert!(!skips_file(".class"));
    assert!(!skips_file("class"));
    assert!(!skips_file("Main.classes"));
    assert!(!skips_file("Main.java"));
    assert!(!skips_file("package.json"));
    assert!(!skips_file(""));
}

#[test]
fn ignored_directories_are_not_entered() {
    let ignored = vec!["/a/target".to_string(), "/a/.git".to_string()];
    assert!(!enters_directory("/a/target", &ignored));
    assert!(!enters_directory("/a/.git", &ignored));
    assert!(enters_directory("/a/src", &ignored));
    assert!(enters_directory("/a/target/debug", &ignored));
    assert!(enters_directory("/a/target", &vec![]));
}

#[test]
fn log_levels_have_three_spellings() {
    assert_eq!(parse_log_level("Warn"), Some(LogLevel::Warn));
    assert_eq!(parse_log_level("warn"), Some(LogLevel::Warn));
    assert_eq!(parse_log_level("WARN"), Some(LogLevel::Warn));
    assert_eq!(parse_log_level("info"), Some(LogLevel::Info));
    assert_eq!(parse_log_level("DEBUG"), Some(LogLevel::Debug));
    assert_eq!(parse_log_level("Trace"), Some(LogLevel::Trace));
    assert_eq!(parse_log_level("off"), Some(LogLevel::Off));
    assert_eq!(parse_log_level("wARN"), None);
    assert_eq!(parse_log_level("error"), None);
    assert_eq!(parse_log_level(""), None);
}

#[test]
fn suffixes_are_found_at_the_end() {
    assert!(has_suffix("a.class", ".class"));
    assert!(has_suffix("abc", ""));
    assert!(has_suffix("abc", "abc"));
    assert!(!has_suffix("a.classes", ".class"));
    assert!(!has_suffix("ss", ".class"));
}
