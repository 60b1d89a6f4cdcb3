use cider::config::{
    backend_is_docker, Action, ActionConfig, Condition, Pipeline, PipelineConfig,
    ShareableConfiguration, Step, TopLevelConfiguration,
};
use cider::string_map::StringMap;
use cider::text::{contains, has_prefix, same_text, split};
use cider::watcher::{WatchMode, Watcher};

fn shared(backend: &str, image: Option<&str>) -> ShareableConfiguration {
    ShareableConfiguration::new(
        None,
        None,
        None,
        "Rust".to_string(),
        image.map(|i| i.to_string()),
        backend.to_string(),
        "./dist/cider".to_string(),
        "./src".to_string(),
        None,
    )
}

fn named_action(name: &str) -> Action {
    let mut s = shared("bash", None);
    s.set_title(name.to_string());
    Action::new(
        s,
        ActionConfig::new(
            None,
            None,
            None,
            vec![Step::new("s".to_string(), "true".to_string())],
        ),
    )
}

fn pipeline(name: &str, actions: &[&str]) -> Pipeline {
    let mut s = shared("bash", None);
    s.set_title(name.to_string());
    Pipeline::new(
        s,
        PipelineConfig::new(
            None,
            actions.iter().map(|a| a.to_string()).collect(),
            actions.iter().map(|a| named_action(a)).collect(),
            None,
        ),
    )
}

#[test]
fn a_new_configuration_holds_its_fields() {
    let mut metadata = StringMap::new();
    metadata.insert("k".to_string(), "v".to_string());
    let s = ShareableConfiguration::new(
        Some(metadata.clone()),
        Some("title".to_string()),
        None,
        "Rust".to_string(),
        Some("img".to_string()),
        "docker".to_string(),
        "./dist/cider".to_string(),
        "./src".to_string(),
        Some(vec!["./target".to_string()]),
    );
    assert_eq!(s.get_metadata(), Some(metadata));
    assert_eq!(s.get_title(), Some("title".to_string()));
    assert_eq!(s.get_tags(), None);
    assert_eq!(s.get_language(), "Rust");
    assert_eq!(s.get_image(), Some("img".to_string()));
    assert_eq!(s.get_backend(), "docker");
    assert_eq!(s.get_output(), "./dist/cider");
    assert_eq!(s.get_source(), "./src");
    assert_eq!(s.get_ignore_dirs(), Some(vec!["./target".to_string()]));
}

#[test]
fn an_image_needs_the_docker_backend() {
    assert_eq!(shared("bash", Some("img")).get_image(), None);
    assert_eq!(shared("", Some("img")).get_image(), None);
    assert_eq!(shared("podman", Some("img")).get_image(), None);
    assert_eq!(shared("docker", Some("img")).get_image(), Some("img".to_string()));
    assert_eq!(shared("DoCkEr", Some("img")).get_image(), Some("img".to_string()));
    assert_eq!(shared("docker", None).get_image(), None);
    assert!(backend_is_docker("DOCKER"));
    assert!(!backend_is_docker("docker "));
}

#[test]
fn setting_an_image_needs_the_docker_backend() {
    let mut s = shared("bash", None);
    s.set_image("rust:1.65.0".to_string());
    assert_eq!(s.get_image(), None);
    let mut s = shared("docker", None);
    s.set_image("rust:1.65.0".to_string());
    assert_eq!(s.get_image(), Some("rust:1.65.0".to_string()));
}

#[test]
fn leaving_the_docker_backend_drops_the_image() {
    let mut s = shared("docker", Some("img"));
    s.set_backend("Docker".to_string());
    assert_eq!(s.get_image(), Some("img".to_string()));
    assert_eq!(s.get_backend(), "Docker");
    s.set_backend("bash".to_string());
    assert_eq!(s.get_backend(), "bash");
    assert_eq!(s.get_image(), None);
    s.set_backend("docker".to_string());
    assert_eq!(s.get_image(), None);
}

#[test]
fn setters_change_their_own_field() {
    let mut s = shared("bash", None);
    let mut map = StringMap::new();
    map.insert("some tag".to_string(), "some data".to_string());
    s.set_metadata(map.clone());
    assert_eq!(s.get_metadata().unwrap(), map);
    s.set_tags(map.clone());
    assert_eq!(s.get_tags().unwrap(), map);
    s.set_title("Cider".to_string());
    assert_eq!(s.get_title().unwrap(), "Cider");
    s.set_language("Go".to_string());
    assert_eq!(s.get_language(), "Go");
    s.set_output("/out".to_string());
    assert_eq!(s.get_output(), "/out");
    s.set_source("/src".to_string());
    assert_eq!(s.get_source(), "/src");
    assert_eq!(s.get_backend(), "bash");
    s.set_ignore_dirs(vec!["/x".to_string()]);
    assert_eq!(s.get_ignore_dirs(), Some(vec!["/x".to_string()]));
}

#[test]
fn action_configuration_has_its_defaults() {
    let c = ActionConfig::new(None, None, None, vec![]);
    assert_eq!(c.get_conditions(), None);
    assert_eq!(*c.get_retries(), 0);
    assert_eq!(*c.get_allowed_failure(), false);
    assert!(c.get_manual().is_empty());
    let c = ActionConfig::new(
        Some(vec![Condition::new("n".to_string(), "c".to_string())]),
        Some(-4),
        Some(true),
        vec![Step::new("s".to_string(), "x".to_string())],
    );
    assert_eq!(c.get_conditions().unwrap()[0].get_name(), "n");
    assert_eq!(*c.get_retries(), -4);
    assert_eq!(*c.get_allowed_failure(), true);
    assert_eq!(c.get_manual()[0].get_script(), "x");
}

#[test]
fn action_configuration_can_be_changed() {
    let mut c = ActionConfig::new(None, None, None, vec![]);
    c.set_conditions(vec![Condition::new("n".to_string(), "c".to_string())]);
    c.set_retries(7);
    c.set_allowed_failure(true);
    c.set_manual(vec![Step::new("s".to_string(), "x".to_string())]);
    assert_eq!(c.get_conditions().unwrap().len(), 1);
    assert_eq!(*c.get_retries(), 7);
    assert_eq!(*c.get_allowed_failure(), true);
    assert_eq!(c.get_manual().len(), 1);
}

#[test]
fn steps_and_conditions_can_be_updated() {
    let mut step = Step::new("a".to_string(), "b".to_string());
    step.update_script("c".to_string(), "d".to_string());
    assert_eq!(step.get_name(), "c");
    assert_eq!(step.get_script(), "d");
    let mut condition = Condition::new("a".to_string(), "b".to_string());
    condition.update_condition("c".to_string(), "d".to_string());
    assert_eq!(condition.get_name(), "c");
    assert_eq!(condition.get_condition(), "d");
}

#[test]
fn pipeline_configuration_has_its_defaults() {
    let mut c = PipelineConfig::new(None, vec!["a".to_string()], vec![named_action("a")], None);
    assert_eq!(
        c.get_conditions(),
        Err("No conditions found or no conditions configured.")
    );
    assert_eq!(c.get_action_defs(), &vec!["a".to_string()]);
    assert_eq!(c.get_actions().len(), 1);
    assert!(!c.get_has_run());
    assert!(c.get_requires().is_empty());
    c.set_conditions(vec![Condition::new("n".to_string(), "c".to_string())]);
    assert_eq!(c.get_conditions().unwrap().len(), 1);
    let c = PipelineConfig::new(None, vec![], vec![], Some(vec!["other".to_string()]));
    assert_eq!(c.get_requires(), &vec!["other".to_string()]);
}

#[test]
fn all_actions_are_the_top_level_actions_then_those_of_each_pipeline() {
    let config = TopLevelConfiguration::new(
        shared("bash", None),
        vec!["build".to_string(), "idle".to_string(), "deploy".to_string()],
        vec![
            pipeline("build", &["c", "d"]),
            pipeline("idle", &[]),
            pipeline("deploy", &["e"]),
        ],
        vec!["a".to_string(), "b".to_string()],
        vec![named_action("a"), named_action("b")],
    );
    let all = config.get_all_actions();
    let names: Vec<String> = all
        .iter()
        .map(|a| a.shared_config.get_title().unwrap())
        .collect();
    assert_eq!(names, vec!["a", "b", "c", "d", "e"]);
    assert_eq!(all.len(), 2 + 2 + 0 + 1);
    assert_eq!(all[0], config.get_actions()[0]);
    assert_eq!(all[4], config.get_pipelines()[2].pipeline_config.get_actions()[0]);
}

#[test]
fn a_configuration_without_actions_has_none_in_all() {
    let config = TopLevelConfiguration::new(shared("bash", None), vec![], vec![], vec![], vec![]);
    assert!(config.get_all_actions().is_empty());
}

#[test]
fn the_parts_of_a_configuration_can_be_replaced() {
    let mut config =
        TopLevelConfiguration::new(shared("bash", None), vec![], vec![], vec![], vec![]);
    let p = vec![
        "Pipeline_1".to_string(),
        "Pipeline_2".to_string(),
        "Pipeline_3".to_string(),
    ];
    config.set_pipeline_defs(p.clone());
    assert_eq!(config.get_pipeline_defs(), &p);
    let a = vec!["Action_1".to_string(), "Action_2".to_string()];
    config.set_action_defs(a.clone());
    assert_eq!(config.get_action_defs(), &a);
    config.set_pipelines(vec![pipeline("Pipeline_1", &["x"])]);
    assert_eq!(config.get_pipelines().len(), 1);
    config.set_actions(vec![named_action("Action_1")]);
    assert_eq!(config.get_actions().len(), 1);
    config.set_shared_config(shared("docker", Some("img")));
    assert_eq!(config.get_shared_config().get_backend(), "docker");
    assert_eq!(config.s_config.get_image(), Some("img".to_string()));
    assert_eq!(config.get_all_actions().len(), 2);
}

#[test]
fn a_copy_is_equal_to_what_was_copied() {
    let config = TopLevelConfiguration::new(
        shared("docker", Some("img")),
        vec!["p".to_string()],
        vec![pipeline("p", &["x", "y"])],
        vec!["a".to_string()],
        vec![named_action("a")],
    );
    assert_eq!(config.clone(), config);
}

#[test]
fn a_string_map_keeps_one_value_for_each_key() {
    let mut map = StringMap::new();
    assert!(map.is_empty());
    map.insert("a".to_string(), "1".to_string());
    map.insert("b".to_string(), "2".to_string());
    map.insert("a".to_string(), "3".to_string());
    assert!(!map.is_empty());
    assert_eq!(map.entry_count(), 2);
    assert_eq!(map.get("a"), Some(&"3".to_string()));
    assert_eq!(map.get("b"), Some(&"2".to_string()));
    assert_eq!(map.get("c"), None);
    assert_eq!(map.entry(0), ("a", "3"));
    assert_eq!(map.entry(1), ("b", "2"));
    assert_eq!(map.clone(), map);
}

#[test]
fn texts_are_split_at_every_separator() {
    assert_eq!(split("a  b", ' '), vec!["a", "", "b"]);
    assert_eq!(split("", ' '), vec![""]);
    assert_eq!(split(" ", ' '), vec!["", ""]);
    assert_eq!(split("gr\u{fc}n blau", ' '), vec!["gr\u{fc}n", "blau"]);
}

#[test]
fn patterns_are_found_in_texts() {
    assert!(contains("cat ../test.txt", "./"));
    assert!(contains("abc", ""));
    assert!(contains("abc", "abc"));
    assert!(contains("abc", "c"));
    assert!(!contains("cat test.txt", "./"));
    assert!(!contains("ab", "abc"));
    assert!(has_prefix("/a/b/c", "/a/b"));
    assert!(!has_prefix("/a", "/a/b"));
    assert!(same_text("x", "x"));
    assert!(!same_text("x", "y"));
    assert!(!same_text("x", "xy"));
}

#[test]
fn a_watcher_has_the_default_mode() {
    let w = Watcher::new(None, true, "/work/src".to_string());
    assert_eq!(w.get_mode(), WatchMode::Default);
    assert!(w.is_watching());
    assert_eq!(w.get_watch_dir(), "/work/src");
    let w = Watcher::new(Some(WatchMode::Default), false, String::new());
    assert!(!w.is_watching());
}

#[test]
fn string_maps_are_equal_whatever_the_order_of_their_entries() {
    let mut first = StringMap::new();
    first.insert("a".to_string(), "1".to_string());
    first.insert("b".to_string(), "2".to_string());
    let mut second = StringMap::new();
    second.insert("b".to_string(), "2".to_string());
    second.insert("a".to_string(), "1".to_string());
    assert_eq!(first, second);
    assert!(first.is_covered_by(&second));
    let mut third = StringMap::new();
    third.insert("a".to_string(), "1".to_string());
    assert_ne!(first, third);
    assert_ne!(third, first);
    assert!(third.is_covered_by(&first));
    assert!(!first.is_covered_by(&third));
    third.insert("b".to_string(), "3".to_string());
    assert_ne!(first, third);
    assert_eq!(StringMap::new(), StringMap::new());
    let mut one = shared("bash", None);
    one.set_metadata(first);
    let mut other = shared("bash", None);
    other.set_metadata(second);
    assert_eq!(one, other);
}
