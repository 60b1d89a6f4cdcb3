use cider::config::{Action, TopLevelConfiguration};
use cider::document::{has_short_digit_runs, read_as_i8, JsonNode};
use cider::errors::{ConfigError, CustomError};
use cider::parsing::{
    build_top_level, get_mapped_property, get_property, new_top_level, overwrite_top_level,
    own_property, parse_action, parse_json_map, parse_json_string, parse_json_to_conditions,
    parse_json_to_steps, parse_json_vector, parse_pipeline, parse_shared_config,
};

const ROOT: &str = "/work/project";

/// The document that the tests read under the name `cider_config.json`.
fn config_text(name: &str) -> &'static str {
    assert_eq!(name, "cider_config.json");
    r#"{
        "title": "Cider",
        "language": "Rust",
        "backend": "bash",
        "output_directory": "./dist/cider",
        "source_directory": "./src",
        "metadata": { "author": "somebody", "version": 3 },
        "tags": { "kind": "example" },
        "pipelines": ["Pipeline_1", "Pipeline_2"],
        "actions": ["Action_1", "Action_2"],
        "Pipeline_1": {
            "backend": "docker",
            "image": "rust:1.65.0",
            "language": "Go",
            "conditions": { "os": "linux" },
            "requires": ["Pipeline_2"],
            "actions": ["Build", "Test"],
            "Build": {
                "manual": { "compile": "cargo build" }
            },
            "Test": {
                "backend": "bash",
                "language": "Python",
                "retries": 3,
                "allowed_failure": true,
                "manual": { "unit": "cargo test", "docs": "cargo doc" }
            }
        },
        "Pipeline_2": {
            "actions": ["Lint"],
            "Lint": {
                "manual": { "lint": "cargo clippy" }
            }
        },
        "Action_1": {
            "conditions": { "branch": "main" },
            "manual": { "step1": "echo hello", "step2": "cat ../test.txt" }
        },
        "Action_2": {
            "backend": "docker",
            "image": "alpine:3",
            "output_directory": "../out",
            "source_directory": "/srv/app",
            "ignore_directories": ["./target", "/abs/cache"],
            "manual": { "only": "echo 1" }
        }
    }"#
}

fn built(name: &str) -> TopLevelConfiguration {
    new_top_level(config_text(name), ROOT).unwrap()
}

fn titles(actions: &[Action]) -> Vec<String> {
    actions
        .iter()
        .map(|a| a.shared_config.get_title().unwrap())
        .collect()
}

#[test]
fn parse_json_from_file() {
    let parsed = parse_json_string(config_text("cider_config.json"));
    assert!(parsed.is_ok());
    assert!(true);
}

#[test]
fn test_parse_top_level_actions() {
    let config = built("cider_config.json");
    for action in config.get_actions() {
        println!("{:#?}", action);
    }
    assert_eq!(titles(config.get_actions()), vec!["Action_1", "Action_2"]);
    assert!(true);
}

#[test]
fn test_parse_pipeline_actions() {
    let config = built("cider_config.json");
    let mut seen = vec![];
    for pipeline in config.get_pipelines() {
        for action in pipeline.pipeline_config.get_actions() {
            println!("{:#?}", action);
            seen.push(action.shared_config.get_title().unwrap());
        }
    }
    assert_eq!(seen, vec!["Build", "Test", "Lint"]);
}

#[test]
fn test_all_actions() {
    let config = built("cider_config.json");
    let all = config.get_all_actions();
    for action in &all {
        println!("{:#?}", action);
    }
    assert_eq!(
        titles(&all),
        vec!["Action_1", "Action_2", "Build", "Test", "Lint"]
    );
}

#[test]
fn test_parse_pipeline() {
    let config = built("cider_config.json");
    for pipeline in config.get_pipelines() {
        println!("{:#?}", pipeline);
    }
    let names: Vec<String> = config
        .get_pipelines()
        .iter()
        .map(|p| p.shared_config.get_title().unwrap())
        .collect();
    assert_eq!(names, vec!["Pipeline_1", "Pipeline_2"]);
    assert_eq!(config.get_pipeline_defs(), &names);
}

#[test]
fn top_level_reads_its_own_fields() {
    let config = built("cider_config.json");
    let top = config.get_shared_config();
    assert_eq!(top.get_title(), Some("Cider".to_string()));
    assert_eq!(top.get_language(), "Rust");
    assert_eq!(top.get_backend(), "bash");
    assert_eq!(top.get_output(), "/work/project/dist/cider");
    assert_eq!(top.get_source(), "/work/project/src");
    assert_eq!(top.get_image(), None);
    let metadata = top.get_metadata().unwrap();
    assert_eq!(metadata.get("author"), Some(&"somebody".to_string()));
    assert_eq!(metadata.get("version"), Some(&"3".to_string()));
    assert_eq!(metadata.get("missing"), None);
    assert_eq!(
        top.get_tags().unwrap().get("kind"),
        Some(&"example".to_string())
    );
}

#[test]
fn top_level_defaults_apply_to_an_empty_document() {
    let config = new_top_level("{}", "/a/b").unwrap();
    let top = config.get_shared_config();
    assert_eq!(top.get_title(), None);
    assert_eq!(top.get_metadata(), None);
    assert_eq!(top.get_tags(), None);
    assert_eq!(top.get_language(), "Python");
    assert_eq!(top.get_backend(), "bash");
    assert_eq!(top.get_image(), None);
    assert_eq!(top.get_output(), "/a/b/dist/cider");
    assert_eq!(top.get_source(), "/a/b");
    assert_eq!(
        top.get_ignore_dirs(),
        Some(vec![
            "/a/b/dist".to_string(),
            "/a/b/metrics".to_string(),
            "/a/b/target".to_string(),
            "/a/b/.git".to_string(),
            "/a/b/.github".to_string(),
        ])
    );
    assert!(config.get_pipelines().is_empty());
    assert!(config.get_actions().is_empty());
    assert!(config.get_pipeline_defs().is_empty());
    assert!(config.get_action_defs().is_empty());
}

#[test]
fn an_empty_list_of_ignored_directories_is_the_default_at_the_top() {
    let config = new_top_level(r#"{"ignore_directories": []}"#, "/a/b").unwrap();
    assert_eq!(
        config.get_shared_config().get_ignore_dirs().unwrap().len(),
        5
    );
}

#[test]
fn action_level_wins_over_pipeline_and_top() {
    let config = built("cider_config.json");
    let pipeline = &config.get_pipelines()[0];
    let test = &pipeline.pipeline_config.get_actions()[1];
    assert_eq!(test.shared_config.get_language(), "Python");
    assert_eq!(test.shared_config.get_backend(), "bash");
    assert_eq!(*test.action_config.get_retries(), 3);
    assert_eq!(*test.action_config.get_allowed_failure(), true);
}

#[test]
fn pipeline_level_wins_where_the_action_declares_nothing() {
    let config = built("cider_config.json");
    let pipeline = &config.get_pipelines()[0];
    assert_eq!(pipeline.shared_config.get_language(), "Go");
    assert_eq!(pipeline.shared_config.get_backend(), "docker");
    let build = &pipeline.pipeline_config.get_actions()[0];
    assert_eq!(build.shared_config.get_language(), "Go");
    assert_eq!(build.shared_config.get_backend(), "docker");
    assert_eq!(
        build.shared_config.get_image(),
        Some("rust:1.65.0".to_string())
    );
    assert_eq!(*build.action_config.get_retries(), 0);
    assert_eq!(*build.action_config.get_allowed_failure(), false);
}

#[test]
fn top_level_value_is_used_where_no_lower_level_declares_one() {
    let config = built("cider_config.json");
    let lint = &config.get_pipelines()[1].pipeline_config.get_actions()[0];
    assert_eq!(lint.shared_config.get_language(), "Rust");
    assert_eq!(lint.shared_config.get_backend(), "bash");
    assert_eq!(lint.shared_config.get_output(), "/work/project/dist/cider");
    assert_eq!(lint.shared_config.get_source(), "/work/project/src");
    assert_eq!(
        lint.shared_config
            .get_metadata()
            .unwrap()
            .get("author"),
        Some(&"somebody".to_string())
    );
    let first = &config.get_actions()[0];
    assert_eq!(first.shared_config.get_language(), "Rust");
    assert_eq!(
        first.shared_config.get_ignore_dirs(),
        config.get_shared_config().get_ignore_dirs()
    );
}

#[test]
fn hard_default_is_used_where_no_level_declares_a_field() {
    let text = r#"{
        "pipelines": ["p"],
        "p": { "actions": ["a"], "a": { "manual": { "s": "true" } } }
    }"#;
    let config = new_top_level(text, "/a/b").unwrap();
    let action = &config.get_pipelines()[0].pipeline_config.get_actions()[0];
    assert_eq!(action.shared_config.get_backend(), "bash");
    assert_eq!(action.shared_config.get_language(), "Python");
    assert_eq!(action.shared_config.get_output(), "/a/b/dist/cider");
    assert_eq!(action.shared_config.get_source(), "/a/b");
}

#[test]
fn titles_are_the_declared_names() {
    let text = r#"{
        "actions": ["a"],
        "a": { "title": "something else", "manual": { "s": "true" } }
    }"#;
    let config = new_top_level(text, "/a/b").unwrap();
    assert_eq!(
        config.get_actions()[0].shared_config.get_title(),
        Some("a".to_string())
    );
}

#[test]
fn action_paths_are_resolved_against_the_root() {
    let config = built("cider_config.json");
    let second = &config.get_actions()[1];
    assert_eq!(second.shared_config.get_output(), "/work/out");
    assert_eq!(second.shared_config.get_source(), "/srv/app");
    assert_eq!(
        second.shared_config.get_ignore_dirs(),
        Some(vec![
            "/work/project/target".to_string(),
            "/abs/cache".to_string()
        ])
    );
}

#[test]
fn image_is_dropped_without_the_docker_backend() {
    let text = r#"{
        "image": "top:1",
        "actions": ["plain", "boxed", "shouting"],
        "plain": { "image": "mine:1", "manual": { "s": "true" } },
        "boxed": { "backend": "docker", "manual": { "s": "true" } },
        "shouting": { "backend": "DOCKER", "image": "loud:2", "manual": { "s": "true" } }
    }"#;
    let config = new_top_level(text, "/a/b").unwrap();
    assert_eq!(config.get_shared_config().get_image(), None);
    let actions = config.get_actions();
    assert_eq!(actions[0].shared_config.get_image(), None);
    assert_eq!(actions[1].shared_config.get_image(), None);
    assert_eq!(
        actions[2].shared_config.get_image(),
        Some("loud:2".to_string())
    );
}

#[test]
fn image_is_inherited_under_the_docker_backend() {
    let text = r#"{
        "backend": "docker",
        "image": "top:1",
        "actions": ["same", "other", "plain"],
        "same": { "manual": { "s": "true" } },
        "other": { "image": "mine:2", "manual": { "s": "true" } },
        "plain": { "backend": "bash", "manual": { "s": "true" } }
    }"#;
    let config = new_top_level(text, "/a/b").unwrap();
    assert_eq!(
        config.get_shared_config().get_image(),
        Some("top:1".to_string())
    );
    let actions = config.get_actions();
    assert_eq!(actions[0].shared_config.get_image(), Some("top:1".to_string()));
    assert_eq!(actions[1].shared_config.get_image(), Some("mine:2".to_string()));
    assert_eq!(actions[2].shared_config.get_image(), None);
}

#[test]
fn maps_are_replaced_whole() {
    let text = r#"{
        "metadata": { "a": "1", "b": "2" },
        "actions": ["x"],
        "x": { "metadata": { "c": "3" }, "manual": { "s": "true" } }
    }"#;
    let config = new_top_level(text, "/a/b").unwrap();
    let own = config.get_actions()[0].shared_config.get_metadata().unwrap();
    assert_eq!(own.get("c"), Some(&"3".to_string()));
    assert_eq!(own.get("a"), None);
    assert_eq!(own.entry_count(), 1);
}

#[test]
fn building_twice_gives_the_same_configuration() {
    let first = built("cider_config.json");
    let second = built("cider_config.json");
    assert_eq!(first, second);
    let document = parse_json_string(config_text("cider_config.json")).unwrap();
    let third = build_top_level(&document, ROOT).unwrap();
    assert_eq!(first, third);
}

#[test]
fn overwriting_gives_what_the_new_text_builds() {
    let old = new_top_level("{}", ROOT).unwrap();
    let fresh = overwrite_top_level(old, config_text("cider_config.json"), ROOT).unwrap();
    assert_eq!(fresh, built("cider_config.json"));
}

#[test]
fn overwriting_with_a_bad_text_fails() {
    let old = built("cider_config.json");
    let r = overwrite_top_level(old, "not json", ROOT);
    assert!(matches!(r, Err(ConfigError::ConfigMalformed(_))));
}

#[test]
fn an_action_without_steps_fails_the_build() {
    let text = r#"{ "actions": ["a"], "a": { "manual": {} } }"#;
    assert_eq!(
        new_top_level(text, ROOT),
        Err(ConfigError::ConfigInvariantViolation("a".to_string()))
    );
    let text = r#"{ "actions": ["ok", "a"], "ok": { "manual": { "s": "true" } }, "a": { "backend": "bash" } }"#;
    assert_eq!(
        new_top_level(text, ROOT),
        Err(ConfigError::ConfigInvariantViolation("a".to_string()))
    );
}

#[test]
fn a_pipeline_action_without_steps_fails_the_build() {
    let text = r#"{
        "pipelines": ["p"],
        "p": { "actions": ["a"], "a": { "manual": "not an object" } }
    }"#;
    assert_eq!(
        new_top_level(text, ROOT),
        Err(ConfigError::ConfigInvariantViolation("a".to_string()))
    );
}

#[test]
fn a_declared_action_without_a_description_is_not_found() {
    let text = r#"{ "actions": ["ghost"] }"#;
    assert_eq!(
        new_top_level(text, ROOT),
        Err(ConfigError::ConfigNotFound("ghost".to_string()))
    );
    let text = r#"{ "actions": ["ghost"], "ghost": null }"#;
    assert_eq!(
        new_top_level(text, ROOT),
        Err(ConfigError::ConfigNotFound("ghost".to_string()))
    );
}

#[test]
fn a_declared_pipeline_without_a_description_is_not_found() {
    let text = r#"{ "pipelines": ["ghost"], "actions": ["also"] }"#;
    assert_eq!(
        new_top_level(text, ROOT),
        Err(ConfigError::ConfigNotFound("ghost".to_string()))
    );
}

#[test]
fn a_pipeline_action_is_looked_up_inside_the_pipeline() {
    let text = r#"{
        "pipelines": ["p"],
        "p": { "actions": ["a"] },
        "a": { "manual": { "s": "true" } }
    }"#;
    assert_eq!(
        new_top_level(text, ROOT),
        Err(ConfigError::ConfigNotFound("a".to_string()))
    );
}

#[test]
fn a_pipeline_without_a_list_of_actions_is_malformed() {
    let text = r#"{ "pipelines": ["p"], "p": { "backend": "bash" } }"#;
    assert_eq!(
        new_top_level(text, ROOT),
        Err(ConfigError::ConfigMalformed("p".to_string()))
    );
}

#[test]
fn retries_must_be_a_small_integer() {
    let text = r#"{ "actions": ["a"], "a": { "retries": "three", "manual": { "s": "true" } } }"#;
    assert_eq!(
        new_top_level(text, ROOT),
        Err(ConfigError::ConfigMalformed("a".to_string()))
    );
    let text = r#"{ "actions": ["a"], "a": { "retries": 1000, "manual": { "s": "true" } } }"#;
    assert_eq!(
        new_top_level(text, ROOT),
        Err(ConfigError::ConfigMalformed("a".to_string()))
    );
    let text = r#"{ "actions": ["a"], "a": { "retries": -2, "manual": { "s": "true" } } }"#;
    let config = new_top_level(text, ROOT).unwrap();
    assert_eq!(*config.get_actions()[0].action_config.get_retries(), -2);
}

#[test]
fn allowed_failure_must_be_a_boolean() {
    let text = r#"{ "actions": ["a"], "a": { "allowed_failure": "yes", "manual": { "s": "true" } } }"#;
    assert_eq!(
        new_top_level(text, ROOT),
        Err(ConfigError::ConfigMalformed("a".to_string()))
    );
}

#[test]
fn a_typed_field_is_checked_before_the_steps() {
    let text = r#"{ "actions": ["a"], "a": { "retries": true } }"#;
    assert_eq!(
        new_top_level(text, ROOT),
        Err(ConfigError::ConfigMalformed("a".to_string()))
    );
}

#[test]
fn ignored_directories_must_be_strings() {
    let text = r#"{ "ignore_directories": ["ok", 5] }"#;
    assert_eq!(
        new_top_level(text, ROOT),
        Err(ConfigError::ConfigMalformed(String::new()))
    );
    let text = r#"{ "actions": ["a"], "a": { "ignore_directories": [null], "manual": { "s": "true" } } }"#;
    assert_eq!(
        new_top_level(text, ROOT),
        Err(ConfigError::ConfigMalformed("a".to_string()))
    );
}

#[test]
fn an_empty_list_of_ignored_directories_clears_them_below_the_top() {
    let text = r#"{ "actions": ["a"], "a": { "ignore_directories": [], "manual": { "s": "true" } } }"#;
    let config = new_top_level(text, ROOT).unwrap();
    assert_eq!(config.get_actions()[0].shared_config.get_ignore_dirs(), None);
}

#[test]
fn the_first_failure_in_declared_order_is_reported() {
    let text = r#"{
        "pipelines": ["p"],
        "actions": ["first", "second"],
        "p": { "actions": ["inner"], "inner": { "manual": {} } },
        "second": { "manual": {} }
    }"#;
    assert_eq!(
        new_top_level(text, ROOT),
        Err(ConfigError::ConfigInvariantViolation("inner".to_string()))
    );
    let text = r#"{
        "actions": ["first", "second"],
        "second": { "manual": {} }
    }"#;
    assert_eq!(
        new_top_level(text, ROOT),
        Err(ConfigError::ConfigNotFound("first".to_string()))
    );
}

#[test]
fn a_text_that_is_no_document_is_malformed() {
    let r = new_top_level("{ \"title\": ", ROOT);
    match r {
        Err(ConfigError::ConfigMalformed(message)) => {
            assert_eq!(message, "Unexpected end of JSON")
        }
        other => panic!("unexpected result: {:?}", other),
    }
    assert_eq!(
        parse_json_string("[1, 2,, 3]"),
        Err(CustomError::PARSINGERROR(
            "Unexpected character: , at (1:7)".to_string()
        ))
    );
}

#[test]
fn conditions_and_requirements_are_read() {
    let config = built("cider_config.json");
    let pipeline = &config.get_pipelines()[0];
    let conditions = pipeline.pipeline_config.get_conditions().unwrap();
    assert_eq!(conditions.len(), 1);
    assert_eq!(conditions[0].get_name(), "os");
    assert_eq!(conditions[0].get_condition(), "linux");
    assert_eq!(
        pipeline.pipeline_config.get_requires(),
        &vec!["Pipeline_2".to_string()]
    );
    assert_eq!(
        pipeline.pipeline_config.get_action_defs(),
        &vec!["Build".to_string(), "Test".to_string()]
    );
    assert!(!pipeline.pipeline_config.get_has_run());
    let other = &config.get_pipelines()[1];
    assert_eq!(
        other.pipeline_config.get_conditions(),
        Err("No conditions found or no conditions configured.")
    );
    assert!(other.pipeline_config.get_requires().is_empty());
    let action = &config.get_actions()[0];
    let conditions = action.action_config.get_conditions().unwrap();
    assert_eq!(conditions[0].get_name(), "branch");
    assert_eq!(conditions[0].get_condition(), "main");
    assert_eq!(config.get_actions()[1].action_config.get_conditions(), None);
}

#[test]
fn steps_keep_the_order_of_the_document() {
    let config = built("cider_config.json");
    let manual = config.get_actions()[0].action_config.get_manual();
    assert_eq!(manual.len(), 2);
    assert_eq!(manual[0].get_name(), "step1");
    assert_eq!(manual[0].get_script(), "echo hello");
    assert_eq!(manual[1].get_name(), "step2");
    assert_eq!(manual[1].get_script(), "cat ../test.txt");
}

#[test]
fn values_are_read_as_the_text_they_are_written_as() {
    let doc = parse_json_string(
        r#"{ "m": { "n": 12, "b": true, "z": null, "l": [1, "two"], "o": { "k": "v" }, "s": "text" },
             "list": ["a", 1, false, null] }"#,
    )
    .unwrap();
    let map = parse_json_map(doc.member("m").unwrap());
    assert_eq!(map.get("n"), Some(&"12".to_string()));
    assert_eq!(map.get("b"), Some(&"true".to_string()));
    assert_eq!(map.get("z"), Some(&"null".to_string()));
    assert_eq!(map.get("l"), Some(&"[1,\"two\"]".to_string()));
    assert_eq!(map.get("o"), Some(&"{\"k\":\"v\"}".to_string()));
    assert_eq!(map.get("s"), Some(&"text".to_string()));
    assert_eq!(
        parse_json_vector(doc.member("list").unwrap()),
        vec!["a", "1", "false", "null"]
    );
    assert!(parse_json_vector(doc.member("m").unwrap()).is_empty());
    assert_eq!(parse_json_map(doc.member("list").unwrap()).entry_count(), 0);
    let steps = parse_json_to_steps(doc.member("m").unwrap());
    assert_eq!(steps.len(), 6);
    assert_eq!(steps[0].get_name(), "n");
    assert_eq!(steps[0].get_script(), "12");
    let conditions = parse_json_to_conditions(doc.member("m").unwrap());
    assert_eq!(conditions.len(), 6);
    assert_eq!(conditions[5].get_name(), "s");
    assert_eq!(conditions[5].get_condition(), "text");
}

#[test]
fn properties_of_the_top_level_have_their_defaults() {
    let doc = parse_json_string(r#"{ "title": "t", "backend": null, "tags": { "a": "b" } }"#).unwrap();
    assert_eq!(get_property(&doc, "title"), Some("t".to_string()));
    assert_eq!(get_property(&doc, "backend"), Some("bash".to_string()));
    assert_eq!(get_property(&doc, "language"), Some("Python".to_string()));
    assert_eq!(get_property(&doc, "image"), None);
    assert_eq!(own_property(&doc, "backend"), None);
    assert_eq!(own_property(&doc, "title"), Some("t".to_string()));
    assert_eq!(
        get_mapped_property(&doc, "tags").unwrap().get("a"),
        Some(&"b".to_string())
    );
    assert_eq!(get_mapped_property(&doc, "metadata"), None);
}

#[test]
fn levels_can_be_built_one_by_one() {
    let doc = parse_json_string(config_text("cider_config.json")).unwrap();
    let top = parse_shared_config(&doc, ROOT).unwrap();
    let pipeline =
        parse_pipeline(&top, doc.member("Pipeline_1").unwrap(), "Pipeline_1", ROOT).unwrap();
    assert_eq!(pipeline.pipeline_config.get_actions().len(), 2);
    let action = parse_action(&top, doc.member("Action_1").unwrap(), "Action_1", ROOT).unwrap();
    assert_eq!(action.shared_config.get_title(), Some("Action_1".to_string()));
    assert_eq!(
        parse_action(&top, &JsonNode::Null, "nobody", ROOT),
        Err(ConfigError::ConfigNotFound("nobody".to_string()))
    );
    assert_eq!(
        parse_pipeline(&top, &JsonNode::Null, "nobody", ROOT),
        Err(ConfigError::ConfigNotFound("nobody".to_string()))
    );
}

#[test]
fn errors_name_their_subject() {
    assert_eq!(ConfigError::ConfigNotFound("a".to_string()).subject(), "a");
    assert_eq!(ConfigError::ConfigMalformed("b".to_string()).subject(), "b");
    assert_eq!(
        ConfigError::ConfigInvariantViolation("c".to_string()).subject(),
        "c"
    );
    assert_eq!(CustomError::PARSINGERROR("m".to_string()).message(), "m");
}

#[test]
fn the_least_number_is_read_without_a_failure() {
    let text = r#"{ "metadata": { "lowest": -9223372036854775808 } }"#;
    let config = new_top_level(text, ROOT).unwrap();
    assert_eq!(
        config
            .get_shared_config()
            .get_metadata()
            .unwrap()
            .get("lowest"),
        Some(&"-9223372036854775808".to_string())
    );
    let text = r#"{ "actions": ["a"], "a": { "retries": -9223372036854775808, "manual": { "s": "true" } } }"#;
    assert_eq!(
        new_top_level(text, ROOT),
        Err(ConfigError::ConfigMalformed("a".to_string()))
    );
    let text = r#"{ "actions": ["a"], "a": { "retries": -922337203685477580.8e1, "manual": { "s": "true" } } }"#;
    assert_eq!(
        new_top_level(text, ROOT),
        Err(ConfigError::ConfigMalformed("a".to_string()))
    );
}

#[test]
fn a_text_with_a_very_long_run_of_digits_is_not_parsed() {
    let long = format!("{{ \"metadata\": {{ \"n\": 0.{} }} }}", "0".repeat(40000));
    assert_eq!(
        parse_json_string(&long),
        Err(CustomError::PARSINGERROR(
            "A number with more than 1000 digits in a row".to_string()
        ))
    );
    assert_eq!(
        new_top_level(&long, ROOT),
        Err(ConfigError::ConfigMalformed(
            "A number with more than 1000 digits in a row".to_string()
        ))
    );
    let inside = format!("{{ \"title\": \"{}\" }}", "7".repeat(1001));
    assert!(parse_json_string(&inside).is_err());
    assert!(!has_short_digit_runs(&inside));
    let short = format!("{{ \"title\": \"{}\", \"n\": 0.{} }}", "7".repeat(1000), "0".repeat(1000));
    assert!(has_short_digit_runs(&short));
    let config = new_top_level(&short, ROOT).unwrap();
    assert_eq!(
        config.get_shared_config().get_title(),
        Some("7".repeat(1000))
    );
    assert!(has_short_digit_runs(""));
    assert!(has_short_digit_runs("12a34"));
}

#[test]
fn numbers_read_as_small_integers_as_the_parser_reads_them() {
    let texts = [
        "0", "-0", "7", "-7", "127", "128", "-128", "-129", "1e0", "1e1", "10", "1.0", "100e-2",
        "1.5", "255", "-1e-1", "9223372036854775807", "-9223372036854775807",
        "9223372036854775808", "18446744073709551615", "18446744073709551616",
        "18446744073709551489", "-18446744073709551489", "-18446744073709551615",
        "184467440737095516.15e2", "123456789012345678901234567890", "0.000", "12e5",
    ];
    for text in texts {
        let theirs = json::parse(text).unwrap();
        let ours = parse_json_string(text).unwrap();
        assert_eq!(ours.as_i8(), theirs.as_i8(), "reading of {}", text);
        assert_eq!(ours.render(), theirs.to_string(), "text of {}", text);
    }
    assert_eq!(read_as_i8(true, 5, 0), Some(5));
    assert_eq!(read_as_i8(false, 128, 0), Some(-128));
    assert_eq!(read_as_i8(false, 129, 0), None);
    assert_eq!(read_as_i8(true, 5, 1), None);
    assert_eq!(read_as_i8(false, 1 << 63, 0), None);
}
