use cider::config::{Action, ActionConfig, ShareableConfiguration, Step};
use cider::errors::ExecError;
use cider::executor::{
    backend_from_lowercase, classify_output, clean_script_pathing, collect_piped_output,
    command_setup_unix, command_setup_windows, docker_build_unix, docker_build_windows,
    docker_clean_unix, docker_clean_windows, docker_setup_unix, docker_setup_windows,
    exec_action, exec_actions, generate_dockerfile, generate_dockerignore, image_setup,
    run_bash_scripts, run_batch_script, run_with_docker, script_setup, select_backend,
    set_output_inherit, set_output_piped, strip_source, Artifact, Backend, ExecInfo, Invocation,
    ShellDialect, Stage,
};
use cider::progress::Execution;

const SENTINEL: &str = "No standard output detected. Check to see if it was piped to another file.";

fn strings(items: &[&str]) -> Vec<String> {
    items.iter().map(|s| s.to_string()).collect()
}

fn action(backend: &str, image: Option<&str>, source: &str, steps: &[(&str, &str)]) -> Action {
    let shared = ShareableConfiguration::new(
        None,
        Some("example".to_string()),
        None,
        "Rust".to_string(),
        image.map(|i| i.to_string()),
        backend.to_string(),
        "/work/out".to_string(),
        source.to_string(),
        Some(strings(&["/work/src/target", "/work/src/.git", "/elsewhere/cache"])),
    );
    let manual = steps
        .iter()
        .map(|(n, s)| Step::new(n.to_string(), s.to_string()))
        .collect();
    Action::new(shared, ActionConfig::new(None, Some(2), Some(true), manual))
}

fn shell(program: &str, args: &[&str], directory: Option<&str>, inherit: bool) -> Stage {
    Stage::Run(Invocation {
        program: program.to_string(),
        args: strings(args),
        directory: directory.map(|d| d.to_string()),
        inherit,
    })
}

fn log(line: &str) -> Stage {
    Stage::Log(line.to_string())
}

#[test]
fn test_script_path_cleaning() {
    let expected = vec![String::from("cat"), String::from("/work/test.txt")];
    let test_script = "cat ../test.txt";
    let res = clean_script_pathing(test_script, "/work/cider-app");
    assert_eq!(res, expected);
}

#[test]
fn words_without_a_path_marker_pass_through() {
    assert_eq!(
        clean_script_pathing("echo  hello world", "/a/b"),
        strings(&["echo", "", "hello", "world"])
    );
    assert_eq!(clean_script_pathing("", "/a/b"), strings(&[""]));
}

#[test]
fn quoted_arguments_are_split_at_blanks_too() {
    assert_eq!(
        clean_script_pathing("cat \"./my file.txt\"", "/a/b"),
        strings(&["cat", "/a/b/\"./my", "file.txt\""])
    );
}

#[test]
fn absolute_words_with_a_marker_are_left_as_they_are() {
    assert_eq!(
        clean_script_pathing("ls /usr/./bin ./here", "/a/b"),
        strings(&["ls", "/usr/./bin", "/a/b/here"])
    );
}

#[test]
fn exec_info_copies_every_field() {
    let a = action("docker", Some("alpine:3"), "/work/src", &[("s", "true")]);
    let info = ExecInfo::new(&a);
    assert_eq!(info.backend, "docker");
    assert_eq!(info.image, Some("alpine:3".to_string()));
    assert_eq!(info.title, Some("example".to_string()));
    assert_eq!(info.tags, None);
    assert_eq!(info.metadata, None);
    assert_eq!(info.output, "/work/out");
    assert_eq!(info.source, "/work/src");
    assert_eq!(info.conditions, None);
    assert_eq!(info.manual.len(), 1);
    assert_eq!(info.manual[0].get_name(), "s");
    assert_eq!(info.retries, 2);
    assert_eq!(info.allowed_failure, true);
    assert_eq!(
        info.ignore_dirs,
        Some(strings(&["/work/src/target", "/work/src/.git", "/elsewhere/cache"]))
    );
}

#[test]
fn backends_are_matched_without_regard_to_case() {
    assert_eq!(select_backend("bash"), Some(Backend::Shell));
    assert_eq!(select_backend("BASH"), Some(Backend::Shell));
    assert_eq!(select_backend("Batch"), Some(Backend::Batch));
    assert_eq!(select_backend("bat"), Some(Backend::Batch));
    assert_eq!(select_backend("Docker"), Some(Backend::Docker));
    assert_eq!(select_backend("nonexistent"), None);
    assert_eq!(select_backend(""), None);
    assert_eq!(select_backend("bash "), None);
    assert_eq!(backend_from_lowercase("docker"), Some(Backend::Docker));
    assert_eq!(backend_from_lowercase("Docker"), None);
}

#[test]
fn a_shell_action_runs_each_step_in_a_shell_of_its_own() {
    let a = action(
        "bash",
        None,
        "/work/src",
        &[("first", "echo hello "), ("second", "cat ./notes.txt")],
    );
    let plan = exec_action(&a, ShellDialect::Posix, "/work").unwrap();
    assert_eq!(
        plan,
        vec![
            log("Running first"),
            shell("sh", &["-c", "echo hello"], Some("/work/src"), false),
            log("Running second"),
            shell("sh", &["-c", "cat /work/notes.txt"], Some("/work/src"), false),
        ]
    );
    let plan = exec_action(&a, ShellDialect::Windows, "/work").unwrap();
    assert_eq!(
        plan,
        vec![
            log("Running first"),
            shell("cmd", &["/C", "echo", "hello", ""], Some("/work/src"), false),
            log("Running second"),
            shell("cmd", &["/C", "cat", "/work/notes.txt"], Some("/work/src"), false),
        ]
    );
    assert_eq!(
        run_bash_scripts(&ExecInfo::new(&a), ShellDialect::Posix, "/work"),
        exec_action(&a, ShellDialect::Posix, "/work").unwrap()
    );
}

#[test]
fn a_batch_action_is_skipped_without_a_batch_interpreter() {
    let a = action("batch", None, "/work/src", &[("first", "dir")]);
    assert_eq!(
        exec_action(&a, ShellDialect::Posix, "/work").unwrap(),
        vec![log(
            "A batch script was unable to be processed on Linux and was taken care of safely."
        )]
    );
    assert_eq!(
        exec_action(&a, ShellDialect::Windows, "/work").unwrap(),
        vec![
            log("Running first"),
            shell("cmd", &["/C", "dir"], Some("/work/src"), false),
        ]
    );
    let b = action("BAT", None, "/work/src", &[("first", "dir")]);
    assert_eq!(
        run_batch_script(&ExecInfo::new(&b), ShellDialect::Windows, "/work"),
        exec_action(&a, ShellDialect::Windows, "/work").unwrap()
    );
}

#[test]
fn the_dockerfile_chains_all_steps_in_one_run_instruction() {
    let a = action(
        "docker",
        Some("alpine:3"),
        "/work/src",
        &[("a", "echo 1"), ("b", "echo 2")],
    );
    let file = generate_dockerfile(&ExecInfo::new(&a));
    assert_eq!(file.path, "/work/src/Dockerfile");
    assert_eq!(
        file.contents,
        "FROM alpine:3\r\nWORKDIR /cider/app\r\nCOPY . ./\r\nRUN echo 1 && \\\r\n    echo 2"
    );
    assert_eq!(file.contents.matches("RUN").count(), 1);
}

#[test]
fn the_dockerfile_has_no_continuation_after_the_last_step() {
    let a = action("docker", Some("img"), "/s", &[("a", "same"), ("b", "x"), ("c", "same")]);
    let file = generate_dockerfile(&ExecInfo::new(&a));
    assert_eq!(
        file.contents,
        "FROM img\r\nWORKDIR /cider/app\r\nCOPY . ./\r\nRUN same && \\\r\n    x && \\\r\n    same"
    );
    let single = action("docker", Some("img"), "/s", &[("a", "only")]);
    assert_eq!(
        generate_dockerfile(&ExecInfo::new(&single)).contents,
        "FROM img\r\nWORKDIR /cider/app\r\nCOPY . ./\r\nRUN only"
    );
}

#[test]
fn the_dockerfile_takes_the_default_image_where_there_is_none() {
    let a = action("docker", None, "/s", &[("a", "true")]);
    assert_eq!(
        generate_dockerfile(&ExecInfo::new(&a)).contents,
        "FROM alpine:latest\r\nWORKDIR /cider/app\r\nCOPY . ./\r\nRUN true"
    );
}

#[test]
fn the_ignore_file_names_directories_relative_to_the_source() {
    let a = action("docker", Some("alpine:3"), "/work/src", &[("a", "true")]);
    let file = generate_dockerignore(&ExecInfo::new(&a));
    assert_eq!(file.path, "/work/src/.dockerignore");
    assert_eq!(file.contents, "target\r\n.git\r\n/elsewhere/cache\r\n");
    assert_eq!(strip_source("/work/src/a/b", "/work/src/"), "a/b");
    assert_eq!(strip_source("/work/srcs/a", "/work/src"), "/work/srcs/a");
    assert_eq!(strip_source("/work/src", "/work/src"), "/work/src");
}

#[test]
fn the_ignore_file_is_empty_without_ignored_directories() {
    let mut info = ExecInfo::new(&action("docker", None, "/s", &[("a", "true")]));
    info.ignore_dirs = None;
    assert_eq!(generate_dockerignore(&info).contents, "");
}

#[test]
fn a_container_action_writes_two_files_and_runs_three_commands() {
    let a = action("Docker", Some("alpine:3"), "/work/src", &[("a", "echo 1")]);
    let info = ExecInfo::new(&a);
    let plan = exec_action(&a, ShellDialect::Posix, "/work").unwrap();
    assert_eq!(
        plan,
        vec![
            Stage::Write(generate_dockerignore(&info)),
            Stage::Write(generate_dockerfile(&info)),
            shell("sh", &["-c", "docker pull alpine:3"], Some("/work/src"), true),
            shell("sh", &["-c", "docker image rm -f cider-image"], None, true),
            shell("sh", &["-c", "docker build -t cider-image ."], Some("/work/src"), true),
        ]
    );
    let plan = run_with_docker(ExecInfo::new(&a), ShellDialect::Windows);
    assert_eq!(
        plan[2..],
        [
            shell("cmd", &["/C", "docker", "pull", "alpine:3"], Some("/work/src"), true),
            shell("cmd", &["/C", "docker", "image", "rm", "-f", "cider-image"], None, true),
            shell(
                "cmd",
                &["/C", "docker", "build", "-t", "cider-image", ".", "--no-cache"],
                Some("/work/src"),
                true
            ),
        ]
    );
}

#[test]
fn a_container_action_without_an_image_takes_the_default_and_says_so() {
    let a = action("docker", None, "/work/src", &[("a", "echo 1")]);
    let plan = exec_action(&a, ShellDialect::Posix, "/work").unwrap();
    assert_eq!(plan.len(), 6);
    assert_eq!(
        plan[0],
        log("There was no docker image found to build off of. Using Alpine Linux by default.")
    );
    assert_eq!(
        plan[3],
        shell("sh", &["-c", "docker pull alpine:latest"], Some("/work/src"), true)
    );
    match &plan[2] {
        Stage::Write(Artifact { contents, .. }) => {
            assert!(contents.starts_with("FROM alpine:latest\r\n"))
        }
        other => panic!("unexpected stage: {:?}", other),
    }
}

#[test]
fn image_setup_fills_in_the_default_image() {
    let mut info = ExecInfo::new(&action("docker", None, "/s", &[("a", "true")]));
    let mut outputs = vec!["before".to_string()];
    image_setup(&mut info, &mut outputs);
    assert_eq!(info.image, Some("alpine:latest".to_string()));
    assert_eq!(
        outputs,
        strings(&[
            "before",
            "There was no docker image found to build off of. Using Alpine Linux by default."
        ])
    );
    image_setup(&mut info, &mut outputs);
    assert_eq!(outputs.len(), 2);
    let mut named = ExecInfo::new(&action("docker", Some("mine"), "/s", &[("a", "true")]));
    image_setup(&mut named, &mut outputs);
    assert_eq!(named.image, Some("mine".to_string()));
    assert_eq!(outputs.len(), 2);
}

#[test]
fn an_unknown_backend_fails_the_whole_run() {
    let good = action("bash", None, "/s", &[("a", "true")]);
    let bad = action("nonexistent", None, "/s", &[("a", "true")]);
    let later = action("docker", None, "/s", &[("a", "true")]);
    assert_eq!(
        exec_actions(&vec![good, bad, later], ShellDialect::Posix, "/work"),
        Err(ExecError::UnsupportedBackend("nonexistent".to_string()))
    );
    let bad = action("nonexistent", None, "/s", &[("a", "true")]);
    assert_eq!(
        exec_action(&bad, ShellDialect::Posix, "/work"),
        Err(ExecError::UnsupportedBackend("nonexistent".to_string()))
    );
}

#[test]
fn the_first_unknown_backend_is_reported() {
    let one = action("zsh", None, "/s", &[("a", "true")]);
    let two = action("fish", None, "/s", &[("a", "true")]);
    assert_eq!(
        exec_actions(&vec![one, two], ShellDialect::Posix, "/work"),
        Err(ExecError::UnsupportedBackend("zsh".to_string()))
    );
}

#[test]
fn a_run_has_one_plan_for_each_action_in_order() {
    let one = action("bash", None, "/s", &[("a", "true")]);
    let two = action("batch", None, "/s", &[("b", "dir")]);
    let plans = exec_actions(&vec![one, two], ShellDialect::Posix, "/work").unwrap();
    assert_eq!(plans.len(), 2);
    assert_eq!(plans[0][0], log("Running a"));
    assert_eq!(plans[1].len(), 1);
    assert_eq!(
        exec_actions(&vec![], ShellDialect::Posix, "/work"),
        Ok(vec![])
    );
}

#[test]
fn output_is_classified_by_what_was_written() {
    assert_eq!(classify_output("hello\n", "warning\n"), "hello");
    assert_eq!(classify_output("", "oops \r\n"), "oops");
    assert_eq!(classify_output("", ""), SENTINEL);
    assert_eq!(classify_output("  indented\t \n", ""), "  indented");
    assert_eq!(classify_output("\n", "error"), "");
}

#[test]
fn captured_output_must_be_text() {
    let mut outputs = vec![];
    assert_eq!(
        collect_piped_output(b"hello\n".to_vec(), vec![], &mut outputs),
        Ok(())
    );
    assert_eq!(
        collect_piped_output(vec![0xff, 0xfe], vec![], &mut outputs),
        Err(ExecError::OutputNotText)
    );
    assert_eq!(
        collect_piped_output(vec![], vec![0xc0], &mut outputs),
        Err(ExecError::OutputNotText)
    );
    assert_eq!(
        collect_piped_output(vec![], "gr\u{fc}n\n".as_bytes().to_vec(), &mut outputs),
        Ok(())
    );
    assert_eq!(outputs, strings(&["hello", "gr\u{fc}n"]));
}

#[test]
fn a_step_is_announced_before_it_runs() {
    let mut outputs = vec![];
    let step = Step::new("build".to_string(), "make ./all".to_string());
    let words = script_setup(&mut outputs, &step, "/work");
    assert_eq!(outputs, strings(&["Running build"]));
    assert_eq!(words, strings(&["make", "/work/all"]));
}

#[test]
fn commands_are_built_for_each_shell() {
    let words = strings(&["echo", "a", "b"]);
    let unix = command_setup_unix(&words, false, "/s".to_string());
    assert_eq!(
        Stage::Run(unix),
        shell("sh", &["-c", "echo a b"], Some("/s"), false)
    );
    let windows = command_setup_windows(words, true, "/s".to_string());
    assert_eq!(
        Stage::Run(windows),
        shell("cmd", &["/C", "echo", "a", "b"], Some("/s"), true)
    );
    let empty = command_setup_unix(&vec![], true, "/s".to_string());
    assert_eq!(Stage::Run(empty), shell("sh", &["-c", ""], Some("/s"), true));
}

#[test]
fn output_can_be_inherited_or_piped() {
    let command = docker_clean_unix(false);
    assert!(!command.inherit);
    let command = set_output_inherit(command);
    assert!(command.inherit);
    let command = set_output_piped(command);
    assert!(!command.inherit);
    assert_eq!(command.program, "sh");
}

#[test]
fn docker_commands_are_built_for_each_shell() {
    let info = ExecInfo::new(&action("docker", Some("img:1"), "/s", &[("a", "true")]));
    assert_eq!(
        Stage::Run(docker_setup_unix(&info, false)),
        shell("sh", &["-c", "docker pull img:1"], Some("/s"), false)
    );
    assert_eq!(
        Stage::Run(docker_setup_windows(&info, false)),
        shell("cmd", &["/C", "docker", "pull", "img:1"], Some("/s"), false)
    );
    assert_eq!(
        Stage::Run(docker_clean_windows(true)),
        shell("cmd", &["/C", "docker", "image", "rm", "-f", "cider-image"], None, true)
    );
    assert_eq!(
        Stage::Run(docker_build_unix(&info, true)),
        shell("sh", &["-c", "docker build -t cider-image ."], Some("/s"), true)
    );
    assert_eq!(
        Stage::Run(docker_build_windows(&info, false)),
        shell(
            "cmd",
            &["/C", "docker", "build", "-t", "cider-image", ".", "--no-cache"],
            Some("/s"),
            false
        )
    );
}

#[test]
fn the_log_interleaves_announcements_and_output() {
    let a = action(
        "bash",
        None,
        "/work/src",
        &[("first", "echo hello"), ("second", "true")],
    );
    let plans = exec_actions(&vec![a], ShellDialect::Posix, "/work").unwrap();
    let mut run = Execution::new(plans);
    assert_eq!(run.next(), Some(log("Running first")));
    run.complete(vec![], vec![]).unwrap();
    assert_eq!(
        run.next(),
        Some(shell("sh", &["-c", "echo hello"], Some("/work/src"), false))
    );
    run.complete(b"hello\n".to_vec(), vec![]).unwrap();
    assert_eq!(run.next(), Some(log("Running second")));
    run.complete(vec![], vec![]).unwrap();
    assert_eq!(
        run.next(),
        Some(shell("sh", &["-c", "true"], Some("/work/src"), false))
    );
    run.complete(vec![], vec![]).unwrap();
    assert_eq!(run.next(), None);
    assert!(run.is_finished());
    assert_eq!(
        run.into_outputs(),
        vec![strings(&["Running first", "hello", "Running second", SENTINEL])]
    );
}

#[test]
fn a_run_keeps_one_log_for_each_action() {
    let one = action("bash", None, "/s", &[("a", "fail")]);
    let two = action("batch", None, "/s", &[("b", "dir")]);
    let three = action("docker", None, "/s", &[("c", "true")]);
    let four = action("bash", None, "/s", &[]);
    let plans = exec_actions(&vec![one, two, three, four], ShellDialect::Posix, "/work").unwrap();
    let mut run = Execution::new(plans);
    let mut shown = vec![];
    let mut performed = 0;
    while let Some(stage) = run.next() {
        performed += 1;
        match stage {
            Stage::Run(Invocation { inherit: false, .. }) => {
                run.complete(vec![], b"sh: fail: not found\n".to_vec()).unwrap()
            }
            Stage::Run(_) => run.complete(b"ignored".to_vec(), vec![0xff]).unwrap(),
            Stage::Write(_) => run.complete(vec![], vec![]).unwrap(),
            Stage::Log(line) => {
                shown.push(line);
                run.complete(b"ignored".to_vec(), vec![0xff]).unwrap()
            }
        }
    }
    assert_eq!(performed, 9);
    assert_eq!(
        shown,
        strings(&[
            "Running a",
            "A batch script was unable to be processed on Linux and was taken care of safely.",
            "There was no docker image found to build off of. Using Alpine Linux by default.",
        ])
    );
    assert_eq!(
        run.into_outputs(),
        vec![
            strings(&["Running a", "sh: fail: not found"]),
            strings(&[
                "A batch script was unable to be processed on Linux and was taken care of safely."
            ]),
            strings(&[
                "There was no docker image found to build off of. Using Alpine Linux by default."
            ]),
            vec![],
        ]
    );
}

#[test]
fn output_that_is_no_text_leaves_the_run_where_it_was() {
    let a = action("bash", None, "/s", &[("a", "cat blob")]);
    let plans = exec_actions(&vec![a], ShellDialect::Posix, "/work").unwrap();
    let mut run = Execution::new(plans);
    assert_eq!(run.complete(vec![0xff], vec![]), Ok(()));
    assert_eq!(
        run.complete(vec![0xff], vec![]),
        Err(ExecError::OutputNotText)
    );
    assert_eq!(
        run.complete(vec![], vec![0xff]),
        Err(ExecError::OutputNotText)
    );
    assert_eq!(
        run.next(),
        Some(shell("sh", &["-c", "cat blob"], Some("/s"), false))
    );
    run.complete(b"ok".to_vec(), vec![]).unwrap();
    assert_eq!(run.complete(vec![0xff], vec![]), Ok(()));
    assert_eq!(run.into_outputs(), vec![strings(&["Running a", "ok"])]);
}

#[test]
fn a_run_without_actions_is_finished_at_once() {
    let mut run = Execution::new(vec![]);
    assert!(run.is_finished());
    assert_eq!(run.next(), None);
    assert_eq!(run.into_outputs(), Vec::<Vec<String>>::new());
}

#[test]
fn unfinished_actions_have_no_log_yet() {
    let a = action("bash", None, "/s", &[("a", "true")]);
    let plans = exec_actions(&vec![a], ShellDialect::Posix, "/work").unwrap();
    let run = Execution::new(plans);
    assert_eq!(run.into_outputs(), Vec::<Vec<String>>::new());
}
