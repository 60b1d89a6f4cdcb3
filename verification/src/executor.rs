//! The executor: from an action to the commands that run it.
//!
//! Nothing here starts a process or writes a file. An action is turned
//! into a plan, a sequence of stages: lines for the action's log, files to
//! write, commands to run. The host performs the stages in order; what the
//! commands wrote is handed back and classified into the log.

use vstd::prelude::*;
use vstd::string::*;
use crate::config::{
    clone_steps,
    opt_conditions,
    steps_view,
    Action,
    ActionView,
    Condition,
    ConditionView,
    Step,
    StepView,
};
pub use crate::dialect::ShellDialect;
use crate::errors::ExecError;
use crate::path::{resolve, resolved};
use crate::string_map::{opt_map, StringMap};
use crate::text::{
    contains,
    contains_text,
    each_followed_by,
    has_prefix,
    joined_by,
    last_is,
    lemma_join_extend,
    lowercase_of,
    opt_text,
    opt_texts,
    same_text,
    split,
    split_on,
    starts_with,
    texts,
    to_lowercase,
    trim,
    trim_end,
    trimmed,
    trimmed_end,
};

verus! {

/// The way in which the steps of an action are run.
#[derive(Clone, Copy, Debug, PartialEq, Eq, Structural)]
pub enum Backend {
    /// Each step in a shell of its own.
    Shell,
    /// Each step in the batch interpreter, where the host has one.
    Batch,
    /// All steps in the build of one container image.
    Docker,
}

/// The backend that a lower-case name stands for.
pub open spec fn backend_named(lowered: Seq<char>) -> Option<Backend> {
    if lowered == "bash"@ {
        Some(Backend::Shell)
    } else if lowered == "batch"@ || lowered == "bat"@ {
        Some(Backend::Batch)
    } else if lowered == "docker"@ {
        Some(Backend::Docker)
    } else {
        None
    }
}

/// The backend that a name stands for, read without regard to case.
pub open spec fn backend_of(name: Seq<char>) -> Option<Backend> {
    backend_named(lowercase_of(name))
}

/// The backend that a lower-case name stands for: `bash`, `batch` or
/// `bat`, `docker`; none for any other name.
pub fn backend_from_lowercase(lowered: &str) -> (r: Option<Backend>)
    ensures
        r == backend_named(lowered@),
{
    if same_text(lowered, "bash") {
        Some(Backend::Shell)
    } else if same_text(lowered, "batch") || same_text(lowered, "bat") {
        Some(Backend::Batch)
    } else if same_text(lowered, "docker") {
        Some(Backend::Docker)
    } else {
        None
    }
}

/// The backend that a name stands for, read without regard to case.
pub fn select_backend(name: &str) -> (r: Option<Backend>)
    ensures
        r == backend_of(name@),
{
    let lowered = to_lowercase(name);
    backend_from_lowercase(lowered.as_str())
}

/// The model of an [`ExecInfo`].
pub struct ExecInfoView {
    pub backend: Seq<char>,
    pub image: Option<Seq<char>>,
    pub title: Option<Seq<char>>,
    pub tags: Option<Map<Seq<char>, Seq<char>>>,
    pub metadata: Option<Map<Seq<char>, Seq<char>>>,
    pub output: Seq<char>,
    pub source: Seq<char>,
    pub conditions: Option<Seq<ConditionView>>,
    pub manual: Seq<StepView>,
    pub retries: i8,
    pub allowed_failure: bool,
    pub ignore_dirs: Option<Seq<Seq<char>>>,
}

/// What is needed to run one action: the two halves of its configuration,
/// flattened into one record.
#[derive(Debug)]
pub struct ExecInfo {
    pub backend: String,
    pub image: Option<String>,
    pub title: Option<String>,
    pub tags: Option<StringMap>,
    pub metadata: Option<StringMap>,
    pub output: String,
    pub source: String,
    pub conditions: Option<Vec<Condition>>,
    pub manual: Vec<Step>,
    pub retries: i8,
    pub allowed_failure: bool,
    pub ignore_dirs: Option<Vec<String>>,
}

impl View for ExecInfo {
    type V = ExecInfoView;

    open spec fn view(&self) -> ExecInfoView {
        ExecInfoView {
            backend: self.backend@,
            image: opt_text(self.image),
            title: opt_text(self.title),
            tags: opt_map(self.tags),
            metadata: opt_map(self.metadata),
            output: self.output@,
            source: self.source@,
            conditions: opt_conditions(self.conditions),
            manual: steps_view(self.manual@),
            retries: self.retries,
            allowed_failure: self.allowed_failure,
            ignore_dirs: opt_texts(self.ignore_dirs),
        }
    }
}

/// The record that an action is run by: every field of the action, as it is.
pub open spec fn exec_info_of(action: ActionView) -> ExecInfoView {
    ExecInfoView {
        backend: action.shared.backend,
        image: action.shared.image,
        title: action.shared.title,
        tags: action.shared.tags,
        metadata: action.shared.metadata,
        output: action.shared.output,
        source: action.shared.source,
        conditions: action.config.conditions,
        manual: action.config.manual,
        retries: action.config.retries,
        allowed_failure: action.config.allowed_failure,
        ignore_dirs: action.shared.ignore_dirs,
    }
}

impl ExecInfo {
    /// Flattens an action into the record that it is run by.
    pub fn new(action: &Action) -> (r: Self)
        ensures
            r@ == exec_info_of(action@),
    {
        ExecInfo {
            backend: action.shared_config.get_backend().to_owned(),
            image: action.shared_config.get_image(),
            title: action.shared_config.get_title(),
            tags: action.shared_config.get_tags(),
            metadata: action.shared_config.get_metadata(),
            output: action.shared_config.get_output().to_owned(),
            source: action.shared_config.get_source().to_owned(),
            conditions: action.action_config.get_conditions(),
            manual: clone_steps(action.action_config.get_manual()),
            retries: *action.action_config.get_retries(),
            allowed_failure: *action.action_config.get_allowed_failure(),
            ignore_dirs: action.shared_config.get_ignore_dirs(),
        }
    }
}

/// The model of an [`Invocation`].
pub struct InvocationView {
    pub program: Seq<char>,
    pub args: Seq<Seq<char>>,
    pub directory: Option<Seq<char>>,
    pub inherit: bool,
}

/// A command for the host to run: the program, its arguments, the
/// directory to run it in (the host's own where there is none), and
/// whether its output goes to the host's own output or is captured.
#[derive(Debug, PartialEq, Eq)]
pub struct Invocation {
    pub program: String,
    pub args: Vec<String>,
    pub directory: Option<String>,
    pub inherit: bool,
}

impl View for Invocation {
    type V = InvocationView;

    open spec fn view(&self) -> InvocationView {
        InvocationView {
            program: self.program@,
            args: texts(self.args@),
            directory: opt_text(self.directory),
            inherit: self.inherit,
        }
    }
}

/// The model of an [`Artifact`].
pub struct ArtifactView {
    pub path: Seq<char>,
    pub contents: Seq<char>,
}

/// A file for the host to write.
#[derive(Debug, PartialEq, Eq)]
pub struct Artifact {
    pub path: String,
    pub contents: String,
}

impl View for Artifact {
    type V = ArtifactView;

    open spec fn view(&self) -> ArtifactView {
        ArtifactView { path: self.path@, contents: self.contents@ }
    }
}

/// The model of a [`Stage`].
pub enum StageView {
    Log(Seq<char>),
    Write(ArtifactView),
    Run(InvocationView),
}

/// One stage of the plan of an action.
#[derive(Debug, PartialEq, Eq)]
pub enum Stage {
    /// A line of the action's log.
    Log(String),
    /// A file to write before the next stage.
    Write(Artifact),
    /// A command to run and wait for. Where its output is captured, the
    /// output gives the next line of the action's log.
    Run(Invocation),
}

impl View for Stage {
    type V = StageView;

    open spec fn view(&self) -> StageView {
        match *self {
            Stage::Log(line) => StageView::Log(line@),
            Stage::Write(artifact) => StageView::Write(artifact@),
            Stage::Run(invocation) => StageView::Run(invocation@),
        }
    }
}

impl Clone for Invocation {
    fn clone(&self) -> (r: Self)
        ensures
            r@ == self@,
    {
        Invocation {
            program: self.program.clone(),
            args: crate::text::clone_texts(&self.args),
            directory: crate::text::clone_opt_text(&self.directory),
            inherit: self.inherit,
        }
    }
}

impl Clone for Artifact {
    fn clone(&self) -> (r: Self)
        ensures
            r@ == self@,
    {
        Artifact { path: self.path.clone(), contents: self.contents.clone() }
    }
}

impl Clone for Stage {
    fn clone(&self) -> (r: Self)
        ensures
            r@ == self@,
    {
        match self {
            Stage::Log(line) => Stage::Log(line.clone()),
            Stage::Write(artifact) => Stage::Write(artifact.clone()),
            Stage::Run(invocation) => Stage::Run(invocation.clone()),
        }
    }
}

/// The models of a sequence of stages.
pub open spec fn stages_view(stages: Seq<Stage>) -> Seq<StageView> {
    Seq::new(stages.len(), |i: int| stages[i]@)
}

/// The models of a sequence of plans.
pub open spec fn plans_view(plans: Seq<Vec<Stage>>) -> Seq<Seq<StageView>> {
    Seq::new(plans.len(), |i: int| stages_view(plans[i]@))
}

/// A word of a script as it is handed to the shell: a word that holds
/// `./` or `../` is a path and is resolved against `root`, any other word
/// is left as it is.
pub open spec fn cleaned_word(word: Seq<char>, root: Seq<char>) -> Seq<char> {
    if contains_text(word, "../"@) || contains_text(word, "./"@) {
        resolved(word, root)
    } else {
        word
    }
}

/// The words of a script as they are handed to the shell: the script is
/// split at every blank, and each word is cleaned.
pub open spec fn cleaned_script(script: Seq<char>, root: Seq<char>) -> Seq<Seq<char>> {
    let words = split_on(script, ' ');
    Seq::new(words.len(), |i: int| cleaned_word(words[i], root))
}

/// Rewrites the paths in a script for a process that works in `root`.
///
/// The script is split at blanks, with no regard to quotes: a quoted
/// argument that holds a blank is split as well.
pub fn clean_script_pathing(script: &str, root: &str) -> (words: Vec<String>)
    ensures
        texts(words@) == cleaned_script(script@, root@),
{
    let raw = split(script, ' ');
    let mut words: Vec<String> = Vec::new();
    let mut i: usize = 0;
    while i < raw.len()
        invariant
            i <= raw.len(),
            texts(raw@) == split_on(script@, ' '),
            words@.len() == i,
            forall|j: int| 0 <= j < i ==> words@[j]@ == cleaned_word(raw@[j]@, root@),
        decreases raw.len() - i,
    {
        let item = raw[i].as_str();
        if contains(item, "../") || contains(item, "./") {
            words.push(resolve(item, root));
        } else {
            words.push(item.to_owned());
        }
        i += 1;
    }
    assert(texts(words@) =~= cleaned_script(script@, root@)) by {
        let split_words = split_on(script@, ' ');
        assert(split_words.len() == raw@.len());
        assert forall|j: int| 0 <= j < raw@.len() implies words@[j]@ == cleaned_word(
            split_words[j],
            root@,
        ) by {
            assert(texts(raw@)[j] == raw@[j]@);
        }
    }
    words
}

/// The line that announces a step.
pub open spec fn announcement(name: Seq<char>) -> Seq<char> {
    "Running "@ + name
}

/// Announces a step in `outputs` and cleans its script for a process that
/// works in `root`.
pub fn script_setup(outputs: &mut Vec<String>, step: &Step, root: &str) -> (words: Vec<String>)
    ensures
        texts(final(outputs)@) == texts(old(outputs)@).push(announcement(step@.name)),
        texts(words@) == cleaned_script(step@.script, root@),
{
    let ghost before = texts(outputs@);
    let mut line = "Running ".to_owned();
    line.append(step.get_name());
    outputs.push(line);
    assert(texts(outputs@) =~= before.push(announcement(step@.name)));
    clean_script_pathing(step.get_script(), root)
}

/// The command that runs `args` in the Windows shell, in `source`.
pub open spec fn windows_command(args: Seq<Seq<char>>, inherit: bool, source: Seq<char>) -> InvocationView {
    cmd_invocation(args, Some(source), inherit)
}

/// The command that runs `args` in the POSIX shell, in `source`: the
/// words are joined with blanks into the one argument that `sh -c` takes.
pub open spec fn unix_command(args: Seq<Seq<char>>, inherit: bool, source: Seq<char>) -> InvocationView {
    sh_invocation(trimmed(each_followed_by(args, " "@)), Some(source), inherit)
}

/// Marks the output of a command as going to the host's own output.
pub fn set_output_inherit(command: Invocation) -> (r: Invocation)
    ensures
        r@ == (InvocationView { inherit: true, ..command@ }),
{
    let mut command = command;
    command.inherit = true;
    command
}

/// Marks the output of a command as captured.
pub fn set_output_piped(command: Invocation) -> (r: Invocation)
    ensures
        r@ == (InvocationView { inherit: false, ..command@ }),
{
    let mut command = command;
    command.inherit = false;
    command
}

/// The command that hands `command_line` to the POSIX shell.
pub open spec fn sh_invocation(
    command_line: Seq<char>,
    directory: Option<Seq<char>>,
    inherit: bool,
) -> InvocationView {
    InvocationView { program: "sh"@, args: seq!["-c"@, command_line], directory, inherit }
}

/// The command that hands `words` to the Windows shell.
pub open spec fn cmd_invocation(
    words: Seq<Seq<char>>,
    directory: Option<Seq<char>>,
    inherit: bool,
) -> InvocationView {
    InvocationView { program: "cmd"@, args: seq!["/C"@] + words, directory, inherit }
}

/// Builds the command that hands `command_line` to the POSIX shell: the
/// program `sh` with the arguments `-c` and the command line.
pub fn sh_command(command_line: String, directory: Option<String>, inherit: bool) -> (r:
    Invocation)
    ensures
        r@ == sh_invocation(command_line@, opt_text(directory), inherit),
{
    let mut args: Vec<String> = Vec::new();
    args.push("-c".to_owned());
    args.push(command_line);
    assert(texts(args@) =~= seq!["-c"@, command_line@]);
    let command = Invocation { program: "sh".to_owned(), args, directory, inherit: false };
    if inherit {
        set_output_inherit(command)
    } else {
        set_output_piped(command)
    }
}

/// Builds the command that hands `words` to the Windows shell: the
/// program `cmd` with the argument `/C` and then the words.
pub fn cmd_command(words: &Vec<String>, directory: Option<String>, inherit: bool) -> (r:
    Invocation)
    ensures
        r@ == cmd_invocation(texts(words@), opt_text(directory), inherit),
{
    let mut args: Vec<String> = Vec::new();
    args.push("/C".to_owned());
    let mut i: usize = 0;
    while i < words.len()
        invariant
            i <= words.len(),
            args@.len() == i + 1,
            args@[0]@ == "/C"@,
            forall|j: int| 0 <= j < i ==> args@[j + 1]@ == words@[j]@,
        decreases words.len() - i,
    {
        args.push(words[i].clone());
        i += 1;
    }
    assert(texts(args@) =~= seq!["/C"@] + texts(words@));
    let command = Invocation { program: "cmd".to_owned(), args, directory, inherit: false };
    if inherit {
        set_output_inherit(command)
    } else {
        set_output_piped(command)
    }
}

/// Builds the command that runs `args` in the Windows shell, in `source`.
pub fn command_setup_windows(args: Vec<String>, inherit: bool, source: String) -> (r: Invocation)
    ensures
        r@ == windows_command(texts(args@), inherit, source@),
{
    cmd_command(&args, Some(source), inherit)
}

/// Builds the command that runs `args` in the POSIX shell, in `source`:
/// the words, each followed by a blank, make one command line, which is
/// trimmed.
pub fn command_setup_unix(args: &Vec<String>, inherit: bool, source: String) -> (r: Invocation)
    ensures
        r@ == unix_command(texts(args@), inherit, source@),
{
    let mut arg_string = String::new();
    let mut i: usize = 0;
    assert(texts(args@).take(0) =~= Seq::<Seq<char>>::empty());
    while i < args.len()
        invariant
            i <= args.len(),
            arg_string@ == each_followed_by(texts(args@).take(i as int), " "@),
        decreases args.len() - i,
    {
        let ghost words = texts(args@);
        assert(words.take(i + 1).drop_last() =~= words.take(i as int));
        assert(words.take(i + 1).last() == args@[i as int]@);
        arg_string.append(args[i].as_str());
        arg_string.append(" ");
        i += 1;
    }
    assert(texts(args@).take(args.len() as int) =~= texts(args@));
    sh_command(trim(arg_string.as_str()), Some(source), inherit)
}

/// The line of the log that a captured output gives: what was written to
/// the standard output, without the white space at its end; where nothing
/// was written there, what was written to the standard error, likewise;
/// where nothing was written at all, a line that says so.
pub open spec fn classified(stdout: Seq<char>, stderr: Seq<char>) -> Seq<char> {
    if stdout.len() > 0 {
        trimmed_end(stdout)
    } else if stderr.len() > 0 {
        trimmed_end(stderr)
    } else {
        no_output_line()
    }
}

/// The line that stands in the log for a command that wrote nothing.
pub open spec fn no_output_line() -> Seq<char> {
    "No standard output detected. Check to see if it was piped to another file."@
}

/// Classifies what a command wrote into one line of the log.
///
/// Only the texts decide: whether the command succeeded is not looked at.
pub fn classify_output(stdout: &str, stderr: &str) -> (line: String)
    ensures
        line@ == classified(stdout@, stderr@),
{
    if !stdout.is_empty() {
        trim_end(stdout)
    } else if !stderr.is_empty() {
        trim_end(stderr)
    } else {
        "No standard output detected. Check to see if it was piped to another file.".to_owned()
    }
}

/// Calls `String::from_utf8`, which succeeds exactly on the byte
/// sequences that are UTF-8, with the text that the bytes encode.
#[verifier::external_body]
fn text_from_utf8(bytes: Vec<u8>) -> (r: Option<String>)
    ensures
        match r {
            Some(text) => vstd::utf8::valid_utf8(bytes@) && text@ == vstd::utf8::decode_utf8(
                bytes@,
            ),
            None => !vstd::utf8::valid_utf8(bytes@),
        },
{
    String::from_utf8(bytes).ok()
}

/// Appends to `outputs` the line that the captured output of a command
/// gives. Fails, and leaves `outputs` as it is, where the standard output
/// or the standard error is no UTF-8 text.
pub fn collect_piped_output(stdout: Vec<u8>, stderr: Vec<u8>, outputs: &mut Vec<String>) -> (r:
    Result<(), ExecError>)
    ensures
        match r {
            Ok(_) => vstd::utf8::valid_utf8(stdout@) && vstd::utf8::valid_utf8(stderr@) && texts(
                final(outputs)@,
            ) == texts(old(outputs)@).push(
                classified(vstd::utf8::decode_utf8(stdout@), vstd::utf8::decode_utf8(stderr@)),
            ),
            Err(e) => e@ == crate::errors::ExecFault::OutputNotText && !(vstd::utf8::valid_utf8(
                stdout@,
            ) && vstd::utf8::valid_utf8(stderr@)) && *final(outputs) == *old(outputs),
        },
{
    let out = match text_from_utf8(stdout) {
        Some(text) => text,
        None => {
            return Err(ExecError::OutputNotText);
        },
    };
    let err = match text_from_utf8(stderr) {
        Some(text) => text,
        None => {
            return Err(ExecError::OutputNotText);
        },
    };
    let ghost before = texts(outputs@);
    let line = classify_output(out.as_str(), err.as_str());
    outputs.push(line);
    assert(texts(outputs@) =~= before.push(line@));
    Ok(())
}

/// The image that a container is built from where the action names none.
pub open spec fn default_image() -> Seq<char> {
    "alpine:latest"@
}

/// The image that a container is built from.
pub open spec fn image_or_default(image: Option<Seq<char>>) -> Seq<char> {
    match image {
        Some(i) => i,
        None => default_image(),
    }
}

/// The line that stands in the log where the default image was taken.
pub open spec fn default_image_line() -> Seq<char> {
    "There was no docker image found to build off of. Using Alpine Linux by default."@
}

/// Gives `setup` the default image where it has none, and says so in
/// `outputs`.
pub fn image_setup(setup: &mut ExecInfo, outputs: &mut Vec<String>)
    ensures
        final(setup)@ == (ExecInfoView {
            image: Some(image_or_default(old(setup)@.image)),
            ..old(setup)@
        }),
        texts(final(outputs)@) == if old(setup)@.image is None {
            texts(old(outputs)@).push(default_image_line())
        } else {
            texts(old(outputs)@)
        },
{
    let ghost before = texts(outputs@);
    if setup.image.is_none() {
        setup.image = Some("alpine:latest".to_owned());
        outputs.push(
            "There was no docker image found to build off of. Using Alpine Linux by default.".to_owned(),
        );
        assert(texts(outputs@) =~= before.push(default_image_line()));
    }
}

/// A single text of `a` then `b`.
fn concat(a: &str, b: &str) -> (r: String)
    ensures
        r@ == a@ + b@,
{
    let mut r = a.to_owned();
    r.append(b);
    r
}

/// A copy of the image of `info`, or the default image.
fn image_of(info: &ExecInfo) -> (r: String)
    ensures
        r@ == image_or_default(info@.image),
{
    match &info.image {
        Some(image) => image.clone(),
        None => "alpine:latest".to_owned(),
    }
}

/// The command that pulls `image`, for the POSIX shell.
pub open spec fn docker_pull_unix(image: Seq<char>, source: Seq<char>, inherit: bool) -> InvocationView {
    sh_invocation("docker pull "@ + image, Some(source), inherit)
}

/// The command that pulls `image`, for the Windows shell.
pub open spec fn docker_pull_windows(image: Seq<char>, source: Seq<char>, inherit: bool) -> InvocationView {
    cmd_invocation(seq!["docker"@, "pull"@, image], Some(source), inherit)
}

/// The command that removes the image of an earlier run, for the POSIX shell.
pub open spec fn docker_remove_unix(inherit: bool) -> InvocationView {
    sh_invocation("docker image rm -f cider-image"@, None, inherit)
}

/// The command that removes the image of an earlier run, for the Windows shell.
pub open spec fn docker_remove_windows(inherit: bool) -> InvocationView {
    cmd_invocation(seq!["docker"@, "image"@, "rm"@, "-f"@, "cider-image"@], None, inherit)
}

/// The command that builds the image, for the POSIX shell.
pub open spec fn docker_make_unix(source: Seq<char>, inherit: bool) -> InvocationView {
    sh_invocation("docker build -t cider-image ."@, Some(source), inherit)
}

/// The command that builds the image, for the Windows shell.
pub open spec fn docker_make_windows(source: Seq<char>, inherit: bool) -> InvocationView {
    cmd_invocation(
        seq!["docker"@, "build"@, "-t"@, "cider-image"@, "."@, "--no-cache"@],
        Some(source),
        inherit,
    )
}

/// The given words, as strings.
fn words_of(words: &[&str]) -> (r: Vec<String>)
    ensures
        r@.len() == words@.len(),
        forall|i: int| 0 <= i < words@.len() ==> r@[i]@ == words@[i]@,
{
    let mut r: Vec<String> = Vec::new();
    let mut i: usize = 0;
    while i < words.len()
        invariant
            i <= words.len(),
            r@.len() == i,
            forall|j: int| 0 <= j < i ==> r@[j]@ == words@[j]@,
        decreases words.len() - i,
    {
        r.push(words[i].to_owned());
        i += 1;
    }
    r
}

/// Builds the command that pulls the image of `info`, for the POSIX shell.
pub fn docker_setup_unix(info: &ExecInfo, inherit: bool) -> (r: Invocation)
    ensures
        r@ == docker_pull_unix(image_or_default(info@.image), info@.source, inherit),
{
    let image = image_of(info);
    sh_command(concat("docker pull ", image.as_str()), Some(info.source.clone()), inherit)
}

/// Builds the command that pulls the image of `info`, for the Windows shell.
pub fn docker_setup_windows(info: &ExecInfo, inherit: bool) -> (r: Invocation)
    ensures
        r@ == docker_pull_windows(image_or_default(info@.image), info@.source, inherit),
{
    let image = image_of(info);
    let words = words_of(&["docker", "pull", image.as_str()]);
    assert(texts(words@) =~= seq!["docker"@, "pull"@, image@]);
    cmd_command(&words, Some(info.source.clone()), inherit)
}

/// Builds the command that removes the image of an earlier run, for the
/// POSIX shell.
pub fn docker_clean_unix(inherit: bool) -> (r: Invocation)
    ensures
        r@ == docker_remove_unix(inherit),
{
    sh_command("docker image rm -f cider-image".to_owned(), None, inherit)
}

/// Builds the command that removes the image of an earlier run, for the
/// Windows shell.
pub fn docker_clean_windows(inherit: bool) -> (r: Invocation)
    ensures
        r@ == docker_remove_windows(inherit),
{
    let words = words_of(&["docker", "image", "rm", "-f", "cider-image"]);
    assert(texts(words@) =~= seq!["docker"@, "image"@, "rm"@, "-f"@, "cider-image"@]);
    cmd_command(&words, None, inherit)
}

/// Builds the command that builds the image in the source directory of
/// `info`, for the POSIX shell.
pub fn docker_build_unix(info: &ExecInfo, inherit: bool) -> (r: Invocation)
    ensures
        r@ == docker_make_unix(info@.source, inherit),
{
    sh_command("docker build -t cider-image .".to_owned(), Some(info.source.clone()), inherit)
}

/// Builds the command that builds the image in the source directory of
/// `info`, for the Windows shell.
pub fn docker_build_windows(info: &ExecInfo, inherit: bool) -> (r: Invocation)
    ensures
        r@ == docker_make_windows(info@.source, inherit),
{
    let words = words_of(&["docker", "build", "-t", "cider-image", ".", "--no-cache"]);
    assert(texts(words@) =~= seq![
        "docker"@,
        "build"@,
        "-t"@,
        "cider-image"@,
        "."@,
        "--no-cache"@,
    ]);
    cmd_command(&words, Some(info.source.clone()), inherit)
}

/// The scripts of a sequence of steps.
pub open spec fn scripts_of(manual: Seq<StepView>) -> Seq<Seq<char>> {
    Seq::new(manual.len(), |i: int| manual[i].script)
}

/// What stands between two scripts of one `RUN` instruction: the `&&` of
/// the shell, then the continuation of the line.
pub open spec fn run_separator() -> Seq<char> {
    " && \\\r\n    "@
}

/// The text of the Dockerfile that builds `image` with `scripts`: the
/// image, the working directory, the copy of the source, and one `RUN`
/// instruction that chains all scripts in their order.
pub open spec fn dockerfile_text(image: Seq<char>, scripts: Seq<Seq<char>>) -> Seq<char> {
    "FROM "@ + image + "\r\n"@ + "WORKDIR /cider/app\r\n"@ + "COPY . ./\r\n"@ + "RUN "@ + joined_by(
        scripts,
        run_separator(),
    )
}

/// The Dockerfile of an action: in its source directory, for its image or
/// the default image, with the scripts of its steps.
pub open spec fn dockerfile_of(info: ExecInfoView) -> ArtifactView {
    ArtifactView {
        path: info.source + "/Dockerfile"@,
        contents: dockerfile_text(image_or_default(info.image), scripts_of(info.manual)),
    }
}

/// The source directory as a prefix of the paths below it: with a `/` at
/// its end.
pub open spec fn source_prefix(source: Seq<char>) -> Seq<char> {
    if source.len() > 0 && source.last() == '/' {
        source
    } else {
        source + "/"@
    }
}

/// A directory as the ignore file names it: relative to the source
/// directory where it lies below it, as it is where it does not.
pub open spec fn relative_to(dir: Seq<char>, source: Seq<char>) -> Seq<char> {
    let prefix = source_prefix(source);
    if starts_with(dir, prefix) {
        dir.skip(prefix.len() as int)
    } else {
        dir
    }
}

/// The directories as the ignore file names them.
pub open spec fn relative_dirs(dirs: Seq<Seq<char>>, source: Seq<char>) -> Seq<Seq<char>> {
    Seq::new(dirs.len(), |i: int| relative_to(dirs[i], source))
}

/// The ignore file of an action: in its source directory, one line for
/// each ignored directory, relative to the source directory.
pub open spec fn dockerignore_of(info: ExecInfoView) -> ArtifactView {
    ArtifactView {
        path: info.source + "/.dockerignore"@,
        contents: each_followed_by(
            relative_dirs(
                match info.ignore_dirs {
                    Some(dirs) => dirs,
                    None => Seq::empty(),
                },
                info.source,
            ),
            "\r\n"@,
        ),
    }
}

/// Generates the Dockerfile of an action. All steps are chained in a
/// single `RUN` instruction, the last one without a continuation.
pub fn generate_dockerfile(info: &ExecInfo) -> (file: Artifact)
    ensures
        file@ == dockerfile_of(info@),
{
    let image = image_of(info);
    let mut text = concat("FROM ", image.as_str());
    text.append("\r\n");
    text.append("WORKDIR /cider/app\r\n");
    text.append("COPY . ./\r\n");
    text.append("RUN ");
    let ghost head = text@;
    let ghost scripts = scripts_of(info@.manual);
    let mut i: usize = 0;
    assert(scripts.take(0) =~= Seq::<Seq<char>>::empty());
    assert(text@ =~= head + joined_by(scripts.take(0), run_separator()));
    while i < info.manual.len()
        invariant
            i <= info.manual.len(),
            scripts == scripts_of(info@.manual),
            text@ == head + joined_by(scripts.take(i as int), run_separator()),
        decreases info.manual.len() - i,
    {
        proof {
            assert(scripts.take(i + 1).drop_last() =~= scripts.take(i as int));
            assert(scripts.take(i + 1).last() == info.manual@[i as int]@.script);
            lemma_join_extend(scripts.take(i + 1), run_separator());
        }
        if i > 0 {
            text.append(" && \\\r\n    ");
        }
        text.append(info.manual[i].get_script());
        assert(text@ =~= head + joined_by(scripts.take(i + 1), run_separator()));
        i += 1;
    }
    assert(scripts.take(info.manual.len() as int) =~= scripts);
    assert(text@ =~= dockerfile_text(image@, scripts));
    Artifact { path: concat(info.source.as_str(), "/Dockerfile"), contents: text }
}

/// A directory as the ignore file names it.
pub fn strip_source(dir: &str, source: &str) -> (r: String)
    ensures
        r@ == relative_to(dir@, source@),
{
    let prefix = if last_is(source, '/') {
        source.to_owned()
    } else {
        concat(source, "/")
    };
    if has_prefix(dir, prefix.as_str()) {
        let from = prefix.as_str().unicode_len();
        let to = dir.unicode_len();
        let r = dir.substring_char(from, to).to_owned();
        assert(r@ =~= dir@.skip(from as int));
        r
    } else {
        dir.to_owned()
    }
}

/// Generates the ignore file of an action: one line for each ignored
/// directory, relative to the source directory.
pub fn generate_dockerignore(info: &ExecInfo) -> (file: Artifact)
    ensures
        file@ == dockerignore_of(info@),
{
    let mut text = String::new();
    match &info.ignore_dirs {
        Some(dirs) => {
            let ghost lines = relative_dirs(texts(dirs@), info@.source);
            let mut i: usize = 0;
            assert(lines.take(0) =~= Seq::<Seq<char>>::empty());
            while i < dirs.len()
                invariant
                    i <= dirs.len(),
                    lines == relative_dirs(texts(dirs@), info@.source),
                    text@ == each_followed_by(lines.take(i as int), "\r\n"@),
                decreases dirs.len() - i,
            {
                assert(lines.take(i + 1).drop_last() =~= lines.take(i as int));
                assert(lines.take(i + 1).last() == relative_to(dirs@[i as int]@, info@.source));
                let line = strip_source(dirs[i].as_str(), info.source.as_str());
                text.append(line.as_str());
                text.append("\r\n");
                i += 1;
            }
            assert(lines.take(dirs.len() as int) =~= lines);
        },
        None => {
            assert(relative_dirs(Seq::<Seq<char>>::empty(), info@.source) =~= Seq::<
                Seq<char>,
            >::empty());
        },
    }
    Artifact { path: concat(info.source.as_str(), "/.dockerignore"), contents: text }
}

/// The command that runs the words of a script in the shell of the host,
/// in `source`, with its output captured.
pub open spec fn shell_command(dialect: ShellDialect, words: Seq<Seq<char>>, source: Seq<char>) -> InvocationView {
    match dialect {
        ShellDialect::Posix => unix_command(words, false, source),
        ShellDialect::Windows => windows_command(words, false, source),
    }
}

/// The two stages of a step: the line that announces it, and the command
/// that runs it.
pub open spec fn step_stages(
    step: StepView,
    source: Seq<char>,
    dialect: ShellDialect,
    root: Seq<char>,
) -> Seq<StageView> {
    seq![
        StageView::Log(announcement(step.name)),
        StageView::Run(shell_command(dialect, cleaned_script(step.script, root), source)),
    ]
}

/// The plan of a shell action: the stages of its steps, step after step.
pub open spec fn shell_plan(
    manual: Seq<StepView>,
    source: Seq<char>,
    dialect: ShellDialect,
    root: Seq<char>,
) -> Seq<StageView>
    decreases manual.len(),
{
    if manual.len() == 0 {
        Seq::empty()
    } else {
        shell_plan(manual.drop_last(), source, dialect, root) + step_stages(
            manual.last(),
            source,
            dialect,
            root,
        )
    }
}

/// The line that stands in the log for a batch action on a host without a
/// batch interpreter.
pub open spec fn batch_skipped_line() -> Seq<char> {
    "A batch script was unable to be processed on Linux and was taken care of safely."@
}

/// The plan of a batch action: that of a shell action where the host has
/// the batch interpreter; a single line that says that the action was
/// skipped where it has not.
pub open spec fn batch_plan(info: ExecInfoView, dialect: ShellDialect, root: Seq<char>) -> Seq<StageView> {
    match dialect {
        ShellDialect::Windows => shell_plan(info.manual, info.source, dialect, root),
        ShellDialect::Posix => seq![StageView::Log(batch_skipped_line())],
    }
}

/// The three commands of a container build, in their order: pull the base
/// image, remove the image of an earlier run, build the new image. Their
/// output goes to the host's own output.
pub open spec fn docker_commands(info: ExecInfoView, dialect: ShellDialect) -> Seq<StageView> {
    match dialect {
        ShellDialect::Posix => seq![
            StageView::Run(docker_pull_unix(image_or_default(info.image), info.source, true)),
            StageView::Run(docker_remove_unix(true)),
            StageView::Run(docker_make_unix(info.source, true)),
        ],
        ShellDialect::Windows => seq![
            StageView::Run(docker_pull_windows(image_or_default(info.image), info.source, true)),
            StageView::Run(docker_remove_windows(true)),
            StageView::Run(docker_make_windows(info.source, true)),
        ],
    }
}

/// The plan of a container action: a line where the default image was
/// taken, the ignore file, the Dockerfile, and the three commands of the
/// build.
pub open spec fn docker_plan(info: ExecInfoView, dialect: ShellDialect) -> Seq<StageView> {
    (if info.image is None {
        seq![StageView::Log(default_image_line())]
    } else {
        Seq::empty()
    }) + seq![StageView::Write(dockerignore_of(info)), StageView::Write(dockerfile_of(info))]
        + docker_commands(info, dialect)
}

/// The plan of an action: that of its backend. An action whose backend is
/// none of the known ones has no plan.
pub open spec fn action_plan(info: ExecInfoView, dialect: ShellDialect, root: Seq<char>) -> Result<
    Seq<StageView>,
    crate::errors::ExecFault,
> {
    match backend_of(info.backend) {
        Some(Backend::Shell) => Ok(shell_plan(info.manual, info.source, dialect, root)),
        Some(Backend::Batch) => Ok(batch_plan(info, dialect, root)),
        Some(Backend::Docker) => Ok(docker_plan(info, dialect)),
        None => Err(crate::errors::ExecFault::UnsupportedBackend(info.backend)),
    }
}

/// The plans of a sequence of actions, one for each action, in their
/// order. Where one of the actions has no plan there are no plans at all,
/// and the error is that of the first such action.
pub open spec fn run_plan(actions: Seq<ActionView>, dialect: ShellDialect, root: Seq<char>) -> Result<
    Seq<Seq<StageView>>,
    crate::errors::ExecFault,
>
    decreases actions.len(),
{
    if actions.len() == 0 {
        Ok(Seq::empty())
    } else {
        match run_plan(actions.drop_last(), dialect, root) {
            Err(e) => Err(e),
            Ok(earlier) => match action_plan(exec_info_of(actions.last()), dialect, root) {
                Err(e) => Err(e),
                Ok(plan) => Ok(earlier.push(plan)),
            },
        }
    }
}

/// Appends a log stage for each of `lines` to `plan`.
fn log_stages(lines: Vec<String>, plan: &mut Vec<Stage>)
    ensures
        stages_view(final(plan)@) == stages_view(old(plan)@) + Seq::new(
            lines@.len(),
            |i: int| StageView::Log(lines@[i]@),
        ),
{
    let ghost before = stages_view(plan@);
    let mut i: usize = 0;
    while i < lines.len()
        invariant
            i <= lines.len(),
            plan@.len() == before.len() + i,
            forall|j: int| 0 <= j < before.len() ==> plan@[j]@ == before[j],
            forall|j: int| 0 <= j < i ==> plan@[before.len() + j]@ == StageView::Log(lines@[j]@),
        decreases lines.len() - i,
    {
        plan.push(Stage::Log(lines[i].clone()));
        i += 1;
    }
    assert(stages_view(plan@) =~= before + Seq::new(
        lines@.len(),
        |i: int| StageView::Log(lines@[i]@),
    ));
}

/// Plans the steps of a shell action: for each step, in order, the line
/// that announces it and the command that runs its cleaned script in the
/// action's source directory, with the output captured.
pub fn run_bash_scripts(setup: &ExecInfo, dialect: ShellDialect, root: &str) -> (plan: Vec<Stage>)
    ensures
        stages_view(plan@) == shell_plan(setup@.manual, setup@.source, dialect, root@),
{
    let mut plan: Vec<Stage> = Vec::new();
    let ghost manual = setup@.manual;
    let mut i: usize = 0;
    assert(manual.take(0) =~= Seq::<StepView>::empty());
    assert(stages_view(plan@) =~= Seq::<StageView>::empty());
    while i < setup.manual.len()
        invariant
            i <= setup.manual.len(),
            manual == setup@.manual,
            stages_view(plan@) == shell_plan(manual.take(i as int), setup@.source, dialect, root@),
        decreases setup.manual.len() - i,
    {
        let step = &setup.manual[i];
        let ghost before = stages_view(plan@);
        assert(manual.take(i + 1).drop_last() =~= manual.take(i as int));
        assert(manual.take(i + 1).last() == step@);
        let mut lines: Vec<String> = Vec::new();
        let script = script_setup(&mut lines, step, root);
        assert(texts(lines@) =~= seq![announcement(step@.name)]);
        assert(lines@.len() == 1 && lines@[0]@ == announcement(step@.name)) by {
            assert(texts(lines@)[0] == lines@[0]@);
        }
        log_stages(lines, &mut plan);
        let ghost announced = stages_view(plan@);
        assert(announced =~= before.push(StageView::Log(announcement(step@.name))));
        let command = match dialect {
            ShellDialect::Posix => command_setup_unix(&script, false, setup.source.clone()),
            ShellDialect::Windows => command_setup_windows(script, false, setup.source.clone()),
        };
        assert(command@ == shell_command(
            dialect,
            cleaned_script(step@.script, root@),
            setup@.source,
        ));
        plan.push(Stage::Run(command));
        assert(stages_view(plan@) =~= announced.push(StageView::Run(command@)));
        assert(stages_view(plan@) =~= before + step_stages(step@, setup@.source, dialect, root@));
        i += 1;
    }
    assert(manual.take(setup.manual.len() as int) =~= manual);
    plan
}

/// Plans a batch action: like a shell action where the host has the
/// batch interpreter; a single line that says that the action was skipped
/// where it has not.
pub fn run_batch_script(setup: &ExecInfo, dialect: ShellDialect, root: &str) -> (plan: Vec<Stage>)
    ensures
        stages_view(plan@) == batch_plan(setup@, dialect, root@),
{
    match dialect {
        ShellDialect::Windows => run_bash_scripts(setup, dialect, root),
        ShellDialect::Posix => {
            let mut plan: Vec<Stage> = Vec::new();
            plan.push(
                Stage::Log(
                    "A batch script was unable to be processed on Linux and was taken care of safely.".to_owned(),
                ),
            );
            assert(stages_view(plan@) =~= seq![StageView::Log(batch_skipped_line())]);
            plan
        },
    }
}

/// Plans a container action: the default image is taken where the action
/// names none, the ignore file and the Dockerfile are written into the
/// source directory, and the base image is pulled, the image of an
/// earlier run removed and the new image built, each with its output
/// going to the host's own.
pub fn run_with_docker(setup: ExecInfo, dialect: ShellDialect) -> (plan: Vec<Stage>)
    ensures
        stages_view(plan@) == docker_plan(setup@, dialect),
{
    let ghost given = setup@;
    let mut setup = setup;
    let mut plan: Vec<Stage> = Vec::new();
    let mut lines: Vec<String> = Vec::new();
    image_setup(&mut setup, &mut lines);
    assert(texts(lines@) =~= if given.image is None {
        seq![default_image_line()]
    } else {
        Seq::<Seq<char>>::empty()
    });
    assert(lines@.len() == texts(lines@).len());
    if lines.len() > 0 {
        assert(texts(lines@)[0] == lines@[0]@);
    }
    log_stages(lines, &mut plan);
    let ghost noted = stages_view(plan@);
    assert(noted =~= if given.image is None {
        seq![StageView::Log(default_image_line())]
    } else {
        Seq::<StageView>::empty()
    });
    assert(dockerignore_of(setup@) == dockerignore_of(given));
    assert(dockerfile_of(setup@) == dockerfile_of(given));
    let ignore_file = generate_dockerignore(&setup);
    let dockerfile = generate_dockerfile(&setup);
    let (pull, remove, build) = match dialect {
        ShellDialect::Posix => (
            docker_setup_unix(&setup, true),
            docker_clean_unix(true),
            docker_build_unix(&setup, true),
        ),
        ShellDialect::Windows => (
            docker_setup_windows(&setup, true),
            docker_clean_windows(true),
            docker_build_windows(&setup, true),
        ),
    };
    assert(docker_commands(given, dialect) =~= seq![
        StageView::Run(pull@),
        StageView::Run(remove@),
        StageView::Run(build@),
    ]);
    let ghost written = seq![StageView::Write(ignore_file@), StageView::Write(dockerfile@)];
    let ghost run = seq![StageView::Run(pull@), StageView::Run(remove@), StageView::Run(build@)];
    plan.push(Stage::Write(ignore_file));
    plan.push(Stage::Write(dockerfile));
    assert(stages_view(plan@) =~= noted + written);
    plan.push(Stage::Run(pull));
    plan.push(Stage::Run(remove));
    plan.push(Stage::Run(build));
    assert(stages_view(plan@) =~= noted + written + run);
    plan
}

/// Plans an action with its backend.
///
/// Fails exactly where the backend of the action, read without regard to
/// case, is none of `bash`, `batch`, `bat` and `docker`.
pub fn exec_action(action: &Action, dialect: ShellDialect, root: &str) -> (r: Result<
    Vec<Stage>,
    ExecError,
>)
    ensures
        match r {
            Ok(plan) => action_plan(exec_info_of(action@), dialect, root@) == Ok::<
                Seq<StageView>,
                crate::errors::ExecFault,
            >(stages_view(plan@)),
            Err(e) => action_plan(exec_info_of(action@), dialect, root@) == Err::<
                Seq<StageView>,
                crate::errors::ExecFault,
            >(e@),
        },
{
    let exec_info = ExecInfo::new(action);
    match select_backend(exec_info.backend.as_str()) {
        Some(Backend::Shell) => Ok(run_bash_scripts(&exec_info, dialect, root)),
        Some(Backend::Batch) => Ok(run_batch_script(&exec_info, dialect, root)),
        Some(Backend::Docker) => Ok(run_with_docker(exec_info, dialect)),
        None => Err(ExecError::UnsupportedBackend(exec_info.backend)),
    }
}

/// Once the plans up to a point fail, the plans up to any later point
/// fail with the same error.
pub proof fn lemma_run_plan_fails_on(
    actions: Seq<ActionView>,
    upto: int,
    dialect: ShellDialect,
    root: Seq<char>,
)
    requires
        0 <= upto <= actions.len(),
        run_plan(actions.take(upto), dialect, root) is Err,
    ensures
        run_plan(actions, dialect, root) == run_plan(actions.take(upto), dialect, root),
    decreases actions.len() - upto,
{
    if upto == actions.len() {
        assert(actions.take(upto) =~= actions);
    } else {
        assert(actions.take(upto + 1).drop_last() =~= actions.take(upto));
        lemma_run_plan_fails_on(actions, upto + 1, dialect, root);
    }
}

/// Where a run has plans, there is one for each action, and each is the
/// plan of its action.
pub proof fn lemma_run_plan_each(actions: Seq<ActionView>, dialect: ShellDialect, root: Seq<char>)
    requires
        run_plan(actions, dialect, root) is Ok,
    ensures
        run_plan(actions, dialect, root)->Ok_0.len() == actions.len(),
        forall|i: int|
            0 <= i < actions.len() ==> action_plan(exec_info_of(actions[i]), dialect, root) == Ok::<
                Seq<StageView>,
                crate::errors::ExecFault,
            >(#[trigger] run_plan(actions, dialect, root)->Ok_0[i]),
    decreases actions.len(),
{
    if actions.len() > 0 {
        lemma_run_plan_each(actions.drop_last(), dialect, root);
        let earlier = run_plan(actions.drop_last(), dialect, root)->Ok_0;
        let all = run_plan(actions, dialect, root)->Ok_0;
        assert forall|i: int| 0 <= i < actions.len() implies action_plan(
            exec_info_of(actions[i]),
            dialect,
            root,
        ) == Ok::<Seq<StageView>, crate::errors::ExecFault>(#[trigger] all[i]) by {
            if i < actions.len() - 1 {
                assert(actions.drop_last()[i] == actions[i]);
                assert(all[i] == earlier[i]);
            }
        }
    }
}

/// A run with an action whose backend is none of the known ones has no
/// plans: nothing is run, neither for that action nor for any other,
/// wherever in the run the action stands.
pub proof fn lemma_unknown_backend_fails_run(
    actions: Seq<ActionView>,
    at: int,
    dialect: ShellDialect,
    root: Seq<char>,
)
    requires
        0 <= at < actions.len(),
        backend_of(actions[at].shared.backend) is None,
    ensures
        run_plan(actions, dialect, root) is Err,
{
    if run_plan(actions, dialect, root) is Ok {
        lemma_run_plan_each(actions, dialect, root);
        assert(action_plan(exec_info_of(actions[at]), dialect, root) == Ok::<
            Seq<StageView>,
            crate::errors::ExecFault,
        >(run_plan(actions, dialect, root)->Ok_0[at]));
    }
}

/// A run whose actions all have a known backend has a plan for each.
pub proof fn lemma_known_backends_have_plans(
    actions: Seq<ActionView>,
    dialect: ShellDialect,
    root: Seq<char>,
)
    requires
        forall|i: int| 0 <= i < actions.len() ==> backend_of(
            (#[trigger] actions[i]).shared.backend,
        ) is Some,
    ensures
        run_plan(actions, dialect, root) is Ok,
    decreases actions.len(),
{
    if actions.len() > 0 {
        assert forall|i: int| 0 <= i < actions.drop_last().len() implies backend_of(
            (#[trigger] actions.drop_last()[i]).shared.backend,
        ) is Some by {
            assert(actions.drop_last()[i] == actions[i]);
        }
        lemma_known_backends_have_plans(actions.drop_last(), dialect, root);
        assert(backend_of(actions[actions.len() - 1].shared.backend) is Some);
    }
}

/// Plans a run: one plan for each action, in the order of the actions.
///
/// An action with a backend that is none of the known ones fails the
/// whole run: there is then no plan for any action, not for those before
/// it either, and nothing is run.
pub fn exec_actions(action_vec: &Vec<Action>, dialect: ShellDialect, root: &str) -> (r: Result<
    Vec<Vec<Stage>>,
    ExecError,
>)
    ensures
        match r {
            Ok(plans) => run_plan(crate::config::actions_view(action_vec@), dialect, root@) == Ok::<
                Seq<Seq<StageView>>,
                crate::errors::ExecFault,
            >(plans_view(plans@)),
            Err(e) => run_plan(crate::config::actions_view(action_vec@), dialect, root@) == Err::<
                Seq<Seq<StageView>>,
                crate::errors::ExecFault,
            >(e@),
        },
{
    let ghost actions = crate::config::actions_view(action_vec@);
    let mut all_plans: Vec<Vec<Stage>> = Vec::new();
    let mut i: usize = 0;
    assert(actions.take(0) =~= Seq::<ActionView>::empty());
    assert(plans_view(all_plans@) =~= Seq::<Seq<StageView>>::empty());
    while i < action_vec.len()
        invariant
            i <= action_vec.len(),
            actions == crate::config::actions_view(action_vec@),
            run_plan(actions.take(i as int), dialect, root@) == Ok::<
                Seq<Seq<StageView>>,
                crate::errors::ExecFault,
            >(plans_view(all_plans@)),
        decreases action_vec.len() - i,
    {
        let ghost earlier = plans_view(all_plans@);
        assert(actions.take(i + 1).drop_last() =~= actions.take(i as int));
        assert(actions.take(i + 1).last() == action_vec@[i as int]@);
        match exec_action(&action_vec[i], dialect, root) {
            Ok(plan) => {
                all_plans.push(plan);
                assert(plans_view(all_plans@) =~= earlier.push(stages_view(plan@)));
            },
            Err(e) => {
                proof {
                    lemma_run_plan_fails_on(actions, i + 1, dialect, root@);
                }
                return Err(e);
            },
        }
        i += 1;
    }
    assert(actions.take(action_vec.len() as int) =~= actions);
    Ok(all_plans)
}

} // verus!
