//! The configuration builder: from a document to the configuration that it
//! describes.
//!
//! A configuration has three levels. The top level is read from the fields
//! of the document itself, with a default for each field that the document
//! leaves out. A pipeline and an action are read from the object that
//! stands under their name: a field that the object holds is taken from it,
//! a field that it leaves out is taken unchanged from the level above. An
//! action of a pipeline is described inside the pipeline's object and
//! inherits from the pipeline; a top-level action is described in the
//! document and inherits from the top level.
//!
//! What is built is stated by the spec functions of this module, over the
//! model of the document; the executable functions are proved to compute
//! exactly that.

use vstd::prelude::*;
use vstd::string::*;
use crate::config::{
    actions_view,
    conditions_view,
    image_kept,
    opt_conditions,
    pipelines_view,
    steps_view,
    Action,
    ActionConfig,
    ActionConfigView,
    ActionView,
    Condition,
    ConditionView,
    Pipeline,
    PipelineConfig,
    PipelineConfigView,
    PipelineView,
    ShareableConfiguration,
    SharedView,
    Step,
    StepView,
    TopLevelConfiguration,
    TopLevelView,
};
pub use crate::document::parse_json_string;
use crate::document::{document_of, JsonNode, JsonTree};
use crate::errors::{ConfigError, ConfigFault};
use crate::path::{default_output, default_source, resolve, resolved, resolved_or};
use crate::string_map::{map_of, opt_map, StringMap};
use crate::text::{opt_text, texts};

verus! {

/// The entries of an object as texts: each key with the text of its value.
pub open spec fn text_pairs(node: JsonTree) -> Seq<(Seq<char>, Seq<char>)> {
    Seq::new(node.pairs().len(), |i: int| (node.pairs()[i].0, node.pairs()[i].1.rendered()))
}

/// The items of an array as texts.
pub open spec fn text_items(node: JsonTree) -> Seq<Seq<char>> {
    Seq::new(node.items().len(), |i: int| node.items()[i].rendered())
}

/// The text under `key`, where a value other than null stands there.
pub open spec fn text_field(doc: JsonTree, key: Seq<char>) -> Option<Seq<char>> {
    if doc.has(key) {
        Some(doc.member(key).rendered())
    } else {
        None
    }
}

/// The map under `key`, where a value other than null stands there.
pub open spec fn map_field(doc: JsonTree, key: Seq<char>) -> Option<Map<Seq<char>, Seq<char>>> {
    if doc.has(key) {
        Some(map_of(text_pairs(doc.member(key))))
    } else {
        None
    }
}

/// The list of names under `key`; none where no value stands there.
pub open spec fn names_field(doc: JsonTree, key: Seq<char>) -> Seq<Seq<char>> {
    if doc.has(key) {
        text_items(doc.member(key))
    } else {
        Seq::empty()
    }
}

/// The conditions that an object describes: its entries, each key a name
/// and each value an expression. An object without entries describes none.
pub open spec fn conditions_of(node: JsonTree) -> Option<Seq<ConditionView>> {
    if node.pairs().len() == 0 {
        None
    } else {
        Some(
            Seq::new(
                node.pairs().len(),
                |i: int|
                    ConditionView {
                        name: node.pairs()[i].0,
                        expression: node.pairs()[i].1.rendered(),
                    },
            ),
        )
    }
}

/// The steps that an object describes: its entries in order, each key a
/// name and each value a script.
pub open spec fn steps_of(node: JsonTree) -> Seq<StepView> {
    Seq::new(
        node.pairs().len(),
        |i: int| StepView { name: node.pairs()[i].0, script: node.pairs()[i].1.rendered() },
    )
}

/// Whether every item of a list of directories is a string.
pub open spec fn all_strings(items: Seq<JsonTree>) -> bool {
    forall|i: int| 0 <= i < items.len() ==> (#[trigger] items[i]).string() is Some
}

/// The directories that a list names, each resolved against `root`.
pub open spec fn resolved_dirs(items: Seq<JsonTree>, root: Seq<char>) -> Seq<Seq<char>> {
    Seq::new(items.len(), |i: int| resolved(items[i].string()->0, root))
}

/// The directories that are ignored where the document names none, each
/// resolved against `root`.
pub open spec fn default_ignore_dirs(root: Seq<char>) -> Seq<Seq<char>> {
    seq![
        resolved("./dist"@, root),
        resolved("./metrics"@, root),
        resolved("./target"@, root),
        resolved("./.git"@, root),
        resolved("./.github"@, root),
    ]
}

/// The language of a configuration that names none.
pub open spec fn default_language() -> Seq<char> {
    "Python"@
}

/// The backend of a configuration that names none.
pub open spec fn default_backend() -> Seq<char> {
    "bash"@
}

/// The name that an error holds for the top level of a document.
pub open spec fn top_level_name() -> Seq<char> {
    Seq::empty()
}

/// The shared configuration of the top level: each field from the
/// document, or its default where the document leaves it out.
///
/// Fails with `Malformed` where the list of ignored directories holds an
/// item that is no string.
pub open spec fn root_shared(doc: JsonTree, root: Seq<char>) -> Result<SharedView, ConfigFault> {
    let backend = match text_field(doc, "backend"@) {
        Some(b) => b,
        None => default_backend(),
    };
    let dirs = doc.member("ignore_directories"@).items();
    if doc.has("ignore_directories"@) && !all_strings(dirs) {
        Err(ConfigFault::Malformed(top_level_name()))
    } else {
        Ok(
            SharedView {
                metadata: map_field(doc, "metadata"@),
                title: text_field(doc, "title"@),
                tags: map_field(doc, "tags"@),
                language: match text_field(doc, "language"@) {
                    Some(l) => l,
                    None => default_language(),
                },
                image: image_kept(backend, text_field(doc, "image"@)),
                backend,
                output: resolved_or(text_field(doc, "output_directory"@), default_output(), root),
                source: resolved_or(text_field(doc, "source_directory"@), default_source(), root),
                ignore_dirs: if doc.has("ignore_directories"@) && dirs.len() > 0 {
                    Some(resolved_dirs(dirs, root))
                } else {
                    Some(default_ignore_dirs(root))
                },
            },
        )
    }
}

/// The shared configuration of a pipeline or an action called `name`, read
/// from its object `doc` below the level with the configuration `parent`:
/// each field from `doc` where it holds the field, from `parent` where it
/// does not. The title is always `name`.
///
/// Fails with `Malformed` where the list of ignored directories holds an
/// item that is no string.
pub open spec fn child_shared(
    parent: SharedView,
    doc: JsonTree,
    name: Seq<char>,
    root: Seq<char>,
) -> Result<SharedView, ConfigFault> {
    let backend = match text_field(doc, "backend"@) {
        Some(b) => b,
        None => parent.backend,
    };
    let dirs = doc.member("ignore_directories"@).items();
    if doc.has("ignore_directories"@) && !all_strings(dirs) {
        Err(ConfigFault::Malformed(name))
    } else {
        Ok(
            SharedView {
                metadata: if doc.has("metadata"@) {
                    map_field(doc, "metadata"@)
                } else {
                    parent.metadata
                },
                title: Some(name),
                tags: if doc.has("tags"@) {
                    map_field(doc, "tags"@)
                } else {
                    parent.tags
                },
                language: match text_field(doc, "language"@) {
                    Some(l) => l,
                    None => parent.language,
                },
                image: image_kept(
                    backend,
                    if doc.has("image"@) {
                        text_field(doc, "image"@)
                    } else {
                        parent.image
                    },
                ),
                backend,
                output: match text_field(doc, "output_directory"@) {
                    Some(o) => resolved(o, root),
                    None => parent.output,
                },
                source: match text_field(doc, "source_directory"@) {
                    Some(s) => resolved(s, root),
                    None => parent.source,
                },
                ignore_dirs: if !doc.has("ignore_directories"@) {
                    parent.ignore_dirs
                } else if dirs.len() > 0 {
                    Some(resolved_dirs(dirs, root))
                } else {
                    None
                },
            },
        )
    }
}

/// What belongs to the action called `name` alone, read from its object.
///
/// Fails with `Malformed` where `retries` is no number that fits an `i8`
/// or `allowed_failure` is no boolean, else with `InvariantViolation`
/// where the action has no steps.
pub open spec fn action_config_spec(doc: JsonTree, name: Seq<char>) -> Result<
    ActionConfigView,
    ConfigFault,
> {
    if doc.has("retries"@) && doc.member("retries"@).small() is None {
        Err(ConfigFault::Malformed(name))
    } else if doc.has("allowed_failure"@) && doc.member("allowed_failure"@).flag() is None {
        Err(ConfigFault::Malformed(name))
    } else if steps_of(doc.member("manual"@)).len() == 0 {
        Err(ConfigFault::InvariantViolation(name))
    } else {
        Ok(
            ActionConfigView {
                conditions: conditions_of(doc.member("conditions"@)),
                retries: if doc.has("retries"@) {
                    doc.member("retries"@).small()->0
                } else {
                    0i8
                },
                allowed_failure: if doc.has("allowed_failure"@) {
                    doc.member("allowed_failure"@).flag()->0
                } else {
                    false
                },
                manual: steps_of(doc.member("manual"@)),
            },
        )
    }
}

/// The action called `name`, read from its object `doc` below the level
/// with the configuration `parent`.
///
/// Fails with `NotFound` where there is no object, else with what the
/// shared configuration fails with, else with what the action's own
/// configuration fails with.
pub open spec fn action_spec(parent: SharedView, doc: JsonTree, name: Seq<char>, root: Seq<char>) -> Result<
    ActionView,
    ConfigFault,
> {
    if doc is Null {
        Err(ConfigFault::NotFound(name))
    } else {
        match child_shared(parent, doc, name, root) {
            Err(e) => Err(e),
            Ok(shared) => match action_config_spec(doc, name) {
                Err(e) => Err(e),
                Ok(config) => Ok(ActionView { shared, config }),
            },
        }
    }
}

/// The actions called `names`, each read from the object under its name in
/// `data`, in the order of the names. Fails with what the first action
/// that fails, fails with.
pub open spec fn actions_spec(
    parent: SharedView,
    data: JsonTree,
    names: Seq<Seq<char>>,
    root: Seq<char>,
) -> Result<Seq<ActionView>, ConfigFault>
    decreases names.len(),
{
    if names.len() == 0 {
        Ok(Seq::empty())
    } else {
        match actions_spec(parent, data, names.drop_last(), root) {
            Err(e) => Err(e),
            Ok(earlier) => match action_spec(parent, data.member(names.last()), names.last(), root) {
                Err(e) => Err(e),
                Ok(action) => Ok(earlier.push(action)),
            },
        }
    }
}

/// The pipeline called `name`, read from its object `doc` below the top
/// level with the configuration `parent`. Its actions are read from `doc`
/// and inherit from the pipeline.
///
/// Fails with `NotFound` where there is no object, else with what the
/// shared configuration fails with, else with `Malformed` where the object
/// names no actions, else with what the first of its actions that fails,
/// fails with.
pub open spec fn pipeline_spec(parent: SharedView, doc: JsonTree, name: Seq<char>, root: Seq<char>) -> Result<
    PipelineView,
    ConfigFault,
> {
    if doc is Null {
        Err(ConfigFault::NotFound(name))
    } else {
        match child_shared(parent, doc, name, root) {
            Err(e) => Err(e),
            Ok(shared) => if !doc.has("actions"@) {
                Err(ConfigFault::Malformed(name))
            } else {
                match actions_spec(shared, doc, names_field(doc, "actions"@), root) {
                    Err(e) => Err(e),
                    Ok(actions) => Ok(
                        PipelineView {
                            shared,
                            config: PipelineConfigView {
                                conditions: conditions_of(doc.member("conditions"@)),
                                action_defs: names_field(doc, "actions"@),
                                actions,
                                has_run: false,
                                requires: names_field(doc, "requires"@),
                            },
                        },
                    ),
                }
            },
        }
    }
}

/// The pipelines called `names`, each read from the object under its name
/// in `data`, in the order of the names. Fails with what the first
/// pipeline that fails, fails with.
pub open spec fn pipelines_spec(
    parent: SharedView,
    data: JsonTree,
    names: Seq<Seq<char>>,
    root: Seq<char>,
) -> Result<Seq<PipelineView>, ConfigFault>
    decreases names.len(),
{
    if names.len() == 0 {
        Ok(Seq::empty())
    } else {
        match pipelines_spec(parent, data, names.drop_last(), root) {
            Err(e) => Err(e),
            Ok(earlier) => match pipeline_spec(
                parent,
                data.member(names.last()),
                names.last(),
                root,
            ) {
                Err(e) => Err(e),
                Ok(pipeline) => Ok(earlier.push(pipeline)),
            },
        }
    }
}

/// The configuration that a document describes when the process works in
/// `root`: the shared configuration of the top level, the pipelines that
/// the document names, and the top-level actions that it names.
///
/// Fails with what the shared configuration fails with, else with what the
/// first pipeline that fails, fails with, else with what the first
/// top-level action that fails, fails with.
pub open spec fn top_level_spec(doc: JsonTree, root: Seq<char>) -> Result<TopLevelView, ConfigFault> {
    match root_shared(doc, root) {
        Err(e) => Err(e),
        Ok(s_config) => match pipelines_spec(s_config, doc, names_field(doc, "pipelines"@), root) {
            Err(e) => Err(e),
            Ok(pipelines) => match actions_spec(
                s_config,
                doc,
                names_field(doc, "actions"@),
                root,
            ) {
                Err(e) => Err(e),
                Ok(actions) => Ok(
                    TopLevelView {
                        s_config,
                        pipeline_defs: names_field(doc, "pipelines"@),
                        pipelines,
                        action_defs: names_field(doc, "actions"@),
                        actions,
                    },
                ),
            },
        },
    }
}

/// Reads an object into a map: each key with the text of its value. A
/// value that is no object gives the empty map.
pub fn parse_json_map(json: &JsonNode) -> (map: StringMap)
    ensures
        map@ == map_of(text_pairs(json@)),
{
    let mut map = StringMap::new();
    let count = json.entry_count();
    let mut i: usize = 0;
    assert(text_pairs(json@).take(0) =~= Seq::<(Seq<char>, Seq<char>)>::empty());
    while i < count
        invariant
            i <= count,
            count == json@.pairs().len(),
            map@ == map_of(text_pairs(json@).take(i as int)),
        decreases count - i,
    {
        let (key, value) = json.entry(i);
        let ghost pairs = text_pairs(json@);
        assert(pairs.take(i + 1).drop_last() =~= pairs.take(i as int));
        assert(pairs.take(i + 1).last() == (key@, value@.rendered()));
        map.insert(key.to_owned(), value.render());
        i += 1;
    }
    assert(text_pairs(json@).take(count as int) =~= text_pairs(json@));
    map
}

/// Reads an object into conditions: each key a name, each value an
/// expression, in the order of the object.
pub fn parse_json_to_conditions(json: &JsonNode) -> (conditions: Vec<Condition>)
    ensures
        conditions@.len() == json@.pairs().len(),
        opt_conditions(
            if conditions@.len() == 0 {
                None
            } else {
                Some(conditions)
            },
        ) == conditions_of(json@),
{
    let mut conditions: Vec<Condition> = Vec::new();
    let count = json.entry_count();
    let mut i: usize = 0;
    while i < count
        invariant
            i <= count,
            count == json@.pairs().len(),
            conditions@.len() == i,
            forall|j: int|
                0 <= j < i ==> conditions@[j]@ == (ConditionView {
                    name: json@.pairs()[j].0,
                    expression: json@.pairs()[j].1.rendered(),
                }),
        decreases count - i,
    {
        let (key, value) = json.entry(i);
        conditions.push(Condition::new(key.to_owned(), value.render()));
        i += 1;
    }
    if count > 0 {
        assert(conditions_view(conditions@) =~= conditions_of(json@)->0);
    }
    conditions
}

/// Reads an object into steps: each key a name, each value a script, in
/// the order of the object.
pub fn parse_json_to_steps(json: &JsonNode) -> (steps: Vec<Step>)
    ensures
        steps_view(steps@) == steps_of(json@),
{
    let mut steps: Vec<Step> = Vec::new();
    let count = json.entry_count();
    let mut i: usize = 0;
    while i < count
        invariant
            i <= count,
            count == json@.pairs().len(),
            steps@.len() == i,
            forall|j: int|
                0 <= j < i ==> steps@[j]@ == (StepView {
                    name: json@.pairs()[j].0,
                    script: json@.pairs()[j].1.rendered(),
                }),
        decreases count - i,
    {
        let (key, value) = json.entry(i);
        steps.push(Step::new(key.to_owned(), value.render()));
        i += 1;
    }
    assert(steps_view(steps@) =~= steps_of(json@));
    steps
}

/// Reads an array into the texts of its items, in order. A value that is
/// no array gives none.
pub fn parse_json_vector(json: &JsonNode) -> (items: Vec<String>)
    ensures
        texts(items@) == text_items(json@),
{
    let mut items: Vec<String> = Vec::new();
    let count = json.item_count();
    let mut i: usize = 0;
    while i < count
        invariant
            i <= count,
            count == json@.items().len(),
            items@.len() == i,
            forall|j: int| 0 <= j < i ==> items@[j]@ == json@.items()[j].rendered(),
        decreases count - i,
    {
        items.push(json.item(i).render());
        i += 1;
    }
    assert(texts(items@) =~= text_items(json@));
    items
}

/// The list of names under `key`; none where no value stands there.
pub fn parse_names(json: &JsonNode, key: &str) -> (names: Vec<String>)
    ensures
        texts(names@) == names_field(json@, key@),
{
    match json.member(key) {
        Some(list) => parse_json_vector(list),
        None => {
            let names: Vec<String> = Vec::new();
            assert(texts(names@) =~= Seq::<Seq<char>>::empty());
            names
        },
    }
}

/// The text under `property`, where a value other than null stands there.
pub fn own_property(json: &JsonNode, property: &str) -> (r: Option<String>)
    ensures
        opt_text(r) == text_field(json@, property@),
{
    match json.member(property) {
        Some(value) => Some(value.render()),
        None => None,
    }
}

/// The text under `property` as the top level reads it: where no value
/// stands there, `bash` for the backend and `Python` for the language.
pub fn get_property(json: &JsonNode, property: &str) -> (r: Option<String>)
    ensures
        opt_text(r) == (match text_field(json@, property@) {
            Some(t) => Some(t),
            None => if property@ == "backend"@ {
                Some(default_backend())
            } else if property@ == "language"@ {
                Some(default_language())
            } else {
                None
            },
        }),
{
    match own_property(json, property) {
        Some(t) => Some(t),
        None => if crate::text::same_text(property, "backend") {
            Some("bash".to_owned())
        } else if crate::text::same_text(property, "language") {
            Some("Python".to_owned())
        } else {
            None
        },
    }
}

/// The map under `property`, where a value other than null stands there.
pub fn get_mapped_property(json: &JsonNode, property: &str) -> (r: Option<StringMap>)
    ensures
        opt_map(r) == map_field(json@, property@),
{
    match json.member(property) {
        Some(value) => Some(parse_json_map(value)),
        None => None,
    }
}

/// The directories that `list` names, each resolved against `root`; none
/// where an item of the list is no string.
pub fn parse_ignore_dirs(list: &JsonNode, root: &str) -> (r: Option<Vec<String>>)
    ensures
        match r {
            Some(dirs) => all_strings(list@.items()) && dirs@.len() == list@.items().len()
                && texts(dirs@) == resolved_dirs(list@.items(), root@),
            None => !all_strings(list@.items()),
        },
{
    let mut dirs: Vec<String> = Vec::new();
    let count = list.item_count();
    let mut i: usize = 0;
    while i < count
        invariant
            i <= count,
            count == list@.items().len(),
            dirs@.len() == i,
            forall|j: int| 0 <= j < i ==> (#[trigger] list@.items()[j]).string() is Some,
            forall|j: int|
                0 <= j < i ==> dirs@[j]@ == resolved(list@.items()[j].string()->0, root@),
        decreases count - i,
    {
        match list.item(i).as_str() {
            Some(dir) => {
                dirs.push(resolve(dir, root));
            },
            None => {
                assert(list@.items()[i as int].string() is None);
                return None;
            },
        }
        i += 1;
    }
    assert(texts(dirs@) =~= resolved_dirs(list@.items(), root@));
    Some(dirs)
}

/// The directories that are ignored where the document names none.
pub fn default_ignored(root: &str) -> (dirs: Vec<String>)
    ensures
        texts(dirs@) == default_ignore_dirs(root@),
{
    let mut dirs: Vec<String> = Vec::new();
    dirs.push(resolve("./dist", root));
    dirs.push(resolve("./metrics", root));
    dirs.push(resolve("./target", root));
    dirs.push(resolve("./.git", root));
    dirs.push(resolve("./.github", root));
    assert(texts(dirs@) =~= default_ignore_dirs(root@));
    dirs
}

/// Builds the shared configuration of the top level from the document.
pub fn parse_shared_config(json: &JsonNode, root: &str) -> (r: Result<
    ShareableConfiguration,
    ConfigError,
>)
    ensures
        match r {
            Ok(config) => root_shared(json@, root@) == Ok::<SharedView, ConfigFault>(config@),
            Err(e) => root_shared(json@, root@) == Err::<SharedView, ConfigFault>(e@),
        },
{
    let ignore_dirs = match json.member("ignore_directories") {
        None => default_ignored(root),
        Some(list) => match parse_ignore_dirs(list, root) {
            None => {
                return Err(ConfigError::ConfigMalformed(String::new()));
            },
            Some(dirs) => if dirs.len() > 0 {
                dirs
            } else {
                default_ignored(root)
            },
        },
    };
    let backend = match own_property(json, "backend") {
        Some(b) => b,
        None => "bash".to_owned(),
    };
    let language = match own_property(json, "language") {
        Some(l) => l,
        None => "Python".to_owned(),
    };
    let output = match own_property(json, "output_directory") {
        Some(o) => resolve(o.as_str(), root),
        None => resolve("./dist/cider/", root),
    };
    let source = match own_property(json, "source_directory") {
        Some(s) => resolve(s.as_str(), root),
        None => resolve("./", root),
    };
    let config = ShareableConfiguration::new(
        get_mapped_property(json, "metadata"),
        own_property(json, "title"),
        get_mapped_property(json, "tags"),
        language,
        own_property(json, "image"),
        backend,
        output,
        source,
        Some(ignore_dirs),
    );
    proof {
        let want = root_shared(json@, root@);
        assert(want is Ok);
        assert(config@.metadata == want->Ok_0.metadata);
        assert(config@.title == want->Ok_0.title);
        assert(config@.tags == want->Ok_0.tags);
        assert(config@.language == want->Ok_0.language);
        assert(config@.backend == want->Ok_0.backend);
        assert(config@.image == want->Ok_0.image);
        assert(config@.output == want->Ok_0.output);
        assert(config@.source == want->Ok_0.source);
        assert(config@.ignore_dirs == want->Ok_0.ignore_dirs);
    }
    Ok(config)
}

/// Builds the shared configuration of the pipeline or action called
/// `name` from its object, below the level with the configuration
/// `shared_config`.
pub fn parse_child_config(
    shared_config: &ShareableConfiguration,
    json: &JsonNode,
    name: &str,
    root: &str,
) -> (r: Result<ShareableConfiguration, ConfigError>)
    ensures
        match r {
            Ok(config) => child_shared(shared_config@, json@, name@, root@) == Ok::<
                SharedView,
                ConfigFault,
            >(config@),
            Err(e) => child_shared(shared_config@, json@, name@, root@) == Err::<
                SharedView,
                ConfigFault,
            >(e@),
        },
{
    let ignore_dirs = match json.member("ignore_directories") {
        None => shared_config.get_ignore_dirs(),
        Some(list) => match parse_ignore_dirs(list, root) {
            None => {
                return Err(ConfigError::ConfigMalformed(name.to_owned()));
            },
            Some(dirs) => if dirs.len() > 0 {
                Some(dirs)
            } else {
                None
            },
        },
    };
    let backend = match own_property(json, "backend") {
        Some(b) => b,
        None => shared_config.get_backend().to_owned(),
    };
    let language = match own_property(json, "language") {
        Some(l) => l,
        None => shared_config.get_language().to_owned(),
    };
    let output = match own_property(json, "output_directory") {
        Some(o) => resolve(o.as_str(), root),
        None => shared_config.get_output().to_owned(),
    };
    let source = match own_property(json, "source_directory") {
        Some(s) => resolve(s.as_str(), root),
        None => shared_config.get_source().to_owned(),
    };
    let metadata = match get_mapped_property(json, "metadata") {
        Some(m) => Some(m),
        None => shared_config.get_metadata(),
    };
    let tags = match get_mapped_property(json, "tags") {
        Some(t) => Some(t),
        None => shared_config.get_tags(),
    };
    let image = match own_property(json, "image") {
        Some(i) => Some(i),
        None => shared_config.get_image(),
    };
    let config = ShareableConfiguration::new(
        metadata,
        Some(name.to_owned()),
        tags,
        language,
        image,
        backend,
        output,
        source,
        ignore_dirs,
    );
    proof {
        let want = child_shared(shared_config@, json@, name@, root@);
        assert(want is Ok);
        assert(config@.metadata == want->Ok_0.metadata);
        assert(config@.title == want->Ok_0.title);
        assert(config@.tags == want->Ok_0.tags);
        assert(config@.language == want->Ok_0.language);
        assert(config@.backend == want->Ok_0.backend);
        assert(config@.image == want->Ok_0.image);
        assert(config@.output == want->Ok_0.output);
        assert(config@.source == want->Ok_0.source);
        assert(config@.ignore_dirs == want->Ok_0.ignore_dirs);
    }
    Ok(config)
}

/// Builds what belongs to the action called `name` alone from its object.
pub fn parse_action_config(json: &JsonNode, name: &str) -> (r: Result<ActionConfig, ConfigError>)
    ensures
        match r {
            Ok(config) => action_config_spec(json@, name@) == Ok::<ActionConfigView, ConfigFault>(
                config@,
            ),
            Err(e) => action_config_spec(json@, name@) == Err::<ActionConfigView, ConfigFault>(e@),
        },
{
    let null = JsonNode::Null;
    let retries: i8 = match json.member("retries") {
        None => 0,
        Some(value) => match value.as_i8() {
            Some(n) => n,
            None => {
                return Err(ConfigError::ConfigMalformed(name.to_owned()));
            },
        },
    };
    let allowed_failure = match json.member("allowed_failure") {
        None => false,
        Some(value) => match value.as_bool() {
            Some(b) => b,
            None => {
                return Err(ConfigError::ConfigMalformed(name.to_owned()));
            },
        },
    };
    let manual = parse_json_to_steps(json.member_or("manual", &null));
    if manual.len() == 0 {
        return Err(ConfigError::ConfigInvariantViolation(name.to_owned()));
    }
    let conditions = parse_json_to_conditions(json.member_or("conditions", &null));
    let conditions = if conditions.len() == 0 {
        None
    } else {
        Some(conditions)
    };
    Ok(ActionConfig::new(conditions, Some(retries), Some(allowed_failure), manual))
}

/// Builds the action called `name` from its object `json`, below the level
/// with the configuration `shared_config`.
///
/// Fails where there is no object, where a typed field does not hold a
/// value of its type, and where the action has no steps.
pub fn parse_action(
    shared_config: &ShareableConfiguration,
    json: &JsonNode,
    name: &str,
    root: &str,
) -> (r: Result<Action, ConfigError>)
    ensures
        match r {
            Ok(action) => action_spec(shared_config@, json@, name@, root@) == Ok::<
                ActionView,
                ConfigFault,
            >(action@),
            Err(e) => action_spec(shared_config@, json@, name@, root@) == Err::<
                ActionView,
                ConfigFault,
            >(e@),
        },
{
    if json.is_null() {
        return Err(ConfigError::ConfigNotFound(name.to_owned()));
    }
    let new_shared_config = match parse_child_config(shared_config, json, name, root) {
        Ok(config) => config,
        Err(e) => {
            return Err(e);
        },
    };
    let action_config = match parse_action_config(json, name) {
        Ok(config) => config,
        Err(e) => {
            return Err(e);
        },
    };
    Ok(Action::new(new_shared_config, action_config))
}

/// Builds the actions called `action_defs`, each from the object under its
/// name in `data`, below the level with the configuration `shared_config`.
pub fn parse_action_defs(
    shared_config: &ShareableConfiguration,
    action_defs: &Vec<String>,
    data: &JsonNode,
    root: &str,
) -> (r: Result<Vec<Action>, ConfigError>)
    ensures
        match r {
            Ok(actions) => actions_spec(shared_config@, data@, texts(action_defs@), root@) == Ok::<
                Seq<ActionView>,
                ConfigFault,
            >(actions_view(actions@)),
            Err(e) => actions_spec(shared_config@, data@, texts(action_defs@), root@) == Err::<
                Seq<ActionView>,
                ConfigFault,
            >(e@),
        },
{
    let null = JsonNode::Null;
    let ghost names = texts(action_defs@);
    let mut actions: Vec<Action> = Vec::new();
    let mut i: usize = 0;
    assert(names.take(0) =~= Seq::<Seq<char>>::empty());
    assert(actions_view(actions@) =~= Seq::<ActionView>::empty());
    while i < action_defs.len()
        invariant
            i <= action_defs.len(),
            null@ is Null,
            names == texts(action_defs@),
            actions_spec(shared_config@, data@, names.take(i as int), root@) == Ok::<
                Seq<ActionView>,
                ConfigFault,
            >(actions_view(actions@)),
        decreases action_defs.len() - i,
    {
        let action_name = action_defs[i].as_str();
        assert(names.take(i + 1).drop_last() =~= names.take(i as int));
        assert(names.take(i + 1).last() == action_name@);
        let ghost earlier = actions_view(actions@);
        match parse_action(shared_config, data.member_or(action_name, &null), action_name, root) {
            Ok(action) => {
                actions.push(action);
                assert(actions_view(actions@) =~= earlier.push(action@));
            },
            Err(e) => {
                proof {
                    lemma_actions_fail_on(shared_config@, data@, names, i + 1, root@);
                }
                return Err(e);
            },
        }
        i += 1;
    }
    assert(names.take(action_defs.len() as int) =~= names);
    Ok(actions)
}

/// Once the actions up to a point fail, the actions up to any later point
/// fail with the same error.
pub proof fn lemma_actions_fail_on(
    parent: SharedView,
    data: JsonTree,
    names: Seq<Seq<char>>,
    upto: int,
    root: Seq<char>,
)
    requires
        0 <= upto <= names.len(),
        actions_spec(parent, data, names.take(upto), root) is Err,
    ensures
        actions_spec(parent, data, names, root) == actions_spec(
            parent,
            data,
            names.take(upto),
            root,
        ),
    decreases names.len() - upto,
{
    if upto == names.len() {
        assert(names.take(upto) =~= names);
    } else {
        assert(names.take(upto + 1).drop_last() =~= names.take(upto));
        lemma_actions_fail_on(parent, data, names, upto + 1, root);
    }
}

/// Once the pipelines up to a point fail, the pipelines up to any later
/// point fail with the same error.
pub proof fn lemma_pipelines_fail_on(
    parent: SharedView,
    data: JsonTree,
    names: Seq<Seq<char>>,
    upto: int,
    root: Seq<char>,
)
    requires
        0 <= upto <= names.len(),
        pipelines_spec(parent, data, names.take(upto), root) is Err,
    ensures
        pipelines_spec(parent, data, names, root) == pipelines_spec(
            parent,
            data,
            names.take(upto),
            root,
        ),
    decreases names.len() - upto,
{
    if upto == names.len() {
        assert(names.take(upto) =~= names);
    } else {
        assert(names.take(upto + 1).drop_last() =~= names.take(upto));
        lemma_pipelines_fail_on(parent, data, names, upto + 1, root);
    }
}

/// Builds the pipeline called `name` from its object `json`, below the top
/// level with the configuration `shared_config`. The pipeline's actions
/// are built from the same object and inherit from the pipeline.
///
/// Fails where there is no object, where the object names no actions,
/// where a list of ignored directories holds an item that is no string,
/// and where one of the pipeline's actions fails.
pub fn parse_pipeline(
    shared_config: &ShareableConfiguration,
    json: &JsonNode,
    name: &str,
    root: &str,
) -> (r: Result<Pipeline, ConfigError>)
    ensures
        match r {
            Ok(pipeline) => pipeline_spec(shared_config@, json@, name@, root@) == Ok::<
                PipelineView,
                ConfigFault,
            >(pipeline@),
            Err(e) => pipeline_spec(shared_config@, json@, name@, root@) == Err::<
                PipelineView,
                ConfigFault,
            >(e@),
        },
{
    let null = JsonNode::Null;
    if json.is_null() {
        return Err(ConfigError::ConfigNotFound(name.to_owned()));
    }
    let new_shared_config = match parse_child_config(shared_config, json, name, root) {
        Ok(config) => config,
        Err(e) => {
            return Err(e);
        },
    };
    let action_defs = match json.member("actions") {
        Some(list) => parse_json_vector(list),
        None => {
            return Err(ConfigError::ConfigMalformed(name.to_owned()));
        },
    };
    let actions = match parse_action_defs(&new_shared_config, &action_defs, json, root) {
        Ok(actions) => actions,
        Err(e) => {
            return Err(e);
        },
    };
    let conditions = parse_json_to_conditions(json.member_or("conditions", &null));
    let conditions = if conditions.len() == 0 {
        None
    } else {
        Some(conditions)
    };
    let required = match json.member("requires") {
        Some(list) => Some(parse_json_vector(list)),
        None => None,
    };
    let pipeline_config = PipelineConfig::new(conditions, action_defs, actions, required);
    Ok(Pipeline::new(new_shared_config, pipeline_config))
}

/// Builds the pipelines called `pipeline_defs`, each from the object under
/// its name in `json`, below the top level with the configuration
/// `shared_config`.
pub fn parse_pipeline_defs(
    shared_config: &ShareableConfiguration,
    json: &JsonNode,
    pipeline_defs: &Vec<String>,
    root: &str,
) -> (r: Result<Vec<Pipeline>, ConfigError>)
    ensures
        match r {
            Ok(pipelines) => pipelines_spec(shared_config@, json@, texts(pipeline_defs@), root@)
                == Ok::<Seq<PipelineView>, ConfigFault>(pipelines_view(pipelines@)),
            Err(e) => pipelines_spec(shared_config@, json@, texts(pipeline_defs@), root@) == Err::<
                Seq<PipelineView>,
                ConfigFault,
            >(e@),
        },
{
    let null = JsonNode::Null;
    let ghost names = texts(pipeline_defs@);
    let mut pipelines: Vec<Pipeline> = Vec::new();
    let mut i: usize = 0;
    assert(names.take(0) =~= Seq::<Seq<char>>::empty());
    assert(pipelines_view(pipelines@) =~= Seq::<PipelineView>::empty());
    while i < pipeline_defs.len()
        invariant
            i <= pipeline_defs.len(),
            null@ is Null,
            names == texts(pipeline_defs@),
            pipelines_spec(shared_config@, json@, names.take(i as int), root@) == Ok::<
                Seq<PipelineView>,
                ConfigFault,
            >(pipelines_view(pipelines@)),
        decreases pipeline_defs.len() - i,
    {
        let pipeline_name = pipeline_defs[i].as_str();
        assert(names.take(i + 1).drop_last() =~= names.take(i as int));
        assert(names.take(i + 1).last() == pipeline_name@);
        let ghost earlier = pipelines_view(pipelines@);
        match parse_pipeline(
            shared_config,
            json.member_or(pipeline_name, &null),
            pipeline_name,
            root,
        ) {
            Ok(pipeline) => {
                pipelines.push(pipeline);
                assert(pipelines_view(pipelines@) =~= earlier.push(pipeline@));
            },
            Err(e) => {
                proof {
                    lemma_pipelines_fail_on(shared_config@, json@, names, i + 1, root@);
                }
                return Err(e);
            },
        }
        i += 1;
    }
    assert(names.take(pipeline_defs.len() as int) =~= names);
    Ok(pipelines)
}

/// Builds the configuration that the document `data` describes, for a
/// process that works in the directory `root`.
///
/// Succeeds exactly where every declared pipeline and action has an
/// object under its name, every typed field holds a value of its type,
/// every pipeline names its actions and every action has a step; the
/// error says which of these failed first, and for whom.
pub fn build_top_level(data: &JsonNode, root: &str) -> (r: Result<
    TopLevelConfiguration,
    ConfigError,
>)
    ensures
        match r {
            Ok(config) => top_level_spec(data@, root@) == Ok::<TopLevelView, ConfigFault>(config@),
            Err(e) => top_level_spec(data@, root@) == Err::<TopLevelView, ConfigFault>(e@),
        },
{
    let s_config = match parse_shared_config(data, root) {
        Ok(config) => config,
        Err(e) => {
            return Err(e);
        },
    };
    let pipeline_defs = parse_names(data, "pipelines");
    let pipelines = match parse_pipeline_defs(&s_config, data, &pipeline_defs, root) {
        Ok(pipelines) => pipelines,
        Err(e) => {
            return Err(e);
        },
    };
    let action_defs = parse_names(data, "actions");
    let actions = match parse_action_defs(&s_config, &action_defs, data, root) {
        Ok(actions) => actions,
        Err(e) => {
            return Err(e);
        },
    };
    Ok(TopLevelConfiguration::new(s_config, pipeline_defs, pipelines, action_defs, actions))
}

/// What building from the text of a document gives: `Malformed` where the
/// text stands for no document, because it is no JSON document or holds a
/// run of digits that is too long to be parsed; else what the document
/// builds.
pub open spec fn built_from_text(text: Seq<char>, root: Seq<char>, r: Result<
    TopLevelView,
    ConfigFault,
>) -> bool {
    match document_of(text) {
        Some(doc) => r == top_level_spec(doc, root),
        None => r is Err && r->Err_0 is Malformed,
    }
}

/// Builds a configuration from the text of a document, for a process that
/// works in the directory `root`.
///
/// A text that stands for no document is `ConfigMalformed`, with the
/// message of the parser or of the scan before it; any other text builds
/// what its document describes.
pub fn new_top_level(file_contents: &str, root: &str) -> (r: Result<
    TopLevelConfiguration,
    ConfigError,
>)
    ensures
        built_from_text(
            file_contents@,
            root@,
            match r {
                Ok(config) => Ok(config@),
                Err(e) => Err(e@),
            },
        ),
{
    match parse_json_string(file_contents) {
        Ok(data) => build_top_level(&data, root),
        Err(e) => Err(ConfigError::ConfigMalformed(e.message())),
    }
}

/// Builds a configuration anew from the text of a document and puts it in
/// the place of `config`. Where the text builds none, the result is the
/// error and `config` is dropped.
pub fn overwrite_top_level(config: TopLevelConfiguration, file_contents: &str, root: &str) -> (r:
    Result<TopLevelConfiguration, ConfigError>)
    ensures
        built_from_text(
            file_contents@,
            root@,
            match r {
                Ok(config) => Ok(config@),
                Err(e) => Err(e@),
            },
        ),
{
    let mut config = config;
    let data = match parse_json_string(file_contents) {
        Ok(data) => data,
        Err(e) => {
            return Err(ConfigError::ConfigMalformed(e.message()));
        },
    };
    let fresh = match build_top_level(&data, root) {
        Ok(fresh) => fresh,
        Err(e) => {
            return Err(e);
        },
    };
    config.set_shared_config(fresh.get_shared_config().clone());
    config.set_pipeline_defs(crate::text::clone_texts(fresh.get_pipeline_defs()));
    config.set_pipelines(crate::config::clone_pipelines(fresh.get_pipelines()));
    config.set_action_defs(crate::text::clone_texts(fresh.get_action_defs()));
    config.set_actions(crate::config::clone_actions(fresh.get_actions()));
    Ok(config)
}

} // verus!
