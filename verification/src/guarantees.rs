//! What holds of every configuration that the builder builds.

use vstd::prelude::*;
use crate::config::{
    image_kept,
    pipeline_actions,
    ActionView,
    PipelineView,
    SharedView,
    TopLevelView,
};
use crate::document::JsonTree;
use crate::errors::ConfigFault;
use crate::parsing::{
    action_spec,
    actions_spec,
    built_from_text,
    child_shared,
    default_backend,
    default_ignore_dirs,
    default_language,
    map_field,
    names_field,
    pipeline_spec,
    pipelines_spec,
    resolved_dirs,
    root_shared,
    steps_of,
    text_field,
    top_level_spec,
};
use crate::path::{default_output, default_source, resolved};

verus! {

/// Where a list of actions is built, there is one action for each name, and
/// each is the action that its own object builds.
pub proof fn lemma_actions_each(
    parent: SharedView,
    data: JsonTree,
    names: Seq<Seq<char>>,
    root: Seq<char>,
)
    requires
        actions_spec(parent, data, names, root) is Ok,
    ensures
        actions_spec(parent, data, names, root)->Ok_0.len() == names.len(),
        forall|i: int|
            0 <= i < names.len() ==> action_spec(parent, data.member(names[i]), names[i], root)
                == Ok::<ActionView, ConfigFault>(
                #[trigger] actions_spec(parent, data, names, root)->Ok_0[i],
            ),
    decreases names.len(),
{
    if names.len() > 0 {
        lemma_actions_each(parent, data, names.drop_last(), root);
        let earlier = actions_spec(parent, data, names.drop_last(), root)->Ok_0;
        let all = actions_spec(parent, data, names, root)->Ok_0;
        assert forall|i: int| 0 <= i < names.len() implies action_spec(
            parent,
            data.member(names[i]),
            names[i],
            root,
        ) == Ok::<ActionView, ConfigFault>(#[trigger] all[i]) by {
            if i < names.len() - 1 {
                assert(names.drop_last()[i] == names[i]);
                assert(all[i] == earlier[i]);
            }
        }
    }
}

/// Where a list of pipelines is built, there is one pipeline for each name,
/// and each is the pipeline that its own object builds.
pub proof fn lemma_pipelines_each(
    parent: SharedView,
    data: JsonTree,
    names: Seq<Seq<char>>,
    root: Seq<char>,
)
    requires
        pipelines_spec(parent, data, names, root) is Ok,
    ensures
        pipelines_spec(parent, data, names, root)->Ok_0.len() == names.len(),
        forall|i: int|
            0 <= i < names.len() ==> pipeline_spec(parent, data.member(names[i]), names[i], root)
                == Ok::<PipelineView, ConfigFault>(
                #[trigger] pipelines_spec(parent, data, names, root)->Ok_0[i],
            ),
    decreases names.len(),
{
    if names.len() > 0 {
        lemma_pipelines_each(parent, data, names.drop_last(), root);
        let earlier = pipelines_spec(parent, data, names.drop_last(), root)->Ok_0;
        let all = pipelines_spec(parent, data, names, root)->Ok_0;
        assert forall|i: int| 0 <= i < names.len() implies pipeline_spec(
            parent,
            data.member(names[i]),
            names[i],
            root,
        ) == Ok::<PipelineView, ConfigFault>(#[trigger] all[i]) by {
            if i < names.len() - 1 {
                assert(names.drop_last()[i] == names[i]);
                assert(all[i] == earlier[i]);
            }
        }
    }
}

/// A list of actions is built only where each of its actions is.
pub proof fn lemma_actions_need_each(
    parent: SharedView,
    data: JsonTree,
    names: Seq<Seq<char>>,
    root: Seq<char>,
    i: int,
)
    requires
        0 <= i < names.len(),
        action_spec(parent, data.member(names[i]), names[i], root) is Err,
    ensures
        actions_spec(parent, data, names, root) is Err,
{
    if actions_spec(parent, data, names, root) is Ok {
        lemma_actions_each(parent, data, names, root);
        assert(action_spec(parent, data.member(names[i]), names[i], root) == Ok::<
            ActionView,
            ConfigFault,
        >(actions_spec(parent, data, names, root)->Ok_0[i]));
    }
}

/// A list of pipelines is built only where each of its pipelines is.
pub proof fn lemma_pipelines_need_each(
    parent: SharedView,
    data: JsonTree,
    names: Seq<Seq<char>>,
    root: Seq<char>,
    i: int,
)
    requires
        0 <= i < names.len(),
        pipeline_spec(parent, data.member(names[i]), names[i], root) is Err,
    ensures
        pipelines_spec(parent, data, names, root) is Err,
{
    if pipelines_spec(parent, data, names, root) is Ok {
        lemma_pipelines_each(parent, data, names, root);
        assert(pipeline_spec(parent, data.member(names[i]), names[i], root) == Ok::<
            PipelineView,
            ConfigFault,
        >(pipelines_spec(parent, data, names, root)->Ok_0[i]));
    }
}

/// The shape of a built configuration: its top level is what the document
/// builds as its top level, each of its pipelines is what the object under
/// the pipeline's name builds below the top level, each action of a
/// pipeline is what the object under the action's name in the pipeline's
/// object builds below the pipeline, and each top-level action is what the
/// object under its name builds below the top level.
pub open spec fn built_as_declared(doc: JsonTree, root: Seq<char>, config: TopLevelView) -> bool {
    &&& root_shared(doc, root) == Ok::<SharedView, ConfigFault>(config.s_config)
    &&& config.pipeline_defs == names_field(doc, "pipelines"@)
    &&& config.action_defs == names_field(doc, "actions"@)
    &&& config.pipelines.len() == config.pipeline_defs.len()
    &&& config.actions.len() == config.action_defs.len()
    &&& forall|i: int|
        0 <= i < config.actions.len() ==> action_spec(
            config.s_config,
            doc.member(config.action_defs[i]),
            config.action_defs[i],
            root,
        ) == Ok::<ActionView, ConfigFault>(#[trigger] config.actions[i])
    &&& forall|p: int|
        0 <= p < config.pipelines.len() ==> built_pipeline(
            config.s_config,
            doc.member(config.pipeline_defs[p]),
            config.pipeline_defs[p],
            root,
            #[trigger] config.pipelines[p],
        )
}

/// The shape of a built pipeline: its shared configuration is what its
/// object builds below the top level, and each of its actions is what the
/// object under the action's name builds below the pipeline.
pub open spec fn built_pipeline(
    top: SharedView,
    doc: JsonTree,
    name: Seq<char>,
    root: Seq<char>,
    pipeline: PipelineView,
) -> bool {
    &&& child_shared(top, doc, name, root) == Ok::<SharedView, ConfigFault>(pipeline.shared)
    &&& pipeline.config.action_defs == names_field(doc, "actions"@)
    &&& pipeline.config.actions.len() == pipeline.config.action_defs.len()
    &&& forall|i: int|
        0 <= i < pipeline.config.actions.len() ==> action_spec(
            pipeline.shared,
            doc.member(pipeline.config.action_defs[i]),
            pipeline.config.action_defs[i],
            root,
        ) == Ok::<ActionView, ConfigFault>(#[trigger] pipeline.config.actions[i])
}

/// Every built configuration has the shape that the document declares.
pub proof fn lemma_built_as_declared(doc: JsonTree, root: Seq<char>)
    requires
        top_level_spec(doc, root) is Ok,
    ensures
        built_as_declared(doc, root, top_level_spec(doc, root)->Ok_0),
{
    let config = top_level_spec(doc, root)->Ok_0;
    let top = config.s_config;
    lemma_pipelines_each(top, doc, names_field(doc, "pipelines"@), root);
    lemma_actions_each(top, doc, names_field(doc, "actions"@), root);
    assert forall|p: int| 0 <= p < config.pipelines.len() implies built_pipeline(
        top,
        doc.member(config.pipeline_defs[p]),
        config.pipeline_defs[p],
        root,
        #[trigger] config.pipelines[p],
    ) by {
        let name = config.pipeline_defs[p];
        let sub = doc.member(name);
        assert(pipeline_spec(top, sub, name, root) == Ok::<PipelineView, ConfigFault>(
            config.pipelines[p],
        ));
        let shared = child_shared(top, sub, name, root)->Ok_0;
        lemma_actions_each(shared, sub, names_field(sub, "actions"@), root);
    }
}

/// A field that a pipeline or an action declares is the field of its
/// configuration, whatever the level above holds; a field that it leaves
/// out is that of the level above, unchanged. The image follows the same
/// rule and is then kept only for the `docker` backend.
pub proof fn lemma_declared_field_wins(
    parent: SharedView,
    doc: JsonTree,
    name: Seq<char>,
    root: Seq<char>,
)
    requires
        child_shared(parent, doc, name, root) is Ok,
    ensures
        ({
            let own = child_shared(parent, doc, name, root)->Ok_0;
            &&& own.title == Some(name)
            &&& own.language == (if doc.has("language"@) {
                doc.member("language"@).rendered()
            } else {
                parent.language
            })
            &&& own.backend == (if doc.has("backend"@) {
                doc.member("backend"@).rendered()
            } else {
                parent.backend
            })
            &&& own.output == (if doc.has("output_directory"@) {
                resolved(doc.member("output_directory"@).rendered(), root)
            } else {
                parent.output
            })
            &&& own.source == (if doc.has("source_directory"@) {
                resolved(doc.member("source_directory"@).rendered(), root)
            } else {
                parent.source
            })
            &&& own.metadata == (if doc.has("metadata"@) {
                map_field(doc, "metadata"@)
            } else {
                parent.metadata
            })
            &&& own.tags == (if doc.has("tags"@) {
                map_field(doc, "tags"@)
            } else {
                parent.tags
            })
            &&& own.image == image_kept(
                own.backend,
                if doc.has("image"@) {
                    Some(doc.member("image"@).rendered())
                } else {
                    parent.image
                },
            )
            &&& own.ignore_dirs == (if !doc.has("ignore_directories"@) {
                parent.ignore_dirs
            } else if doc.member("ignore_directories"@).items().len() > 0 {
                Some(resolved_dirs(doc.member("ignore_directories"@).items(), root))
            } else {
                None
            })
        }),
{
}

/// A field that the document declares at its top level is the field of
/// the top level; a field that it leaves out has its default there.
pub proof fn lemma_top_level_defaults(doc: JsonTree, root: Seq<char>)
    requires
        root_shared(doc, root) is Ok,
    ensures
        ({
            let top = root_shared(doc, root)->Ok_0;
            &&& top.title == text_field(doc, "title"@)
            &&& top.metadata == map_field(doc, "metadata"@)
            &&& top.tags == map_field(doc, "tags"@)
            &&& top.language == (if doc.has("language"@) {
                doc.member("language"@).rendered()
            } else {
                default_language()
            })
            &&& top.backend == (if doc.has("backend"@) {
                doc.member("backend"@).rendered()
            } else {
                default_backend()
            })
            &&& top.output == (if doc.has("output_directory"@) {
                resolved(doc.member("output_directory"@).rendered(), root)
            } else {
                resolved(default_output(), root)
            })
            &&& top.source == (if doc.has("source_directory"@) {
                resolved(doc.member("source_directory"@).rendered(), root)
            } else {
                resolved(default_source(), root)
            })
            &&& top.image == image_kept(top.backend, text_field(doc, "image"@))
            &&& top.ignore_dirs == (if doc.has("ignore_directories"@) && doc.member(
                "ignore_directories"@,
            ).items().len() > 0 {
                Some(resolved_dirs(doc.member("ignore_directories"@).items(), root))
            } else {
                Some(default_ignore_dirs(root))
            })
        }),
{
}

/// Across the three levels, for the language and the backend of an action
/// of a pipeline: the action's own declaration wins; where the action
/// declares none, the pipeline's wins; where neither declares one, the
/// field is that of the top level.
pub proof fn lemma_nearest_level_wins(
    top: SharedView,
    pipeline_doc: JsonTree,
    pipeline_name: Seq<char>,
    action_doc: JsonTree,
    action_name: Seq<char>,
    root: Seq<char>,
)
    requires
        child_shared(top, pipeline_doc, pipeline_name, root) is Ok,
        child_shared(
            child_shared(top, pipeline_doc, pipeline_name, root)->Ok_0,
            action_doc,
            action_name,
            root,
        ) is Ok,
    ensures
        ({
            let pipeline = child_shared(top, pipeline_doc, pipeline_name, root)->Ok_0;
            let action = child_shared(pipeline, action_doc, action_name, root)->Ok_0;
            &&& action.language == (if action_doc.has("language"@) {
                action_doc.member("language"@).rendered()
            } else if pipeline_doc.has("language"@) {
                pipeline_doc.member("language"@).rendered()
            } else {
                top.language
            })
            &&& action.backend == (if action_doc.has("backend"@) {
                action_doc.member("backend"@).rendered()
            } else if pipeline_doc.has("backend"@) {
                pipeline_doc.member("backend"@).rendered()
            } else {
                top.backend
            })
            &&& action.output == (if action_doc.has("output_directory"@) {
                resolved(action_doc.member("output_directory"@).rendered(), root)
            } else if pipeline_doc.has("output_directory"@) {
                resolved(pipeline_doc.member("output_directory"@).rendered(), root)
            } else {
                top.output
            })
            &&& action.source == (if action_doc.has("source_directory"@) {
                resolved(action_doc.member("source_directory"@).rendered(), root)
            } else if pipeline_doc.has("source_directory"@) {
                resolved(pipeline_doc.member("source_directory"@).rendered(), root)
            } else {
                top.source
            })
            &&& action.metadata == (if action_doc.has("metadata"@) {
                map_field(action_doc, "metadata"@)
            } else if pipeline_doc.has("metadata"@) {
                map_field(pipeline_doc, "metadata"@)
            } else {
                top.metadata
            })
            &&& action.tags == (if action_doc.has("tags"@) {
                map_field(action_doc, "tags"@)
            } else if pipeline_doc.has("tags"@) {
                map_field(pipeline_doc, "tags"@)
            } else {
                top.tags
            })
        }),
{
}

/// The shared configuration of a top level has an image only where its
/// backend is `docker`, whatever the document declares.
pub proof fn lemma_top_level_image_rule(doc: JsonTree, root: Seq<char>)
    requires
        root_shared(doc, root) is Ok,
    ensures
        root_shared(doc, root)->Ok_0.image_rule(),
{
}

/// The shared configuration of a pipeline or an action has an image only
/// where its backend is `docker`, whatever its object declares and
/// whatever the level above holds.
pub proof fn lemma_child_image_rule(
    parent: SharedView,
    doc: JsonTree,
    name: Seq<char>,
    root: Seq<char>,
)
    requires
        child_shared(parent, doc, name, root) is Ok,
    ensures
        child_shared(parent, doc, name, root)->Ok_0.image_rule(),
{
}

/// Whether every shared configuration of a configuration has an image
/// only where its backend is `docker`.
pub open spec fn image_rule_everywhere(config: TopLevelView) -> bool {
    &&& config.s_config.image_rule()
    &&& forall|i: int| 0 <= i < config.actions.len() ==> (#[trigger] config.actions[i]).shared.image_rule()
    &&& forall|p: int|
        0 <= p < config.pipelines.len() ==> (#[trigger] config.pipelines[p]).shared.image_rule()
    &&& forall|p: int, i: int|
        0 <= p < config.pipelines.len() && 0 <= i < config.pipelines[p].config.actions.len()
            ==> (#[trigger] config.pipelines[p].config.actions[i]).shared.image_rule()
}

/// In every built configuration, at every level, an image is set only
/// where the backend is `docker`.
pub proof fn lemma_image_only_for_docker(doc: JsonTree, root: Seq<char>)
    requires
        top_level_spec(doc, root) is Ok,
    ensures
        image_rule_everywhere(top_level_spec(doc, root)->Ok_0),
{
    let config = top_level_spec(doc, root)->Ok_0;
    lemma_built_as_declared(doc, root);
    assert forall|i: int| 0 <= i < config.actions.len() implies (
    #[trigger] config.actions[i]).shared.image_rule() by {
        let name = config.action_defs[i];
        assert(action_spec(config.s_config, doc.member(name), name, root) == Ok::<
            ActionView,
            ConfigFault,
        >(config.actions[i]));
    }
    assert forall|p: int| 0 <= p < config.pipelines.len() implies (
    #[trigger] config.pipelines[p]).shared.image_rule() by {
        assert(built_pipeline(
            config.s_config,
            doc.member(config.pipeline_defs[p]),
            config.pipeline_defs[p],
            root,
            config.pipelines[p],
        ));
    }
    assert forall|p: int, i: int|
        0 <= p < config.pipelines.len() && 0 <= i
            < config.pipelines[p].config.actions.len() implies (
    #[trigger] config.pipelines[p].config.actions[i]).shared.image_rule() by {
        let pipeline = config.pipelines[p];
        let sub = doc.member(config.pipeline_defs[p]);
        assert(built_pipeline(config.s_config, sub, config.pipeline_defs[p], root, pipeline));
        let name = pipeline.config.action_defs[i];
        assert(action_spec(pipeline.shared, sub.member(name), name, root) == Ok::<
            ActionView,
            ConfigFault,
        >(pipeline.config.actions[i]));
    }
}

/// A document and a working directory build one configuration: two
/// configurations built from the same two are the same.
pub proof fn lemma_one_document_one_configuration(
    doc: JsonTree,
    root: Seq<char>,
    first: Result<TopLevelView, ConfigFault>,
    second: Result<TopLevelView, ConfigFault>,
)
    requires
        first == top_level_spec(doc, root),
        second == top_level_spec(doc, root),
    ensures
        first == second,
{
}

/// A text and a working directory build one configuration: two
/// configurations built from the same two are the same.
pub proof fn lemma_one_text_one_configuration(
    text: Seq<char>,
    root: Seq<char>,
    first: Result<TopLevelView, ConfigFault>,
    second: Result<TopLevelView, ConfigFault>,
)
    requires
        built_from_text(text, root, first),
        built_from_text(text, root, second),
        first is Ok,
    ensures
        first == second,
{
}

/// An action is built only with at least one step.
pub proof fn lemma_action_has_steps(
    parent: SharedView,
    doc: JsonTree,
    name: Seq<char>,
    root: Seq<char>,
)
    ensures
        match action_spec(parent, doc, name, root) {
            Ok(action) => action.config.manual.len() > 0 && action.config.manual == steps_of(
                doc.member("manual"@),
            ),
            Err(_) => true,
        },
        steps_of(doc.member("manual"@)).len() == 0 ==> action_spec(parent, doc, name, root) is Err,
{
}

/// A document that declares a top-level action without steps builds no
/// configuration.
pub proof fn lemma_top_level_action_without_steps(doc: JsonTree, root: Seq<char>, i: int)
    requires
        0 <= i < names_field(doc, "actions"@).len(),
        steps_of(doc.member(names_field(doc, "actions"@)[i]).member("manual"@)).len() == 0,
    ensures
        top_level_spec(doc, root) is Err,
{
    if root_shared(doc, root) is Ok {
        let top = root_shared(doc, root)->Ok_0;
        let names = names_field(doc, "actions"@);
        lemma_action_has_steps(top, doc.member(names[i]), names[i], root);
        lemma_actions_need_each(top, doc, names, root, i);
    }
}

/// A document that declares a pipeline with an action without steps builds
/// no configuration.
pub proof fn lemma_pipeline_action_without_steps(doc: JsonTree, root: Seq<char>, p: int, i: int)
    requires
        0 <= p < names_field(doc, "pipelines"@).len(),
        0 <= i < names_field(doc.member(names_field(doc, "pipelines"@)[p]), "actions"@).len(),
        steps_of(
            doc.member(names_field(doc, "pipelines"@)[p]).member(
                names_field(doc.member(names_field(doc, "pipelines"@)[p]), "actions"@)[i],
            ).member("manual"@),
        ).len() == 0,
    ensures
        top_level_spec(doc, root) is Err,
{
    if root_shared(doc, root) is Ok {
        let top = root_shared(doc, root)->Ok_0;
        let pipelines = names_field(doc, "pipelines"@);
        let sub = doc.member(pipelines[p]);
        if pipeline_spec(top, sub, pipelines[p], root) is Ok {
            let shared = child_shared(top, sub, pipelines[p], root)->Ok_0;
            let names = names_field(sub, "actions"@);
            lemma_action_has_steps(shared, sub.member(names[i]), names[i], root);
            lemma_actions_need_each(shared, sub, names, root, i);
        }
        lemma_pipelines_need_each(top, doc, pipelines, root, p);
    }
}

/// Every action that `pipelines` hold is an action of one of them.
pub proof fn lemma_pipeline_action_origin(pipelines: Seq<PipelineView>, k: int)
    requires
        0 <= k < pipeline_actions(pipelines).len(),
    ensures
        exists|p: int, i: int|
            0 <= p < pipelines.len() && 0 <= i < pipelines[p].config.actions.len()
                && pipeline_actions(pipelines)[k] == #[trigger] pipelines[p].config.actions[i],
    decreases pipelines.len(),
{
    let shorter = pipelines.drop_last();
    let earlier = pipeline_actions(shorter);
    if k < earlier.len() {
        lemma_pipeline_action_origin(shorter, k);
        let (p, i) = choose|p: int, i: int|
            0 <= p < shorter.len() && 0 <= i < shorter[p].config.actions.len() && earlier[k]
                == #[trigger] shorter[p].config.actions[i];
        assert(pipelines[p] == shorter[p]);
        assert(pipeline_actions(pipelines)[k] == pipelines[p].config.actions[i]);
    } else {
        let p = pipelines.len() - 1;
        let i = k - earlier.len();
        assert(pipeline_actions(pipelines)[k] == pipelines[p].config.actions[i]);
    }
}

/// In every built configuration, every action has at least one step.
pub proof fn lemma_every_action_has_steps(doc: JsonTree, root: Seq<char>, k: int)
    requires
        top_level_spec(doc, root) is Ok,
        0 <= k < top_level_spec(doc, root)->Ok_0.all_actions().len(),
    ensures
        top_level_spec(doc, root)->Ok_0.all_actions()[k].config.manual.len() > 0,
{
    let config = top_level_spec(doc, root)->Ok_0;
    lemma_built_as_declared(doc, root);
    if k < config.actions.len() {
        let name = config.action_defs[k];
        assert(action_spec(config.s_config, doc.member(name), name, root) == Ok::<
            ActionView,
            ConfigFault,
        >(config.actions[k]));
    } else {
        let at = k - config.actions.len();
        lemma_pipeline_action_origin(config.pipelines, at);
        let (p, i) = choose|p: int, i: int|
            0 <= p < config.pipelines.len() && 0 <= i < config.pipelines[p].config.actions.len()
                && pipeline_actions(config.pipelines)[at]
                == #[trigger] config.pipelines[p].config.actions[i];
        let pipeline = config.pipelines[p];
        let sub = doc.member(config.pipeline_defs[p]);
        assert(built_pipeline(config.s_config, sub, config.pipeline_defs[p], root, pipeline));
        let name = pipeline.config.action_defs[i];
        assert(action_spec(pipeline.shared, sub.member(name), name, root) == Ok::<
            ActionView,
            ConfigFault,
        >(pipeline.config.actions[i]));
    }
}

} // verus!
