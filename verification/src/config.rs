//! The configuration model: what is shared between the levels of a
//! configuration, what belongs to an action or a pipeline alone, and the
//! tree that holds them.
//!
//! Every type has a mathematical model, its view, over which the contracts
//! of this library are stated.

use vstd::prelude::*;
use vstd::string::*;
use crate::string_map::{clone_opt_map, opt_map, StringMap};
use crate::text::{
    clone_opt_text,
    clone_opt_texts,
    clone_texts,
    lowercase_of,
    opt_text,
    opt_texts,
    same_text,
    texts,
    to_lowercase,
};

verus! {

/// Whether a backend, read without regard to case, is `docker`.
pub open spec fn is_docker(backend: Seq<char>) -> bool {
    lowercase_of(backend) == "docker"@
}

/// Whether a backend, read without regard to case, is `docker`.
pub fn backend_is_docker(backend: &str) -> (r: bool)
    ensures
        r == is_docker(backend@),
{
    let lowered = to_lowercase(backend);
    same_text(lowered.as_str(), "docker")
}

/// The image that a configuration with `backend` keeps of `image`: an image
/// belongs to the `docker` backend alone.
pub open spec fn image_kept(backend: Seq<char>, image: Option<Seq<char>>) -> Option<Seq<char>> {
    if is_docker(backend) {
        image
    } else {
        None
    }
}

/// The model of a [`Step`].
pub struct StepView {
    pub name: Seq<char>,
    pub script: Seq<char>,
}

/// One shell command of an action, with the name it is announced by.
#[derive(Debug, PartialEq, Eq)]
pub struct Step {
    name: String,
    script: String,
}

impl View for Step {
    type V = StepView;

    closed spec fn view(&self) -> StepView {
        StepView { name: self.name@, script: self.script@ }
    }
}

impl DeepView for Step {
    type V = StepView;

    open spec fn deep_view(&self) -> StepView {
        self@
    }
}

impl Clone for Step {
    fn clone(&self) -> (r: Self)
        ensures
            r@ == self@,
    {
        Step { name: self.name.clone(), script: self.script.clone() }
    }
}

impl Step {
    /// A step that runs `script` under the name `name`.
    pub fn new(name: String, script: String) -> (r: Self)
        ensures
            r@ == (StepView { name: name@, script: script@ }),
    {
        Self { name, script }
    }

    /// The name of the step.
    pub fn get_name(&self) -> (r: &str)
        ensures
            r@ == self@.name,
    {
        self.name.as_str()
    }

    /// The script of the step.
    pub fn get_script(&self) -> (r: &str)
        ensures
            r@ == self@.script,
    {
        self.script.as_str()
    }

    /// Gives the step another name and script.
    pub fn update_script(&mut self, name: String, script: String)
        ensures
            final(self)@ == (StepView { name: name@, script: script@ }),
    {
        self.name = name;
        self.script = script;
    }
}

/// The model of a [`Condition`].
pub struct ConditionView {
    pub name: Seq<char>,
    pub expression: Seq<char>,
}

/// A named expression that an action or a pipeline is bound to.
#[derive(Debug, PartialEq, Eq)]
pub struct Condition {
    name: String,
    condition: String,
}

impl View for Condition {
    type V = ConditionView;

    closed spec fn view(&self) -> ConditionView {
        ConditionView { name: self.name@, expression: self.condition@ }
    }
}

impl DeepView for Condition {
    type V = ConditionView;

    open spec fn deep_view(&self) -> ConditionView {
        self@
    }
}

impl Clone for Condition {
    fn clone(&self) -> (r: Self)
        ensures
            r@ == self@,
    {
        Condition { name: self.name.clone(), condition: self.condition.clone() }
    }
}

impl Condition {
    /// A condition `condition` under the name `name`.
    pub fn new(name: String, condition: String) -> (r: Condition)
        ensures
            r@ == (ConditionView { name: name@, expression: condition@ }),
    {
        Condition { name, condition }
    }

    /// The name of the condition.
    pub fn get_name(&self) -> (r: &str)
        ensures
            r@ == self@.name,
    {
        self.name.as_str()
    }

    /// The expression of the condition.
    pub fn get_condition(&self) -> (r: &str)
        ensures
            r@ == self@.expression,
    {
        self.condition.as_str()
    }

    /// Gives the condition another name and expression.
    pub fn update_condition(&mut self, name: String, condition: String)
        ensures
            final(self)@ == (ConditionView { name: name@, expression: condition@ }),
    {
        self.name = name;
        self.condition = condition;
    }
}

/// The models of a sequence of steps.
pub open spec fn steps_view(steps: Seq<Step>) -> Seq<StepView> {
    Seq::new(steps.len(), |i: int| steps[i]@)
}

/// The models of a sequence of conditions.
pub open spec fn conditions_view(conditions: Seq<Condition>) -> Seq<ConditionView> {
    Seq::new(conditions.len(), |i: int| conditions[i]@)
}

/// The models of an optional sequence of conditions.
pub open spec fn opt_conditions(conditions: Option<Vec<Condition>>) -> Option<Seq<ConditionView>> {
    match conditions {
        Some(c) => Some(conditions_view(c@)),
        None => None,
    }
}

/// A copy of a sequence of steps.
pub fn clone_steps(steps: &Vec<Step>) -> (r: Vec<Step>)
    ensures
        steps_view(r@) == steps_view(steps@),
{
    let mut r: Vec<Step> = Vec::new();
    let mut i: usize = 0;
    while i < steps.len()
        invariant
            i <= steps.len(),
            r.len() == i,
            forall|j: int| 0 <= j < i ==> r@[j]@ == steps@[j]@,
        decreases steps.len() - i,
    {
        r.push(steps[i].clone());
        i += 1;
    }
    assert(steps_view(r@) =~= steps_view(steps@));
    r
}

/// A copy of a sequence of conditions.
pub fn clone_conditions(conditions: &Vec<Condition>) -> (r: Vec<Condition>)
    ensures
        conditions_view(r@) == conditions_view(conditions@),
{
    let mut r: Vec<Condition> = Vec::new();
    let mut i: usize = 0;
    while i < conditions.len()
        invariant
            i <= conditions.len(),
            r.len() == i,
            forall|j: int| 0 <= j < i ==> r@[j]@ == conditions@[j]@,
        decreases conditions.len() - i,
    {
        r.push(conditions[i].clone());
        i += 1;
    }
    assert(conditions_view(r@) =~= conditions_view(conditions@));
    r
}

/// A copy of an optional sequence of conditions.
pub fn clone_opt_conditions(conditions: &Option<Vec<Condition>>) -> (r: Option<Vec<Condition>>)
    ensures
        opt_conditions(r) == opt_conditions(*conditions),
{
    match conditions {
        Some(c) => Some(clone_conditions(c)),
        None => None,
    }
}

/// The model of a [`ShareableConfiguration`].
pub struct SharedView {
    pub metadata: Option<Map<Seq<char>, Seq<char>>>,
    pub title: Option<Seq<char>>,
    pub tags: Option<Map<Seq<char>, Seq<char>>>,
    pub language: Seq<char>,
    pub image: Option<Seq<char>>,
    pub backend: Seq<char>,
    pub output: Seq<char>,
    pub source: Seq<char>,
    pub ignore_dirs: Option<Seq<Seq<char>>>,
}

impl SharedView {
    /// An image is set only where the backend is `docker`.
    pub open spec fn image_rule(self) -> bool {
        self.image is Some ==> is_docker(self.backend)
    }
}

/// What a level of a configuration hands down to the level below it: the
/// top level to pipelines and actions, a pipeline to its actions.
///
/// An image is set only where the backend, read without regard to case, is
/// `docker`: every value of this type keeps that rule.
#[derive(Debug, PartialEq, Eq)]
pub struct ShareableConfiguration {
    metadata: Option<StringMap>,
    title: Option<String>,
    tags: Option<StringMap>,
    language: String,
    image: Option<String>,
    backend: String,
    output: String,
    source: String,
    ignore_dirs: Option<Vec<String>>,
}

impl View for ShareableConfiguration {
    type V = SharedView;

    closed spec fn view(&self) -> SharedView {
        SharedView {
            metadata: opt_map(self.metadata),
            title: opt_text(self.title),
            tags: opt_map(self.tags),
            language: self.language@,
            image: opt_text(self.image),
            backend: self.backend@,
            output: self.output@,
            source: self.source@,
            ignore_dirs: opt_texts(self.ignore_dirs),
        }
    }
}

impl Clone for ShareableConfiguration {
    fn clone(&self) -> (r: Self)
        ensures
            r@ == self@,
    {
        proof {
            use_type_invariant(self);
        }
        ShareableConfiguration {
            metadata: clone_opt_map(&self.metadata),
            title: clone_opt_text(&self.title),
            tags: clone_opt_map(&self.tags),
            language: self.language.clone(),
            image: clone_opt_text(&self.image),
            backend: self.backend.clone(),
            output: self.output.clone(),
            source: self.source.clone(),
            ignore_dirs: clone_opt_texts(&self.ignore_dirs),
        }
    }
}

impl ShareableConfiguration {
    #[verifier::type_invariant]
    spec fn image_needs_docker(self) -> bool {
        self.image is Some ==> is_docker(self.backend@)
    }

    /// A configuration of the given fields. The image is kept only where
    /// the backend is `docker`.
    pub fn new(
        metadata: Option<StringMap>,
        title: Option<String>,
        tags: Option<StringMap>,
        language: String,
        image: Option<String>,
        backend: String,
        output: String,
        source: String,
        ignore_dirs: Option<Vec<String>>,
    ) -> (r: Self)
        ensures
            r@ == (SharedView {
                metadata: opt_map(metadata),
                title: opt_text(title),
                tags: opt_map(tags),
                language: language@,
                image: image_kept(backend@, opt_text(image)),
                backend: backend@,
                output: output@,
                source: source@,
                ignore_dirs: opt_texts(ignore_dirs),
            }),
    {
        let image = if backend_is_docker(backend.as_str()) {
            image
        } else {
            None
        };
        Self { metadata, title, tags, language, image, backend, output, source, ignore_dirs }
    }

    /// The metadata, where there is any.
    pub fn get_metadata(&self) -> (r: Option<StringMap>)
        ensures
            opt_map(r) == self@.metadata,
    {
        clone_opt_map(&self.metadata)
    }

    /// Sets the metadata.
    pub fn set_metadata(&mut self, new_metadata: StringMap)
        ensures
            final(self)@ == (SharedView { metadata: Some(new_metadata@), ..old(self)@ }),
    {
        proof {
            use_type_invariant(&*self);
        }
        self.metadata = Some(new_metadata);
    }

    /// The title, where there is one.
    pub fn get_title(&self) -> (r: Option<String>)
        ensures
            opt_text(r) == self@.title,
    {
        clone_opt_text(&self.title)
    }

    /// Sets the title.
    pub fn set_title(&mut self, new_title: String)
        ensures
            final(self)@ == (SharedView { title: Some(new_title@), ..old(self)@ }),
    {
        proof {
            use_type_invariant(&*self);
        }
        self.title = Some(new_title);
    }

    /// The tags, where there are any.
    pub fn get_tags(&self) -> (r: Option<StringMap>)
        ensures
            opt_map(r) == self@.tags,
    {
        clone_opt_map(&self.tags)
    }

    /// Sets the tags.
    pub fn set_tags(&mut self, new_tags: StringMap)
        ensures
            final(self)@ == (SharedView { tags: Some(new_tags@), ..old(self)@ }),
    {
        proof {
            use_type_invariant(&*self);
        }
        self.tags = Some(new_tags);
    }

    /// The language.
    pub fn get_language(&self) -> (r: &str)
        ensures
            r@ == self@.language,
    {
        self.language.as_str()
    }

    /// Sets the language.
    pub fn set_language(&mut self, new_language: String)
        ensures
            final(self)@ == (SharedView { language: new_language@, ..old(self)@ }),
    {
        proof {
            use_type_invariant(&*self);
        }
        self.language = new_language;
    }

    /// The image, where there is one; there is none unless the backend is
    /// `docker`.
    pub fn get_image(&self) -> (r: Option<String>)
        ensures
            opt_text(r) == self@.image,
            r is Some ==> is_docker(self@.backend),
    {
        proof {
            use_type_invariant(self);
        }
        clone_opt_text(&self.image)
    }

    /// Sets the image where the backend is `docker`; leaves the
    /// configuration without an image where it is not.
    pub fn set_image(&mut self, new_image: String)
        ensures
            final(self)@ == (SharedView {
                image: image_kept(old(self)@.backend, Some(new_image@)),
                ..old(self)@
            }),
    {
        proof {
            use_type_invariant(&*self);
        }
        if backend_is_docker(self.backend.as_str()) {
            self.image = Some(new_image);
        } else {
            self.image = None;
        }
    }

    /// The backend.
    pub fn get_backend(&self) -> (r: &str)
        ensures
            r@ == self@.backend,
    {
        self.backend.as_str()
    }

    /// Sets the backend. The image is kept only where the new backend is
    /// `docker`.
    pub fn set_backend(&mut self, new_backend: String)
        ensures
            final(self)@ == (SharedView {
                backend: new_backend@,
                image: image_kept(new_backend@, old(self)@.image),
                ..old(self)@
            }),
    {
        proof {
            use_type_invariant(&*self);
        }
        if !backend_is_docker(new_backend.as_str()) {
            self.image = None;
        }
        self.backend = new_backend;
    }

    /// The output directory.
    pub fn get_output(&self) -> (r: &str)
        ensures
            r@ == self@.output,
    {
        self.output.as_str()
    }

    /// Sets the output directory.
    pub fn set_output(&mut self, new_output: String)
        ensures
            final(self)@ == (SharedView { output: new_output@, ..old(self)@ }),
    {
        proof {
            use_type_invariant(&*self);
        }
        self.output = new_output;
    }

    /// The source directory.
    pub fn get_source(&self) -> (r: &str)
        ensures
            r@ == self@.source,
    {
        self.source.as_str()
    }

    /// Sets the source directory.
    pub fn set_source(&mut self, new_source: String)
        ensures
            final(self)@ == (SharedView { source: new_source@, ..old(self)@ }),
    {
        proof {
            use_type_invariant(&*self);
        }
        self.source = new_source;
    }

    /// The directories that are left out of a container build and of
    /// watching, where there are any.
    pub fn get_ignore_dirs(&self) -> (r: Option<Vec<String>>)
        ensures
            opt_texts(r) == self@.ignore_dirs,
    {
        clone_opt_texts(&self.ignore_dirs)
    }

    /// Sets the directories that are left out.
    pub fn set_ignore_dirs(&mut self, new_ignore_dirs: Vec<String>)
        ensures
            final(self)@ == (SharedView {
                ignore_dirs: Some(texts(new_ignore_dirs@)),
                ..old(self)@
            }),
    {
        proof {
            use_type_invariant(&*self);
        }
        self.ignore_dirs = Some(new_ignore_dirs);
    }
}

/// The model of an [`ActionConfig`].
pub struct ActionConfigView {
    pub conditions: Option<Seq<ConditionView>>,
    pub retries: i8,
    pub allowed_failure: bool,
    pub manual: Seq<StepView>,
}

/// What belongs to an action alone: its conditions, how often it is tried
/// again, whether it may fail, and its steps.
#[derive(Debug, PartialEq, Eq)]
pub struct ActionConfig {
    conditions: Option<Vec<Condition>>,
    retries: i8,
    allowed_failure: bool,
    manual: Vec<Step>,
}

impl View for ActionConfig {
    type V = ActionConfigView;

    closed spec fn view(&self) -> ActionConfigView {
        ActionConfigView {
            conditions: opt_conditions(self.conditions),
            retries: self.retries,
            allowed_failure: self.allowed_failure,
            manual: steps_view(self.manual@),
        }
    }
}

impl Clone for ActionConfig {
    fn clone(&self) -> (r: Self)
        ensures
            r@ == self@,
    {
        ActionConfig {
            conditions: clone_opt_conditions(&self.conditions),
            retries: self.retries,
            allowed_failure: self.allowed_failure,
            manual: clone_steps(&self.manual),
        }
    }
}

impl ActionConfig {
    /// The configuration of an action. Absent retries are none, an absent
    /// failure allowance is no allowance.
    pub fn new(
        conditions: Option<Vec<Condition>>,
        retries: Option<i8>,
        allowed_failure: Option<bool>,
        manual: Vec<Step>,
    ) -> (r: Self)
        ensures
            r@ == (ActionConfigView {
                conditions: opt_conditions(conditions),
                retries: match retries {
                    Some(n) => n,
                    None => 0i8,
                },
                allowed_failure: match allowed_failure {
                    Some(b) => b,
                    None => false,
                },
                manual: steps_view(manual@),
            }),
    {
        let retries: i8 = match retries {
            Some(n) => n,
            None => 0,
        };
        let allowed_failure = match allowed_failure {
            Some(b) => b,
            None => false,
        };
        ActionConfig { conditions, retries, allowed_failure, manual }
    }

    /// The conditions, where there are any.
    pub fn get_conditions(&self) -> (r: Option<Vec<Condition>>)
        ensures
            opt_conditions(r) == self@.conditions,
    {
        clone_opt_conditions(&self.conditions)
    }

    /// Sets the conditions.
    pub fn set_conditions(&mut self, new_conditions: Vec<Condition>)
        ensures
            final(self)@ == (ActionConfigView {
                conditions: Some(conditions_view(new_conditions@)),
                ..old(self)@
            }),
    {
        self.conditions = Some(new_conditions);
    }

    /// How often the action is tried again.
    pub fn get_retries(&self) -> (r: &i8)
        ensures
            *r == self@.retries,
    {
        &self.retries
    }

    /// Sets how often the action is tried again.
    pub fn set_retries(&mut self, new_retries: i8)
        ensures
            final(self)@ == (ActionConfigView { retries: new_retries, ..old(self)@ }),
    {
        self.retries = new_retries
    }

    /// Whether the action may fail.
    pub fn get_allowed_failure(&self) -> (r: &bool)
        ensures
            *r == self@.allowed_failure,
    {
        &self.allowed_failure
    }

    /// Sets whether the action may fail.
    pub fn set_allowed_failure(&mut self, new_allowed_failure: bool)
        ensures
            final(self)@ == (ActionConfigView {
                allowed_failure: new_allowed_failure,
                ..old(self)@
            }),
    {
        self.allowed_failure = new_allowed_failure;
    }

    /// The steps of the action, in the order in which they run.
    pub fn get_manual(&self) -> (r: &Vec<Step>)
        ensures
            steps_view(r@) == self@.manual,
    {
        &self.manual
    }

    /// Sets the steps of the action.
    pub fn set_manual(&mut self, new_manual: Vec<Step>)
        ensures
            final(self)@ == (ActionConfigView { manual: steps_view(new_manual@), ..old(self)@ }),
    {
        self.manual = new_manual;
    }
}

/// The model of an [`Action`].
pub struct ActionView {
    pub shared: SharedView,
    pub config: ActionConfigView,
}

/// A named, runnable unit: one backend and an ordered list of steps.
#[derive(Debug, PartialEq, Eq)]
pub struct Action {
    /// What the action shares with the levels above it, as resolved for it.
    pub shared_config: ShareableConfiguration,
    /// What belongs to the action alone.
    pub action_config: ActionConfig,
}

impl View for Action {
    type V = ActionView;

    open spec fn view(&self) -> ActionView {
        ActionView { shared: self.shared_config@, config: self.action_config@ }
    }
}

impl Clone for Action {
    fn clone(&self) -> (r: Self)
        ensures
            r@ == self@,
    {
        Action {
            shared_config: self.shared_config.clone(),
            action_config: self.action_config.clone(),
        }
    }
}

impl Action {
    /// An action of the two halves of its configuration.
    pub fn new(shared_config: ShareableConfiguration, action_config: ActionConfig) -> (r: Action)
        ensures
            r@ == (ActionView { shared: shared_config@, config: action_config@ }),
    {
        Action { shared_config, action_config }
    }
}

/// The models of a sequence of actions.
pub open spec fn actions_view(actions: Seq<Action>) -> Seq<ActionView> {
    Seq::new(actions.len(), |i: int| actions[i]@)
}

/// A copy of a sequence of actions.
pub fn clone_actions(actions: &Vec<Action>) -> (r: Vec<Action>)
    ensures
        actions_view(r@) == actions_view(actions@),
{
    let mut r: Vec<Action> = Vec::new();
    let mut i: usize = 0;
    while i < actions.len()
        invariant
            i <= actions.len(),
            r.len() == i,
            forall|j: int| 0 <= j < i ==> r@[j]@ == actions@[j]@,
        decreases actions.len() - i,
    {
        r.push(actions[i].clone());
        i += 1;
    }
    assert(actions_view(r@) =~= actions_view(actions@));
    r
}

/// The model of a [`PipelineConfig`].
pub struct PipelineConfigView {
    pub conditions: Option<Seq<ConditionView>>,
    pub action_defs: Seq<Seq<char>>,
    pub actions: Seq<ActionView>,
    pub has_run: bool,
    pub requires: Seq<Seq<char>>,
}

/// What belongs to a pipeline alone: its conditions, the names of its
/// actions and the actions themselves, whether it has run, and the names of
/// the pipelines that it waits for.
#[derive(Debug, PartialEq, Eq)]
pub struct PipelineConfig {
    conditions: Option<Vec<Condition>>,
    action_defs: Vec<String>,
    actions: Vec<Action>,
    has_run: bool,
    requires: Vec<String>,
}

impl View for PipelineConfig {
    type V = PipelineConfigView;

    closed spec fn view(&self) -> PipelineConfigView {
        PipelineConfigView {
            conditions: opt_conditions(self.conditions),
            action_defs: texts(self.action_defs@),
            actions: actions_view(self.actions@),
            has_run: self.has_run,
            requires: texts(self.requires@),
        }
    }
}

impl Clone for PipelineConfig {
    fn clone(&self) -> (r: Self)
        ensures
            r@ == self@,
    {
        PipelineConfig {
            conditions: clone_opt_conditions(&self.conditions),
            action_defs: clone_texts(&self.action_defs),
            actions: clone_actions(&self.actions),
            has_run: self.has_run,
            requires: clone_texts(&self.requires),
        }
    }
}

impl PipelineConfig {
    /// The configuration of a pipeline that has not run. Absent
    /// requirements are none.
    pub fn new(
        conditions: Option<Vec<Condition>>,
        action_defs: Vec<String>,
        actions: Vec<Action>,
        required: Option<Vec<String>>,
    ) -> (r: Self)
        ensures
            r@ == (PipelineConfigView {
                conditions: opt_conditions(conditions),
                action_defs: texts(action_defs@),
                actions: actions_view(actions@),
                has_run: false,
                requires: match required {
                    Some(names) => texts(names@),
                    None => Seq::<Seq<char>>::empty(),
                },
            }),
    {
        let has_run = false;
        let ghost given = required;
        let needed: Vec<String> = match required {
            Some(names) => names,
            None => Vec::new(),
        };
        let r = Self { conditions, action_defs, actions, has_run, requires: needed };
        assert(r@.requires =~= match given {
            Some(names) => texts(names@),
            None => Seq::<Seq<char>>::empty(),
        });
        r
    }

    /// The conditions; an error text where there are none.
    pub fn get_conditions(&self) -> (r: Result<&Vec<Condition>, &'static str>)
        ensures
            match r {
                Ok(c) => self@.conditions == Some(conditions_view(c@)),
                Err(text) => self@.conditions is None && text@
                    == "No conditions found or no conditions configured."@,
            },
    {
        match &self.conditions {
            Some(conditions) => Ok(conditions),
            None => Err("No conditions found or no conditions configured."),
        }
    }

    /// Sets the conditions.
    pub fn set_conditions(&mut self, new_conditions: Vec<Condition>)
        ensures
            final(self)@ == (PipelineConfigView {
                conditions: Some(conditions_view(new_conditions@)),
                ..old(self)@
            }),
    {
        self.conditions = Some(new_conditions);
    }

    /// The names of the pipeline's actions, as declared.
    pub fn get_action_defs(&self) -> (r: &Vec<String>)
        ensures
            texts(r@) == self@.action_defs,
    {
        &self.action_defs
    }

    /// The pipeline's actions, in the order of their names.
    pub fn get_actions(&self) -> (r: &Vec<Action>)
        ensures
            actions_view(r@) == self@.actions,
    {
        &self.actions
    }

    /// Whether the pipeline has run.
    pub fn get_has_run(&self) -> (r: bool)
        ensures
            r == self@.has_run,
    {
        self.has_run
    }

    /// The names of the pipelines that this one waits for.
    pub fn get_requires(&self) -> (r: &Vec<String>)
        ensures
            texts(r@) == self@.requires,
    {
        &self.requires
    }
}

/// The model of a [`Pipeline`].
pub struct PipelineView {
    pub shared: SharedView,
    pub config: PipelineConfigView,
}

/// A named group of actions that share a configuration.
#[derive(Debug, PartialEq, Eq)]
pub struct Pipeline {
    /// What the pipeline shares with the top level and hands to its actions.
    pub shared_config: ShareableConfiguration,
    /// What belongs to the pipeline alone.
    pub pipeline_config: PipelineConfig,
}

impl View for Pipeline {
    type V = PipelineView;

    open spec fn view(&self) -> PipelineView {
        PipelineView { shared: self.shared_config@, config: self.pipeline_config@ }
    }
}

impl Clone for Pipeline {
    fn clone(&self) -> (r: Self)
        ensures
            r@ == self@,
    {
        Pipeline {
            shared_config: self.shared_config.clone(),
            pipeline_config: self.pipeline_config.clone(),
        }
    }
}

impl Pipeline {
    /// A pipeline of the two halves of its configuration.
    pub fn new(shared_config: ShareableConfiguration, pipeline_config: PipelineConfig) -> (r:
        Pipeline)
        ensures
            r@ == (PipelineView { shared: shared_config@, config: pipeline_config@ }),
    {
        Pipeline { shared_config, pipeline_config }
    }
}

/// The models of a sequence of pipelines.
pub open spec fn pipelines_view(pipelines: Seq<Pipeline>) -> Seq<PipelineView> {
    Seq::new(pipelines.len(), |i: int| pipelines[i]@)
}

/// A copy of a sequence of pipelines.
pub fn clone_pipelines(pipelines: &Vec<Pipeline>) -> (r: Vec<Pipeline>)
    ensures
        pipelines_view(r@) == pipelines_view(pipelines@),
{
    let mut r: Vec<Pipeline> = Vec::new();
    let mut i: usize = 0;
    while i < pipelines.len()
        invariant
            i <= pipelines.len(),
            r.len() == i,
            forall|j: int| 0 <= j < i ==> r@[j]@ == pipelines@[j]@,
        decreases pipelines.len() - i,
    {
        r.push(pipelines[i].clone());
        i += 1;
    }
    assert(pipelines_view(r@) =~= pipelines_view(pipelines@));
    r
}

/// The actions of `pipelines`, pipeline after pipeline, each pipeline's
/// actions in their order.
pub open spec fn pipeline_actions(pipelines: Seq<PipelineView>) -> Seq<ActionView>
    decreases pipelines.len(),
{
    if pipelines.len() == 0 {
        Seq::empty()
    } else {
        pipeline_actions(pipelines.drop_last()) + pipelines.last().config.actions
    }
}

/// The number of actions that `pipelines` hold together.
pub open spec fn pipeline_action_count(pipelines: Seq<PipelineView>) -> nat
    decreases pipelines.len(),
{
    if pipelines.len() == 0 {
        0
    } else {
        pipeline_action_count(pipelines.drop_last()) + pipelines.last().config.actions.len()
    }
}

/// The model of a [`TopLevelConfiguration`].
pub struct TopLevelView {
    pub s_config: SharedView,
    pub pipeline_defs: Seq<Seq<char>>,
    pub pipelines: Seq<PipelineView>,
    pub action_defs: Seq<Seq<char>>,
    pub actions: Seq<ActionView>,
}

impl TopLevelView {
    /// Every action of the configuration: the top-level actions in their
    /// order, then the actions of each pipeline, pipeline after pipeline.
    pub open spec fn all_actions(self) -> Seq<ActionView> {
        self.actions + pipeline_actions(self.pipelines)
    }
}

/// There are as many actions in all as the top level and the pipelines
/// hold together.
pub proof fn lemma_all_actions_len(config: TopLevelView)
    ensures
        config.all_actions().len() == config.actions.len() + pipeline_action_count(
            config.pipelines,
        ),
{
    lemma_pipeline_actions_len(config.pipelines);
}

/// The actions of a sequence of pipelines are as many as the pipelines hold.
pub proof fn lemma_pipeline_actions_len(pipelines: Seq<PipelineView>)
    ensures
        pipeline_actions(pipelines).len() == pipeline_action_count(pipelines),
    decreases pipelines.len(),
{
    if pipelines.len() > 0 {
        lemma_pipeline_actions_len(pipelines.drop_last());
    }
}

/// The top-level actions come first among all actions, in their order.
pub proof fn lemma_all_actions_begin(config: TopLevelView, i: int)
    requires
        0 <= i < config.actions.len(),
    ensures
        config.all_actions()[i] == config.actions[i],
{
}

/// The offset at which the actions of the pipeline at `p` begin among the
/// actions of `pipelines`.
pub open spec fn pipeline_offset(pipelines: Seq<PipelineView>, p: int) -> nat {
    pipeline_action_count(pipelines.take(p))
}

/// The actions of the pipeline at `p` stand together among the actions of
/// all pipelines, in their order, after those of the pipelines before it.
pub proof fn lemma_pipeline_actions_at(pipelines: Seq<PipelineView>, p: int, i: int)
    requires
        0 <= p < pipelines.len(),
        0 <= i < pipelines[p].config.actions.len(),
    ensures
        pipeline_offset(pipelines, p) + i < pipeline_actions(pipelines).len(),
        pipeline_actions(pipelines)[pipeline_offset(pipelines, p) + i]
            == pipelines[p].config.actions[i],
    decreases pipelines.len(),
{
    let shorter = pipelines.drop_last();
    lemma_pipeline_actions_len(shorter);
    if p == pipelines.len() - 1 {
        assert(pipelines.take(p) =~= shorter);
    } else {
        lemma_pipeline_actions_at(shorter, p, i);
        assert(shorter.take(p) =~= pipelines.take(p));
        assert(shorter[p] == pipelines[p]);
    }
}

/// A whole configuration: what the top level shares, the pipelines and the
/// top-level actions, each with the names they were declared under.
#[derive(Debug, PartialEq, Eq)]
pub struct TopLevelConfiguration {
    /// What the top level hands down to pipelines and actions.
    pub s_config: ShareableConfiguration,
    pipeline_defs: Vec<String>,
    pipelines: Vec<Pipeline>,
    action_defs: Vec<String>,
    actions: Vec<Action>,
}

impl View for TopLevelConfiguration {
    type V = TopLevelView;

    closed spec fn view(&self) -> TopLevelView {
        TopLevelView {
            s_config: self.s_config@,
            pipeline_defs: texts(self.pipeline_defs@),
            pipelines: pipelines_view(self.pipelines@),
            action_defs: texts(self.action_defs@),
            actions: actions_view(self.actions@),
        }
    }
}

impl Clone for TopLevelConfiguration {
    fn clone(&self) -> (r: Self)
        ensures
            r@ == self@,
    {
        TopLevelConfiguration {
            s_config: self.s_config.clone(),
            pipeline_defs: clone_texts(&self.pipeline_defs),
            pipelines: clone_pipelines(&self.pipelines),
            action_defs: clone_texts(&self.action_defs),
            actions: clone_actions(&self.actions),
        }
    }
}

impl TopLevelConfiguration {
    /// A configuration of the given parts.
    pub fn new(
        s_config: ShareableConfiguration,
        pipeline_defs: Vec<String>,
        pipelines: Vec<Pipeline>,
        action_defs: Vec<String>,
        actions: Vec<Action>,
    ) -> (r: Self)
        ensures
            r@ == (TopLevelView {
                s_config: s_config@,
                pipeline_defs: texts(pipeline_defs@),
                pipelines: pipelines_view(pipelines@),
                action_defs: texts(action_defs@),
                actions: actions_view(actions@),
            }),
    {
        Self { s_config, pipeline_defs, pipelines, action_defs, actions }
    }

    /// What the top level hands down to pipelines and actions.
    pub fn get_shared_config(&self) -> (r: &ShareableConfiguration)
        ensures
            r@ == self@.s_config,
    {
        &self.s_config
    }

    /// Sets what the top level hands down.
    pub fn set_shared_config(&mut self, new_shared_config: ShareableConfiguration)
        ensures
            final(self)@ == (TopLevelView { s_config: new_shared_config@, ..old(self)@ }),
    {
        self.s_config = new_shared_config;
    }

    /// The names of the pipelines, as declared.
    pub fn get_pipeline_defs(&self) -> (r: &Vec<String>)
        ensures
            texts(r@) == self@.pipeline_defs,
    {
        &self.pipeline_defs
    }

    /// Sets the names of the pipelines.
    pub fn set_pipeline_defs(&mut self, new_pipeline_defs: Vec<String>)
        ensures
            final(self)@ == (TopLevelView {
                pipeline_defs: texts(new_pipeline_defs@),
                ..old(self)@
            }),
    {
        self.pipeline_defs = new_pipeline_defs;
    }

    /// The pipelines, in the order of their names.
    pub fn get_pipelines(&self) -> (r: &Vec<Pipeline>)
        ensures
            pipelines_view(r@) == self@.pipelines,
    {
        &self.pipelines
    }

    /// Sets the pipelines.
    pub fn set_pipelines(&mut self, new_pipelines: Vec<Pipeline>)
        ensures
            final(self)@ == (TopLevelView {
                pipelines: pipelines_view(new_pipelines@),
                ..old(self)@
            }),
    {
        self.pipelines = new_pipelines;
    }

    /// The names of the top-level actions, as declared.
    pub fn get_action_defs(&self) -> (r: &Vec<String>)
        ensures
            texts(r@) == self@.action_defs,
    {
        &self.action_defs
    }

    /// Sets the names of the top-level actions.
    pub fn set_action_defs(&mut self, new_action_defs: Vec<String>)
        ensures
            final(self)@ == (TopLevelView { action_defs: texts(new_action_defs@), ..old(self)@ }),
    {
        self.action_defs = new_action_defs;
    }

    /// The top-level actions, in the order of their names.
    pub fn get_actions(&self) -> (r: &Vec<Action>)
        ensures
            actions_view(r@) == self@.actions,
    {
        &self.actions
    }

    /// Sets the top-level actions.
    pub fn set_actions(&mut self, new_actions: Vec<Action>)
        ensures
            final(self)@ == (TopLevelView { actions: actions_view(new_actions@), ..old(self)@ }),
    {
        self.actions = new_actions;
    }

    /// Every action of the configuration: the top-level actions in their
    /// declared order, then the actions of each pipeline in theirs, the
    /// pipelines in their declared order.
    pub fn get_all_actions(&self) -> (r: Vec<Action>)
        ensures
            actions_view(r@) == self@.all_actions(),
            r@.len() == self@.actions.len() + pipeline_action_count(self@.pipelines),
    {
        let mut all: Vec<Action> = clone_actions(&self.actions);
        let mut p: usize = 0;
        assert(pipelines_view(self.pipelines@).take(0) =~= Seq::<PipelineView>::empty());
        assert(actions_view(all@) =~= self@.actions + pipeline_actions(
            pipelines_view(self.pipelines@).take(0),
        ));
        while p < self.pipelines.len()
            invariant
                p <= self.pipelines.len(),
                actions_view(all@) == self@.actions + pipeline_actions(
                    pipelines_view(self.pipelines@).take(p as int),
                ),
            decreases self.pipelines.len() - p,
        {
            let ghost views = pipelines_view(self.pipelines@);
            let ghost before = actions_view(all@);
            let more = self.pipelines[p].pipeline_config.get_actions();
            let mut i: usize = 0;
            assert(actions_view(more@).take(0) =~= Seq::<ActionView>::empty());
            while i < more.len()
                invariant
                    i <= more.len(),
                    actions_view(all@) == before + actions_view(more@).take(i as int),
                decreases more.len() - i,
            {
                let ghost so_far = actions_view(all@);
                all.push(more[i].clone());
                assert(actions_view(all@) =~= so_far.push(more@[i as int]@));
                assert(actions_view(more@).take(i + 1) =~= actions_view(more@).take(i as int).push(
                    more@[i as int]@,
                ));
                i += 1;
            }
            assert(actions_view(more@).take(more.len() as int) =~= actions_view(more@));
            assert(views.take(p + 1).drop_last() =~= views.take(p as int));
            assert(views.take(p + 1).last() == views[p as int]);
            assert(views[p as int].config.actions == actions_view(more@));
            p += 1;
        }
        assert(pipelines_view(self.pipelines@).take(self.pipelines.len() as int)
            =~= pipelines_view(self.pipelines@));
        proof {
            lemma_all_actions_len(self@);
        }
        all
    }
}

} // verus!
