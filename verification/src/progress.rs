//! The progress of a run: which stage the host performs next, and the
//! logs of the actions as they grow.
//!
//! The host asks for the next stage, performs it, and reports back: it
//! shows the line of a log stage, writes the file of a write stage, runs
//! the command of a run stage. The lines of the logs are kept here.

use vstd::prelude::*;
use vstd::string::*;
use vstd::utf8::{decode_utf8, valid_utf8};
use crate::errors::{ExecError, ExecFault};
use crate::config::StepView;
use crate::dialect::ShellDialect;
use crate::executor::{
    announcement,
    classified,
    cleaned_script,
    collect_piped_output,
    plans_view,
    shell_command,
    shell_plan,
    step_stages,
    Stage,
    StageView,
};
use crate::text::texts;

verus! {

/// The models of a sequence of logs.
pub open spec fn logs_view(logs: Seq<Vec<String>>) -> Seq<Seq<Seq<char>>> {
    Seq::new(logs.len(), |i: int| texts(logs[i]@))
}

/// The model of an [`Execution`].
pub struct ExecutionView {
    /// The plans of the actions, in the order of the actions.
    pub plans: Seq<Seq<StageView>>,
    /// How many actions are done.
    pub action: nat,
    /// How many stages of the action at hand are done.
    pub stage: nat,
    /// The logs of the actions that are done.
    pub outputs: Seq<Seq<Seq<char>>>,
    /// The log of the action at hand, as far as it has come.
    pub current: Seq<Seq<char>>,
}

impl ExecutionView {
    /// A run of `plans` of which nothing is done yet.
    pub open spec fn start(plans: Seq<Seq<StageView>>) -> ExecutionView {
        ExecutionView { plans, action: 0, stage: 0, outputs: Seq::empty(), current: Seq::empty() }
    }

    /// Whether every action is done.
    pub open spec fn finished(self) -> bool {
        self.action >= self.plans.len()
    }

    /// The stage that comes next, where the action at hand has one.
    pub open spec fn awaited(self) -> Option<StageView> {
        if self.action < self.plans.len() && self.stage < self.plans[self.action as int].len() {
            Some(self.plans[self.action as int][self.stage as int])
        } else {
            None
        }
    }

    /// The run with the next stage done, `line` being what the stage adds
    /// to the log of the action at hand.
    pub open spec fn stepped(self, line: Option<Seq<char>>) -> ExecutionView {
        ExecutionView {
            stage: self.stage + 1,
            current: match line {
                Some(l) => self.current.push(l),
                None => self.current,
            },
            ..self
        }
    }

    /// The run with the action at hand closed: its log joins the logs of
    /// the actions that are done, and the next action is at hand.
    pub open spec fn closed(self) -> ExecutionView {
        ExecutionView {
            action: self.action + 1,
            stage: 0,
            outputs: self.outputs.push(self.current),
            current: Seq::empty(),
            ..self
        }
    }

    /// The run brought forward to its next stage, or to its end: actions
    /// without a further stage are closed.
    pub open spec fn settled(self) -> ExecutionView
        decreases self.plans.len() - self.action,
    {
        if self.action >= self.plans.len() {
            self
        } else if self.stage >= self.plans[self.action as int].len() {
            self.closed().settled()
        } else {
            self
        }
    }

    /// Whether the run stands at a stage, or at its end.
    pub open spec fn is_settled(self) -> bool {
        self.finished() || self.awaited() is Some
    }

    /// What the next stage adds to the log of its action, once the host
    /// has performed it and handed back what a command wrote: a log stage
    /// its line, a command whose output is captured the line that the
    /// output gives, any other stage nothing.
    pub open spec fn line_of(stage: StageView, stdout: Seq<char>, stderr: Seq<char>) -> Option<
        Seq<char>,
    > {
        match stage {
            StageView::Log(line) => Some(line),
            StageView::Write(_) => None,
            StageView::Run(invocation) => if invocation.inherit {
                None
            } else {
                Some(classified(stdout, stderr))
            },
        }
    }

    /// Whether the next stage is a command whose output is captured.
    pub open spec fn wants_output(self) -> bool {
        self.awaited() is Some && self.awaited()->0 is Run && !self.awaited()->0->Run_0.inherit
    }

    /// The run after the host has performed the next stage and handed
    /// back what a command wrote. The run is first brought forward to that
    /// stage; a run at its end stays as it is.
    pub open spec fn completed(self, stdout: Seq<char>, stderr: Seq<char>) -> ExecutionView {
        let at = self.settled();
        match at.awaited() {
            None => at,
            Some(stage) => at.stepped(Self::line_of(stage, stdout, stderr)),
        }
    }

    /// Whether the place in the plans is one, and there is one log for
    /// each action that is done.
    pub open spec fn consistent(self) -> bool {
        &&& self.action <= self.plans.len()
        &&& self.outputs.len() == self.action
        &&& self.action < self.plans.len() ==> self.stage <= self.plans[self.action as int].len()
    }

    /// The run after the host has performed one stage after the other and
    /// handed back `captures`, one for each stage that it performed.
    pub open spec fn run_through(self, captures: Seq<(Seq<char>, Seq<char>)>) -> ExecutionView
        decreases captures.len(),
    {
        if captures.len() == 0 {
            self
        } else {
            self.run_through(captures.drop_last()).completed(
                captures.last().0,
                captures.last().1,
            )
        }
    }
}

/// The log of a shell action of which the host performed every stage and
/// handed back `captures`, one for each stage: for each step in order, the
/// line that announces it, then the line that the output of its command
/// gives.
pub open spec fn shell_log(manual: Seq<StepView>, captures: Seq<(Seq<char>, Seq<char>)>) -> Seq<
    Seq<char>,
> {
    Seq::new(
        2 * manual.len(),
        |i: int|
            if i % 2 == 0 {
                announcement(manual[i / 2].name)
            } else {
                classified(captures[i].0, captures[i].1)
            },
    )
}

/// A run of which nothing is done yet is consistent.
pub proof fn lemma_start_is_consistent(plans: Seq<Seq<StageView>>)
    ensures
        ExecutionView::start(plans).consistent(),
{
}

/// A settled run is brought forward no further.
pub proof fn lemma_settled_is_fixed(run: ExecutionView)
    requires
        run.is_settled(),
    ensures
        run.settled() == run,
{
}

/// Bringing a run forward leaves it at a stage, or at its end, with the
/// plans it had.
pub proof fn lemma_settled_is_settled(run: ExecutionView)
    ensures
        run.settled().is_settled(),
        run.settled().plans == run.plans,
    decreases run.plans.len() - run.action,
{
    if run.action < run.plans.len() && run.stage >= run.plans[run.action as int].len() {
        lemma_settled_is_settled(run.closed());
    }
}

/// Bringing a consistent run forward leaves it consistent.
pub proof fn lemma_settled_is_consistent(run: ExecutionView)
    requires
        run.consistent(),
    ensures
        run.settled().consistent(),
    decreases run.plans.len() - run.action,
{
    if run.action < run.plans.len() && run.stage >= run.plans[run.action as int].len() {
        lemma_settled_is_consistent(run.closed());
    }
}

/// Performing the next stage of a consistent run leaves it consistent.
pub proof fn lemma_completed_is_consistent(run: ExecutionView, stdout: Seq<char>, stderr: Seq<char>)
    requires
        run.consistent(),
    ensures
        run.completed(stdout, stderr).consistent(),
{
    lemma_settled_is_consistent(run);
}

/// Performing stages leaves the plans of a run as they are.
pub proof fn lemma_run_keeps_plans(run: ExecutionView, captures: Seq<(Seq<char>, Seq<char>)>)
    ensures
        run.run_through(captures).plans == run.plans,
    decreases captures.len(),
{
    if captures.len() > 0 {
        lemma_run_keeps_plans(run, captures.drop_last());
        lemma_settled_is_settled(run.run_through(captures.drop_last()));
    }
}

/// A run that is performed from its start and has come to its end has one
/// log for each action.
pub proof fn lemma_finished_run_has_all_logs(
    plans: Seq<Seq<StageView>>,
    captures: Seq<(Seq<char>, Seq<char>)>,
)
    ensures
        ExecutionView::start(plans).run_through(captures).consistent(),
        ExecutionView::start(plans).run_through(captures).settled().finished()
            ==> ExecutionView::start(plans).run_through(captures).settled().outputs.len()
            == plans.len(),
    decreases captures.len(),
{
    let run = ExecutionView::start(plans);
    if captures.len() > 0 {
        lemma_finished_run_has_all_logs(plans, captures.drop_last());
        lemma_completed_is_consistent(
            run.run_through(captures.drop_last()),
            captures.last().0,
            captures.last().1,
        );
    }
    lemma_settled_is_consistent(run.run_through(captures));
    lemma_settled_is_settled(run.run_through(captures));
    lemma_run_keeps_plans(run, captures);
}

/// The plan of a shell action has two stages for each step: at the even
/// places the lines that announce the steps, at the odd places the
/// commands that run them, each with its output captured.
pub proof fn lemma_shell_plan_stages(
    manual: Seq<StepView>,
    source: Seq<char>,
    dialect: ShellDialect,
    root: Seq<char>,
)
    ensures
        shell_plan(manual, source, dialect, root).len() == 2 * manual.len(),
        forall|k: int|
            0 <= k < manual.len() ==> #[trigger] shell_plan(manual, source, dialect, root)[2 * k]
                == StageView::Log(announcement(manual[k].name)),
        forall|k: int|
            0 <= k < manual.len() ==> #[trigger] shell_plan(manual, source, dialect, root)[2 * k
                + 1] == StageView::Run(
                shell_command(dialect, cleaned_script(manual[k].script, root), source),
            ),
    decreases manual.len(),
{
    if manual.len() > 0 {
        let shorter = manual.drop_last();
        lemma_shell_plan_stages(shorter, source, dialect, root);
        let plan = shell_plan(manual, source, dialect, root);
        let before = shell_plan(shorter, source, dialect, root);
        let last = step_stages(manual.last(), source, dialect, root);
        assert(plan == before + last);
        assert forall|k: int| 0 <= k < manual.len() implies #[trigger] plan[2 * k]
            == StageView::Log(announcement(manual[k].name)) by {
            if k < manual.len() - 1 {
                assert(plan[2 * k] == before[2 * k]);
                assert(shorter[k] == manual[k]);
            } else {
                assert(plan[2 * k] == last[0]);
            }
        }
        assert forall|k: int| 0 <= k < manual.len() implies #[trigger] plan[2 * k + 1]
            == StageView::Run(
            shell_command(dialect, cleaned_script(manual[k].script, root), source),
        ) by {
            if k < manual.len() - 1 {
                assert(plan[2 * k + 1] == before[2 * k + 1]);
                assert(shorter[k] == manual[k]);
            } else {
                assert(plan[2 * k + 1] == last[1]);
            }
        }
    }
}

/// The run of one shell action after the host has performed the first
/// `done` of its stages: the log has as many lines, and they are the first
/// lines of the log of the whole action.
pub proof fn lemma_shell_run_so_far(
    manual: Seq<StepView>,
    source: Seq<char>,
    dialect: ShellDialect,
    root: Seq<char>,
    captures: Seq<(Seq<char>, Seq<char>)>,
    done: int,
)
    requires
        0 <= done <= 2 * manual.len(),
        captures.len() == 2 * manual.len(),
    ensures
        ExecutionView::start(seq![shell_plan(manual, source, dialect, root)]).run_through(
            captures.take(done),
        ) == (ExecutionView {
            plans: seq![shell_plan(manual, source, dialect, root)],
            action: 0,
            stage: done as nat,
            outputs: Seq::empty(),
            current: shell_log(manual, captures).take(done),
        }),
    decreases done,
{
    let plan = shell_plan(manual, source, dialect, root);
    let start = ExecutionView::start(seq![plan]);
    let log = shell_log(manual, captures);
    lemma_shell_plan_stages(manual, source, dialect, root);
    if done == 0 {
        assert(captures.take(0) =~= Seq::<(Seq<char>, Seq<char>)>::empty());
        assert(log.take(0) =~= Seq::<Seq<char>>::empty());
    } else {
        let at = done - 1;
        lemma_shell_run_so_far(manual, source, dialect, root, captures, at);
        assert(captures.take(done).drop_last() =~= captures.take(at));
        assert(captures.take(done).last() == captures[at]);
        let before = start.run_through(captures.take(at));
        assert(before.plans[0] == plan);
        assert(before.settled() == before);
        let k = at / 2;
        if at % 2 == 0 {
            assert(plan[2 * k] == StageView::Log(announcement(manual[k].name)));
        } else {
            assert(plan[2 * k + 1] == StageView::Run(
                shell_command(dialect, cleaned_script(manual[k].script, root), source),
            ));
        }
        let after = before.completed(captures[at].0, captures[at].1);
        assert(after.current =~= log.take(done));
    }
}

/// The log of a shell action that is run from start to end: for each step
/// in order, the line that announces the step, then the line that the
/// output of its command gives.
pub proof fn lemma_shell_run_log(
    manual: Seq<StepView>,
    source: Seq<char>,
    dialect: ShellDialect,
    root: Seq<char>,
    captures: Seq<(Seq<char>, Seq<char>)>,
)
    requires
        captures.len() == 2 * manual.len(),
    ensures
        ExecutionView::start(seq![shell_plan(manual, source, dialect, root)]).run_through(
            captures,
        ).settled().finished(),
        ExecutionView::start(seq![shell_plan(manual, source, dialect, root)]).run_through(
            captures,
        ).settled().outputs == seq![shell_log(manual, captures)],
{
    let plan = shell_plan(manual, source, dialect, root);
    let log = shell_log(manual, captures);
    lemma_shell_plan_stages(manual, source, dialect, root);
    let all: int = 2 * (manual.len() as int);
    lemma_shell_run_so_far(manual, source, dialect, root, captures, all);
    assert(captures.take(all) =~= captures);
    assert(log.take(all) =~= log);
    let end = ExecutionView::start(seq![plan]).run_through(captures);
    assert(end.plans[0] == plan);
    let closed = end.closed();
    assert(closed.settled() == closed);
    assert(end.settled() == closed);
    assert(closed.outputs =~= seq![log]);
}

/// The progress of a run through the plans of its actions.
#[derive(Debug)]
pub struct Execution {
    plans: Vec<Vec<Stage>>,
    action: usize,
    stage: usize,
    outputs: Vec<Vec<String>>,
    current: Vec<String>,
}

impl View for Execution {
    type V = ExecutionView;

    closed spec fn view(&self) -> ExecutionView {
        ExecutionView {
            plans: plans_view(self.plans@),
            action: self.action as nat,
            stage: self.stage as nat,
            outputs: logs_view(self.outputs@),
            current: texts(self.current@),
        }
    }
}

impl Execution {
    /// Whether the place in the plans is one: no further than the end of
    /// the plans, and no further than the end of the action at hand, with
    /// one log for each action that is done.
    pub closed spec fn wf(&self) -> bool {
        &&& self.action <= self.plans@.len()
        &&& self.outputs@.len() == self.action
        &&& self.action < self.plans@.len() ==> self.stage <= self.plans@[self.action as int]@.len()
    }

    /// A run that is well formed is consistent.
    pub proof fn lemma_wf_is_consistent(&self)
        requires
            self.wf(),
        ensures
            self@.consistent(),
    {
    }

    /// A run of `plans` of which nothing is done yet.
    pub fn new(plans: Vec<Vec<Stage>>) -> (r: Self)
        ensures
            r.wf(),
            r@ == ExecutionView::start(plans_view(plans@)),
    {
        let r = Execution {
            plans,
            action: 0,
            stage: 0,
            outputs: Vec::new(),
            current: Vec::new(),
        };
        assert(r@.outputs =~= Seq::<Seq<Seq<char>>>::empty());
        assert(r@.current =~= Seq::<Seq<char>>::empty());
        r
    }

    /// Brings the run forward to its next stage, or to its end.
    fn settle(&mut self)
        requires
            old(self).wf(),
        ensures
            final(self).wf(),
            final(self)@ == old(self)@.settled(),
            final(self)@.is_settled(),
    {
        let ghost start = self@;
        let mut done = false;
        while !done
            invariant
                self.wf(),
                self@.settled() == start.settled(),
                done ==> self@.is_settled(),
            decreases
                    if done {
                        0int
                    } else {
                        1int
                    },
                    self.plans@.len() - self.action,
        {
            if self.action >= self.plans.len() {
                done = true;
            } else if self.stage >= self.plans[self.action].len() {
                let ghost before = self@;
                let mut log: Vec<String> = Vec::new();
                core::mem::swap(&mut log, &mut self.current);
                self.outputs.push(log);
                self.action = self.action + 1;
                self.stage = 0;
                assert(self@.outputs =~= before.outputs.push(before.current));
                assert(self@.current =~= Seq::<Seq<char>>::empty());
                assert(self@ == before.closed());
            } else {
                done = true;
            }
        }
        proof {
            lemma_settled_is_fixed(self@);
        }
    }

    /// The next stage for the host to perform; none at the end of the run.
    pub fn next(&mut self) -> (r: Option<Stage>)
        requires
            old(self).wf(),
        ensures
            final(self).wf(),
            final(self)@ == old(self)@.settled(),
            match r {
                Some(stage) => final(self)@.awaited() == Some(stage@),
                None => final(self)@.finished(),
            },
    {
        self.settle();
        if self.action < self.plans.len() {
            Some(self.plans[self.action][self.stage].clone())
        } else {
            None
        }
    }

    /// Takes note that the host has performed the next stage, with what
    /// the command of that stage wrote.
    ///
    /// A log stage adds its line to the log. A command whose output is
    /// captured adds the line that its output gives; the output must then
    /// be UTF-8, else the call fails and the run stands at the same stage
    /// as before. For any other stage the output is not looked at.
    pub fn complete(&mut self, stdout: Vec<u8>, stderr: Vec<u8>) -> (r: Result<(), ExecError>)
        requires
            old(self).wf(),
        ensures
            final(self).wf(),
            match r {
                Ok(_) => if old(self)@.settled().wants_output() {
                    &&& valid_utf8(stdout@)
                    &&& valid_utf8(stderr@)
                    &&& final(self)@ == old(self)@.completed(
                        decode_utf8(stdout@),
                        decode_utf8(stderr@),
                    )
                } else {
                    final(self)@ == old(self)@.completed(Seq::empty(), Seq::empty())
                },
                Err(e) => {
                    &&& e@ == ExecFault::OutputNotText
                    &&& old(self)@.settled().wants_output()
                    &&& !(valid_utf8(stdout@) && valid_utf8(stderr@))
                    &&& final(self)@ == old(self)@.settled()
                },
            },
    {
        self.settle();
        if self.action >= self.plans.len() {
            return Ok(());
        }
        let stages: usize = self.plans[self.action].len();
        assert(self@.awaited() is Some);
        assert(self.stage < stages);
        let after: usize = self.stage + 1;
        let ghost before = self@;
        match &self.plans[self.action][self.stage] {
            Stage::Log(line) => {
                self.current.push(line.clone());
                assert(self@.current =~= before.current.push(line@));
            },
            Stage::Write(_) => {},
            Stage::Run(invocation) => {
                if !invocation.inherit {
                    match collect_piped_output(stdout, stderr, &mut self.current) {
                        Ok(_) => {},
                        Err(e) => {
                            assert(self@ == before);
                            return Err(e);
                        },
                    }
                }
            },
        }
        self.stage = after;
        Ok(())
    }

    /// Whether every action is done.
    pub fn is_finished(&mut self) -> (r: bool)
        requires
            old(self).wf(),
        ensures
            final(self).wf(),
            final(self)@ == old(self)@.settled(),
            r == final(self)@.finished(),
    {
        self.settle();
        self.action >= self.plans.len()
    }

    /// The logs of the actions that are done, one for each, in the order
    /// of the actions.
    pub fn into_outputs(self) -> (r: Vec<Vec<String>>)
        requires
            self.wf(),
        ensures
            logs_view(r@) == self@.settled().outputs,
    {
        let mut run = self;
        run.settle();
        run.outputs
    }
}

} // verus!
