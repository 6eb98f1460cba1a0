//! Executing a build plan: the state machine that walks the plan one step
//! at a time, records what each external tool reported, and aggregates
//! the recorded outcomes into the build's overall verdict.
//!
//! The machine itself never touches the filesystem or starts a process:
//! the caller runs each step's tool and hands the observation back as a
//! [`StepEvent`]. Every decision — which step is next, what a launch
//! failure aborts, what the verdict is — is made here.

use vstd::prelude::*;
use vstd::string::StringExecFns;

use crate::config::ProjectConfig;
use crate::plan::{compute_plan, lemma_plan_shape, spec_plan, Step};
use crate::TexrsError;

verus! {

/// Ghost image of a recorded outcome.
pub ghost struct OutcomeView {
    pub kind: Step,
    pub exit_ok: bool,
    pub stderr: Seq<char>,
}

/// Per-step record: which step ran, whether its tool exited successfully,
/// and the standard-error text captured from it.
pub struct StepOutcome {
    pub kind: Step,
    pub exit_ok: bool,
    pub stderr: String,
}

impl View for StepOutcome {
    type V = OutcomeView;

    open spec fn view(&self) -> OutcomeView {
        OutcomeView { kind: self.kind, exit_ok: self.exit_ok, stderr: self.stderr@ }
    }
}

/// The recorded outcomes of a `Vec`, as a sequence of their ghost images.
pub open spec fn outcomes_view(outcomes: Seq<StepOutcome>) -> Seq<OutcomeView> {
    outcomes.map_values(|outcome: StepOutcome| outcome@)
}

/// The aggregate verdict of one build invocation.
#[derive(Debug, Clone, Copy, PartialEq, Eq, Structural)]
pub enum Overall {
    Succeeded,
    PartiallySucceeded,
    Failed,
}

/// What the caller observed of one attempted tool invocation.
pub enum StepEvent {
    /// The tool ran to completion, with this exit status and this
    /// captured standard-error text.
    Completed { exit_ok: bool, stderr: String },
    /// The tool could not be located or started at all; the payload
    /// names it. An environment problem, fatal to the whole build.
    LaunchFailed { tool: String },
}

/// The full accounting of one build invocation: the verdict, and every
/// recorded step in the order it ran.
pub struct BuildReport {
    pub overall: Overall,
    pub steps: Vec<StepOutcome>,
}

/// Whether every recorded step succeeded.
pub open spec fn spec_all_ok(outcomes: Seq<OutcomeView>) -> bool {
    forall|i: int| 0 <= i < outcomes.len() ==> outcomes[i].exit_ok
}

/// The verdict implied by a completed run's outcomes. The final step of
/// every plan is a compile pass, and that pass is authoritative: the
/// build failed if and only if it failed. Failures before it — an
/// intermediate pass, the citation tool — are recorded as warnings and
/// degrade success to `PartiallySucceeded` without flipping it.
pub open spec fn spec_overall(outcomes: Seq<OutcomeView>) -> Overall
    recommends
        outcomes.len() > 0,
{
    if outcomes.len() == 0 || !outcomes.last().exit_ok {
        Overall::Failed
    } else if spec_all_ok(outcomes) {
        Overall::Succeeded
    } else {
        Overall::PartiallySucceeded
    }
}

/// Ghost image of the executor's state.
pub ghost struct PipelineView {
    pub citations: bool,
    pub graphics: bool,
    pub plan: Seq<Step>,
    pub next: int,
    pub outcomes: Seq<OutcomeView>,
    pub aborted: Option<Seq<char>>,
}

/// The executor: one build invocation in flight. It owns the plan, the
/// index of the next step to run, and the append-only list of outcomes.
/// A launch failure parks it in an aborted state from which no further
/// step is handed out.
pub struct Pipeline {
    citations: bool,
    graphics: bool,
    plan: Vec<Step>,
    next: usize,
    outcomes: Vec<StepOutcome>,
    aborted: Option<String>,
}

impl View for Pipeline {
    type V = PipelineView;

    closed spec fn view(&self) -> PipelineView {
        PipelineView {
            citations: self.citations,
            graphics: self.graphics,
            plan: self.plan@,
            next: self.next as int,
            outcomes: outcomes_view(self.outcomes@),
            aborted: self.aborted.deep_view(),
        }
    }
}

impl Pipeline {
    /// The executor's invariant: the plan is the one the flags imply, the
    /// outcomes recorded so far cover exactly the steps already run, and
    /// each outcome names the step at its own position.
    pub open spec fn wf(&self) -> bool {
        &&& self@.plan == spec_plan(self@.citations, self@.graphics)
        &&& 0 <= self@.next <= self@.plan.len()
        &&& self@.outcomes.len() == self@.next
        &&& forall|i: int| 0 <= i < self@.next ==> self@.outcomes[i].kind == self@.plan[i]
    }

    /// A fresh executor for one build of the given configuration: plan
    /// computed, nothing run yet.
    pub fn new(config: &ProjectConfig) -> (pipeline: Pipeline)
        ensures
            pipeline.wf(),
            pipeline@.citations == config@.citations,
            pipeline@.graphics == config@.graphics,
            pipeline@.plan == spec_plan(config@.citations, config@.graphics),
            pipeline@.next == 0,
            pipeline@.outcomes == Seq::<OutcomeView>::empty(),
            pipeline@.aborted is None,
    {
        let citations = config.get_citations();
        let graphics = config.get_graphics();
        let plan = compute_plan(citations, graphics);
        let pipeline = Pipeline {
            citations,
            graphics,
            plan,
            next: 0,
            outcomes: Vec::new(),
            aborted: None,
        };
        proof {
            assert(pipeline@.outcomes =~= Seq::<OutcomeView>::empty());
        }
        pipeline
    }

    /// The step the caller should run next: `None` once the plan is
    /// exhausted, and `None` immediately after a launch failure — an
    /// aborted build hands out no further work.
    pub fn next_step(&self) -> (step: Option<Step>)
        requires
            self.wf(),
        ensures
            match step {
                Some(s) => {
                    &&& self@.aborted is None
                    &&& self@.next < self@.plan.len()
                    &&& s == self@.plan[self@.next]
                },
                None => self@.aborted is Some || self@.next >= self@.plan.len(),
            },
    {
        if self.aborted.is_some() {
            None
        } else if self.next < self.plan.len() {
            Some(self.plan[self.next])
        } else {
            None
        }
    }

    /// Record what the caller observed of the step that was just handed
    /// out. A completed tool — whatever its exit status — appends an
    /// outcome and moves on to the next step: the loop continues on
    /// failure to surface as much diagnostic information as possible. A
    /// tool that could not be launched aborts the run on the spot;
    /// nothing is appended and no further step will be handed out.
    pub fn record(&mut self, event: StepEvent)
        requires
            old(self).wf(),
            old(self)@.aborted is None,
            old(self)@.next < old(self)@.plan.len(),
        ensures
            final(self).wf(),
            final(self)@.citations == old(self)@.citations,
            final(self)@.graphics == old(self)@.graphics,
            final(self)@.plan == old(self)@.plan,
            match event {
                StepEvent::Completed { exit_ok, stderr } => {
                    &&& final(self)@.next == old(self)@.next + 1
                    &&& final(self)@.outcomes == old(self)@.outcomes.push(
                        (OutcomeView {
                            kind: old(self)@.plan[old(self)@.next],
                            exit_ok: exit_ok,
                            stderr: stderr@,
                        }),
                    )
                    &&& final(self)@.aborted is None
                },
                StepEvent::LaunchFailed { tool } => {
                    &&& final(self)@.next == old(self)@.next
                    &&& final(self)@.outcomes == old(self)@.outcomes
                    &&& final(self)@.aborted == Some(tool@)
                },
            },
    {
        match event {
            StepEvent::Completed { exit_ok, stderr } => {
                let ghost prev = self.outcomes@;
                let ghost recorded = (OutcomeView {
                    kind: self.plan@[self.next as int],
                    exit_ok: exit_ok,
                    stderr: stderr@,
                });
                let kind = self.plan[self.next];
                self.outcomes.push(StepOutcome { kind, exit_ok, stderr });
                self.next = self.next + 1;
                proof {
                    assert(outcomes_view(self.outcomes@) =~= outcomes_view(prev).push(recorded));
                }
            },
            StepEvent::LaunchFailed { tool } => {
                self.aborted = Some(tool);
            },
        }
    }

    /// Whether the run is over: either every step of the plan has been
    /// recorded, or a launch failure aborted it.
    pub fn is_complete(&self) -> (complete: bool)
        requires
            self.wf(),
        ensures
            complete == (self@.aborted is Some || self@.next == self@.plan.len()),
    {
        self.aborted.is_some() || self.next == self.plan.len()
    }

    /// Close the run out. An aborted run surfaces the launch failure as
    /// the fatal error it is; a completed run yields the full report,
    /// with every recorded outcome and the verdict they imply.
    pub fn finish(self) -> (result: Result<BuildReport, TexrsError>)
        requires
            self.wf(),
            self@.aborted is Some || self@.next == self@.plan.len(),
        ensures
            match self@.aborted {
                Some(tool) => result matches Err(TexrsError::ToolLaunchFailed(t)) && t@ == tool,
                None => result matches Ok(report) && report.overall == spec_overall(self@.outcomes)
                    && outcomes_view(report.steps@) == self@.outcomes,
            },
    {
        proof {
            lemma_plan_shape(self.citations, self.graphics);
        }
        let Pipeline { outcomes, aborted, .. } = self;
        match aborted {
            Some(tool) => Err(TexrsError::ToolLaunchFailed(tool)),
            None => {
                let overall = compute_overall(&outcomes);
                Ok(BuildReport { overall, steps: outcomes })
            },
        }
    }
}

/// The verdict of a non-empty list of recorded outcomes, as
/// [`spec_overall`] states it.
pub fn compute_overall(outcomes: &Vec<StepOutcome>) -> (overall: Overall)
    requires
        outcomes@.len() > 0,
    ensures
        overall == spec_overall(outcomes_view(outcomes@)),
{
    let mut all_ok = true;
    let mut i: usize = 0;
    while i < outcomes.len()
        invariant
            i <= outcomes@.len(),
            all_ok == (forall|j: int| 0 <= j < i ==> outcomes@[j].exit_ok),
        decreases outcomes@.len() - i,
    {
        if !outcomes[i].exit_ok {
            all_ok = false;
        }
        i = i + 1;
    }
    proof {
        let ov = outcomes_view(outcomes@);
        assert(ov.last() == outcomes@[outcomes@.len() - 1]@);
        if all_ok {
            assert forall|j: int| 0 <= j < ov.len() implies ov[j].exit_ok by {
                assert(ov[j] == outcomes@[j]@);
            }
        } else {
            let j = choose|j: int| 0 <= j < outcomes@.len() && !outcomes@[j].exit_ok;
            assert(!ov[j].exit_ok);
            assert(!spec_all_ok(ov));
        }
    }
    if !outcomes[outcomes.len() - 1].exit_ok {
        Overall::Failed
    } else if all_ok {
        Overall::Succeeded
    } else {
        Overall::PartiallySucceeded
    }
}

/// If the compiler driver exits non-zero on every pass — every compile
/// outcome of a fully recorded plan is a failure — the build as a whole
/// is `Failed`, whatever the citation step did: the plan always ends
/// with a compile pass, and that pass failed.
pub proof fn lemma_every_compile_failure_fails_the_build(
    citations: bool,
    graphics: bool,
    outcomes: Seq<OutcomeView>,
)
    requires
        outcomes.len() == spec_plan(citations, graphics).len(),
        forall|i: int|
            0 <= i < outcomes.len() ==> outcomes[i].kind == spec_plan(citations, graphics)[i],
        forall|i: int|
            0 <= i < outcomes.len() && outcomes[i].kind == Step::Compile ==> !outcomes[i].exit_ok,
    ensures
        spec_overall(outcomes) == Overall::Failed,
{
    lemma_plan_shape(citations, graphics);
    let last = outcomes.len() - 1;
    assert(outcomes[last].kind == spec_plan(citations, graphics)[last]);
    assert(!outcomes[last].exit_ok);
}

/// If the final compile pass succeeded but some earlier step — the
/// citation tool, say — failed, the build is `PartiallySucceeded`: the
/// failure stays recorded with its diagnostics among the outcomes, but
/// only the final pass decides between success and failure.
pub proof fn lemma_citation_failure_degrades_to_partial(outcomes: Seq<OutcomeView>, i: int)
    requires
        outcomes.len() > 0,
        outcomes.last().exit_ok,
        0 <= i < outcomes.len(),
        outcomes[i].kind == Step::ProcessCitations,
        !outcomes[i].exit_ok,
    ensures
        spec_overall(outcomes) == Overall::PartiallySucceeded,
{
    assert(!spec_all_ok(outcomes));
}

/// One external tool invocation, fully determined: the program to run,
/// its single positional argument, and the working directory to run it
/// in. Working directories are always passed explicitly; nothing relies
/// on an ambient process-wide current directory.
pub struct ToolInvocation {
    pub program: String,
    pub arg: String,
    pub workdir: String,
}

/// The invocation a step stands for. A compile pass runs the configured
/// driver from inside the project's `target/` output directory, with the
/// source path expressed relative to it; the citation step runs the
/// citation tool from the project's source directory, with the project
/// name as its sole argument — that directory holds the auxiliary files
/// the tool consumes.
pub fn step_invocation(config: &ProjectConfig, step: Step) -> (invocation: ToolInvocation)
    ensures
        match step {
            Step::Compile => {
                &&& invocation.program@ == config@.driver
                &&& invocation.arg@ == "../tex/"@ + config@.name + ".tex"@
                &&& invocation.workdir@ == config@.name + "/target"@
            },
            Step::ProcessCitations => {
                &&& invocation.program@ == "biber"@
                &&& invocation.arg@ == config@.name
                &&& invocation.workdir@ == config@.name + "/tex"@
            },
        },
{
    match step {
        Step::Compile => ToolInvocation {
            program: config.get_driver(),
            arg: "../tex/".to_owned().concat(config.get_name().as_str()).concat(".tex"),
            workdir: config.get_name().concat("/target"),
        },
        Step::ProcessCitations => ToolInvocation {
            program: "biber".to_owned(),
            arg: config.get_name(),
            workdir: config.get_name().concat("/tex"),
        },
    }
}

/// What to do about the project's `target/` output directory before the
/// first pass runs in it.
#[derive(Debug, Clone, Copy, PartialEq, Eq, Structural)]
pub enum TargetDirAction {
    Create,
    Reuse,
}

/// Decide how to prepare the output directory: create it when absent,
/// silently reuse it when it already exists. Re-running a build against
/// an already-built directory is never an error on that account.
pub fn prepare_target_dir(already_exists: bool) -> (action: TargetDirAction)
    ensures
        action == (if already_exists {
            TargetDirAction::Reuse
        } else {
            TargetDirAction::Create
        }),
{
    if already_exists {
        TargetDirAction::Reuse
    } else {
        TargetDirAction::Create
    }
}

} // verus!
