//! Computing the build plan: the ordered list of steps one build
//! invocation runs, derived from the configuration's feature flags.

use vstd::prelude::*;

verus! {

/// One step of a build plan: either an invocation of the configured
/// compiler driver, or an invocation of the citation tool.
#[derive(Debug, Clone, Copy, PartialEq, Eq, Structural)]
pub enum Step {
    Compile,
    ProcessCitations,
}

/// How many compiler passes a build needs: one baseline pass, plus one
/// for citations and one for graphics. Flag-based rather than run-to-a-
/// fixed-point: it bounds the number of external invocations at the cost
/// of not guaranteeing convergence for documents with many forward
/// references.
pub open spec fn spec_total_passes(citations: bool, graphics: bool) -> int {
    1 + (if citations {
        1int
    } else {
        0int
    }) + (if graphics {
        1int
    } else {
        0int
    })
}

/// The plan implied by the two feature flags. Every pass is a `Compile`
/// step; when citations are enabled, one `ProcessCitations` step is
/// interleaved immediately before the final compile pass, so that the
/// citation tool consumes the auxiliary data of an earlier pass and a
/// later pass resolves the references it produced. It never stands
/// before the first compile or after the last.
pub open spec fn spec_plan(citations: bool, graphics: bool) -> Seq<Step> {
    let compiles = Seq::new(
        (spec_total_passes(citations, graphics) - 1) as nat,
        |i: int| Step::Compile,
    );
    if citations {
        compiles + seq![Step::ProcessCitations, Step::Compile]
    } else {
        compiles + seq![Step::Compile]
    }
}

/// How many times a given step occurs in a plan.
pub open spec fn step_count(plan: Seq<Step>, step: Step) -> int
    decreases plan.len(),
{
    if plan.len() == 0 {
        0
    } else {
        step_count(plan.drop_last(), step) + if plan.last() == step {
            1int
        } else {
            0int
        }
    }
}

/// Shape facts every plan satisfies: at least one step, a compile pass
/// first, and a compile pass last — the one whose outcome is
/// authoritative for the whole build.
pub proof fn lemma_plan_shape(citations: bool, graphics: bool)
    ensures
        spec_plan(citations, graphics).len() == spec_total_passes(citations, graphics) + (
        if citations {
            1int
        } else {
            0int
        }),
        spec_plan(citations, graphics).len() >= 1,
        spec_plan(citations, graphics).first() == Step::Compile,
        spec_plan(citations, graphics).last() == Step::Compile,
{
}

proof fn lemma_step_count_concat(a: Seq<Step>, b: Seq<Step>, step: Step)
    ensures
        step_count(a + b, step) == step_count(a, step) + step_count(b, step),
    decreases b.len(),
{
    if b.len() == 0 {
        assert(a + b =~= a);
    } else {
        lemma_step_count_concat(a, b.drop_last(), step);
        assert((a + b).drop_last() =~= a + b.drop_last());
        assert(step_count(a + b, step) == step_count(a + b.drop_last(), step) + (
        if b.last() == step {
            1int
        } else {
            0int
        }));
    }
}

proof fn lemma_step_count_all_compile(n: nat, step: Step)
    ensures
        step_count(Seq::new(n, |i: int| Step::Compile), step) == (if step == Step::Compile {
            n as int
        } else {
            0int
        }),
    decreases n,
{
    if n > 0 {
        lemma_step_count_all_compile((n - 1) as nat, step);
        assert(Seq::new(n, |i: int| Step::Compile).drop_last() =~= Seq::new(
            (n - 1) as nat,
            |i: int| Step::Compile,
        ));
        assert(Seq::new(n, |i: int| Step::Compile).last() == Step::Compile);
    }
}

proof fn lemma_step_count_two(x: Step, y: Step, step: Step)
    ensures
        step_count(seq![x, y], step) == (if x == step {
            1int
        } else {
            0int
        }) + (if y == step {
            1int
        } else {
            0int
        }),
{
    lemma_step_count_one(x, step);
    assert(seq![x, y].drop_last() =~= seq![x]);
    assert(seq![x, y].last() == y);
}

proof fn lemma_step_count_one(x: Step, step: Step)
    ensures
        step_count(seq![x], step) == (if x == step {
            1int
        } else {
            0int
        }),
{
    assert(step_count(Seq::<Step>::empty(), step) == 0);
    assert(seq![x].drop_last() =~= Seq::<Step>::empty());
    assert(seq![x].last() == x);
}

/// A configuration with neither citations nor graphics compiles exactly
/// once: the plan is one compile step, with no citation step at all.
pub proof fn lemma_plan_minimal()
    ensures
        spec_plan(false, false) =~= seq![Step::Compile],
        step_count(spec_plan(false, false), Step::Compile) == 1,
        step_count(spec_plan(false, false), Step::ProcessCitations) == 0,
{
    let plan = spec_plan(false, false);
    assert(plan =~= seq![Step::Compile]);
    lemma_step_count_one(Step::Compile, Step::Compile);
    lemma_step_count_one(Step::Compile, Step::ProcessCitations);
}

/// With citations enabled the plan holds exactly one citation step, and
/// it stands immediately before the final compile pass: strictly after
/// the first compile and strictly before the last. In a two-pass plan
/// that is after the single completed first pass and before the second,
/// final one.
pub proof fn lemma_citation_step_position(graphics: bool)
    ensures
        step_count(spec_plan(true, graphics), Step::ProcessCitations) == 1,
        spec_plan(true, graphics)[spec_plan(true, graphics).len() - 2] == Step::ProcessCitations,
        forall|i: int|
            0 <= i < spec_plan(true, graphics).len() && i != spec_plan(true, graphics).len() - 2
                ==> spec_plan(true, graphics)[i] == Step::Compile,
        1 <= spec_plan(true, graphics).len() - 2 < spec_plan(true, graphics).len() - 1,
{
    let n = (spec_total_passes(true, graphics) - 1) as nat;
    let compiles = Seq::new(n, |i: int| Step::Compile);
    let tail = seq![Step::ProcessCitations, Step::Compile];
    lemma_step_count_concat(compiles, tail, Step::ProcessCitations);
    lemma_step_count_all_compile(n, Step::ProcessCitations);
    lemma_step_count_two(Step::ProcessCitations, Step::Compile, Step::ProcessCitations);
}

/// The pass-count formula: a build makes `1 + citations + graphics`
/// compile passes, for all four combinations of the two flags, and the
/// plan holds exactly that many compile steps.
pub proof fn lemma_pass_count_formula(citations: bool, graphics: bool)
    ensures
        step_count(spec_plan(citations, graphics), Step::Compile) == spec_total_passes(
            citations,
            graphics,
        ),
        spec_total_passes(citations, graphics) == 1 + (if citations {
            1int
        } else {
            0int
        }) + (if graphics {
            1int
        } else {
            0int
        }),
{
    let n = (spec_total_passes(citations, graphics) - 1) as nat;
    let compiles = Seq::new(n, |i: int| Step::Compile);
    lemma_step_count_all_compile(n, Step::Compile);
    if citations {
        let tail = seq![Step::ProcessCitations, Step::Compile];
        lemma_step_count_concat(compiles, tail, Step::Compile);
        lemma_step_count_two(Step::ProcessCitations, Step::Compile, Step::Compile);
    } else {
        let tail = seq![Step::Compile];
        lemma_step_count_concat(compiles, tail, Step::Compile);
        lemma_step_count_one(Step::Compile, Step::Compile);
    }
}

pub fn total_passes(citations: bool, graphics: bool) -> (n: u8)
    ensures
        n as int == spec_total_passes(citations, graphics),
{
    let mut n: u8 = 1;
    if citations {
        n = n + 1;
    }
    if graphics {
        n = n + 1;
    }
    n
}

pub fn compute_plan(citations: bool, graphics: bool) -> (plan: Vec<Step>)
    ensures
        plan@ == spec_plan(citations, graphics),
{
    let n = total_passes(citations, graphics);
    let mut plan: Vec<Step> = Vec::new();
    let mut i: u8 = 0;
    while i + 1 < n
        invariant
            n as int == spec_total_passes(citations, graphics),
            i < n,
            plan@ =~= Seq::new(i as nat, |j: int| Step::Compile),
        decreases n - i,
    {
        plan.push(Step::Compile);
        i = i + 1;
    }
    if citations {
        plan.push(Step::ProcessCitations);
    }
    plan.push(Step::Compile);
    proof {
        assert(plan@ =~= spec_plan(citations, graphics));
    }
    plan
}

} // verus!
