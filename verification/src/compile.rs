//! Branch resolution: folding a branch's conditional-compile rules into a
//! single verdict, deciding inclusion, evaluating guards, consuming the
//! produced template stream, and classifying the outcome per the verdict's
//! tier.  Failures under `Skippable` or `Nullable` are recovered locally by
//! dropping the branch; failures under `Required`, `NoConstraint` or a
//! `Fail` verdict are fatal to the whole contract instance.

use vstd::prelude::*;

use crate::actions::eval_conditions;
use crate::actions::fold_verdicts;
use crate::actions::fold_verdicts_spec;
use crate::actions::verdict_views;
use crate::actions::CallableAsFoF;
use crate::actions::ConditionalCompileType;
use crate::actions::Guard;
use crate::actions::ThenFunc;
use crate::actions::Verdict;
use crate::base::reasons_view;
use crate::base::Clause;
use crate::base::CompilationError;
use crate::base::CompiledTemplate;
use crate::base::Context;
use crate::base::ErrorKind;
use crate::base::TxTmpl;
use crate::base::TxTmplIt;
use crate::session::guards_eval_trace;
use crate::session::memo_extends;
use crate::session::GuardCache;

verus! {

/// The non-excluding, non-failing verdicts: how a branch's failure or empty
/// output is handled after the branch has been chosen for evaluation.
#[derive(Clone, Copy, Debug, PartialEq, Eq, Structural)]
pub enum Tier {
    /// No rule constrained the branch.
    NoConstraint,
    /// The branch may be omitted without error.
    Skippable,
    /// The branch is pruned silently if it errors or produces nothing.
    Nullable,
    /// The branch must contribute at least one template.
    Required,
}

/// What the folded verdict of a branch's rules decides.
#[derive(Clone, Debug, PartialEq, Eq)]
pub enum InclusionDecision {
    /// Abort the whole contract instance, with the verdict's reasons.
    Abort(Vec<String>),
    /// The branch is excluded; its production function is never invoked.
    Exclude,
    /// Evaluate the branch, handling its outcome per the tier.
    Proceed(Tier),
}

/// How one resolved branch ends.
#[derive(Clone, Debug, PartialEq, Eq)]
pub enum BranchOutcome {
    /// The branch contributes these templates, each tagged with the branch's
    /// guard conditions.
    Included(Vec<CompiledTemplate>),
    /// The branch contributes nothing and raises no error.
    Pruned,
}

/// A failure under these tiers is fatal to the whole contract instance;
/// under the others the branch is dropped silently.
pub open spec fn tier_fatal(t: Tier) -> bool {
    t is Required || t is NoConstraint
}

/// Decide what the folded verdict means for a branch.
pub fn decide(v: ConditionalCompileType) -> (d: InclusionDecision)
    ensures
        v matches ConditionalCompileType::Fail(rs) ==> d == InclusionDecision::Abort(rs),
        v is Never ==> d == InclusionDecision::Exclude,
        v is NoConstraint ==> d == InclusionDecision::Proceed(Tier::NoConstraint),
        v is Skippable ==> d == InclusionDecision::Proceed(Tier::Skippable),
        v is Nullable ==> d == InclusionDecision::Proceed(Tier::Nullable),
        v is Required ==> d == InclusionDecision::Proceed(Tier::Required),
        d matches InclusionDecision::Abort(rs) ==> v == ConditionalCompileType::Fail(rs),
        d is Exclude ==> v is Never,
        d is Proceed ==> !(v is Fail) && !(v is Never),
{
    match v {
        ConditionalCompileType::Fail(rs) => InclusionDecision::Abort(rs),
        ConditionalCompileType::Never => InclusionDecision::Exclude,
        ConditionalCompileType::NoConstraint => InclusionDecision::Proceed(Tier::NoConstraint),
        ConditionalCompileType::Skippable => InclusionDecision::Proceed(Tier::Skippable),
        ConditionalCompileType::Nullable => InclusionDecision::Proceed(Tier::Nullable),
        ConditionalCompileType::Required => InclusionDecision::Proceed(Tier::Required),
    }
}

/// Every element of the produced stream is a template, not an error.
pub open spec fn stream_ok(items: Seq<Result<TxTmpl, CompilationError>>) -> bool {
    forall|i: int| 0 <= i < items.len() ==> (#[trigger] items[i]) is Ok
}

/// Consume a produced template stream in order, stopping at the first
/// failure: all templates if none fails, otherwise the first error.
pub fn collect_templates(items: Vec<Result<TxTmpl, CompilationError>>) -> (r: Result<
    Vec<TxTmpl>,
    CompilationError,
>)
    ensures
        r matches Ok(ts) ==> ts@.len() == items@.len() && (forall|i: int|
            0 <= i < items@.len() ==> ((#[trigger] items@[i]) matches Ok(t) && ts@[i] == t)),
        r matches Err(e) ==> exists|i: int|
            #![trigger items@[i]]
            0 <= i < items@.len() && items@[i] == Result::<TxTmpl, CompilationError>::Err(e) && (
            forall|j: int| 0 <= j < i ==> (#[trigger] items@[j]) is Ok),
{
    let mut rest = items;
    let mut out: Vec<TxTmpl> = Vec::new();
    while rest.len() > 0
        invariant
            out@.len() + rest@.len() == items@.len(),
            rest@ == items@.subrange(out@.len() as int, items@.len() as int),
            forall|j: int|
                0 <= j < out@.len() ==> ((#[trigger] items@[j]) matches Ok(t) && out@[j] == t),
        decreases rest@.len(),
    {
        let ghost prev = rest@;
        let ghost k = out@.len() as int;
        let x = rest.remove(0);
        proof {
            assert(x == items@[k]);
            assert(prev.remove(0) =~= items@.subrange(k + 1, items@.len() as int));
        }
        match x {
            Ok(t) => {
                out.push(t);
            },
            Err(e) => {
                proof {
                    assert(items@[k] == Result::<TxTmpl, CompilationError>::Err(e));
                }
                return Err(e);
            },
        }
    }
    Ok(out)
}

/// The reason attached to the error for a `Required` branch that produced
/// neither templates nor an explicit error.
pub open spec fn empty_required_reason() -> Seq<char> {
    "Required branch produced no templates"@
}

/// The error for a `Required` branch that produced neither templates nor an
/// explicit error.
fn empty_required_error() -> (e: CompilationError)
    ensures
        e.kind == ErrorKind::EmptyRequiredBranch,
        reasons_view(e.reasons@) == seq![empty_required_reason()],
{
    let mut reasons: Vec<String> = Vec::new();
    reasons.push("Required branch produced no templates".to_owned());
    proof {
        assert(reasons_view(reasons@) =~= seq![empty_required_reason()]);
    }
    CompilationError { kind: ErrorKind::EmptyRequiredBranch, reasons }
}

/// How [`finish_branch`] classifies a production result `produced` under
/// tier `tier`, with `cl` the branch's evaluated guard conditions.
pub open spec fn finish_spec(
    tier: Tier,
    produced: TxTmplIt,
    cl: Seq<Clause>,
    r: Result<BranchOutcome, CompilationError>,
) -> bool {
    match produced {
        Err(e) => if tier_fatal(tier) {
            r == Result::<BranchOutcome, CompilationError>::Err(e)
        } else {
            r == Result::<BranchOutcome, CompilationError>::Ok(BranchOutcome::Pruned)
        },
        Ok(items) => if !stream_ok(items@) {
            exists|i: int|
                #![trigger items@[i]]
                {
                    &&& 0 <= i < items@.len()
                    &&& (forall|j: int| 0 <= j < i ==> (#[trigger] items@[j]) is Ok)
                    &&& (items@[i] matches Err(e) && (if tier_fatal(tier) {
                        r == Result::<BranchOutcome, CompilationError>::Err(e)
                    } else {
                        r == Result::<BranchOutcome, CompilationError>::Ok(BranchOutcome::Pruned)
                    }))
                }
        } else if items@.len() == 0 {
            if tier is Required {
                r matches Err(e) && e.kind == ErrorKind::EmptyRequiredBranch && reasons_view(
                    e.reasons@,
                ) == seq![empty_required_reason()]
            } else {
                r == Result::<BranchOutcome, CompilationError>::Ok(BranchOutcome::Pruned)
            }
        } else {
            r matches Ok(BranchOutcome::Included(ts)) && ts@.len() == items@.len() && (forall|
                j: int,
            |
                0 <= j < ts@.len() ==> (#[trigger] ts@[j]).guards@ == cl && ts@[j].tmpl
                    == items@[j]->Ok_0)
        },
    }
}

/// A fresh copy of the branch's evaluated guard conditions.
fn copy_clauses(cl: &Vec<Clause>) -> (r: Vec<Clause>)
    ensures
        r@ == cl@,
{
    let mut r: Vec<Clause> = Vec::new();
    let mut i: usize = 0;
    while i < cl.len()
        invariant
            i <= cl@.len(),
            r@ == cl@.subrange(0, i as int),
        decreases cl@.len() - i as int,
    {
        r.push(cl[i]);
        i += 1;
    }
    proof {
        assert(r@ =~= cl@);
    }
    r
}

/// Tag each produced template with the branch's guard conditions.
fn tag_templates(ts: Vec<TxTmpl>, cl: &Vec<Clause>) -> (r: Vec<CompiledTemplate>)
    ensures
        r@.len() == ts@.len(),
        forall|j: int|
            0 <= j < ts@.len() ==> (#[trigger] r@[j]).guards@ == cl@ && r@[j].tmpl == ts@[j],
{
    let mut r: Vec<CompiledTemplate> = Vec::new();
    let mut i: usize = 0;
    while i < ts.len()
        invariant
            i <= ts@.len(),
            r@.len() == i as int,
            forall|j: int|
                0 <= j < i as int ==> (#[trigger] r@[j]).guards@ == cl@ && r@[j].tmpl == ts@[j],
        decreases ts@.len() - i as int,
    {
        let guards = copy_clauses(cl);
        r.push(CompiledTemplate { guards, tmpl: ts[i] });
        i += 1;
    }
    r
}

/// Classify a branch's production result under the tier its folded verdict
/// chose.  An immediate error or a failing stream is fatal under a fatal
/// tier and prunes the branch otherwise; a clean but empty stream is an
/// error only under `Required`; a clean nonempty stream is included, each
/// template tagged with the branch's guard conditions.
pub fn finish_branch(tier: Tier, produced: TxTmplIt, cl: &Vec<Clause>) -> (r: Result<
    BranchOutcome,
    CompilationError,
>)
    ensures
        finish_spec(tier, produced, cl@, r),
{
    match produced {
        Err(e) => match tier {
            Tier::Required | Tier::NoConstraint => Err(e),
            Tier::Skippable | Tier::Nullable => Ok(BranchOutcome::Pruned),
        },
        Ok(items) => {
            let ghost items0 = items@;
            match collect_templates(items) {
                Err(e) => match tier {
                    Tier::Required | Tier::NoConstraint => Err(e),
                    Tier::Skippable | Tier::Nullable => Ok(BranchOutcome::Pruned),
                },
                Ok(ts) => {
                    if ts.len() == 0 {
                        match tier {
                            Tier::Required => Err(empty_required_error()),
                            _ => Ok(BranchOutcome::Pruned),
                        }
                    } else {
                        Ok(BranchOutcome::Included(tag_templates(ts, cl)))
                    }
                },
            }
        },
    }
}

/// The tier a verdict proceeds under, for verdicts that neither fail nor
/// exclude the branch.
pub open spec fn tier_of(v: Verdict) -> Tier
    recommends
        !(v is Fail),
        !(v is Never),
{
    match v {
        Verdict::NoConstraint => Tier::NoConstraint,
        Verdict::Skippable => Tier::Skippable,
        Verdict::Nullable => Tier::Nullable,
        Verdict::Required => Tier::Required,
        _ => vstd::pervasive::arbitrary(),
    }
}

/// There is a production result the branch's production function may have
/// returned for `(inst, ctx)`, together with the conditions that evaluating
/// the branch's guards `gs` returns when the memo store starts as `m0` and
/// ends as `m1`, that explain `r` through [`finish_spec`] under `tier`.
pub open spec fn production_explains<T, GF, PF>(
    func: PF,
    gs: Seq<Guard<GF>>,
    inst: &T,
    ctx: &Context,
    m0: Map<u64, Clause>,
    m1: Map<u64, Clause>,
    tier: Tier,
    r: Result<BranchOutcome, CompilationError>,
) -> bool where
    GF: Fn(&T, &Context) -> Clause,
    PF: Fn(&T, &Context) -> TxTmplIt,
 {
    exists|produced: TxTmplIt, cl: Seq<Clause>|
        #![trigger finish_spec(tier, produced, cl, r)]
        {
            &&& call_ensures(func, (inst, ctx), produced)
            &&& guards_eval_trace(gs, inst, ctx, m0, cl, m1)
            &&& finish_spec(tier, produced, cl, r)
        }
}

/// What holds of a resolved branch outcome `r` given the verdicts `vs` that
/// the branch's rules returned: a `Fail` fold is an inclusion-conflict
/// error carrying exactly the folded reasons, and a `Never` fold prunes the
/// branch without evaluating it.
pub open spec fn verdict_resolution(v: Verdict, r: Result<BranchOutcome, CompilationError>) -> bool {
    &&& (v matches Verdict::Fail(reasons) ==> r matches Err(e) && e.kind
        == ErrorKind::InclusionConflict && reasons_view(e.reasons@) == reasons)
    &&& (v is Never ==> r == Result::<BranchOutcome, CompilationError>::Ok(BranchOutcome::Pruned))
}

/// The verdicts `vs` are possible outputs of the branch's rules for
/// `(inst, ctx)`, and their fold explains the resolution result `r`, with
/// the memo store turned from `m0` into `m1`: untouched when the fold fails
/// or excludes the branch, and otherwise left by evaluating the branch's
/// guards, whose conditions tag the included templates.
pub open spec fn then_trace<T, CF, GF, PF>(
    branch: ThenFunc<T, CF, GF, PF>,
    inst: &T,
    ctx: &Context,
    m0: Map<u64, Clause>,
    m1: Map<u64, Clause>,
    vs: Seq<ConditionalCompileType>,
    r: Result<BranchOutcome, CompilationError>,
) -> bool where
    CF: Fn(&T, &Context) -> ConditionalCompileType,
    GF: Fn(&T, &Context) -> Clause,
    PF: Fn(&T, &Context) -> TxTmplIt,
 {
    &&& vs.len() == branch.conditional_compile_if@.len()
    &&& (forall|i: int|
        0 <= i < vs.len() ==> call_ensures(
            branch.conditional_compile_if@[i].func(),
            (inst, ctx),
            #[trigger] vs[i],
        ))
    &&& verdict_resolution(fold_verdicts_spec(verdict_views(vs)), r)
    &&& {
        let v = fold_verdicts_spec(verdict_views(vs));
        &&& ((v is Fail || v is Never) ==> m1 == m0)
        &&& (!(v is Fail) && !(v is Never) ==> production_explains(
            branch.func,
            branch.guard@,
            inst,
            ctx,
            m0,
            m1,
            tier_of(v),
            r,
        ))
    }
}

/// Resolve one argument-free branch for a contract instance: fold its rules,
/// decide inclusion, and if the branch proceeds, evaluate its guards and
/// production function and classify the outcome.
pub fn resolve_then<T, CF, GF, PF>(
    cache: &mut GuardCache,
    inst: &T,
    ctx: &Context,
    branch: &ThenFunc<T, CF, GF, PF>,
) -> (r: Result<BranchOutcome, CompilationError>) where
    CF: Fn(&T, &Context) -> ConditionalCompileType,
    GF: Fn(&T, &Context) -> Clause,
    PF: Fn(&T, &Context) -> TxTmplIt,

    requires
        branch.wf(),
    ensures
        memo_extends(final(cache)@, old(cache)@),
        r matches Ok(BranchOutcome::Included(ts)) ==> ts@.len() > 0 && (forall|j: int|
            0 <= j < ts@.len() ==> (#[trigger] ts@[j]).guards@.len() == branch.guard@.len()),
        exists|vs: Seq<ConditionalCompileType>|
            #[trigger] then_trace(*branch, inst, ctx, old(cache)@, final(cache)@, vs, r),
{
    let vs = eval_conditions(&branch.conditional_compile_if, inst, ctx);
    let ghost vs0 = vs@;
    let verdict = fold_verdicts(vs);
    let r = match decide(verdict) {
        InclusionDecision::Abort(reasons) => Err(
            CompilationError { kind: ErrorKind::InclusionConflict, reasons },
        ),
        InclusionDecision::Exclude => Ok(BranchOutcome::Pruned),
        InclusionDecision::Proceed(tier) => {
            let clauses = cache.eval_guards(&branch.guard, inst, ctx);
            let produced = (branch.func)(inst, ctx);
            let rr = finish_branch(tier, produced, &clauses);
            proof {
                assert(guards_eval_trace(branch.guard@, inst, ctx, old(cache)@, clauses@, cache@));
                assert(finish_spec(tier, produced, clauses@, rr));
                assert(production_explains(
                    branch.func,
                    branch.guard@,
                    inst,
                    ctx,
                    old(cache)@,
                    cache@,
                    tier,
                    rr,
                ));
            }
            rr
        },
    };
    proof {
        assert(then_trace(*branch, inst, ctx, old(cache)@, cache@, vs0, r));
    }
    r
}

/// There is an invocation result the branch's dispatch capability may have
/// returned for `(inst, ctx, o)`, together with the conditions that
/// evaluating the branch's guards returns when the memo store starts as
/// `m0` and ends as `m1`, that explain `r` through [`finish_spec`] under
/// `tier`.
pub open spec fn call_explains<T, S, CF, GF, C: CallableAsFoF<T, S, CF, GF>>(
    branch: C,
    inst: &T,
    ctx: &Context,
    o: S,
    m0: Map<u64, Clause>,
    m1: Map<u64, Clause>,
    tier: Tier,
    r: Result<BranchOutcome, CompilationError>,
) -> bool where
    CF: Fn(&T, &Context) -> ConditionalCompileType,
    GF: Fn(&T, &Context) -> Clause,
 {
    exists|produced: TxTmplIt, cl: Seq<Clause>|
        #![trigger finish_spec(tier, produced, cl, r)]
        {
            &&& branch.call_spec(inst, ctx, o, produced)
            &&& guards_eval_trace(branch.spec_guards(), inst, ctx, m0, cl, m1)
            &&& finish_spec(tier, produced, cl, r)
        }
}

/// The verdicts `vs` are possible outputs of the branch's rules for
/// `(inst, ctx)`, and their fold explains the resolution result `r`, with
/// the memo store turned from `m0` into `m1`: untouched when the fold fails
/// or excludes the branch, and otherwise left by evaluating the branch's
/// guards, whose conditions tag the included templates.
pub open spec fn callable_trace<T, S, CF, GF, C: CallableAsFoF<T, S, CF, GF>>(
    branch: C,
    inst: &T,
    ctx: &Context,
    o: S,
    m0: Map<u64, Clause>,
    m1: Map<u64, Clause>,
    vs: Seq<ConditionalCompileType>,
    r: Result<BranchOutcome, CompilationError>,
) -> bool where
    CF: Fn(&T, &Context) -> ConditionalCompileType,
    GF: Fn(&T, &Context) -> Clause,
 {
    &&& vs.len() == branch.spec_conds().len()
    &&& (forall|i: int|
        0 <= i < vs.len() ==> call_ensures(
            branch.spec_conds()[i].func(),
            (inst, ctx),
            #[trigger] vs[i],
        ))
    &&& verdict_resolution(fold_verdicts_spec(verdict_views(vs)), r)
    &&& {
        let v = fold_verdicts_spec(verdict_views(vs));
        &&& ((v is Fail || v is Never) ==> m1 == m0)
        &&& (!(v is Fail) && !(v is Never) ==> call_explains(
            branch,
            inst,
            ctx,
            o,
            m0,
            m1,
            tier_of(v),
            r,
        ))
    }
}

/// Resolve one argument-taking branch through its uniform dispatch
/// capability: fold its rules, decide inclusion, and if the branch
/// proceeds, evaluate its guards, invoke it with the stateful arguments
/// (which coerces internally), and classify the outcome.
pub fn resolve_callable<T, S, CF, GF, C>(
    cache: &mut GuardCache,
    inst: &T,
    ctx: &Context,
    branch: &C,
    o: S,
) -> (r: Result<BranchOutcome, CompilationError>) where
    CF: Fn(&T, &Context) -> ConditionalCompileType,
    GF: Fn(&T, &Context) -> Clause,
    C: CallableAsFoF<T, S, CF, GF>,

    requires
        branch.wf(),
    ensures
        memo_extends(final(cache)@, old(cache)@),
        r matches Ok(BranchOutcome::Included(ts)) ==> ts@.len() > 0 && (forall|j: int|
            0 <= j < ts@.len() ==> (#[trigger] ts@[j]).guards@.len() == branch.spec_guards().len()),
        exists|vs: Seq<ConditionalCompileType>|
            #[trigger] callable_trace(*branch, inst, ctx, o, old(cache)@, final(cache)@, vs, r),
{
    proof {
        branch.wf_facts();
    }
    let vs = eval_conditions(branch.get_conditional_compile_if(), inst, ctx);
    let ghost vs0 = vs@;
    let verdict = fold_verdicts(vs);
    let r = match decide(verdict) {
        InclusionDecision::Abort(reasons) => Err(
            CompilationError { kind: ErrorKind::InclusionConflict, reasons },
        ),
        InclusionDecision::Exclude => Ok(BranchOutcome::Pruned),
        InclusionDecision::Proceed(tier) => {
            let clauses = cache.eval_guards(branch.get_guard(), inst, ctx);
            let produced = branch.call(inst, ctx, o);
            let rr = finish_branch(tier, produced, &clauses);
            proof {
                assert(guards_eval_trace(
                    branch.spec_guards(),
                    inst,
                    ctx,
                    old(cache)@,
                    clauses@,
                    cache@,
                ));
                assert(finish_spec(tier, produced, clauses@, rr));
                assert(call_explains(*branch, inst, ctx, o, old(cache)@, cache@, tier, rr));
            }
            rr
        },
    };
    proof {
        assert(callable_trace(*branch, inst, ctx, o, old(cache)@, cache@, vs0, r));
    }
    r
}

/// The templates of the included outcomes, concatenated in outcome order.
pub open spec fn included_templates(
    outcomes: Seq<Result<BranchOutcome, CompilationError>>,
) -> Seq<CompiledTemplate>
    decreases outcomes.len(),
{
    if outcomes.len() == 0 {
        Seq::<CompiledTemplate>::empty()
    } else {
        included_templates(outcomes.drop_last()) + (match outcomes.last() {
            Ok(BranchOutcome::Included(ts)) => ts@,
            _ => Seq::<CompiledTemplate>::empty(),
        })
    }
}

/// No outcome of the sequence is an error.
pub open spec fn outcomes_ok(outcomes: Seq<Result<BranchOutcome, CompilationError>>) -> bool {
    forall|i: int| 0 <= i < outcomes.len() ==> !((#[trigger] outcomes[i]) is Err)
}

/// How a per-branch outcome sequence determines the result of compiling a
/// list of `n` branches: either every branch resolved without error and the
/// result concatenates the included branches' templates in branch order, or
/// resolution stopped at the first branch whose outcome was an error, which
/// the result surfaces unchanged.
pub open spec fn list_result(
    outcomes: Seq<Result<BranchOutcome, CompilationError>>,
    n: int,
    r: Result<Vec<CompiledTemplate>, CompilationError>,
) -> bool {
    &&& (r matches Ok(out) ==> outcomes.len() == n && outcomes_ok(outcomes) && out@
        == included_templates(outcomes))
    &&& (r matches Err(e) ==> 1 <= outcomes.len() <= n && outcomes.last() == Result::<
        BranchOutcome,
        CompilationError,
    >::Err(e) && (forall|j: int| 0 <= j < outcomes.len() - 1 ==> !((#[trigger] outcomes[j]) is Err)))
}

/// The outcome of the branch at position `i` is explained by a resolution
/// trace of that branch that turns the memo store `m0` into `m1`.
pub open spec fn then_outcome_explained<T, CF, GF, PF>(
    branches: &Vec<ThenFunc<T, CF, GF, PF>>,
    inst: &T,
    ctx: &Context,
    m0: Map<u64, Clause>,
    m1: Map<u64, Clause>,
    i: int,
    outcome: Result<BranchOutcome, CompilationError>,
) -> bool where
    CF: Fn(&T, &Context) -> ConditionalCompileType,
    GF: Fn(&T, &Context) -> Clause,
    PF: Fn(&T, &Context) -> TxTmplIt,
 {
    exists|vs: Seq<ConditionalCompileType>|
        #[trigger] then_trace(branches@[i], inst, ctx, m0, m1, vs, outcome)
}

/// Every outcome is explained by a resolution trace of its branch, the
/// traces chained through the memo stores `memos`: the branch at `i` starts
/// from `memos[i]` and leaves `memos[i + 1]`.
pub open spec fn thens_explained<T, CF, GF, PF>(
    branches: &Vec<ThenFunc<T, CF, GF, PF>>,
    inst: &T,
    ctx: &Context,
    memos: Seq<Map<u64, Clause>>,
    outcomes: Seq<Result<BranchOutcome, CompilationError>>,
) -> bool where
    CF: Fn(&T, &Context) -> ConditionalCompileType,
    GF: Fn(&T, &Context) -> Clause,
    PF: Fn(&T, &Context) -> TxTmplIt,
 {
    &&& memos.len() == outcomes.len() + 1
    &&& forall|i: int|
        0 <= i < outcomes.len() ==> #[trigger] then_outcome_explained(
            branches,
            inst,
            ctx,
            memos[i],
            memos[i + 1],
            i,
            outcomes[i],
        )
}

/// The outcome of the branch at position `i` is explained by a resolution
/// trace of that branch that turns the memo store `m0` into `m1`, for some
/// stateful-arguments value handed to it.
pub open spec fn fof_outcome_explained<T, S, CF, GF, C: CallableAsFoF<T, S, CF, GF>>(
    branches: &Vec<C>,
    inst: &T,
    ctx: &Context,
    m0: Map<u64, Clause>,
    m1: Map<u64, Clause>,
    i: int,
    outcome: Result<BranchOutcome, CompilationError>,
) -> bool where
    CF: Fn(&T, &Context) -> ConditionalCompileType,
    GF: Fn(&T, &Context) -> Clause,
 {
    exists|o: S, vs: Seq<ConditionalCompileType>|
        #[trigger] callable_trace(branches@[i], inst, ctx, o, m0, m1, vs, outcome)
}

/// Every outcome is explained by a resolution trace of its branch, for some
/// stateful-arguments value handed to it, the traces chained through the
/// memo stores `memos`: the branch at `i` starts from `memos[i]` and leaves
/// `memos[i + 1]`.
pub open spec fn fofs_explained<T, S, CF, GF, C: CallableAsFoF<T, S, CF, GF>>(
    branches: &Vec<C>,
    inst: &T,
    ctx: &Context,
    memos: Seq<Map<u64, Clause>>,
    outcomes: Seq<Result<BranchOutcome, CompilationError>>,
) -> bool where
    CF: Fn(&T, &Context) -> ConditionalCompileType,
    GF: Fn(&T, &Context) -> Clause,
 {
    &&& memos.len() == outcomes.len() + 1
    &&& forall|i: int|
        0 <= i < outcomes.len() ==> #[trigger] fof_outcome_explained(
            branches,
            inst,
            ctx,
            memos[i],
            memos[i + 1],
            i,
            outcomes[i],
        )
}

/// Resolve a contract's argument-free branches in declared order,
/// concatenating the included branches' tagged templates.  The first fatal
/// branch error aborts the whole pass.
pub fn compile_thens<T, CF, GF, PF>(
    cache: &mut GuardCache,
    inst: &T,
    ctx: &Context,
    branches: &Vec<ThenFunc<T, CF, GF, PF>>,
) -> (r: Result<Vec<CompiledTemplate>, CompilationError>) where
    CF: Fn(&T, &Context) -> ConditionalCompileType,
    GF: Fn(&T, &Context) -> Clause,
    PF: Fn(&T, &Context) -> TxTmplIt,

    requires
        forall|i: int| 0 <= i < branches@.len() ==> (#[trigger] branches@[i]).wf(),
    ensures
        memo_extends(final(cache)@, old(cache)@),
        exists|
            memos: Seq<Map<u64, Clause>>,
            outcomes: Seq<Result<BranchOutcome, CompilationError>>,
        |
            #![trigger thens_explained(branches, inst, ctx, memos, outcomes)]
            memos[0] == old(cache)@ && memos.last() == final(cache)@ && thens_explained(
                branches,
                inst,
                ctx,
                memos,
                outcomes,
            ) && list_result(outcomes, branches@.len() as int, r),
{
    let mut out: Vec<CompiledTemplate> = Vec::new();
    let mut i: usize = 0;
    let ghost mut outcomes: Seq<Result<BranchOutcome, CompilationError>> = Seq::empty();
    let ghost mut memos: Seq<Map<u64, Clause>> = seq![old(cache)@];
    while i < branches.len()
        invariant
            i <= branches@.len(),
            forall|k: int| 0 <= k < branches@.len() ==> (#[trigger] branches@[k]).wf(),
            memo_extends(cache@, old(cache)@),
            outcomes.len() == i as int,
            memos.len() == i as int + 1,
            memos[0] == old(cache)@,
            memos.last() == cache@,
            thens_explained(branches, inst, ctx, memos, outcomes),
            outcomes_ok(outcomes),
            out@ == included_templates(outcomes),
        decreases branches@.len() - i as int,
    {
        let ghost prev = outcomes;
        let ghost prevm = memos;
        let ghost mb = cache@;
        let rr = resolve_then(cache, inst, ctx, &branches[i]);
        let ghost orr = rr;
        proof {
            outcomes = outcomes.push(orr);
            memos = memos.push(cache@);
            assert(outcomes.drop_last() =~= prev);
            assert(memos.drop_last() =~= prevm);
            assert(outcomes[i as int] == orr);
            assert(memos[i as int] == mb);
            assert(memos[i as int + 1] == cache@);
            assert(then_outcome_explained(branches, inst, ctx, mb, cache@, i as int, orr));
            assert forall|i2: int| 0 <= i2 < outcomes.len() implies #[trigger] then_outcome_explained(
                branches,
                inst,
                ctx,
                memos[i2],
                memos[i2 + 1],
                i2,
                outcomes[i2],
            ) by {
                if i2 < i as int {
                    assert(outcomes[i2] == prev[i2]);
                    assert(memos[i2] == prevm[i2]);
                    assert(memos[i2 + 1] == prevm[i2 + 1]);
                    assert(then_outcome_explained(
                        branches,
                        inst,
                        ctx,
                        prevm[i2],
                        prevm[i2 + 1],
                        i2,
                        prev[i2],
                    ));
                } else {
                    assert(outcomes[i2] == orr);
                }
            }
            assert(thens_explained(branches, inst, ctx, memos, outcomes));
        }
        match rr {
            Ok(BranchOutcome::Included(mut ts)) => {
                out.append(&mut ts);
            },
            Ok(BranchOutcome::Pruned) => {},
            Err(e) => {
                proof {
                    assert(list_result(
                        outcomes,
                        branches@.len() as int,
                        Result::<Vec<CompiledTemplate>, CompilationError>::Err(e),
                    ));
                }
                return Err(e);
            },
        }
        i += 1;
    }
    proof {
        assert(list_result(outcomes, branches@.len() as int, Result::<
            Vec<CompiledTemplate>,
            CompilationError,
        >::Ok(out)));
    }
    Ok(out)
}

/// Resolve a contract's argument-taking branches in declared order, handing
/// each a copy of the caller-supplied stateful arguments and concatenating
/// the included branches' tagged templates.  The first fatal branch error
/// aborts the whole pass.
pub fn compile_fofs<T, S, CF, GF, C>(
    cache: &mut GuardCache,
    inst: &T,
    ctx: &Context,
    branches: &Vec<C>,
    args: &S,
) -> (r: Result<Vec<CompiledTemplate>, CompilationError>) where
    S: Clone,
    CF: Fn(&T, &Context) -> ConditionalCompileType,
    GF: Fn(&T, &Context) -> Clause,
    C: CallableAsFoF<T, S, CF, GF>,

    requires
        forall|i: int| 0 <= i < branches@.len() ==> (#[trigger] branches@[i]).wf(),
    ensures
        memo_extends(final(cache)@, old(cache)@),
        exists|
            memos: Seq<Map<u64, Clause>>,
            outcomes: Seq<Result<BranchOutcome, CompilationError>>,
        |
            #![trigger fofs_explained(branches, inst, ctx, memos, outcomes)]
            memos[0] == old(cache)@ && memos.last() == final(cache)@ && fofs_explained(
                branches,
                inst,
                ctx,
                memos,
                outcomes,
            ) && list_result(outcomes, branches@.len() as int, r),
{
    let mut out: Vec<CompiledTemplate> = Vec::new();
    let mut i: usize = 0;
    let ghost mut outcomes: Seq<Result<BranchOutcome, CompilationError>> = Seq::empty();
    let ghost mut memos: Seq<Map<u64, Clause>> = seq![old(cache)@];
    while i < branches.len()
        invariant
            i <= branches@.len(),
            forall|k: int| 0 <= k < branches@.len() ==> (#[trigger] branches@[k]).wf(),
            memo_extends(cache@, old(cache)@),
            outcomes.len() == i as int,
            memos.len() == i as int + 1,
            memos[0] == old(cache)@,
            memos.last() == cache@,
            fofs_explained(branches, inst, ctx, memos, outcomes),
            outcomes_ok(outcomes),
            out@ == included_templates(outcomes),
        decreases branches@.len() - i as int,
    {
        let ghost prev = outcomes;
        let ghost prevm = memos;
        let ghost mb = cache@;
        let o = args.clone();
        let rr = resolve_callable(cache, inst, ctx, &branches[i], o);
        let ghost orr = rr;
        proof {
            outcomes = outcomes.push(orr);
            memos = memos.push(cache@);
            assert(outcomes.drop_last() =~= prev);
            assert(memos.drop_last() =~= prevm);
            assert(outcomes[i as int] == orr);
            assert(memos[i as int] == mb);
            assert(memos[i as int + 1] == cache@);
            assert(fof_outcome_explained(branches, inst, ctx, mb, cache@, i as int, orr));
            assert forall|i2: int| 0 <= i2 < outcomes.len() implies #[trigger] fof_outcome_explained(
                branches,
                inst,
                ctx,
                memos[i2],
                memos[i2 + 1],
                i2,
                outcomes[i2],
            ) by {
                if i2 < i as int {
                    assert(outcomes[i2] == prev[i2]);
                    assert(memos[i2] == prevm[i2]);
                    assert(memos[i2 + 1] == prevm[i2 + 1]);
                    assert(fof_outcome_explained(
                        branches,
                        inst,
                        ctx,
                        prevm[i2],
                        prevm[i2 + 1],
                        i2,
                        prev[i2],
                    ));
                } else {
                    assert(outcomes[i2] == orr);
                }
            }
            assert(fofs_explained(branches, inst, ctx, memos, outcomes));
        }
        match rr {
            Ok(BranchOutcome::Included(mut ts)) => {
                out.append(&mut ts);
            },
            Ok(BranchOutcome::Pruned) => {},
            Err(e) => {
                proof {
                    assert(list_result(
                        outcomes,
                        branches@.len() as int,
                        Result::<Vec<CompiledTemplate>, CompilationError>::Err(e),
                    ));
                }
                return Err(e);
            },
        }
        i += 1;
    }
    proof {
        assert(list_result(outcomes, branches@.len() as int, Result::<
            Vec<CompiledTemplate>,
            CompilationError,
        >::Ok(out)));
    }
    Ok(out)
}

/// How the two phases' outcome sequences determine the result of compiling
/// a whole instance with `nt` argument-free and `nf` argument-taking
/// branches: full success concatenates both phases' included templates in
/// declared order; otherwise the first erroneous outcome — in the first
/// phase, the second never entered, or in the second after a clean first —
/// is surfaced unchanged.
pub open spec fn instance_result(
    to: Seq<Result<BranchOutcome, CompilationError>>,
    fo: Seq<Result<BranchOutcome, CompilationError>>,
    nt: int,
    nf: int,
    r: Result<Vec<CompiledTemplate>, CompilationError>,
) -> bool {
    &&& (r matches Ok(out) ==> to.len() == nt && outcomes_ok(to) && fo.len() == nf && outcomes_ok(
        fo,
    ) && out@ == included_templates(to) + included_templates(fo))
    &&& (r matches Err(e) ==> {
        ||| (fo.len() == 0 && list_result(to, nt, Result::<
            Vec<CompiledTemplate>,
            CompilationError,
        >::Err(e)))
        ||| (to.len() == nt && outcomes_ok(to) && list_result(fo, nf, Result::<
            Vec<CompiledTemplate>,
            CompilationError,
        >::Err(e)))
    })
}

/// Resolve all declared branches of a contract instance: first the
/// argument-free branches, then the argument-taking ones, each list in
/// declared order.  Either every included branch's templates are returned,
/// or the first fatal error aborts the whole compilation; there is no
/// partial success.
pub fn compile_instance<T, S, CF, GF, PF, C>(
    cache: &mut GuardCache,
    inst: &T,
    ctx: &Context,
    thens: &Vec<ThenFunc<T, CF, GF, PF>>,
    finish_or_funcs: &Vec<C>,
    args: &S,
) -> (r: Result<Vec<CompiledTemplate>, CompilationError>) where
    S: Clone,
    CF: Fn(&T, &Context) -> ConditionalCompileType,
    GF: Fn(&T, &Context) -> Clause,
    PF: Fn(&T, &Context) -> TxTmplIt,
    C: CallableAsFoF<T, S, CF, GF>,

    requires
        forall|i: int| 0 <= i < thens@.len() ==> (#[trigger] thens@[i]).wf(),
        forall|i: int| 0 <= i < finish_or_funcs@.len() ==> (#[trigger] finish_or_funcs@[i]).wf(),
    ensures
        memo_extends(final(cache)@, old(cache)@),
        exists|
            tm: Seq<Map<u64, Clause>>,
            to: Seq<Result<BranchOutcome, CompilationError>>,
            fm: Seq<Map<u64, Clause>>,
            fo: Seq<Result<BranchOutcome, CompilationError>>,
        |
            #![trigger thens_explained(thens, inst, ctx, tm, to), fofs_explained(finish_or_funcs, inst, ctx, fm, fo)]
            {
                &&& tm[0] == old(cache)@
                &&& fm[0] == tm.last()
                &&& fm.last() == final(cache)@
                &&& thens_explained(thens, inst, ctx, tm, to)
                &&& fofs_explained(finish_or_funcs, inst, ctx, fm, fo)
                &&& instance_result(
                    to,
                    fo,
                    thens@.len() as int,
                    finish_or_funcs@.len() as int,
                    r,
                )
            },
{
    let r1 = compile_thens(cache, inst, ctx, thens);
    let ghost (tm, to): (
        Seq<Map<u64, Clause>>,
        Seq<Result<BranchOutcome, CompilationError>>,
    ) = choose|
        memos: Seq<Map<u64, Clause>>,
        outcomes: Seq<Result<BranchOutcome, CompilationError>>,
    |
        #![trigger thens_explained(thens, inst, ctx, memos, outcomes)]
        memos[0] == old(cache)@ && memos.last() == cache@ && thens_explained(
            thens,
            inst,
            ctx,
            memos,
            outcomes,
        ) && list_result(outcomes, thens@.len() as int, r1);
    let mut out = match r1 {
        Ok(v) => v,
        Err(e) => {
            proof {
                let fo = Seq::<Result<BranchOutcome, CompilationError>>::empty();
                let fm = seq![tm.last()];
                assert(fofs_explained(finish_or_funcs, inst, ctx, fm, fo));
                assert(instance_result(
                    to,
                    fo,
                    thens@.len() as int,
                    finish_or_funcs@.len() as int,
                    Result::<Vec<CompiledTemplate>, CompilationError>::Err(e),
                ));
            }
            return Err(e);
        },
    };
    let ghost m_mid = cache@;
    let r2 = compile_fofs(cache, inst, ctx, finish_or_funcs, args);
    let ghost (fm, fo): (
        Seq<Map<u64, Clause>>,
        Seq<Result<BranchOutcome, CompilationError>>,
    ) = choose|
        memos: Seq<Map<u64, Clause>>,
        outcomes: Seq<Result<BranchOutcome, CompilationError>>,
    |
        #![trigger fofs_explained(finish_or_funcs, inst, ctx, memos, outcomes)]
        memos[0] == m_mid && memos.last() == cache@ && fofs_explained(
            finish_or_funcs,
            inst,
            ctx,
            memos,
            outcomes,
        ) && list_result(outcomes, finish_or_funcs@.len() as int, r2);
    let mut more = match r2 {
        Ok(v) => v,
        Err(e) => {
            proof {
                assert(instance_result(
                    to,
                    fo,
                    thens@.len() as int,
                    finish_or_funcs@.len() as int,
                    Result::<Vec<CompiledTemplate>, CompilationError>::Err(e),
                ));
            }
            return Err(e);
        },
    };
    out.append(&mut more);
    proof {
        assert(instance_result(
            to,
            fo,
            thens@.len() as int,
            finish_or_funcs@.len() as int,
            Result::<Vec<CompiledTemplate>, CompilationError>::Ok(out),
        ));
    }
    Ok(out)
}

} // verus!
