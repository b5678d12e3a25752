//! Scenario tests: guard caching, branch resolution, and whole-instance
//! compilation through both branch shapes.

use std::cell::Cell;
use std::marker::PhantomData;
use std::sync::Arc;

use sapio::actions::CallableAsFoF;
use sapio::actions::ConditionalCompileType;
use sapio::actions::ConditionallyCompileIf;
use sapio::actions::FinishOrFunc;
use sapio::actions::Guard;
use sapio::actions::ThenFunc;
use sapio::base::Clause;
use sapio::base::CompilationError;
use sapio::base::Context;
use sapio::base::ErrorKind;
use sapio::base::TxTmpl;
use sapio::base::TxTmplIt;
use sapio::compile::collect_templates;
use sapio::compile::compile_fofs;
use sapio::compile::compile_instance;
use sapio::compile::compile_thens;
use sapio::compile::finish_branch;
use sapio::compile::BranchOutcome;
use sapio::compile::Tier;
use sapio::session::GuardCache;

struct Inst {
    n: u64,
}

type CondFn = fn(&Inst, &Context) -> ConditionalCompileType;
type GuardFn = fn(&Inst, &Context) -> Clause;
type ProdFn = fn(&Inst, &Context) -> TxTmplIt;
type FofProdFn = fn(&Inst, &Context, u64) -> TxTmplIt;
type CoerceFn = fn(u64) -> Result<u64, CompilationError>;
type Fof = FinishOrFunc<Inst, u64, u64, CondFn, GuardFn, FofProdFn, CoerceFn>;

fn ctx() -> Context {
    Context { network: 1, amount_sats: 100_000 }
}

fn err(kind: ErrorKind, reason: &str) -> CompilationError {
    CompilationError { kind, reasons: vec![reason.to_string()] }
}

fn guard_ten(_: &Inst, _: &Context) -> Clause {
    Clause { id: 10 }
}

fn no_constraint(_: &Inst, _: &Context) -> ConditionalCompileType {
    ConditionalCompileType::NoConstraint
}

fn nullable(_: &Inst, _: &Context) -> ConditionalCompileType {
    ConditionalCompileType::Nullable
}

fn skippable(_: &Inst, _: &Context) -> ConditionalCompileType {
    ConditionalCompileType::Skippable
}

fn required(_: &Inst, _: &Context) -> ConditionalCompileType {
    ConditionalCompileType::Required
}

fn fail_x(_: &Inst, _: &Context) -> ConditionalCompileType {
    ConditionalCompileType::Fail(vec!["x incompatible".to_string()])
}

fn two_templates(_: &Inst, _: &Context) -> TxTmplIt {
    Ok(vec![Ok(TxTmpl { payload: 1 }), Ok(TxTmpl { payload: 2 })])
}

fn one_template(inst: &Inst, _: &Context) -> TxTmplIt {
    Ok(vec![Ok(TxTmpl { payload: inst.n })])
}

fn zero_templates(_: &Inst, _: &Context) -> TxTmplIt {
    Ok(Vec::new())
}

fn production_fails(_: &Inst, _: &Context) -> TxTmplIt {
    Err(err(ErrorKind::ProductionFailure, "production refused"))
}

fn then_branch(conds: Vec<ConditionallyCompileIf<CondFn>>, func: ProdFn) -> ThenFunc<Inst, CondFn, GuardFn, ProdFn> {
    ThenFunc {
        guard: vec![Guard::Fresh(guard_ten as GuardFn)],
        conditional_compile_if: conds,
        func,
        marker: PhantomData,
    }
}

fn no_fofs() -> Vec<Fof> {
    Vec::new()
}

#[test]
fn cache_guard_runs_once_per_instance() {
    let calls = Cell::new(0u32);
    let g = Guard::Cache(1u64, |_: &Inst, _: &Context| -> Clause {
        calls.set(calls.get() + 1);
        Clause { id: 42 }
    });
    let mut cache = GuardCache::new();
    let inst = Inst { n: 0 };
    let c = ctx();
    let c1 = cache.eval_guard(&g, &inst, &c);
    let c2 = cache.eval_guard(&g, &inst, &c);
    assert_eq!(calls.get(), 1);
    assert_eq!(c1, c2);
    assert_eq!(c1, Clause { id: 42 });
}

#[test]
fn fresh_guard_runs_every_time() {
    let calls = Cell::new(0u32);
    let g = Guard::Fresh(|_: &Inst, _: &Context| -> Clause {
        calls.set(calls.get() + 1);
        Clause { id: 7 }
    });
    let mut cache = GuardCache::new();
    let inst = Inst { n: 0 };
    let c = ctx();
    cache.eval_guard(&g, &inst, &c);
    cache.eval_guard(&g, &inst, &c);
    assert_eq!(calls.get(), 2);
}

#[test]
fn cache_guards_with_the_same_identity_share_one_evaluation() {
    let calls = Cell::new(0u32);
    let g1 = Guard::Cache(5u64, |_: &Inst, _: &Context| -> Clause {
        calls.set(calls.get() + 1);
        Clause { id: 8 }
    });
    let g2 = Guard::Cache(5u64, |_: &Inst, _: &Context| -> Clause {
        calls.set(calls.get() + 1);
        Clause { id: 9 }
    });
    let mut cache = GuardCache::new();
    let inst = Inst { n: 0 };
    let c = ctx();
    let c1 = cache.eval_guard(&g1, &inst, &c);
    let c2 = cache.eval_guard(&g2, &inst, &c);
    assert_eq!(calls.get(), 1);
    assert_eq!(c1, Clause { id: 8 });
    assert_eq!(c2, Clause { id: 8 });
}

#[test]
fn no_constraint_branch_yields_its_two_templates() {
    let branches = vec![then_branch(
        vec![ConditionallyCompileIf::Fresh(no_constraint as CondFn)],
        two_templates as ProdFn,
    )];
    let mut cache = GuardCache::new();
    let out = compile_instance(&mut cache, &Inst { n: 0 }, &ctx(), &branches, &no_fofs(), &0u64)
        .expect("compilation should succeed");
    assert_eq!(out.len(), 2);
    assert_eq!(out[0].tmpl, TxTmpl { payload: 1 });
    assert_eq!(out[1].tmpl, TxTmpl { payload: 2 });
    assert_eq!(out[0].guards, vec![Clause { id: 10 }]);
    assert_eq!(out[1].guards, vec![Clause { id: 10 }]);
}

#[test]
fn fail_verdict_aborts_the_whole_instance() {
    let branches = vec![
        then_branch(
            vec![ConditionallyCompileIf::Fresh(fail_x as CondFn)],
            two_templates as ProdFn,
        ),
        then_branch(Vec::new(), one_template as ProdFn),
    ];
    let mut cache = GuardCache::new();
    let e = compile_instance(&mut cache, &Inst { n: 3 }, &ctx(), &branches, &no_fofs(), &0u64)
        .expect_err("compilation must fail");
    assert_eq!(e.kind, ErrorKind::InclusionConflict);
    assert!(e.reasons.iter().any(|r| r == "x incompatible"));
}

fn never(_: &Inst, _: &Context) -> ConditionalCompileType {
    ConditionalCompileType::Never
}

fn panicking_production(_: &Inst, _: &Context) -> TxTmplIt {
    panic!("production of an excluded branch must not run");
}

#[test]
fn never_branch_is_excluded_without_running_production() {
    let branches = vec![
        then_branch(
            vec![ConditionallyCompileIf::Fresh(never as CondFn)],
            panicking_production as ProdFn,
        ),
        then_branch(Vec::new(), one_template as ProdFn),
    ];
    let mut cache = GuardCache::new();
    let out = compile_thens(&mut cache, &Inst { n: 9 }, &ctx(), &branches)
        .expect("compilation should succeed");
    assert_eq!(out.len(), 1);
    assert_eq!(out[0].tmpl, TxTmpl { payload: 9 });
}

#[test]
fn nullable_branch_with_empty_production_is_pruned_silently() {
    let branches = vec![
        then_branch(
            vec![ConditionallyCompileIf::Fresh(nullable as CondFn)],
            zero_templates as ProdFn,
        ),
        then_branch(Vec::new(), one_template as ProdFn),
    ];
    let mut cache = GuardCache::new();
    let out = compile_instance(&mut cache, &Inst { n: 5 }, &ctx(), &branches, &no_fofs(), &0u64)
        .expect("compilation should succeed");
    assert_eq!(out.len(), 1);
    assert_eq!(out[0].tmpl, TxTmpl { payload: 5 });
}

#[test]
fn required_branch_with_empty_production_is_an_error() {
    let branches = vec![then_branch(
        vec![ConditionallyCompileIf::Fresh(required as CondFn)],
        zero_templates as ProdFn,
    )];
    let mut cache = GuardCache::new();
    let e = compile_thens(&mut cache, &Inst { n: 0 }, &ctx(), &branches)
        .expect_err("a Required branch must contribute");
    assert_eq!(e.kind, ErrorKind::EmptyRequiredBranch);
}

#[test]
fn production_failure_under_default_verdict_is_fatal() {
    let branches = vec![then_branch(Vec::new(), production_fails as ProdFn)];
    let mut cache = GuardCache::new();
    let e = compile_thens(&mut cache, &Inst { n: 0 }, &ctx(), &branches)
        .expect_err("a failing production under NoConstraint is fatal");
    assert_eq!(e.kind, ErrorKind::ProductionFailure);
    assert_eq!(e.reasons, vec!["production refused".to_string()]);
}

#[test]
fn skippable_production_failure_is_recovered() {
    let branches = vec![
        then_branch(
            vec![ConditionallyCompileIf::Fresh(skippable as CondFn)],
            production_fails as ProdFn,
        ),
        then_branch(Vec::new(), one_template as ProdFn),
    ];
    let mut cache = GuardCache::new();
    let out = compile_thens(&mut cache, &Inst { n: 4 }, &ctx(), &branches)
        .expect("compilation should succeed");
    assert_eq!(out.len(), 1);
}

fn coerce_ok(o: u64) -> Result<u64, CompilationError> {
    Ok(o + 1)
}

fn coerce_reject(_: u64) -> Result<u64, CompilationError> {
    Err(err(ErrorKind::ArgumentCoercionFailure, "arguments rejected"))
}

fn fof_production(_: &Inst, _: &Context, a: u64) -> TxTmplIt {
    Ok(vec![Ok(TxTmpl { payload: a })])
}

fn fof(conds: Vec<ConditionallyCompileIf<CondFn>>, coerce: CoerceFn, name: &str) -> Fof {
    FinishOrFunc {
        coerce_args: coerce,
        guard: vec![Guard::Fresh(guard_ten as GuardFn)],
        conditional_compile_if: conds,
        func: fof_production as FofProdFn,
        schema: None,
        name: name.to_string(),
        marker: PhantomData,
    }
}

#[test]
fn skippable_coercion_failure_omits_the_branch() {
    let fofs = vec![
        fof(
            vec![ConditionallyCompileIf::Fresh(skippable as CondFn)],
            coerce_reject as CoerceFn,
            "picky",
        ),
        fof(Vec::new(), coerce_ok as CoerceFn, "easy"),
    ];
    let mut cache = GuardCache::new();
    let out = compile_fofs(&mut cache, &Inst { n: 0 }, &ctx(), &fofs, &41u64)
        .expect("compilation should succeed");
    assert_eq!(out.len(), 1);
    assert_eq!(out[0].tmpl, TxTmpl { payload: 42 });
}

#[test]
fn required_coercion_failure_fails_the_instance() {
    let fofs = vec![fof(
        vec![ConditionallyCompileIf::Fresh(required as CondFn)],
        coerce_reject as CoerceFn,
        "strict",
    )];
    let mut cache = GuardCache::new();
    let e = compile_fofs(&mut cache, &Inst { n: 0 }, &ctx(), &fofs, &41u64)
        .expect_err("coercion failure under Required is fatal");
    assert_eq!(e.kind, ErrorKind::ArgumentCoercionFailure);
    assert_eq!(e.reasons, vec!["arguments rejected".to_string()]);
}

#[test]
fn collect_templates_stops_at_the_first_failure() {
    let stream: Vec<Result<TxTmpl, CompilationError>> = vec![
        Ok(TxTmpl { payload: 1 }),
        Err(err(ErrorKind::ProductionFailure, "broken")),
        Ok(TxTmpl { payload: 2 }),
    ];
    let e = collect_templates(stream).expect_err("the first failure wins");
    assert_eq!(e.reasons, vec!["broken".to_string()]);
    let all = collect_templates(vec![Ok(TxTmpl { payload: 3 }), Ok(TxTmpl { payload: 4 })])
        .expect("no failure");
    assert_eq!(all, vec![TxTmpl { payload: 3 }, TxTmpl { payload: 4 }]);
}

#[test]
fn finish_branch_tags_templates_with_guard_clauses() {
    let cl = vec![Clause { id: 1 }, Clause { id: 2 }];
    let produced: TxTmplIt = Ok(vec![Ok(TxTmpl { payload: 11 })]);
    let r = finish_branch(Tier::NoConstraint, produced, &cl);
    match r {
        Ok(BranchOutcome::Included(ts)) => {
            assert_eq!(ts.len(), 1);
            assert_eq!(ts[0].guards, cl);
            assert_eq!(ts[0].tmpl, TxTmpl { payload: 11 });
        }
        other => panic!("expected an included branch, got {:?}", other),
    }
}

#[test]
fn dispatch_exposes_name_schema_guards_and_rules() {
    let mut b = fof(
        vec![ConditionallyCompileIf::Fresh(no_constraint as CondFn)],
        coerce_ok as CoerceFn,
        "sell",
    );
    b.schema = Some(Arc::new(schemars::schema::RootSchema::default()));
    assert_eq!(b.get_name().as_str(), "sell");
    assert!(b.get_schema().is_some());
    assert_eq!(b.get_guard().len(), 1);
    assert_eq!(b.get_conditional_compile_if().len(), 1);
    let r = b.call(&Inst { n: 0 }, &ctx(), 6u64);
    let stream = r.expect("coercion succeeds");
    assert_eq!(stream, vec![Ok(TxTmpl { payload: 7 })]);
}

#[test]
fn empty_declarations_compile_to_no_templates() {
    let mut cache = GuardCache::new();
    let thens: Vec<ThenFunc<Inst, CondFn, GuardFn, ProdFn>> = Vec::new();
    let out = compile_instance(&mut cache, &Inst { n: 0 }, &ctx(), &thens, &no_fofs(), &0u64)
        .expect("nothing to compile");
    assert!(out.is_empty());
}

fn guard_twenty(_: &Inst, _: &Context) -> Clause {
    Clause { id: 20 }
}

#[test]
fn guard_conditions_keep_declared_order() {
    let branches = vec![ThenFunc {
        guard: vec![
            Guard::Fresh(guard_ten as GuardFn),
            Guard::Fresh(guard_twenty as GuardFn),
        ],
        conditional_compile_if: Vec::<ConditionallyCompileIf<CondFn>>::new(),
        func: one_template as ProdFn,
        marker: PhantomData,
    }];
    let mut cache = GuardCache::new();
    let out = compile_thens(&mut cache, &Inst { n: 1 }, &ctx(), &branches)
        .expect("compilation should succeed");
    assert_eq!(out[0].guards, vec![Clause { id: 10 }, Clause { id: 20 }]);
}

#[test]
fn cached_guard_is_shared_across_branches_of_one_session() {
    let calls = Cell::new(0u32);
    let cached = |_: &Inst, _: &Context| -> Clause {
        calls.set(calls.get() + 1);
        Clause { id: 77 }
    };
    let branches = vec![
        ThenFunc {
            guard: vec![Guard::Cache(3u64, cached)],
            conditional_compile_if: Vec::<ConditionallyCompileIf<CondFn>>::new(),
            func: one_template as ProdFn,
            marker: PhantomData,
        },
        ThenFunc {
            guard: vec![Guard::Cache(3u64, cached)],
            conditional_compile_if: Vec::<ConditionallyCompileIf<CondFn>>::new(),
            func: one_template as ProdFn,
            marker: PhantomData,
        },
    ];
    let mut cache = GuardCache::new();
    let out = compile_thens(&mut cache, &Inst { n: 2 }, &ctx(), &branches)
        .expect("compilation should succeed");
    assert_eq!(calls.get(), 1);
    assert_eq!(out.len(), 2);
    assert_eq!(out[0].guards, vec![Clause { id: 77 }]);
    assert_eq!(out[1].guards, vec![Clause { id: 77 }]);
}
