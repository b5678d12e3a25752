//! The different kinds of functionality a contract can declare: guards,
//! conditional-compile rules with their merge algebra, and the two branch
//! record shapes (`ThenFunc` and `FinishOrFunc`) together with the uniform
//! dispatch capability `CallableAsFoF`.

use core::marker::PhantomData;
use schemars::schema::RootSchema;
use std::sync::Arc;
use vstd::prelude::*;

use crate::base::reasons_view;
use crate::base::Clause;
use crate::base::CompilationError;
use crate::base::Context;
use crate::base::TxTmplIt;

verus! {

/// Spec-level model of an inclusion verdict.  It mirrors
/// [`ConditionalCompileType`] with the `Fail` reason texts abstracted to
/// character sequences.
pub enum Verdict {
    /// May proceed without the branch at all.
    Skippable,
    /// The branch is pruned silently if it errors or produces nothing.
    Nullable,
    /// The branch must contribute to the compilation.
    Required,
    /// The branch must never be used.
    Never,
    /// Nothing is changed by this rule.
    NoConstraint,
    /// Compilation must fail, for the given ordered reasons.
    Fail(Seq<Seq<char>>),
}

/// The reason synthesized when `Required` and `Never` meet.
pub open spec fn required_never_reason() -> Seq<char> {
    "Never and Required incompatible"@
}

/// Merge of two verdicts, written exactly as [`ConditionalCompileType::merge`]
/// computes it.
pub open spec fn merge_spec(a: Verdict, b: Verdict) -> Verdict {
    match (a, b) {
        (Verdict::NoConstraint, x) => x,
        (x, Verdict::NoConstraint) => x,
        (Verdict::Fail(v1), Verdict::Fail(v2)) => Verdict::Fail(v1 + v2),
        (Verdict::Fail(v1), _) => Verdict::Fail(v1),
        (_, Verdict::Fail(v2)) => Verdict::Fail(v2),
        (Verdict::Required, Verdict::Never) => Verdict::Fail(seq![required_never_reason()]),
        (Verdict::Never, Verdict::Required) => Verdict::Fail(seq![required_never_reason()]),
        (Verdict::Never, Verdict::Skippable) => Verdict::Never,
        (Verdict::Skippable, Verdict::Never) => Verdict::Never,
        (Verdict::Never, Verdict::Nullable) => Verdict::Never,
        (Verdict::Nullable, Verdict::Never) => Verdict::Never,
        (Verdict::Never, Verdict::Never) => Verdict::Never,
        (Verdict::Required, Verdict::Skippable) => Verdict::Required,
        (Verdict::Skippable, Verdict::Required) => Verdict::Required,
        (Verdict::Required, Verdict::Nullable) => Verdict::Required,
        (Verdict::Nullable, Verdict::Required) => Verdict::Required,
        (Verdict::Required, Verdict::Required) => Verdict::Required,
        (Verdict::Skippable, Verdict::Skippable) => Verdict::Skippable,
        (Verdict::Skippable, Verdict::Nullable) => Verdict::Skippable,
        (Verdict::Nullable, Verdict::Skippable) => Verdict::Skippable,
        (Verdict::Nullable, Verdict::Nullable) => Verdict::Nullable,
    }
}

/// A conditional-compile rule's decision about whether a branch is included,
/// excluded, required, or fails the whole compilation.
#[derive(Debug, PartialEq, Eq)]
pub enum ConditionalCompileType {
    /// May proceed without calling this branch at all.
    Skippable,
    /// If no error and no templates are returned, it is not an error and the
    /// branch is pruned.
    Nullable,
    /// The default if no conditional-compile rule is set: the branch is
    /// present and it is required.
    Required,
    /// This branch must never be used.
    Never,
    /// No constraint, nothing is changed by this rule.
    NoConstraint,
    /// The branch should always trigger an error, with some reasons.
    Fail(Vec<String>),
}

impl View for ConditionalCompileType {
    type V = Verdict;

    open spec fn view(&self) -> Verdict {
        match self {
            ConditionalCompileType::Skippable => Verdict::Skippable,
            ConditionalCompileType::Nullable => Verdict::Nullable,
            ConditionalCompileType::Required => Verdict::Required,
            ConditionalCompileType::Never => Verdict::Never,
            ConditionalCompileType::NoConstraint => Verdict::NoConstraint,
            ConditionalCompileType::Fail(v) => Verdict::Fail(reasons_view(v@)),
        }
    }
}

impl ConditionalCompileType {
    /// Merge two verdicts into one.  Precedence: `Fail` beats everything and
    /// concatenates reasons with another `Fail`; `NoConstraint` is the
    /// identity; `Required` and `Never` conflict into a synthesized `Fail`;
    /// `Never` and `Required` each dominate `Skippable` and `Nullable`;
    /// `Skippable` dominates `Nullable`.
    pub fn merge(self, other: Self) -> (r: Self)
        ensures
            r@ == merge_spec(self@, other@),
    {
        let ghost a = self@;
        let ghost b = other@;
        match (self, other) {
            (ConditionalCompileType::NoConstraint, x) => x,
            (x, ConditionalCompileType::NoConstraint) => x,
            (ConditionalCompileType::Fail(mut v), ConditionalCompileType::Fail(mut v2)) => {
                let ghost r1 = v@;
                let ghost r2 = v2@;
                v.append(&mut v2);
                proof {
                    assert(reasons_view(r1 + r2) =~= reasons_view(r1) + reasons_view(r2));
                }
                ConditionalCompileType::Fail(v)
            }
            (ConditionalCompileType::Fail(v), _) => ConditionalCompileType::Fail(v),
            (_, ConditionalCompileType::Fail(v)) => ConditionalCompileType::Fail(v),
            (ConditionalCompileType::Required, ConditionalCompileType::Never)
            | (ConditionalCompileType::Never, ConditionalCompileType::Required) => {
                let mut l: Vec<String> = Vec::new();
                l.push("Never and Required incompatible".to_owned());
                proof {
                    assert(reasons_view(l@) =~= seq![required_never_reason()]);
                }
                ConditionalCompileType::Fail(l)
            }
            (ConditionalCompileType::Never, ConditionalCompileType::Skippable)
            | (ConditionalCompileType::Skippable, ConditionalCompileType::Never)
            | (ConditionalCompileType::Never, ConditionalCompileType::Nullable)
            | (ConditionalCompileType::Nullable, ConditionalCompileType::Never)
            | (ConditionalCompileType::Never, ConditionalCompileType::Never) => {
                ConditionalCompileType::Never
            }
            (ConditionalCompileType::Required, ConditionalCompileType::Skippable)
            | (ConditionalCompileType::Skippable, ConditionalCompileType::Required)
            | (ConditionalCompileType::Required, ConditionalCompileType::Nullable)
            | (ConditionalCompileType::Nullable, ConditionalCompileType::Required)
            | (ConditionalCompileType::Required, ConditionalCompileType::Required) => {
                ConditionalCompileType::Required
            }
            (ConditionalCompileType::Skippable, ConditionalCompileType::Skippable)
            | (ConditionalCompileType::Skippable, ConditionalCompileType::Nullable)
            | (ConditionalCompileType::Nullable, ConditionalCompileType::Skippable) => {
                ConditionalCompileType::Skippable
            }
            (ConditionalCompileType::Nullable, ConditionalCompileType::Nullable) => {
                ConditionalCompileType::Nullable
            }
        }
    }
}

/// The views of a sequence of verdicts.
pub open spec fn verdict_views(s: Seq<ConditionalCompileType>) -> Seq<Verdict> {
    s.map_values(|x: ConditionalCompileType| x@)
}

/// Left fold of `merge_spec` over `s` starting from `acc`.
pub open spec fn fold_verdicts_from(acc: Verdict, s: Seq<Verdict>) -> Verdict
    decreases s.len(),
{
    if s.len() == 0 {
        acc
    } else {
        fold_verdicts_from(merge_spec(acc, s[0]), s.drop_first())
    }
}

/// The single verdict of a branch's conditional-compile rule outputs: a left
/// fold of the merge algebra, in declared order, starting from
/// `NoConstraint`.
pub open spec fn fold_verdicts_spec(s: Seq<Verdict>) -> Verdict {
    fold_verdicts_from(Verdict::NoConstraint, s)
}

/// Fold a list of verdicts left-to-right with [`ConditionalCompileType::merge`],
/// starting from `NoConstraint`.  The fold order is the list order, so the
/// reason lists of merged `Fail` verdicts stay reproducible.
pub fn fold_verdicts(vs: Vec<ConditionalCompileType>) -> (r: ConditionalCompileType)
    ensures
        r@ == fold_verdicts_spec(verdict_views(vs@)),
{
    let ghost orig = vs@;
    let mut acc = ConditionalCompileType::NoConstraint;
    let mut rest = vs;
    while rest.len() > 0
        invariant
            fold_verdicts_from(acc@, verdict_views(rest@)) == fold_verdicts_spec(
                verdict_views(orig),
            ),
        decreases rest.len(),
    {
        let ghost prev = rest@;
        let x = rest.remove(0);
        proof {
            assert(prev.remove(0) =~= prev.drop_first());
            assert(verdict_views(prev).drop_first() =~= verdict_views(prev.drop_first()));
        }
        acc = acc.merge(x);
    }
    acc
}

/// A guard produces a condition that must be met to unlock a branch's
/// templates.  The wrapped function is pure with respect to the contract
/// instance but may perform external effects; the `Cache` form exists to
/// bound such effects to at most one evaluation per instance.
pub enum Guard<F> {
    /// Evaluated at most once per contract instance and compilation session;
    /// later evaluations replay the memoized condition.  The `u64` is the
    /// guard's identity in the session's memo store.
    Cache(u64, F),
    /// Re-evaluated every time the guard is consulted.
    Fresh(F),
}

impl<F> Guard<F> {
    /// The wrapped function.
    pub open spec fn func(self) -> F {
        match self {
            Guard::Cache(_, f) => f,
            Guard::Fresh(f) => f,
        }
    }

    /// Whether evaluations are memoized.
    pub open spec fn is_cache(self) -> bool {
        self is Cache
    }

    /// The guard's identity in the memo store.
    pub open spec fn key(self) -> u64
        recommends
            self is Cache,
    {
        self->Cache_0
    }
}

/// The wrapped function of `g` may be invoked on any instance and context.
pub open spec fn guard_callable<T, GF: Fn(&T, &Context) -> Clause>(g: Guard<GF>) -> bool {
    forall|c: &T, x: &Context| #[trigger] call_requires(g.func(), (c, x))
}

/// Every guard of the list may be invoked on any instance and context.
pub open spec fn guard_list_callable<T, GF: Fn(&T, &Context) -> Clause>(
    s: Seq<Guard<GF>>,
) -> bool {
    forall|i: int| 0 <= i < s.len() ==> #[trigger] guard_callable::<T, GF>(s[i])
}

/// A conditional-compile rule: a function producing the verdict that decides
/// whether a branch is included for a given instance and context.  Kept as a
/// separate wrapper so that static analysis may run it without running the
/// branch's production function.
pub enum ConditionallyCompileIf<F> {
    /// May be called repeatedly; the verdict is produced fresh each time.
    Fresh(F),
}

impl<F> ConditionallyCompileIf<F> {
    /// The wrapped function.
    pub open spec fn func(self) -> F {
        match self {
            ConditionallyCompileIf::Fresh(f) => f,
        }
    }
}

/// Every rule of the list may be invoked on any instance and context.
pub open spec fn cond_list_callable<T, CF: Fn(&T, &Context) -> ConditionalCompileType>(
    s: Seq<ConditionallyCompileIf<CF>>,
) -> bool {
    forall|i: int, c: &T, x: &Context|
        0 <= i < s.len() ==> #[trigger] call_requires(s[i].func(), (c, x))
}

/// Evaluate a branch's conditional-compile rules in declared order,
/// returning their verdicts in the same order.
pub fn eval_conditions<T, CF: Fn(&T, &Context) -> ConditionalCompileType>(
    conds: &Vec<ConditionallyCompileIf<CF>>,
    inst: &T,
    ctx: &Context,
) -> (vs: Vec<ConditionalCompileType>)
    requires
        cond_list_callable::<T, CF>(conds@),
    ensures
        vs@.len() == conds@.len(),
        forall|i: int|
            0 <= i < conds@.len() ==> call_ensures(
                conds@[i].func(),
                (inst, ctx),
                #[trigger] vs@[i],
            ),
{
    let mut vs: Vec<ConditionalCompileType> = Vec::new();
    let mut i: usize = 0;
    while i < conds.len()
        invariant
            i <= conds@.len(),
            vs@.len() == i as int,
            cond_list_callable::<T, CF>(conds@),
            forall|j: int|
                0 <= j < i as int ==> call_ensures(conds@[j].func(), (inst, ctx), #[trigger] vs@[j]),
        decreases conds@.len() - i as int,
    {
        proof {
            assert(call_requires(conds@[i as int].func(), (inst, ctx)));
        }
        let c = match &conds[i] {
            ConditionallyCompileIf::Fresh(f) => (*f)(inst, ctx),
        };
        vs.push(c);
        i += 1;
    }
    vs
}

/// A branch without caller-supplied arguments: an ordered guard list, an
/// ordered conditional-compile rule list, and a production function whose
/// templates are covenant-permitted only if the conjunction of all guard
/// conditions is satisfied.
pub struct ThenFunc<T, CF, GF, PF> {
    /// Conditions that must be met before the produced templates may execute.
    pub guard: Vec<Guard<GF>>,
    /// Rules deciding whether this branch is included at all.
    pub conditional_compile_if: Vec<ConditionallyCompileIf<CF>>,
    /// Produces the branch's candidate transaction templates.
    pub func: PF,
    /// Binds the contract-instance type the closures operate on.
    pub marker: PhantomData<T>,
}

impl<T, CF, GF, PF> ThenFunc<T, CF, GF, PF> where
    CF: Fn(&T, &Context) -> ConditionalCompileType,
    GF: Fn(&T, &Context) -> Clause,
    PF: Fn(&T, &Context) -> TxTmplIt,
 {
    /// All wrapped functions may be invoked on any instance and context.
    pub open spec fn wf(&self) -> bool {
        &&& cond_list_callable::<T, CF>(self.conditional_compile_if@)
        &&& guard_list_callable::<T, GF>(self.guard@)
        &&& forall|c: &T, x: &Context| #[trigger] call_requires(self.func, (c, x))
    }
}

/// A branch which by default finishes the contract, but may receive a
/// caller-supplied stateful-arguments value that induces the generation of
/// additional (suggested) transactions.  `S` is the stateful-arguments shape
/// common to all branches of a contract; `A` is this branch's specific
/// argument type, obtained through `coerce_args`.
pub struct FinishOrFunc<T, S, A, CF, GF, PF, XF> {
    /// Turns the common stateful-arguments value into this branch's specific
    /// argument type, or rejects it with a compilation error.
    pub coerce_args: XF,
    /// Conditions that must be met before the coins may be unlocked.
    pub guard: Vec<Guard<GF>>,
    /// Rules deciding whether this branch is included at all.
    pub conditional_compile_if: Vec<ConditionallyCompileIf<CF>>,
    /// Produces the branch's candidate transaction templates from the coerced
    /// arguments.
    pub func: PF,
    /// A structural description of `A`, if it has one, for outside callers
    /// deciding what shape of arguments to send.  Never interpreted here.
    pub schema: Option<Arc<RootSchema>>,
    /// The branch's declared name.
    pub name: String,
    /// Binds the types the closures operate on.
    pub marker: PhantomData<(T, S, A)>,
}

/// Uniform dispatch over branches whose specific argument types differ: the
/// capability to invoke a branch with the common stateful-arguments value
/// (coercing internally) and to read its guard list, rule list, name and
/// argument schema.  This lets one ordered collection hold heterogeneously
/// typed branches and resolve them through one loop.
pub trait CallableAsFoF<T, S, CF, GF> where
    CF: Fn(&T, &Context) -> ConditionalCompileType,
    GF: Fn(&T, &Context) -> Clause,
 {
    /// The guard list, as [`Self::get_guard`] returns it.
    spec fn spec_guards(&self) -> Seq<Guard<GF>>;

    /// The rule list, as [`Self::get_conditional_compile_if`] returns it.
    spec fn spec_conds(&self) -> Seq<ConditionallyCompileIf<CF>>;

    /// The declared name, as [`Self::get_name`] returns it.
    spec fn spec_name(&self) -> Seq<char>;

    /// The argument schema, as [`Self::get_schema`] returns it.
    spec fn spec_schema(&self) -> Option<Arc<RootSchema>>;

    /// Everything the branch will invoke is callable.
    spec fn wf(&self) -> bool;

    /// How a result of [`Self::call`] relates to its inputs.
    spec fn call_spec(&self, cself: &T, ctx: &Context, o: S, r: TxTmplIt) -> bool;

    /// A well-formed branch has callable guard and rule lists.
    proof fn wf_facts(&self)
        requires
            self.wf(),
        ensures
            cond_list_callable::<T, CF>(self.spec_conds()),
            guard_list_callable::<T, GF>(self.spec_guards()),
    ;

    /// Invoke the branch: coerce the stateful arguments to the branch's
    /// specific argument type, then produce templates; a coercion failure
    /// surfaces as an immediate error.
    fn call(&self, cself: &T, ctx: &Context, o: S) -> (r: TxTmplIt)
        requires
            self.wf(),
        ensures
            self.call_spec(cself, ctx, o, r),
    ;

    /// The branch's conditional-compile rules, in declared order.
    fn get_conditional_compile_if(&self) -> (r: &Vec<ConditionallyCompileIf<CF>>)
        ensures
            r@ == self.spec_conds(),
    ;

    /// The branch's guards, in declared order.
    fn get_guard(&self) -> (r: &Vec<Guard<GF>>)
        ensures
            r@ == self.spec_guards(),
    ;

    /// The branch's declared name.
    fn get_name(&self) -> (r: &String)
        ensures
            r@ == self.spec_name(),
    ;

    /// The structural schema for calling this branch with an update, if any.
    fn get_schema(&self) -> (r: &Option<Arc<RootSchema>>)
        ensures
            *r == self.spec_schema(),
    ;
}

impl<T, S, A, CF, GF, PF, XF> CallableAsFoF<T, S, CF, GF> for FinishOrFunc<
    T,
    S,
    A,
    CF,
    GF,
    PF,
    XF,
> where
    CF: Fn(&T, &Context) -> ConditionalCompileType,
    GF: Fn(&T, &Context) -> Clause,
    PF: Fn(&T, &Context, A) -> TxTmplIt,
    XF: Fn(S) -> Result<A, CompilationError>,
 {
    open spec fn spec_guards(&self) -> Seq<Guard<GF>> {
        self.guard@
    }

    open spec fn spec_conds(&self) -> Seq<ConditionallyCompileIf<CF>> {
        self.conditional_compile_if@
    }

    open spec fn spec_name(&self) -> Seq<char> {
        self.name@
    }

    open spec fn spec_schema(&self) -> Option<Arc<RootSchema>> {
        self.schema
    }

    open spec fn wf(&self) -> bool {
        &&& cond_list_callable::<T, CF>(self.conditional_compile_if@)
        &&& guard_list_callable::<T, GF>(self.guard@)
        &&& forall|o: S| #[trigger] call_requires(self.coerce_args, (o,))
        &&& forall|c: &T, x: &Context, a: A| #[trigger] call_requires(self.func, (c, x, a))
    }

    open spec fn call_spec(&self, cself: &T, ctx: &Context, o: S, r: TxTmplIt) -> bool {
        ||| (exists|a: A|
            #[trigger] call_ensures(self.coerce_args, (o,), Ok(a)) && call_ensures(
                self.func,
                (cself, ctx, a),
                r,
            ))
        ||| (r matches Err(e) && call_ensures(self.coerce_args, (o,), Err(e)))
    }

    proof fn wf_facts(&self) {
    }

    fn call(&self, cself: &T, ctx: &Context, o: S) -> (r: TxTmplIt) {
        match (self.coerce_args)(o) {
            Ok(args) => {
                proof {
                    assert(call_ensures(self.coerce_args, (o,), Ok(args)));
                }
                (self.func)(cself, ctx, args)
            }
            Err(e) => {
                proof {
                    assert(call_ensures(self.coerce_args, (o,), Err::<A, CompilationError>(e)));
                }
                Err(e)
            }
        }
    }

    fn get_conditional_compile_if(&self) -> (r: &Vec<ConditionallyCompileIf<CF>>) {
        &self.conditional_compile_if
    }

    fn get_guard(&self) -> (r: &Vec<Guard<GF>>) {
        &self.guard
    }

    fn get_name(&self) -> (r: &String) {
        &self.name
    }

    fn get_schema(&self) -> (r: &Option<Arc<RootSchema>>) {
        &self.schema
    }
}

} // verus!
