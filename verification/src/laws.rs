//! General properties of the verdict merge algebra, stated over the spec
//! model that [`crate::actions::ConditionalCompileType::merge`] is proved
//! against, and of the branch-outcome classification.

use vstd::prelude::*;

use crate::actions::merge_spec;
use crate::actions::required_never_reason;
use crate::actions::Verdict;
use crate::base::Clause;
use crate::base::CompilationError;
use crate::base::TxTmplIt;
use crate::compile::finish_spec;
use crate::compile::BranchOutcome;
use crate::compile::Tier;

verus! {

/// For every pair of non-`Fail` verdicts, merging is commutative.
pub proof fn lemma_merge_commutative(a: Verdict, b: Verdict)
    requires
        !(a is Fail),
        !(b is Fail),
    ensures
        merge_spec(a, b) == merge_spec(b, a),
{
}

/// `NoConstraint` is the identity of the merge, on either side.
pub proof fn lemma_merge_no_constraint_identity(x: Verdict)
    ensures
        merge_spec(Verdict::NoConstraint, x) == x,
        merge_spec(x, Verdict::NoConstraint) == x,
{
}

/// Each of `Never`, `Required`, `Skippable` and `Nullable` is idempotent
/// under the merge.
pub proof fn lemma_merge_idempotent(x: Verdict)
    requires
        x is Never || x is Required || x is Skippable || x is Nullable,
    ensures
        merge_spec(x, x) == x,
{
}

/// `Required` and `Never` conflict: merging them in either order yields
/// `Fail` carrying exactly the synthesized incompatibility reason.
pub proof fn lemma_merge_required_never_conflict()
    ensures
        merge_spec(Verdict::Required, Verdict::Never) == Verdict::Fail(
            seq![required_never_reason()],
        ),
        merge_spec(Verdict::Never, Verdict::Required) == Verdict::Fail(
            seq![required_never_reason()],
        ),
{
}

/// Merging two `Fail` verdicts concatenates their reason lists in argument
/// order.
pub proof fn lemma_merge_fail_concat(v1: Seq<Seq<char>>, v2: Seq<Seq<char>>)
    ensures
        merge_spec(Verdict::Fail(v1), Verdict::Fail(v2)) == Verdict::Fail(v1 + v2),
{
}

/// Merging `Fail` with any non-`Fail` verdict yields the `Fail` unchanged,
/// on either side.
pub proof fn lemma_merge_fail_dominates(v: Seq<Seq<char>>, b: Verdict)
    requires
        !(b is Fail),
    ensures
        merge_spec(Verdict::Fail(v), b) == Verdict::Fail(v),
        merge_spec(b, Verdict::Fail(v)) == Verdict::Fail(v),
{
}

/// A `Nullable` branch whose production yields zero templates and no error
/// is pruned silently: the only resolution [`finish_spec`] admits for it is
/// success contributing nothing, so the other branches' contributions are
/// exactly what they would be if this branch were absent.
pub proof fn lemma_nullable_empty_production_prunes(
    produced: TxTmplIt,
    cl: Seq<Clause>,
    r: Result<BranchOutcome, CompilationError>,
)
    requires
        produced matches Ok(items) && items@.len() == 0,
        finish_spec(Tier::Nullable, produced, cl, r),
    ensures
        r == Result::<BranchOutcome, CompilationError>::Ok(BranchOutcome::Pruned),
{
}

} // verus!
