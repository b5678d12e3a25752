//! The per-instance, per-session memo store for cached guards.
//!
//! A compilation session owns one `GuardCache` per contract instance.  A
//! `Cache` guard evaluated through it runs its underlying function at most
//! once for that instance: later evaluations replay the stored condition.
//! A `Fresh` guard is run every time and never touches the store.

use std::collections::HashMap;
use vstd::prelude::*;

use crate::actions::guard_callable;
use crate::actions::guard_list_callable;
use crate::actions::Guard;
use crate::base::Clause;
use crate::base::Context;

verus! {

broadcast use vstd::std_specs::hash::group_hash_axioms;

/// `newer` keeps every memo entry of `older` unchanged (it may add more).
pub open spec fn memo_extends(newer: Map<u64, Clause>, older: Map<u64, Clause>) -> bool {
    forall|k: u64|
        #[trigger] older.contains_key(k) ==> newer.contains_key(k) && newer[k] == older[k]
}

/// How evaluating the single guard `g` turns the memo store `m0` into `m1`
/// and what its returned condition `c` may be: a `Fresh` guard's condition
/// is a possible result of its function and the store is untouched; a
/// `Cache` guard returns exactly the stored condition on a hit, and
/// otherwise a possible result of its function, which is stored under the
/// guard's identity.
pub open spec fn guard_eval_step<T, GF: Fn(&T, &Context) -> Clause>(
    g: Guard<GF>,
    inst: &T,
    ctx: &Context,
    m0: Map<u64, Clause>,
    c: Clause,
    m1: Map<u64, Clause>,
) -> bool {
    if !g.is_cache() {
        m1 == m0 && call_ensures(g.func(), (inst, ctx), c)
    } else if m0.contains_key(g.key()) {
        c == m0[g.key()] && m1 == m0
    } else {
        m1 == m0.insert(g.key(), c) && call_ensures(g.func(), (inst, ctx), c)
    }
}

/// The memo store left behind by one guard evaluation that returned `c`.
pub open spec fn stepped_memo<GF>(g: Guard<GF>, m0: Map<u64, Clause>, c: Clause) -> Map<
    u64,
    Clause,
> {
    if g.is_cache() && !m0.contains_key(g.key()) {
        m0.insert(g.key(), c)
    } else {
        m0
    }
}

/// The conditions `cs` are exactly what evaluating the guards `gs` in
/// declared order returns when the memo store starts as `m0`, with `m1` the
/// store left behind: each guard's condition satisfies [`guard_eval_step`]
/// against the store its predecessors left.
pub open spec fn guards_eval_trace<T, GF: Fn(&T, &Context) -> Clause>(
    gs: Seq<Guard<GF>>,
    inst: &T,
    ctx: &Context,
    m0: Map<u64, Clause>,
    cs: Seq<Clause>,
    m1: Map<u64, Clause>,
) -> bool
    decreases gs.len(),
{
    if gs.len() == 0 {
        cs.len() == 0 && m1 == m0
    } else {
        &&& cs.len() == gs.len()
        &&& guard_eval_step(gs[0], inst, ctx, m0, cs[0], stepped_memo(gs[0], m0, cs[0]))
        &&& guards_eval_trace(
            gs.drop_first(),
            inst,
            ctx,
            stepped_memo(gs[0], m0, cs[0]),
            cs.drop_first(),
            m1,
        )
    }
}

/// Extending a trace by one more evaluated guard at its end.
proof fn lemma_guards_eval_trace_snoc<T, GF: Fn(&T, &Context) -> Clause>(
    gs: Seq<Guard<GF>>,
    inst: &T,
    ctx: &Context,
    m0: Map<u64, Clause>,
    cs: Seq<Clause>,
    m1: Map<u64, Clause>,
    g: Guard<GF>,
    c: Clause,
    m2: Map<u64, Clause>,
)
    requires
        guards_eval_trace(gs, inst, ctx, m0, cs, m1),
        guard_eval_step(g, inst, ctx, m1, c, m2),
    ensures
        guards_eval_trace(gs.push(g), inst, ctx, m0, cs.push(c), m2),
    decreases gs.len(),
{
    assert(m2 == stepped_memo(g, m1, c));
    if gs.len() == 0 {
        assert(gs.push(g).drop_first() =~= Seq::<Guard<GF>>::empty());
        assert(cs.push(c).drop_first() =~= Seq::<Clause>::empty());
        assert(gs.push(g)[0] == g);
        assert(cs.push(c)[0] == c);
        assert(guard_eval_step(g, inst, ctx, m0, c, stepped_memo(g, m0, c)));
        assert(guards_eval_trace(
            gs.push(g).drop_first(),
            inst,
            ctx,
            stepped_memo(g, m0, c),
            cs.push(c).drop_first(),
            m2,
        ));
    } else {
        lemma_guards_eval_trace_snoc(
            gs.drop_first(),
            inst,
            ctx,
            stepped_memo(gs[0], m0, cs[0]),
            cs.drop_first(),
            m1,
            g,
            c,
            m2,
        );
        assert(gs.push(g).drop_first() =~= gs.drop_first().push(g));
        assert(cs.push(c).drop_first() =~= cs.drop_first().push(c));
        assert(gs.push(g)[0] == gs[0]);
        assert(cs.push(c)[0] == cs[0]);
    }
}

/// The memo store of one compilation session for one contract instance,
/// keyed by guard identity.  It is discarded when the session ends and must
/// not be shared across instances.
pub struct GuardCache {
    /// Stored conditions, by guard identity.
    memo: HashMap<u64, Clause>,
}

impl View for GuardCache {
    type V = Map<u64, Clause>;

    closed spec fn view(&self) -> Map<u64, Clause> {
        self.memo@
    }
}

impl GuardCache {
    /// An empty memo store for a fresh compilation session.
    pub fn new() -> (s: Self)
        ensures
            s@ == Map::<u64, Clause>::empty(),
    {
        GuardCache { memo: HashMap::new() }
    }

    /// Evaluate one guard.  A `Fresh` guard runs its function and leaves the
    /// store unchanged.  A `Cache` guard whose identity is already stored
    /// returns the stored condition without running anything; otherwise it
    /// runs its function once and stores the result.
    pub fn eval_guard<T, GF: Fn(&T, &Context) -> Clause>(
        &mut self,
        g: &Guard<GF>,
        inst: &T,
        ctx: &Context,
    ) -> (c: Clause)
        requires
            guard_callable::<T, GF>(*g),
        ensures
            memo_extends(final(self)@, old(self)@),
            !g.is_cache() ==> final(self)@ == old(self)@ && call_ensures(
                g.func(),
                (inst, ctx),
                c,
            ),
            g.is_cache() && old(self)@.contains_key(g.key()) ==> c == old(self)@[g.key()]
                && final(self)@ == old(self)@,
            g.is_cache() && !old(self)@.contains_key(g.key()) ==> final(self)@ == old(
                self,
            )@.insert(g.key(), c) && call_ensures(g.func(), (inst, ctx), c),
    {
        proof {
            assert(call_requires((*g).func(), (inst, ctx)));
        }
        match g {
            Guard::Fresh(f) => (*f)(inst, ctx),
            Guard::Cache(k, f) => match self.memo.get(k) {
                Some(c) => *c,
                None => {
                    let c = (*f)(inst, ctx);
                    self.memo.insert(*k, c);
                    c
                },
            },
        }
    }

    /// Evaluate a branch's guard list in declared order, producing the
    /// ordered conditions that are implicitly conjoined to form the
    /// unlocking requirement of the branch's templates.
    pub fn eval_guards<T, GF: Fn(&T, &Context) -> Clause>(
        &mut self,
        gs: &Vec<Guard<GF>>,
        inst: &T,
        ctx: &Context,
    ) -> (cs: Vec<Clause>)
        requires
            guard_list_callable::<T, GF>(gs@),
        ensures
            cs@.len() == gs@.len(),
            memo_extends(final(self)@, old(self)@),
            guards_eval_trace(gs@, inst, ctx, old(self)@, cs@, final(self)@),
    {
        let mut cs: Vec<Clause> = Vec::new();
        let mut i: usize = 0;
        proof {
            assert(gs@.subrange(0, 0) =~= Seq::<Guard<GF>>::empty());
        }
        while i < gs.len()
            invariant
                i <= gs@.len(),
                cs@.len() == i as int,
                guard_list_callable::<T, GF>(gs@),
                memo_extends(self@, old(self)@),
                guards_eval_trace(gs@.subrange(0, i as int), inst, ctx, old(self)@, cs@, self@),
            decreases gs@.len() - i as int,
        {
            proof {
                assert(guard_callable::<T, GF>(gs@[i as int]));
            }
            let ghost before = self@;
            let ghost cs0 = cs@;
            let c = self.eval_guard(&gs[i], inst, ctx);
            proof {
                assert(guard_eval_step(gs@[i as int], inst, ctx, before, c, self@));
                lemma_guards_eval_trace_snoc(
                    gs@.subrange(0, i as int),
                    inst,
                    ctx,
                    old(self)@,
                    cs0,
                    before,
                    gs@[i as int],
                    c,
                    self@,
                );
                assert(gs@.subrange(0, i as int).push(gs@[i as int]) =~= gs@.subrange(
                    0,
                    i as int + 1,
                ));
            }
            cs.push(c);
            i += 1;
        }
        proof {
            assert(gs@.subrange(0, gs@.len() as int) =~= gs@);
        }
        cs
    }
}

} // verus!
