//! Apply-results: owned, reference-counted handles to the ordered sub-goals
//! produced by one tactic application.

use vstd::prelude::*;
use crate::ast::Bool;
use crate::ast::or_all;
use crate::context::Context;
use crate::context::goal_released;
use crate::context::goal_retained;
use crate::context::result_extractable;
use crate::context::result_live;
use crate::context::result_released;
use crate::context::result_retained;
use crate::context::subgoal_exprs;
use crate::goal::Goal;
use crate::laws::lemma_goal_retain_release;

verus! {

/// An owned handle to an apply-result object of the engine: the ordered
/// sub-goals one tactic application produced. Positional index is the only
/// identity a sub-goal has. The wrapper owns exactly one increment of the
/// object's reference count, taken at construction and given back by
/// `release`.
pub struct ApplyResult {
    handle: usize,
}

impl View for ApplyResult {
    type V = int;

    closed spec fn view(&self) -> int {
        self.handle as int
    }
}

impl ApplyResult {
    /// A fresh owner of the apply-result object `h`: takes one increment of
    /// its reference count.
    pub(crate) fn new(ctx: &mut Context, h: usize) -> (r: ApplyResult)
        requires
            h < old(ctx)@.results.len(),
            old(ctx)@.results[h as int].rc < u64::MAX,
        ensures
            r@ == h as int,
            final(ctx)@ == result_retained(old(ctx)@, h as int),
            result_live(final(ctx)@, r@),
    {
        ctx.apply_result_inc_ref(h);
        ApplyResult { handle: h }
    }

    /// How many sub-goals the application produced.
    pub fn len(&self, ctx: &Context) -> (n: usize)
        requires
            result_live(ctx@, self@),
        ensures
            n == ctx@.results[self@].subgoals.len(),
    {
        ctx.apply_result_num_subgoals(self.handle)
    }

    /// Whether the application produced no sub-goal.
    pub fn is_empty(&self, ctx: &Context) -> (b: bool)
        requires
            result_live(ctx@, self@),
        ensures
            b == (ctx@.results[self@].subgoals.len() == 0),
    {
        self.len(ctx) == 0
    }

    /// The sub-goal at position `index` as a freshly owned goal, or nothing
    /// when `index` is at or past the number of sub-goals. The returned
    /// goal owns its own reference-count increment, so its lifetime is
    /// fully independent of this result's.
    pub fn get(&self, ctx: &mut Context, index: usize) -> (r: Option<Goal>)
        requires
            result_live(old(ctx)@, self@),
            result_extractable(old(ctx)@, self@),
        ensures
            (r matches Some(g) ==> index < old(ctx)@.results[self@].subgoals.len() && g@ == old(
                ctx,
            )@.results[self@].subgoals[index as int] && final(ctx)@ == goal_retained(
                old(ctx)@,
                g@,
            ) && crate::context::goal_live(final(ctx)@, g@)),
            (r is None ==> index >= old(ctx)@.results[self@].subgoals.len() && final(ctx)@ == old(
                ctx,
            )@),
    {
        if index >= ctx.apply_result_num_subgoals(self.handle) {
            return None;
        }
        let gh = ctx.apply_result_subgoal(self.handle, index);
        Some(Goal::new(ctx, gh))
    }

    /// The whole result as one formula: the disjunction of the flattenings
    /// of its sub-goals in index order, associated to the left, or the
    /// boolean constant `false` when there is no sub-goal. Disjunction is
    /// deliberate: the sub-goals are alternative sub-problems, any one of
    /// which being satisfiable implies the original was. The context is
    /// left exactly as it was: each sub-goal is wrapped and released again.
    pub fn as_expr(&self, ctx: &mut Context) -> (r: Bool)
        requires
            result_live(old(ctx)@, self@),
            result_extractable(old(ctx)@, self@),
        ensures
            final(ctx)@ == old(ctx)@,
            r == or_all(subgoal_exprs(old(ctx)@, self@)),
    {
        let ghost c0 = ctx@;
        let ghost exprs = subgoal_exprs(c0, self@);
        let n = ctx.apply_result_num_subgoals(self.handle);
        if n == 0 {
            proof {
                assert(exprs.len() == 0);
            }
            return Bool::Const(false);
        }
        let mut expr = self.subgoal_expr(ctx, 0);
        let mut i: usize = 1;
        proof {
            assert(exprs.subrange(0, 1) =~= seq![exprs[0]]);
        }
        while i < n
            invariant
                1 <= i <= n,
                ctx@ == c0,
                result_live(c0, self@),
                result_extractable(c0, self@),
                n == c0.results[self@].subgoals.len(),
                exprs == subgoal_exprs(c0, self@),
                expr == or_all(exprs.subrange(0, i as int)),
            decreases n - i,
        {
            let next = self.subgoal_expr(ctx, i);
            proof {
                let pre = exprs.subrange(0, i as int);
                assert(exprs.subrange(0, i as int + 1) =~= pre.push(exprs[i as int]));
                crate::ast::lemma_or_all_push(pre, exprs[i as int]);
            }
            expr = Bool::Or(Box::new(expr), Box::new(next));
            i = i + 1;
        }
        proof {
            assert(exprs.subrange(0, exprs.len() as int) =~= exprs);
        }
        expr
    }

    /// The flattening of the sub-goal at position `index`: wraps it as a
    /// goal of its own, flattens it, and releases the wrapper again, so the
    /// context comes back unchanged.
    fn subgoal_expr(&self, ctx: &mut Context, index: usize) -> (e: Bool)
        requires
            result_live(old(ctx)@, self@),
            result_extractable(old(ctx)@, self@),
            index < old(ctx)@.results[self@].subgoals.len(),
        ensures
            final(ctx)@ == old(ctx)@,
            e == subgoal_exprs(old(ctx)@, self@)[index as int],
    {
        let ghost c0 = ctx@;
        let gh = ctx.apply_result_subgoal(self.handle, index);
        let g = Goal::new(ctx, gh);
        let e = g.as_expr(ctx);
        g.release(ctx);
        proof {
            lemma_goal_retain_release(c0, gh as int);
            assert(ctx@ == goal_released(goal_retained(c0, gh as int), gh as int));
            assert(goal_retained(c0, gh as int).goals[gh as int].formulas == c0.goals[gh
                as int].formulas);
        }
        e
    }

    /// Gives back the one reference-count increment this wrapper owns. Must
    /// be called exactly once, when the result is no longer needed.
    pub fn release(self, ctx: &mut Context)
        requires
            result_live(old(ctx)@, self@),
        ensures
            final(ctx)@ == result_released(old(ctx)@, self@),
    {
        ctx.apply_result_dec_ref(self.handle);
    }

    /// The handle of the underlying apply-result object.
    pub fn handle(&self) -> (h: usize)
        ensures
            h as int == self@,
    {
        self.handle
    }
}

} // verus!
