//! Goals: owned, reference-counted handles to conjunction containers.

use vstd::prelude::*;
use crate::ast::Bool;
use crate::ast::and_all;
use crate::context::Context;
use crate::context::goal_asserted;
use crate::context::goal_created;
use crate::context::goal_live;
use crate::context::goal_released;
use crate::context::goal_retainable;
use crate::context::goal_retained;

verus! {

/// An owned handle to a goal object of the engine: a container of boolean
/// formulas, understood as their conjunction, that grows by assertion and
/// never shrinks. The wrapper owns exactly one increment of the object's
/// reference count, taken at construction and given back by `release`.
pub struct Goal {
    handle: usize,
}

impl View for Goal {
    type V = int;

    closed spec fn view(&self) -> int {
        self.handle as int
    }
}

impl Goal {
    /// A fresh owner of the goal object `h`: takes one increment of its
    /// reference count.
    pub(crate) fn new(ctx: &mut Context, h: usize) -> (g: Goal)
        requires
            goal_retainable(old(ctx)@, h as int),
        ensures
            g@ == h as int,
            final(ctx)@ == goal_retained(old(ctx)@, h as int),
            goal_live(final(ctx)@, g@),
    {
        ctx.goal_inc_ref(h);
        Goal { handle: h }
    }

    /// An empty goal with the baseline capability flags: models on, unsat
    /// cores and proof production off.
    pub fn empty(ctx: &mut Context) -> (g: Goal)
        ensures
            g@ == old(ctx)@.goals.len(),
            final(ctx)@ == goal_retained(
                goal_created(old(ctx)@, true, false, false),
                old(ctx)@.goals.len() as int,
            ),
            goal_live(final(ctx)@, g@),
            final(ctx)@.goals[g@].formulas == Seq::<Bool>::empty(),
    {
        Goal::emtpy_ex(ctx, true, false, false)
    }

    /// An empty goal with the three capability flags chosen by the caller.
    pub fn emtpy_ex(ctx: &mut Context, models: bool, unsat_cores: bool, proofs: bool) -> (g: Goal)
        ensures
            g@ == old(ctx)@.goals.len(),
            final(ctx)@ == goal_retained(
                goal_created(old(ctx)@, models, unsat_cores, proofs),
                old(ctx)@.goals.len() as int,
            ),
            goal_live(final(ctx)@, g@),
            final(ctx)@.goals[g@].formulas == Seq::<Bool>::empty(),
            final(ctx)@.goals[g@].models == models,
            final(ctx)@.goals[g@].unsat_cores == unsat_cores,
            final(ctx)@.goals[g@].proofs == proofs,
    {
        let h = ctx.mk_goal(models, unsat_cores, proofs);
        Goal::new(ctx, h)
    }

    /// Appends the formula `f` to this goal. Asserting the same formula
    /// twice appends it twice: the goal accumulates a conjunction and does
    /// not deduplicate.
    pub fn assert_formula(&self, ctx: &mut Context, f: &Bool)
        requires
            goal_live(old(ctx)@, self@),
        ensures
            final(ctx)@ == goal_asserted(old(ctx)@, self@, *f),
    {
        ctx.goal_assert(self.handle, f);
    }

    /// How many formulas have been asserted so far.
    pub fn len(&self, ctx: &Context) -> (n: usize)
        requires
            goal_live(ctx@, self@),
        ensures
            n == ctx@.goals[self@].formulas.len(),
    {
        ctx.goal_size(self.handle)
    }

    /// Whether no formula has been asserted yet.
    pub fn is_empty(&self, ctx: &Context) -> (b: bool)
        requires
            goal_live(ctx@, self@),
        ensures
            b == (ctx@.goals[self@].formulas.len() == 0),
    {
        self.len(ctx) == 0
    }

    /// The formula at position `index`, or nothing when `index` is at or
    /// past the number of asserted formulas.
    pub fn get(&self, ctx: &Context, index: usize) -> (r: Option<Bool>)
        requires
            goal_live(ctx@, self@),
        ensures
            r == (if index < ctx@.goals[self@].formulas.len() {
                Some(ctx@.goals[self@].formulas[index as int])
            } else {
                None::<Bool>
            }),
    {
        if index >= self.len(ctx) {
            return None;
        }
        Some(ctx.goal_formula(self.handle, index))
    }

    /// The whole goal as one formula: the conjunction of all asserted
    /// formulas in index order, associated to the left, or the boolean
    /// constant `true` when the goal is empty.
    pub fn as_expr(&self, ctx: &Context) -> (r: Bool)
        requires
            goal_live(ctx@, self@),
        ensures
            r == and_all(ctx@.goals[self@].formulas),
    {
        ctx.goal_as_expr(self.handle)
    }

    /// Wraps a single formula: an empty goal with the baseline flags and
    /// `f` as its one asserted formula.
    pub fn from_formula(ctx: &mut Context, f: &Bool) -> (g: Goal)
        ensures
            g@ == old(ctx)@.goals.len(),
            final(ctx)@ == goal_asserted(
                goal_retained(
                    goal_created(old(ctx)@, true, false, false),
                    old(ctx)@.goals.len() as int,
                ),
                old(ctx)@.goals.len() as int,
                *f,
            ),
            goal_live(final(ctx)@, g@),
            final(ctx)@.goals[g@].formulas == seq![*f],
    {
        let g = Goal::empty(ctx);
        g.assert_formula(ctx, f);
        proof {
            assert(ctx@.goals[g@].formulas =~= seq![*f]);
        }
        g
    }

    /// Gives back the one reference-count increment this wrapper owns. Must
    /// be called exactly once, when the goal is no longer needed.
    pub fn release(self, ctx: &mut Context)
        requires
            goal_live(old(ctx)@, self@),
        ensures
            final(ctx)@ == goal_released(old(ctx)@, self@),
    {
        ctx.goal_dec_ref(self.handle);
    }

    /// The handle of the underlying goal object.
    pub fn handle(&self) -> (h: usize)
        ensures
            h as int == self@,
    {
        self.handle
    }
}

} // verus!
