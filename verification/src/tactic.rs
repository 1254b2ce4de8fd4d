//! Tactics: owned, reference-counted handles to named proof strategies.

use vstd::prelude::*;
use crate::apply_result::ApplyResult;
use crate::context::Context;
use crate::context::apply_performed;
use crate::context::goal_live;
use crate::context::no_nul;
use crate::context::result_extractable;
use crate::context::result_live;
use crate::context::result_retained;
use crate::context::tactic_created;
use crate::context::tactic_known;
use crate::context::tactic_live;
use crate::context::tactic_retained;
use crate::context::tactic_released;
use crate::goal::Goal;

verus! {

/// An owned handle to a tactic object of the engine, looked up by its
/// registered name. The wrapper owns exactly one increment of the object's
/// reference count, taken at construction and given back by `release`.
pub struct Tactic {
    handle: usize,
}

impl View for Tactic {
    type V = int;

    closed spec fn view(&self) -> int {
        self.handle as int
    }
}

impl Tactic {
    /// A fresh owner of the tactic object `h`: takes one increment of its
    /// reference count.
    pub(crate) fn new(ctx: &mut Context, h: usize) -> (t: Tactic)
        requires
            h < old(ctx)@.tactics.len(),
            old(ctx)@.tactics[h as int].rc < u64::MAX,
        ensures
            t@ == h as int,
            final(ctx)@ == tactic_retained(old(ctx)@, h as int),
            tactic_live(final(ctx)@, t@),
    {
        ctx.tactic_inc_ref(h);
        Tactic { handle: h }
    }

    /// Looks a tactic up by name. An unknown name is a normal outcome and
    /// yields nothing; a known name yields a freshly owned tactic. The name
    /// must not contain an embedded null character: the engine takes
    /// null-terminated text, so such a name would violate its contract.
    pub fn from_name(ctx: &mut Context, name: &str) -> (r: Option<Tactic>)
        requires
            no_nul(name@),
        ensures
            (r matches Some(t) ==> tactic_known(old(ctx)@, name@) && t@ == old(
                ctx,
            )@.tactics.len() && final(ctx)@ == tactic_retained(
                tactic_created(old(ctx)@, name@),
                old(ctx)@.tactics.len() as int,
            ) && tactic_live(final(ctx)@, t@)),
            (r is None ==> !tactic_known(old(ctx)@, name@) && final(ctx)@ == old(ctx)@),
    {
        match ctx.mk_tactic(name) {
            Some(h) => Some(Tactic::new(ctx, h)),
            None => None,
        }
    }

    /// Runs this tactic against `goal`, yielding a freshly owned result
    /// that holds the produced sub-goals. The goal itself is unaffected:
    /// the engine allocates new objects for the sub-goals.
    pub fn apply(&self, ctx: &mut Context, goal: &Goal) -> (r: ApplyResult)
        requires
            tactic_live(old(ctx)@, self@),
            goal_live(old(ctx)@, goal@),
        ensures
            r@ == old(ctx)@.results.len(),
            final(ctx)@ == result_retained(
                apply_performed(old(ctx)@, self@, goal@),
                old(ctx)@.results.len() as int,
            ),
            result_live(final(ctx)@, r@),
            result_extractable(final(ctx)@, r@),
            final(ctx)@.goals[goal@] == old(ctx)@.goals[goal@],
    {
        let gh = goal.handle();
        let rh = ctx.tactic_apply(self.handle, gh);
        let r = ApplyResult::new(ctx, rh);
        proof {
            let c = old(ctx)@;
            let c1 = apply_performed(c, self@, goal@);
            assert(c1.results[rh as int].rc == 0);
            assert forall|j: int|
                0 <= j < ctx@.results[r@].subgoals.len() implies crate::context::goal_retainable(
                ctx@,
                #[trigger] ctx@.results[r@].subgoals[j],
            ) by {
                assert(ctx@.results[r@].subgoals[j] == c.goals.len() + j);
                assert(ctx@.goals[c.goals.len() + j].rc == 0);
            }
        }
        r
    }

    /// Gives back the one reference-count increment this wrapper owns. Must
    /// be called exactly once, when the tactic is no longer needed.
    pub fn release(self, ctx: &mut Context)
        requires
            tactic_live(old(ctx)@, self@),
        ensures
            final(ctx)@ == tactic_released(old(ctx)@, self@),
    {
        ctx.tactic_dec_ref(self.handle);
    }

    /// The handle of the underlying tactic object.
    pub fn handle(&self) -> (h: usize)
        ensures
            h as int == self@,
    {
        self.handle
    }
}

} // verus!
