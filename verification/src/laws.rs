//! The laws of the layer, stated and proved once over the abstract view.

use vstd::prelude::*;
use crate::ast::Bool;
use crate::ast::and_all;
use crate::context::ContextView;
use crate::context::goal_asserted;
use crate::context::goal_created;
use crate::context::goal_live;
use crate::context::goal_released;
use crate::context::goal_retained;
use crate::context::result_released;
use crate::context::result_retained;
use crate::context::tactic_released;
use crate::context::tactic_retained;

verus! {

/// Law (reference-count discipline): taking one more owner of a goal and
/// then giving that owner up returns the context to exactly its previous
/// state — no reference count, formula, or other object is left disturbed.
pub proof fn lemma_goal_retain_release(c: ContextView, h: int)
    requires
        0 <= h < c.goals.len(),
    ensures
        goal_released(goal_retained(c, h), h) == c,
{
    assert(goal_released(goal_retained(c, h), h).goals =~= c.goals);
    assert(goal_released(goal_retained(c, h), h) =~= c);
}

/// Law (reference-count discipline): the same cancellation for a tactic
/// owner.
pub proof fn lemma_tactic_retain_release(c: ContextView, h: int)
    requires
        0 <= h < c.tactics.len(),
    ensures
        tactic_released(tactic_retained(c, h), h) == c,
{
    assert(tactic_released(tactic_retained(c, h), h).tactics =~= c.tactics);
    assert(tactic_released(tactic_retained(c, h), h) =~= c);
}

/// Law (reference-count discipline): the same cancellation for an
/// apply-result owner.
pub proof fn lemma_result_retain_release(c: ContextView, h: int)
    requires
        0 <= h < c.results.len(),
    ensures
        result_released(result_retained(c, h), h) == c,
{
    assert(result_released(result_retained(c, h), h).results =~= c.results);
    assert(result_released(result_retained(c, h), h) =~= c);
}

/// `n` further owners of the goal `h`, taken one after the other.
pub open spec fn goal_retained_n(c: ContextView, h: int, n: nat) -> ContextView
    decreases n,
{
    if n == 0 {
        c
    } else {
        goal_retained(goal_retained_n(c, h, (n - 1) as nat), h)
    }
}

/// `n` owners of the goal `h` given up, one after the other.
pub open spec fn goal_released_n(c: ContextView, h: int, n: nat) -> ContextView
    decreases n,
{
    if n == 0 {
        c
    } else {
        goal_released_n(goal_released(c, h), h, (n - 1) as nat)
    }
}

/// Taking owners never changes how many goal objects there are.
pub proof fn lemma_goal_retained_n_len(c: ContextView, h: int, n: nat)
    requires
        0 <= h < c.goals.len(),
    ensures
        goal_retained_n(c, h, n).goals.len() == c.goals.len(),
    decreases n,
{
    if n > 0 {
        let m = (n - 1) as nat;
        lemma_goal_retained_n_len(c, h, m);
        assert(goal_retained_n(c, h, n) == goal_retained(goal_retained_n(c, h, m), h));
        assert(goal_retained(goal_retained_n(c, h, m), h).goals.len() == goal_retained_n(
            c,
            h,
            m,
        ).goals.len());
    } else {
        assert(goal_retained_n(c, h, n) == c);
    }
}

/// Law (reference-count discipline, general form): however many owners of
/// one goal object are created, giving each of them up again leaves the
/// engine state exactly as it was — wrapper constructions and destructions
/// cancel in pairs, for any number of wrappers of the same handle.
pub proof fn lemma_goal_shares_balanced(c: ContextView, h: int, n: nat)
    requires
        0 <= h < c.goals.len(),
    ensures
        goal_released_n(goal_retained_n(c, h, n), h, n) == c,
    decreases n,
{
    if n > 0 {
        let m = (n - 1) as nat;
        lemma_goal_retained_n_len(c, h, m);
        lemma_goal_retain_release(goal_retained_n(c, h, m), h);
        lemma_goal_shares_balanced(c, h, m);
    }
}

/// The formulas of `fs` asserted onto the goal `h`, first to last.
pub open spec fn goal_asserted_all(c: ContextView, h: int, fs: Seq<Bool>) -> ContextView
    decreases fs.len(),
{
    if fs.len() == 0 {
        c
    } else {
        goal_asserted(goal_asserted_all(c, h, fs.drop_last()), h, fs.last())
    }
}

/// Law: a run of assertions appends exactly the asserted formulas, in
/// order, to the asserted goal, and touches nothing else in the context.
pub proof fn lemma_assert_run(c: ContextView, h: int, fs: Seq<Bool>)
    requires
        0 <= h < c.goals.len(),
    ensures
        goal_asserted_all(c, h, fs).goals.len() == c.goals.len(),
        goal_asserted_all(c, h, fs).goals[h].formulas == c.goals[h].formulas + fs,
        goal_asserted_all(c, h, fs).goals[h].rc == c.goals[h].rc,
        forall|i: int|
            0 <= i < c.goals.len() && i != h ==> goal_asserted_all(c, h, fs).goals[i] == c.goals[i],
        goal_asserted_all(c, h, fs).tactics == c.tactics,
        goal_asserted_all(c, h, fs).results == c.results,
        goal_asserted_all(c, h, fs).registered == c.registered,
    decreases fs.len(),
{
    if fs.len() == 0 {
        assert(c.goals[h].formulas + fs =~= c.goals[h].formulas);
    } else {
        lemma_assert_run(c, h, fs.drop_last());
        assert(c.goals[h].formulas + fs =~= (c.goals[h].formulas + fs.drop_last()).push(
            fs.last(),
        ));
    }
}

/// Law: asserting `f_1 .. f_n` on a fresh empty goal leaves the goal
/// holding exactly those `n` formulas — its length is `n`, position `i`
/// holds `f_{i+1}`, and any position at or past `n` is out of range.
pub proof fn lemma_fresh_goal_assert_run(
    c: ContextView,
    models: bool,
    unsat_cores: bool,
    proofs: bool,
    fs: Seq<Bool>,
)
    ensures
        ({
            let h = c.goals.len() as int;
            let c1 = goal_retained(goal_created(c, models, unsat_cores, proofs), h);
            goal_asserted_all(c1, h, fs).goals[h].formulas == fs
        }),
{
    let h = c.goals.len() as int;
    let c1 = goal_retained(goal_created(c, models, unsat_cores, proofs), h);
    lemma_assert_run(c1, h, fs);
    assert(c1.goals[h].formulas =~= Seq::<Bool>::empty());
    assert(Seq::<Bool>::empty() + fs =~= fs);
}

/// Law (round trip): wrapping one formula into a goal and flattening the
/// goal back into a formula yields exactly that formula.
pub proof fn lemma_single_formula_round_trip(c: ContextView, f: Bool)
    ensures
        ({
            let h = c.goals.len() as int;
            let c1 = goal_asserted(
                goal_retained(goal_created(c, true, false, false), h),
                h,
                f,
            );
            and_all(c1.goals[h].formulas) == f
        }),
{
    let h = c.goals.len() as int;
    let c1 = goal_asserted(goal_retained(goal_created(c, true, false, false), h), h, f);
    assert(c1.goals[h].formulas =~= Seq::<Bool>::empty().push(f));
    assert(and_all(c1.goals[h].formulas) == f);
}

/// Law (independence): giving up an owner of an apply-result touches no
/// goal object at all, so a goal extracted from the result stays live, with
/// its formulas intact, after the result is gone.
pub proof fn lemma_subgoal_survives_result_release(c: ContextView, rh: int, gh: int)
    requires
        goal_live(c, gh),
    ensures
        result_released(c, rh).goals == c.goals,
        goal_live(result_released(c, rh), gh),
{
}

/// Law (independence): giving up an owner of one goal leaves every other
/// goal object untouched.
pub proof fn lemma_release_preserves_other_goals(c: ContextView, h: int, other: int)
    requires
        0 <= h < c.goals.len(),
        0 <= other < c.goals.len(),
        other != h,
    ensures
        goal_released(c, h).goals[other] == c.goals[other],
{
}

} // verus!
