//! The engine context: owner of all engine-side state.
//!
//! The engine behind this layer is reached only through reference-counted
//! handles, and its thread-safety contract demands that no two engine
//! operations run concurrently. The context holds the engine state as plain
//! verified data — tables of goal, tactic and apply-result objects, each with
//! its reference count — and every operation takes the context by exclusive
//! borrow, which totally orders all engine transitions at compile time: the
//! serialization point is the borrow itself, so no runtime lock is needed and
//! none can be left corrupted.
//!
//! The engine's own proof search is outside this layer. The context stands in
//! for it with three registered strategies, enough to exercise every shape of
//! application outcome: `skip` returns the goal unchanged as its single
//! sub-goal, `solve` closes the goal and returns no sub-goal, and `split-or`
//! case-splits the goal's leading disjunction into one sub-goal per disjunct.
//!
//! Each transition of the context is mirrored by a spec function over
//! `ContextView`, so that contracts compose and the laws of the layer (paired
//! retain/release leaving every count balanced, release of a result leaving
//! extracted goals intact) can be stated and proved once over the view.

use vstd::prelude::*;
use crate::ast::Bool;
use crate::ast::and_all;

verus! {

// ---------------------------------------------------------------------------
// Abstract views
// ---------------------------------------------------------------------------

/// Abstract state of one goal object: its reference count, the formulas
/// asserted so far in order, and the three capability flags it was created
/// with.
#[verifier::ext_equal]
pub struct GoalView {
    pub rc: nat,
    pub formulas: Seq<Bool>,
    pub models: bool,
    pub unsat_cores: bool,
    pub proofs: bool,
}

/// Abstract state of one tactic object: its reference count and the name it
/// was looked up under.
#[verifier::ext_equal]
pub struct TacticView {
    pub rc: nat,
    pub name: Seq<char>,
}

/// Abstract state of one apply-result object: its reference count and the
/// handles of the sub-goals it holds, in order.
#[verifier::ext_equal]
pub struct ApplyResultView {
    pub rc: nat,
    pub subgoals: Seq<int>,
}

/// Abstract state of a whole context: the three object tables, indexed by
/// handle, and the names of the strategies the engine knows.
#[verifier::ext_equal]
pub struct ContextView {
    pub goals: Seq<GoalView>,
    pub tactics: Seq<TacticView>,
    pub results: Seq<ApplyResultView>,
    pub registered: Seq<Seq<char>>,
}

/// A goal handle that a wrapper may operate through: in range, with at least
/// the one reference the wrapper owns.
pub open spec fn goal_live(c: ContextView, h: int) -> bool {
    0 <= h < c.goals.len() && c.goals[h].rc >= 1
}

/// A tactic handle that a wrapper may operate through.
pub open spec fn tactic_live(c: ContextView, h: int) -> bool {
    0 <= h < c.tactics.len() && c.tactics[h].rc >= 1
}

/// An apply-result handle that a wrapper may operate through.
pub open spec fn result_live(c: ContextView, h: int) -> bool {
    0 <= h < c.results.len() && c.results[h].rc >= 1
}

/// A goal handle whose reference count can still take one more owner.
pub open spec fn goal_retainable(c: ContextView, h: int) -> bool {
    0 <= h < c.goals.len() && c.goals[h].rc < u64::MAX
}

/// Every sub-goal handle of the result `rh` is in range and can take one more
/// owner, so each sub-goal can be wrapped as a goal of its own.
pub open spec fn result_extractable(c: ContextView, rh: int) -> bool {
    forall|j: int|
        0 <= j < c.results[rh].subgoals.len() ==> goal_retainable(
            c,
            #[trigger] c.results[rh].subgoals[j],
        )
}

/// The name `s` has no embedded null character, as the engine requires of
/// every name handed to it.
pub open spec fn no_nul(s: Seq<char>) -> bool {
    forall|i: int| 0 <= i < s.len() ==> s[i] != '\0'
}

/// The engine knows a strategy under the name `name`.
pub open spec fn tactic_known(c: ContextView, name: Seq<char>) -> bool {
    exists|i: int| 0 <= i < c.registered.len() && c.registered[i] == name
}

// ---------------------------------------------------------------------------
// Transitions over the view
// ---------------------------------------------------------------------------

/// The state of a fresh context: empty object tables, with the three
/// strategies of the engine registered.
pub open spec fn initial_context() -> ContextView {
    ContextView {
        goals: Seq::empty(),
        tactics: Seq::empty(),
        results: Seq::empty(),
        registered: seq!["skip"@, "solve"@, "split-or"@],
    }
}

/// One more owner of the goal `h`.
pub open spec fn goal_retained(c: ContextView, h: int) -> ContextView {
    ContextView {
        goals: c.goals.update(h, GoalView { rc: c.goals[h].rc + 1, ..c.goals[h] }),
        ..c
    }
}

/// One owner of the goal `h` gone.
pub open spec fn goal_released(c: ContextView, h: int) -> ContextView {
    ContextView {
        goals: c.goals.update(h, GoalView { rc: (c.goals[h].rc - 1) as nat, ..c.goals[h] }),
        ..c
    }
}

/// A fresh goal object with the given capability flags, no formulas, and no
/// owner yet; its handle is `c.goals.len()`.
pub open spec fn goal_created(
    c: ContextView,
    models: bool,
    unsat_cores: bool,
    proofs: bool,
) -> ContextView {
    ContextView {
        goals: c.goals.push(
            GoalView { rc: 0, formulas: Seq::empty(), models, unsat_cores, proofs },
        ),
        ..c
    }
}

/// The formula `f` appended to the goal `h`.
pub open spec fn goal_asserted(c: ContextView, h: int, f: Bool) -> ContextView {
    ContextView {
        goals: c.goals.update(h, GoalView { formulas: c.goals[h].formulas.push(f), ..c.goals[h] }),
        ..c
    }
}

/// A fresh tactic object under the name `name`, with no owner yet; its handle
/// is `c.tactics.len()`.
pub open spec fn tactic_created(c: ContextView, name: Seq<char>) -> ContextView {
    ContextView { tactics: c.tactics.push(TacticView { rc: 0, name }), ..c }
}

/// One more owner of the tactic `h`.
pub open spec fn tactic_retained(c: ContextView, h: int) -> ContextView {
    ContextView {
        tactics: c.tactics.update(h, TacticView { rc: c.tactics[h].rc + 1, ..c.tactics[h] }),
        ..c
    }
}

/// One owner of the tactic `h` gone.
pub open spec fn tactic_released(c: ContextView, h: int) -> ContextView {
    ContextView {
        tactics: c.tactics.update(h, TacticView { rc: (c.tactics[h].rc - 1) as nat, ..c.tactics[h] }),
        ..c
    }
}

/// One more owner of the apply-result `h`.
pub open spec fn result_retained(c: ContextView, h: int) -> ContextView {
    ContextView {
        results: c.results.update(h, ApplyResultView { rc: c.results[h].rc + 1, ..c.results[h] }),
        ..c
    }
}

/// One owner of the apply-result `h` gone.
pub open spec fn result_released(c: ContextView, h: int) -> ContextView {
    ContextView {
        results: c.results.update(
            h,
            ApplyResultView { rc: (c.results[h].rc - 1) as nat, ..c.results[h] },
        ),
        ..c
    }
}

/// The formula lists of the sub-goals that applying the tactic `th` to the
/// goal `gh` produces: the unchanged goal for `skip`, nothing for `solve`,
/// and one case per disjunct of a leading disjunction for `split-or` (the
/// unchanged goal when there is none).
pub open spec fn apply_subgoals(c: ContextView, th: int, gh: int) -> Seq<Seq<Bool>> {
    let name = c.tactics[th].name;
    let fs = c.goals[gh].formulas;
    if name == "skip"@ {
        seq![fs]
    } else if name == "solve"@ {
        Seq::empty()
    } else if name == "split-or"@ {
        if fs.len() == 0 {
            seq![fs]
        } else {
            match fs[0] {
                Bool::Or(a, b) => seq![
                    seq![*a] + fs.drop_first(),
                    seq![*b] + fs.drop_first(),
                ],
                _ => seq![fs],
            }
        }
    } else {
        Seq::empty()
    }
}

/// The tactic `th` applied to the goal `gh`: one fresh goal object per
/// produced sub-goal, each with the source goal's flags and no owner yet, and
/// a fresh apply-result object holding their handles in order, itself with no
/// owner yet; its handle is `c.results.len()`. The source goal is untouched.
pub open spec fn apply_performed(c: ContextView, th: int, gh: int) -> ContextView {
    let subs = apply_subgoals(c, th, gh);
    ContextView {
        goals: c.goals + Seq::new(
            subs.len(),
            |i: int| GoalView { rc: 0, formulas: subs[i], ..c.goals[gh] },
        ),
        results: c.results.push(
            ApplyResultView {
                rc: 0,
                subgoals: Seq::new(subs.len(), |i: int| c.goals.len() + i),
            },
        ),
        ..c
    }
}

/// The flattenings of the sub-goals of the apply-result `rh`: for each
/// sub-goal handle in order, the left-associated conjunction of that
/// sub-goal's formulas.
pub open spec fn subgoal_exprs(c: ContextView, rh: int) -> Seq<Bool> {
    c.results[rh].subgoals.map_values(|h: int| and_all(c.goals[h].formulas))
}

// ---------------------------------------------------------------------------
// Executable state
// ---------------------------------------------------------------------------

struct GoalObj {
    rc: u64,
    formulas: Vec<Bool>,
    models: bool,
    unsat_cores: bool,
    proofs: bool,
}

impl View for GoalObj {
    type V = GoalView;

    closed spec fn view(&self) -> GoalView {
        GoalView {
            rc: self.rc as nat,
            formulas: self.formulas@,
            models: self.models,
            unsat_cores: self.unsat_cores,
            proofs: self.proofs,
        }
    }
}

struct TacticObj {
    rc: u64,
    name: String,
}

impl View for TacticObj {
    type V = TacticView;

    closed spec fn view(&self) -> TacticView {
        TacticView { rc: self.rc as nat, name: self.name@ }
    }
}

struct ResultObj {
    rc: u64,
    subgoals: Vec<usize>,
}

impl View for ResultObj {
    type V = ApplyResultView;

    closed spec fn view(&self) -> ApplyResultView {
        ApplyResultView {
            rc: self.rc as nat,
            subgoals: self.subgoals@.map_values(|h: usize| h as int),
        }
    }
}

/// The owner of all engine state. Every handle of this layer is meaningful
/// only together with the context that created it, and every operation takes
/// the context it was given, so the exclusive borrow serializes all engine
/// transitions.
pub struct Context {
    goals: Vec<GoalObj>,
    tactics: Vec<TacticObj>,
    results: Vec<ResultObj>,
    registered: Vec<String>,
}

impl View for Context {
    type V = ContextView;

    closed spec fn view(&self) -> ContextView {
        ContextView {
            goals: self.goals@.map_values(|g: GoalObj| g@),
            tactics: self.tactics@.map_values(|t: TacticObj| t@),
            results: self.results@.map_values(|r: ResultObj| r@),
            registered: self.registered@.map_values(|s: String| s@),
        }
    }
}

/// A mutable borrow of one element, with the update it will have made
/// reflected in the vector.
fn at_mut<T>(v: &mut Vec<T>, i: usize) -> (element: &mut T)
    requires
        i < old(v).len(),
    ensures
        *element == old(v)@[i as int],
        final(v)@ == old(v)@.update(i as int, *final(element)),
{
    &mut v[i]
}

/// A fresh copy of a formula vector.
fn clone_formulas(v: &Vec<Bool>) -> (r: Vec<Bool>)
    ensures
        r@ == v@,
{
    let mut r: Vec<Bool> = Vec::new();
    let mut i: usize = 0;
    while i < v.len()
        invariant
            i <= v.len(),
            r@ == v@.subrange(0, i as int),
        decreases v.len() - i,
    {
        r.push(v[i].clone());
        proof {
            assert(v@.subrange(0, i as int + 1) =~= v@.subrange(0, i as int).push(v@[i as int]));
        }
        i = i + 1;
    }
    proof {
        assert(v@.subrange(0, v@.len() as int) =~= v@);
    }
    r
}

impl Context {
    /// A fresh context: no objects yet, and the engine's three strategies
    /// registered.
    pub fn new() -> (ctx: Context)
        ensures
            ctx@ == initial_context(),
    {
        let mut registered: Vec<String> = Vec::new();
        registered.push("skip".to_owned());
        registered.push("solve".to_owned());
        registered.push("split-or".to_owned());
        let ctx = Context {
            goals: Vec::new(),
            tactics: Vec::new(),
            results: Vec::new(),
            registered,
        };
        proof {
            assert(ctx@.registered =~= initial_context().registered);
            assert(ctx@.goals =~= initial_context().goals);
            assert(ctx@.tactics =~= initial_context().tactics);
            assert(ctx@.results =~= initial_context().results);
            assert(ctx@ =~= initial_context());
        }
        ctx
    }

    /// The reference count the engine holds for the goal `h`; exposed so
    /// that the retain/release discipline can be observed from outside.
    pub fn goal_ref_count(&self, h: usize) -> (rc: u64)
        requires
            h < self@.goals.len(),
        ensures
            rc == self@.goals[h as int].rc,
    {
        self.goals[h].rc
    }

    /// One more owner of the goal `h`.
    pub(crate) fn goal_inc_ref(&mut self, h: usize)
        requires
            goal_retainable(old(self)@, h as int),
        ensures
            final(self)@ == goal_retained(old(self)@, h as int),
    {
        let g = at_mut(&mut self.goals, h);
        g.rc = g.rc + 1;
        proof {
            assert(self@.goals =~= goal_retained(old(self)@, h as int).goals);
            assert(self@ =~= goal_retained(old(self)@, h as int));
        }
    }

    /// One owner of the goal `h` gone.
    pub(crate) fn goal_dec_ref(&mut self, h: usize)
        requires
            h < old(self)@.goals.len(),
            old(self)@.goals[h as int].rc >= 1,
        ensures
            final(self)@ == goal_released(old(self)@, h as int),
    {
        let g = at_mut(&mut self.goals, h);
        g.rc = g.rc - 1;
        proof {
            assert(self@.goals =~= goal_released(old(self)@, h as int).goals);
            assert(self@ =~= goal_released(old(self)@, h as int));
        }
    }

    /// A fresh goal object with the given capability flags and no owner yet.
    pub(crate) fn mk_goal(&mut self, models: bool, unsat_cores: bool, proofs: bool) -> (h: usize)
        ensures
            h == old(self)@.goals.len(),
            final(self)@ == goal_created(old(self)@, models, unsat_cores, proofs),
    {
        let h = self.goals.len();
        self.goals.push(
            GoalObj { rc: 0, formulas: Vec::new(), models, unsat_cores, proofs },
        );
        proof {
            assert(self@.goals =~= goal_created(old(self)@, models, unsat_cores, proofs).goals);
            assert(self@ =~= goal_created(old(self)@, models, unsat_cores, proofs));
        }
        h
    }

    /// The formula `f` appended to the goal `h`.
    pub(crate) fn goal_assert(&mut self, h: usize, f: &Bool)
        requires
            h < old(self)@.goals.len(),
        ensures
            final(self)@ == goal_asserted(old(self)@, h as int, *f),
    {
        let g = at_mut(&mut self.goals, h);
        g.formulas.push(f.clone());
        proof {
            assert(self@.goals =~= goal_asserted(old(self)@, h as int, *f).goals);
            assert(self@ =~= goal_asserted(old(self)@, h as int, *f));
        }
    }

    /// How many formulas the goal `h` holds.
    pub(crate) fn goal_size(&self, h: usize) -> (n: usize)
        requires
            h < self@.goals.len(),
        ensures
            n == self@.goals[h as int].formulas.len(),
    {
        self.goals[h].formulas.len()
    }

    /// The formula of the goal `h` at position `i`.
    pub(crate) fn goal_formula(&self, h: usize, i: usize) -> (f: Bool)
        requires
            h < self@.goals.len(),
            i < self@.goals[h as int].formulas.len(),
        ensures
            f == self@.goals[h as int].formulas[i as int],
    {
        self.goals[h].formulas[i].clone()
    }

    /// The flattening of the goal `h`: the left-associated conjunction of its
    /// formulas, the constant `true` when it has none.
    pub(crate) fn goal_as_expr(&self, h: usize) -> (r: Bool)
        requires
            h < self@.goals.len(),
        ensures
            r == and_all(self@.goals[h as int].formulas),
    {
        let fs = &self.goals[h].formulas;
        let ghost all = self@.goals[h as int].formulas;
        if fs.len() == 0 {
            proof {
                assert(and_all(all) == Bool::Const(true));
            }
            Bool::Const(true)
        } else {
            let mut expr = fs[0].clone();
            let mut i: usize = 1;
            proof {
                assert(all.subrange(0, 1) =~= seq![all[0]]);
            }
            while i < fs.len()
                invariant
                    1 <= i <= fs.len(),
                    fs@ == all,
                    expr == and_all(all.subrange(0, i as int)),
                decreases fs.len() - i,
            {
                let next = fs[i].clone();
                proof {
                    let pre = all.subrange(0, i as int);
                    assert(all.subrange(0, i as int + 1) =~= pre.push(all[i as int]));
                    crate::ast::lemma_and_all_push(pre, all[i as int]);
                }
                expr = Bool::And(Box::new(expr), Box::new(next));
                i = i + 1;
            }
            proof {
                assert(all.subrange(0, all.len() as int) =~= all);
            }
            expr
        }
    }

    /// A fresh tactic object when the engine knows the name, nothing
    /// otherwise.
    pub(crate) fn mk_tactic(&mut self, name: &str) -> (r: Option<usize>)
        ensures
            (r matches Some(h) ==> tactic_known(old(self)@, name@) && h == old(
                self,
            )@.tactics.len() && final(self)@ == tactic_created(old(self)@, name@)),
            (r is None ==> !tactic_known(old(self)@, name@) && final(self)@ == old(self)@),
    {
        let owned: String = name.to_owned();
        let mut i: usize = 0;
        let mut found = false;
        while i < self.registered.len()
            invariant
                i <= self.registered.len(),
                owned@ == name@,
                !found ==> forall|j: int|
                    0 <= j < i ==> self@.registered[j] != name@,
                found ==> tactic_known(self@, name@),
            decreases self.registered.len() - i,
        {
            if self.registered[i] == owned {
                proof {
                    assert(self@.registered[i as int] == name@);
                }
                found = true;
            }
            i = i + 1;
        }
        if found {
            let h = self.tactics.len();
            self.tactics.push(TacticObj { rc: 0, name: owned });
            proof {
                assert(self@.tactics =~= tactic_created(old(self)@, name@).tactics);
                assert(self@ =~= tactic_created(old(self)@, name@));
            }
            Some(h)
        } else {
            proof {
                assert(!tactic_known(self@, name@));
            }
            None
        }
    }

    /// One more owner of the tactic `h`.
    pub(crate) fn tactic_inc_ref(&mut self, h: usize)
        requires
            h < old(self)@.tactics.len(),
            old(self)@.tactics[h as int].rc < u64::MAX,
        ensures
            final(self)@ == tactic_retained(old(self)@, h as int),
    {
        let t = at_mut(&mut self.tactics, h);
        t.rc = t.rc + 1;
        proof {
            assert(self@.tactics =~= tactic_retained(old(self)@, h as int).tactics);
            assert(self@ =~= tactic_retained(old(self)@, h as int));
        }
    }

    /// One owner of the tactic `h` gone.
    pub(crate) fn tactic_dec_ref(&mut self, h: usize)
        requires
            h < old(self)@.tactics.len(),
            old(self)@.tactics[h as int].rc >= 1,
        ensures
            final(self)@ == tactic_released(old(self)@, h as int),
    {
        let t = at_mut(&mut self.tactics, h);
        t.rc = t.rc - 1;
        proof {
            assert(self@.tactics =~= tactic_released(old(self)@, h as int).tactics);
            assert(self@ =~= tactic_released(old(self)@, h as int));
        }
    }

    /// The tactic `th` run against the goal `gh`: the engine allocates the
    /// produced sub-goals and an apply-result object holding them.
    pub(crate) fn tactic_apply(&mut self, th: usize, gh: usize) -> (rh: usize)
        requires
            th < old(self)@.tactics.len(),
            gh < old(self)@.goals.len(),
        ensures
            rh == old(self)@.results.len(),
            final(self)@ == apply_performed(old(self)@, th as int, gh as int),
    {
        let ghost c = self@;
        let ghost target = apply_performed(c, th as int, gh as int);
        let is_skip = self.tactics[th].name == "skip".to_owned();
        let is_solve = self.tactics[th].name == "solve".to_owned();
        let is_split = self.tactics[th].name == "split-or".to_owned();
        proof {
            assert(c.tactics[th as int] == self.tactics@[th as int]@);
            assert(c.goals[gh as int] == self.goals@[gh as int]@);
            assert(is_skip == (c.tactics[th as int].name == "skip"@));
            assert(is_solve == (c.tactics[th as int].name == "solve"@));
            assert(is_split == (c.tactics[th as int].name == "split-or"@));
        }
        let models = self.goals[gh].models;
        let unsat_cores = self.goals[gh].unsat_cores;
        let proof_flag = self.goals[gh].proofs;
        let rh = self.results.len();
        if is_skip {
            let formulas = clone_formulas(&self.goals[gh].formulas);
            let hnd = self.goals.len();
            self.goals.push(
                GoalObj { rc: 0, formulas, models, unsat_cores, proofs: proof_flag },
            );
            let mut subgoals: Vec<usize> = Vec::new();
            subgoals.push(hnd);
            self.results.push(ResultObj { rc: 0, subgoals });
            proof {
                assert(self@.goals =~~= target.goals);
                assert(self@.results =~~= target.results);
                assert(self@ =~~= target);
            }
        } else if is_solve {
            self.results.push(ResultObj { rc: 0, subgoals: Vec::new() });
            proof {
                assert(self@.goals =~~= target.goals);
                assert(self@.results =~~= target.results);
                assert(self@ =~~= target);
            }
        } else if is_split {
            let n = self.goals[gh].formulas.len();
            if n == 0 {
                let hnd = self.goals.len();
                self.goals.push(
                    GoalObj {
                        rc: 0,
                        formulas: Vec::new(),
                        models,
                        unsat_cores,
                        proofs: proof_flag,
                    },
                );
                let mut subgoals: Vec<usize> = Vec::new();
                subgoals.push(hnd);
                self.results.push(ResultObj { rc: 0, subgoals });
                proof {
                    assert(self@.goals =~~= target.goals);
                    assert(self@.results =~~= target.results);
                    assert(self@ =~~= target);
                }
            } else {
                let head = self.goals[gh].formulas[0].clone();
                match head {
                    Bool::Or(a, b) => {
                        let fs = &self.goals[gh].formulas;
                        let mut v1: Vec<Bool> = Vec::new();
                        let mut v2: Vec<Bool> = Vec::new();
                        v1.push(*a);
                        v2.push(*b);
                        let mut i: usize = 1;
                        while i < fs.len()
                            invariant
                                1 <= i <= fs@.len(),
                                fs@ == c.goals[gh as int].formulas,
                                fs@.len() >= 1,
                                fs@[0] matches Bool::Or(x, y) && v1@ == seq![*x]
                                    + fs@.subrange(1, i as int) && v2@ == seq![*y]
                                    + fs@.subrange(1, i as int),
                            decreases fs@.len() - i,
                        {
                            v1.push(fs[i].clone());
                            v2.push(fs[i].clone());
                            proof {
                                assert(fs@.subrange(1, i as int + 1) =~= fs@.subrange(
                                    1,
                                    i as int,
                                ).push(fs@[i as int]));
                            }
                            i = i + 1;
                        }
                        proof {
                            assert(fs@.subrange(1, fs@.len() as int) =~= fs@.drop_first());
                        }
                        let h1 = self.goals.len();
                        self.goals.push(
                            GoalObj {
                                rc: 0,
                                formulas: v1,
                                models,
                                unsat_cores,
                                proofs: proof_flag,
                            },
                        );
                        let h2 = self.goals.len();
                        self.goals.push(
                            GoalObj {
                                rc: 0,
                                formulas: v2,
                                models,
                                unsat_cores,
                                proofs: proof_flag,
                            },
                        );
                        let mut subgoals: Vec<usize> = Vec::new();
                        subgoals.push(h1);
                        subgoals.push(h2);
                        self.results.push(ResultObj { rc: 0, subgoals });
                        proof {
                            assert(self@.goals =~~= target.goals);
                            assert(self@.results =~~= target.results);
                            assert(self@ =~~= target);
                        }
                    },
                    _ => {
                        let formulas = clone_formulas(&self.goals[gh].formulas);
                        let hnd = self.goals.len();
                        self.goals.push(
                            GoalObj {
                                rc: 0,
                                formulas,
                                models,
                                unsat_cores,
                                proofs: proof_flag,
                            },
                        );
                        let mut subgoals: Vec<usize> = Vec::new();
                        subgoals.push(hnd);
                        self.results.push(ResultObj { rc: 0, subgoals });
                        proof {
                            assert(self@.goals =~~= target.goals);
                            assert(self@.results =~~= target.results);
                            assert(self@ =~~= target);
                        }
                    },
                }
            }
        } else {
            self.results.push(ResultObj { rc: 0, subgoals: Vec::new() });
            proof {
                assert(self@.goals =~~= target.goals);
                assert(self@.results =~~= target.results);
                assert(self@ =~~= target);
            }
        }
        rh
    }
    /// One more owner of the apply-result `h`.
    pub(crate) fn apply_result_inc_ref(&mut self, h: usize)
        requires
            h < old(self)@.results.len(),
            old(self)@.results[h as int].rc < u64::MAX,
        ensures
            final(self)@ == result_retained(old(self)@, h as int),
    {
        let r = at_mut(&mut self.results, h);
        r.rc = r.rc + 1;
        proof {
            assert(self@.results =~= result_retained(old(self)@, h as int).results);
            assert(self@ =~= result_retained(old(self)@, h as int));
        }
    }

    /// One owner of the apply-result `h` gone.
    pub(crate) fn apply_result_dec_ref(&mut self, h: usize)
        requires
            h < old(self)@.results.len(),
            old(self)@.results[h as int].rc >= 1,
        ensures
            final(self)@ == result_released(old(self)@, h as int),
    {
        let r = at_mut(&mut self.results, h);
        r.rc = r.rc - 1;
        proof {
            assert(self@.results =~= result_released(old(self)@, h as int).results);
            assert(self@ =~= result_released(old(self)@, h as int));
        }
    }

    /// How many sub-goals the apply-result `h` holds.
    pub(crate) fn apply_result_num_subgoals(&self, h: usize) -> (n: usize)
        requires
            h < self@.results.len(),
        ensures
            n == self@.results[h as int].subgoals.len(),
    {
        self.results[h].subgoals.len()
    }

    /// The handle of the sub-goal of the apply-result `h` at position `i`.
    pub(crate) fn apply_result_subgoal(&self, h: usize, i: usize) -> (g: usize)
        requires
            h < self@.results.len(),
            i < self@.results[h as int].subgoals.len(),
        ensures
            g as int == self@.results[h as int].subgoals[i as int],
    {
        self.results[h].subgoals[i]
    }
}

} // verus!
