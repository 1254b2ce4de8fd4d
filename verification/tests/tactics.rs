use z3::Bool;
use z3::Context;
use z3::Goal;
use z3::Tactic;

#[test]
fn unknown_tactic_name_is_absent_not_fatal() {
    let mut ctx = Context::new();
    let t = Tactic::from_name(&mut ctx, "definitely-not-a-real-tactic-xyz");
    assert!(t.is_none());
}

#[test]
fn known_tactic_name_is_found() {
    let mut ctx = Context::new();
    let t = Tactic::from_name(&mut ctx, "skip").expect("skip is registered");
    t.release(&mut ctx);
    let t = Tactic::from_name(&mut ctx, "solve").expect("solve is registered");
    t.release(&mut ctx);
    let t = Tactic::from_name(&mut ctx, "split-or").expect("split-or is registered");
    t.release(&mut ctx);
}

#[test]
fn skip_keeps_the_goal_as_single_subgoal() {
    let mut ctx = Context::new();
    let g = Goal::empty(&mut ctx);
    g.assert_formula(&mut ctx, &Bool::Atom(1));
    g.assert_formula(&mut ctx, &Bool::Atom(2));
    let t = Tactic::from_name(&mut ctx, "skip").expect("skip is registered");
    let ar = t.apply(&mut ctx, &g);
    assert_eq!(ar.len(&ctx), 1);
    assert!(!ar.is_empty(&ctx));
    let sub = ar.get(&mut ctx, 0).expect("one sub-goal");
    assert_eq!(sub.len(&ctx), 2);
    assert_eq!(sub.get(&ctx, 0), Some(Bool::Atom(1)));
    assert_eq!(sub.get(&ctx, 1), Some(Bool::Atom(2)));
    sub.release(&mut ctx);
    ar.release(&mut ctx);
    t.release(&mut ctx);
    g.release(&mut ctx);
}

#[test]
fn the_source_goal_is_unaffected_by_apply() {
    let mut ctx = Context::new();
    let g = Goal::empty(&mut ctx);
    g.assert_formula(&mut ctx, &Bool::Atom(9));
    let t = Tactic::from_name(&mut ctx, "solve").expect("solve is registered");
    let ar = t.apply(&mut ctx, &g);
    assert_eq!(g.len(&ctx), 1);
    assert_eq!(g.get(&ctx, 0), Some(Bool::Atom(9)));
    ar.release(&mut ctx);
    t.release(&mut ctx);
    g.release(&mut ctx);
}

#[test]
fn empty_apply_result_flattens_to_false() {
    let mut ctx = Context::new();
    let g = Goal::empty(&mut ctx);
    g.assert_formula(&mut ctx, &Bool::Atom(1));
    let t = Tactic::from_name(&mut ctx, "solve").expect("solve is registered");
    let ar = t.apply(&mut ctx, &g);
    assert_eq!(ar.len(&ctx), 0);
    assert!(ar.is_empty(&ctx));
    assert_eq!(ar.as_expr(&mut ctx), Bool::Const(false));
    assert!(ar.get(&mut ctx, 0).is_none());
    ar.release(&mut ctx);
    t.release(&mut ctx);
    g.release(&mut ctx);
}

#[test]
fn split_or_yields_one_subgoal_per_disjunct() {
    let mut ctx = Context::new();
    let g = Goal::empty(&mut ctx);
    let f = Bool::Or(Box::new(Bool::Atom(1)), Box::new(Bool::Atom(2)));
    g.assert_formula(&mut ctx, &f);
    g.assert_formula(&mut ctx, &Bool::Atom(3));
    let t = Tactic::from_name(&mut ctx, "split-or").expect("split-or is registered");
    let ar = t.apply(&mut ctx, &g);
    assert_eq!(ar.len(&ctx), 2);
    let s1 = ar.get(&mut ctx, 0).expect("first case");
    let s2 = ar.get(&mut ctx, 1).expect("second case");
    assert_eq!(s1.get(&ctx, 0), Some(Bool::Atom(1)));
    assert_eq!(s1.get(&ctx, 1), Some(Bool::Atom(3)));
    assert_eq!(s2.get(&ctx, 0), Some(Bool::Atom(2)));
    assert_eq!(s2.get(&ctx, 1), Some(Bool::Atom(3)));
    // The flattening of the result is the disjunction of the flattened
    // sub-goals, associated left-to-right.
    let expected = Bool::Or(
        Box::new(Bool::And(Box::new(Bool::Atom(1)), Box::new(Bool::Atom(3)))),
        Box::new(Bool::And(Box::new(Bool::Atom(2)), Box::new(Bool::Atom(3)))),
    );
    assert_eq!(ar.as_expr(&mut ctx), expected);
    s1.release(&mut ctx);
    s2.release(&mut ctx);
    ar.release(&mut ctx);
    t.release(&mut ctx);
    g.release(&mut ctx);
}

#[test]
fn extracted_subgoal_outlives_its_apply_result() {
    let mut ctx = Context::new();
    let g = Goal::empty(&mut ctx);
    g.assert_formula(&mut ctx, &Bool::Atom(4));
    let t = Tactic::from_name(&mut ctx, "skip").expect("skip is registered");
    let ar = t.apply(&mut ctx, &g);
    let sub = ar.get(&mut ctx, 0).expect("one sub-goal");
    assert!(ar.get(&mut ctx, 1).is_none());
    assert_eq!(ar.as_expr(&mut ctx), Bool::Atom(4));
    ar.release(&mut ctx);
    // The extracted goal owns its own reference: it still answers after the
    // result that produced it is gone.
    assert_eq!(sub.len(&ctx), 1);
    assert_eq!(sub.get(&ctx, 0), Some(Bool::Atom(4)));
    assert_eq!(sub.as_expr(&ctx), Bool::Atom(4));
    sub.release(&mut ctx);
    t.release(&mut ctx);
    g.release(&mut ctx);
}

#[test]
fn repeated_extraction_balances_ref_counts() {
    let mut ctx = Context::new();
    let g = Goal::empty(&mut ctx);
    g.assert_formula(&mut ctx, &Bool::Atom(1));
    let t = Tactic::from_name(&mut ctx, "skip").expect("skip is registered");
    let ar = t.apply(&mut ctx, &g);

    let w1 = ar.get(&mut ctx, 0).expect("sub-goal");
    let w2 = ar.get(&mut ctx, 0).expect("sub-goal");
    let w3 = ar.get(&mut ctx, 0).expect("sub-goal");
    let h = w1.handle();
    assert_eq!(w2.handle(), h);
    assert_eq!(w3.handle(), h);
    assert_eq!(ctx.goal_ref_count(h), 3);
    w1.release(&mut ctx);
    assert_eq!(ctx.goal_ref_count(h), 2);
    w2.release(&mut ctx);
    assert_eq!(ctx.goal_ref_count(h), 1);
    w3.release(&mut ctx);
    assert_eq!(ctx.goal_ref_count(h), 0);

    ar.release(&mut ctx);
    t.release(&mut ctx);
    g.release(&mut ctx);
}

#[test]
fn split_or_without_leading_disjunction_keeps_the_goal() {
    let mut ctx = Context::new();
    let g = Goal::empty(&mut ctx);
    g.assert_formula(&mut ctx, &Bool::Atom(8));
    let t = Tactic::from_name(&mut ctx, "split-or").expect("split-or is registered");
    let ar = t.apply(&mut ctx, &g);
    assert_eq!(ar.len(&ctx), 1);
    let sub = ar.get(&mut ctx, 0).expect("one sub-goal");
    assert_eq!(sub.get(&ctx, 0), Some(Bool::Atom(8)));
    sub.release(&mut ctx);
    ar.release(&mut ctx);
    t.release(&mut ctx);
    g.release(&mut ctx);
}
