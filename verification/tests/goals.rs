use z3::Bool;
use z3::Context;
use z3::Goal;

#[test]
fn assert_sequence_len_and_get() {
    let mut ctx = Context::new();
    let g = Goal::empty(&mut ctx);
    assert_eq!(g.len(&ctx), 0);
    assert!(g.is_empty(&ctx));

    let f1 = Bool::Atom(1);
    let f2 = Bool::Atom(2);
    let f3 = Bool::Atom(3);
    g.assert_formula(&mut ctx, &f1);
    g.assert_formula(&mut ctx, &f2);
    g.assert_formula(&mut ctx, &f3);

    assert_eq!(g.len(&ctx), 3);
    assert!(!g.is_empty(&ctx));
    assert_eq!(g.get(&ctx, 0), Some(Bool::Atom(1)));
    assert_eq!(g.get(&ctx, 1), Some(Bool::Atom(2)));
    assert_eq!(g.get(&ctx, 2), Some(Bool::Atom(3)));
    assert_eq!(g.get(&ctx, 3), None);
    assert_eq!(g.get(&ctx, 100), None);
    g.release(&mut ctx);
}

#[test]
fn asserting_same_formula_twice_appends_twice() {
    let mut ctx = Context::new();
    let g = Goal::empty(&mut ctx);
    let f = Bool::Atom(7);
    g.assert_formula(&mut ctx, &f);
    g.assert_formula(&mut ctx, &f);
    assert_eq!(g.len(&ctx), 2);
    assert_eq!(g.get(&ctx, 0), Some(Bool::Atom(7)));
    assert_eq!(g.get(&ctx, 1), Some(Bool::Atom(7)));
    g.release(&mut ctx);
}

#[test]
fn empty_goal_flattens_to_true() {
    let mut ctx = Context::new();
    let g = Goal::empty(&mut ctx);
    assert_eq!(g.as_expr(&ctx), Bool::Const(true));
    g.release(&mut ctx);
}

#[test]
fn goal_flattens_left_associated() {
    let mut ctx = Context::new();
    let g = Goal::empty(&mut ctx);
    let a = Bool::Atom(1);
    let b = Bool::Atom(2);
    let c = Bool::Atom(3);
    g.assert_formula(&mut ctx, &a);
    g.assert_formula(&mut ctx, &b);
    g.assert_formula(&mut ctx, &c);
    let expected = Bool::And(
        Box::new(Bool::And(Box::new(Bool::Atom(1)), Box::new(Bool::Atom(2)))),
        Box::new(Bool::Atom(3)),
    );
    assert_eq!(g.as_expr(&ctx), expected);
    g.release(&mut ctx);
}

#[test]
fn single_formula_goal_flattens_to_that_formula() {
    let mut ctx = Context::new();
    let g = Goal::empty(&mut ctx);
    let f = Bool::Atom(42);
    g.assert_formula(&mut ctx, &f);
    assert_eq!(g.as_expr(&ctx), Bool::Atom(42));
    g.release(&mut ctx);
}

#[test]
fn single_formula_round_trip() {
    let mut ctx = Context::new();
    let f = Bool::Or(Box::new(Bool::Atom(5)), Box::new(Bool::Const(false)));
    let g = Goal::from_formula(&mut ctx, &f);
    assert_eq!(g.len(&ctx), 1);
    assert_eq!(g.as_expr(&ctx), f);
    g.release(&mut ctx);
}

#[test]
fn goal_with_chosen_flags_starts_empty() {
    let mut ctx = Context::new();
    let g = Goal::emtpy_ex(&mut ctx, false, true, true);
    assert_eq!(g.len(&ctx), 0);
    g.assert_formula(&mut ctx, &Bool::Const(false));
    assert_eq!(g.as_expr(&ctx), Bool::Const(false));
    g.release(&mut ctx);
}

#[test]
fn goals_ref_counts_balance() {
    let mut ctx = Context::new();
    let g = Goal::empty(&mut ctx);
    let h = g.handle();
    assert_eq!(ctx.goal_ref_count(h), 1);
    g.release(&mut ctx);
    assert_eq!(ctx.goal_ref_count(h), 0);
}
