//! Boolean formulas as this layer sees them.
//!
//! The layer never looks inside a formula that the engine built; it only
//! combines formulas into conjunctions and disjunctions and supplies the two
//! boolean constants. A formula is therefore held as a plain value: an opaque
//! engine atom identified by its handle, a constant, or a binary connective.

use vstd::prelude::*;

verus! {

/// A boolean formula: an opaque engine atom, a constant, or a binary
/// conjunction or disjunction.
#[derive(Debug)]
pub enum Bool {
    /// A formula built by the engine's expression layer, identified by its
    /// handle; this layer never looks inside it.
    Atom(u64),
    /// The boolean constant `true` or `false`.
    Const(bool),
    /// Conjunction of the two operands.
    And(Box<Bool>, Box<Bool>),
    /// Disjunction of the two operands.
    Or(Box<Bool>, Box<Bool>),
}

impl Clone for Bool {
    fn clone(&self) -> (r: Self)
        ensures
            r == *self,
        decreases *self,
    {
        match self {
            Bool::Atom(h) => Bool::Atom(*h),
            Bool::Const(b) => Bool::Const(*b),
            Bool::And(a, b) => Bool::And(Box::new((&**a).clone()), Box::new((&**b).clone())),
            Bool::Or(a, b) => Bool::Or(Box::new((&**a).clone()), Box::new((&**b).clone())),
        }
    }
}

impl PartialEq for Bool {
    fn eq(&self, other: &Self) -> (r: bool)
        ensures
            r == (*self == *other),
        decreases *self,
    {
        match (self, other) {
            (Bool::Atom(a), Bool::Atom(b)) => a == b,
            (Bool::Const(a), Bool::Const(b)) => a == b,
            (Bool::And(a1, a2), Bool::And(b1, b2)) => (&**a1).eq(&**b1) && (&**a2).eq(&**b2),
            (Bool::Or(a1, a2), Bool::Or(b1, b2)) => (&**a1).eq(&**b1) && (&**a2).eq(&**b2),
            _ => false,
        }
    }
}

impl vstd::std_specs::cmp::PartialEqSpecImpl for Bool {
    open spec fn obeys_eq_spec() -> bool {
        true
    }

    open spec fn eq_spec(&self, other: &Bool) -> bool {
        *self == *other
    }
}

/// The conjunction of all formulas of `s` in index order, associated to the
/// left; the boolean constant `true` when `s` is empty.
pub open spec fn and_all(s: Seq<Bool>) -> Bool
    decreases s.len(),
{
    if s.len() == 0 {
        Bool::Const(true)
    } else if s.len() == 1 {
        s[0]
    } else {
        Bool::And(Box::new(and_all(s.drop_last())), Box::new(s.last()))
    }
}

/// The disjunction of all formulas of `s` in index order, associated to the
/// left; the boolean constant `false` when `s` is empty.
pub open spec fn or_all(s: Seq<Bool>) -> Bool
    decreases s.len(),
{
    if s.len() == 0 {
        Bool::Const(false)
    } else if s.len() == 1 {
        s[0]
    } else {
        Bool::Or(Box::new(or_all(s.drop_last())), Box::new(s.last()))
    }
}

/// Law: flattening grows on the right. Extending a formula sequence by one
/// formula conjoins that formula on the right of the flattening of the
/// prefix, so the conjunction is associated left-to-right; a single formula
/// flattens to itself.
pub proof fn lemma_and_all_push(s: Seq<Bool>, f: Bool)
    ensures
        and_all(s.push(f)) == (if s.len() == 0 {
            f
        } else {
            Bool::And(Box::new(and_all(s)), Box::new(f))
        }),
{
    assert(s.push(f).drop_last() =~= s);
    assert(s.push(f).last() == f);
}

/// Law: the disjunctive flattening grows on the right, exactly as the
/// conjunctive one does.
pub proof fn lemma_or_all_push(s: Seq<Bool>, f: Bool)
    ensures
        or_all(s.push(f)) == (if s.len() == 0 {
            f
        } else {
            Bool::Or(Box::new(or_all(s)), Box::new(f))
        }),
{
    assert(s.push(f).drop_last() =~= s);
    assert(s.push(f).last() == f);
}

} // verus!
