//! A safe handle layer over a constraint-solving engine.
//!
//! The engine manipulates logical goals through reference-counted handles:
//! a `Goal` accumulates boolean formulas, a `Tactic` transforms a goal into
//! an `ApplyResult` holding zero or more sub-goals, and a `Symbol` names
//! engine-level entities. The engine's own state lives in a `Context`; every
//! operation on a handle goes through the context that created it, and the
//! exclusive borrow of that context totally orders the operations, so no two
//! engine transitions ever interleave.
//!
//! Every operation carries a contract over the context's abstract view:
//! creation and release of a handle change exactly one reference count,
//! assertion appends exactly one formula, and flattening a goal or a result
//! is the stated left-associated conjunction or disjunction.

pub mod apply_result;
pub mod ast;
pub mod context;
pub mod goal;
pub mod laws;
pub mod symbol;
pub mod tactic;

pub use crate::apply_result::ApplyResult;
pub use crate::ast::Bool;
pub use crate::context::Context;
pub use crate::goal::Goal;
pub use crate::symbol::EngineSymbol;
pub use crate::symbol::Symbol;
pub use crate::tactic::Tactic;
