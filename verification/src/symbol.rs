//! Symbols: integer- or string-keyed names understood by the engine.

use vstd::prelude::*;
use crate::context::Context;
use crate::context::no_nul;

verus! {

/// The abstract value of a symbol: an integer key or a string key.
pub enum SymbolView {
    Int(u32),
    Str(Seq<char>),
}

/// A name for an engine-level entity, keyed by an integer or by a string.
/// A pure value: no engine resource is held between calls, and the engine
/// representation is built on demand.
#[derive(Debug)]
pub enum Symbol {
    /// An integer-keyed name.
    Int(u32),
    /// A string-keyed name.
    Str(String),
}

impl View for Symbol {
    type V = SymbolView;

    open spec fn view(&self) -> SymbolView {
        match self {
            Symbol::Int(i) => SymbolView::Int(*i),
            Symbol::Str(s) => SymbolView::Str(s@),
        }
    }
}

/// A symbol in the engine's own representation, as plain values: what the
/// engine's symbol-introspection calls would let this layer read back.
#[derive(Debug)]
pub enum EngineSymbol {
    /// An integer-kind engine symbol.
    Int(u32),
    /// A string-kind engine symbol; the text is copied out, since the
    /// engine's own storage is not stable between calls.
    Str(String),
}

impl View for EngineSymbol {
    type V = SymbolView;

    open spec fn view(&self) -> SymbolView {
        match self {
            EngineSymbol::Int(i) => SymbolView::Int(*i),
            EngineSymbol::Str(s) => SymbolView::Str(s@),
        }
    }
}

impl Symbol {
    /// Reads an engine symbol back into a plain value: queries its kind and
    /// copies the integer or string payload.
    #[allow(unused_variables)]
    pub fn new(ctx: &Context, sym: &EngineSymbol) -> (s: Symbol)
        ensures
            s@ == sym@,
    {
        match sym {
            EngineSymbol::Int(i) => Symbol::Int(*i),
            EngineSymbol::Str(t) => Symbol::Str(t.clone()),
        }
    }

    /// Builds the engine representation of this symbol. A string key must
    /// not contain an embedded null character: the engine takes
    /// null-terminated text, so such a key would violate its contract.
    #[allow(unused_variables)]
    pub fn as_z3_symbol(&self, ctx: &Context) -> (r: EngineSymbol)
        requires
            self matches Symbol::Str(s) ==> no_nul(s@),
        ensures
            r@ == self@,
    {
        match self {
            Symbol::Int(i) => EngineSymbol::Int(*i),
            Symbol::Str(s) => EngineSymbol::Str(s.clone()),
        }
    }
}

impl PartialEq for Symbol {
    fn eq(&self, other: &Self) -> (r: bool)
        ensures
            r == (self@ == other@),
    {
        match (self, other) {
            (Symbol::Int(a), Symbol::Int(b)) => a == b,
            (Symbol::Str(a), Symbol::Str(b)) => *a == *b,
            _ => false,
        }
    }
}

impl vstd::std_specs::cmp::PartialEqSpecImpl for Symbol {
    open spec fn obeys_eq_spec() -> bool {
        true
    }

    open spec fn eq_spec(&self, other: &Symbol) -> bool {
        self@ == other@
    }
}

impl From<u32> for Symbol {
    /// An integer-keyed symbol from its key.
    fn from(val: u32) -> (s: Symbol) {
        Symbol::Int(val)
    }
}

impl vstd::std_specs::convert::FromSpecImpl<u32> for Symbol {
    open spec fn obeys_from_spec() -> bool {
        true
    }

    open spec fn from_spec(val: u32) -> Symbol {
        Symbol::Int(val)
    }
}

impl From<String> for Symbol {
    /// A string-keyed symbol from its key.
    fn from(val: String) -> (s: Symbol) {
        Symbol::Str(val)
    }
}

impl vstd::std_specs::convert::FromSpecImpl<String> for Symbol {
    open spec fn obeys_from_spec() -> bool {
        true
    }

    open spec fn from_spec(val: String) -> Symbol {
        Symbol::Str(val)
    }
}

} // verus!
