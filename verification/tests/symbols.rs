use z3::Context;
use z3::EngineSymbol;
use z3::Symbol;

#[test]
fn int_symbol_round_trips() {
    let ctx = Context::new();
    let s = Symbol::Int(37);
    let native = s.as_z3_symbol(&ctx);
    let back = Symbol::new(&ctx, &native);
    assert_eq!(back, Symbol::Int(37));
}

#[test]
fn string_symbol_round_trips() {
    let ctx = Context::new();
    let s = Symbol::Str(String::from("width"));
    let native = s.as_z3_symbol(&ctx);
    let back = Symbol::new(&ctx, &native);
    assert_eq!(back, Symbol::Str(String::from("width")));
}

#[test]
fn reading_an_engine_symbol_copies_its_payload() {
    let ctx = Context::new();
    let native = EngineSymbol::Str(String::from("depth"));
    let s = Symbol::new(&ctx, &native);
    assert_eq!(s, Symbol::Str(String::from("depth")));
    let native = EngineSymbol::Int(0);
    let s = Symbol::new(&ctx, &native);
    assert_eq!(s, Symbol::Int(0));
}

#[test]
fn symbols_convert_from_plain_values() {
    let from_int = Symbol::from(12u32);
    assert_eq!(from_int, Symbol::Int(12));
    let from_string = Symbol::from(String::from("name"));
    assert_eq!(from_string, Symbol::Str(String::from("name")));
}

#[test]
fn symbols_with_different_kinds_differ() {
    assert_ne!(Symbol::Int(1), Symbol::Int(2));
    assert_ne!(Symbol::Str(String::from("a")), Symbol::Str(String::from("b")));
    assert_ne!(Symbol::Int(1), Symbol::Str(String::from("1")));
}
