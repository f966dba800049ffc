use umber_lang::symboltable::{Symbol, SymbolTable};
use umber_lang::values::value_type::bool_type::BoolType;
use umber_lang::values::value_type::ValueType;

fn sym(m: bool) -> Symbol {
    Symbol::new(ValueType::Bool(BoolType::new()), m)
}

#[test]
fn a_nested_table_sees_the_names_around_it() {
    let mut outer = SymbolTable::new(None);
    assert!(outer.declare("a", sym(true)));
    let mut inner = SymbolTable::new(Some(Box::new(outer)));
    assert!(inner.has("a"));
    assert!(inner.is_mutable("a"));
    assert!(!inner.declare("a", sym(false)));
    assert!(inner.declare("b", sym(false)));
    assert!(inner.has("b"));
    assert!(!inner.is_mutable("b"));
    assert!(!inner.is_mutable("c"));
    assert!(inner.get("b").is_some());
    assert!(inner.get("a").is_none());
    assert_eq!(inner.symbols().len(), 1);
    assert!(inner.parent().is_some());
}
