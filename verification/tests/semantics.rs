use umber_lang::error::ErrorKind;
use umber_lang::nodes::var_node::declare::VarDeclarationNode;
use umber_lang::nodes::Node;
use umber_lang::position::Position;
use umber_lang::semantics::{ScopeType, Validator};
use umber_lang::symbol_table::Symbol;
use umber_lang::token::{Token, TokenType};
use umber_lang::values::value_type::char_type::CharType;
use umber_lang::values::value_type::number_type::NumberType;
use umber_lang::values::value_type::void_type::VoidType;
use umber_lang::values::value_type::{ValueType, ValueTypes};

fn number(text: &str) -> Node {
    Node::Number {
        token: Token::new_with_value(TokenType::U64, text.to_string(), Position::empty(), Position::empty()),
        value_type: ValueType::U64(NumberType::new()),
    }
}

fn declaration(name: &str, var_type: ValueType, value: Node) -> Node {
    Node::VarDeclaration(VarDeclarationNode::new(name.to_string(), var_type, value, true, Position::empty()))
}

#[test]
fn semantics_semantics_symbol_stack() {
    let mut v = Validator::new();

    v.declare_symbol("a".to_string(), Symbol::new(ValueType::Void(VoidType::new()), false), Position::empty());

    assert_eq!(v.has_symbol("a"), true);
    assert_eq!(v.get_symbol("a").unwrap().0.value_type().value_type(), ValueTypes::Void);
    assert_eq!(v.is_symbol_mut("a"), false);

    v.push_child_scope(ScopeType::Block);

    assert_eq!(v.has_symbol("a"), true);
    assert_eq!(v.has_symbol("b"), false);
    v.declare_symbol("b".to_string(), Symbol::new(ValueType::Void(VoidType::new()), false), Position::empty());
    assert_eq!(v.has_symbol("b"), true);

    v.pop_child_scope();

    assert_eq!(v.has_symbol("a"), true);
    assert_eq!(v.has_symbol("b"), false);
}

#[test]
fn tests_semantics_symbol_stack() {
    let mut v = Validator::new();

    v.declare_symbol("a".to_string(), Symbol::new(ValueType::Void(VoidType::new()), false), Position::empty());

    assert_eq!(v.has_symbol("a"), true);
    assert_eq!(v.get_symbol("a").unwrap().0.value_type().value_type(), ValueTypes::Void);
    assert_eq!(v.is_symbol_mut("a"), false);

    v.push_child_scope(ScopeType::Block);

    assert_eq!(v.has_symbol("a"), true);
    assert_eq!(v.has_symbol("b"), false);
    v.declare_symbol("b".to_string(), Symbol::new(ValueType::Void(VoidType::new()), false), Position::empty());
    assert_eq!(v.has_symbol("b"), true);

    v.pop_child_scope();

    assert_eq!(v.has_symbol("a"), true);
    assert_eq!(v.has_symbol("b"), false);
}

#[test]
fn declaring_a_name_twice_keeps_the_first() {
    let mut v = Validator::new();
    v.declare_symbol("a".to_string(), Symbol::new(ValueType::Void(VoidType::new()), true), Position::empty());
    v.declare_symbol("a".to_string(), Symbol::new(ValueType::Void(VoidType::new()), false), Position::empty());
    assert_eq!(v.is_symbol_mut("a"), true);
}

#[test]
fn a_symbol_declared_in_a_child_scope_is_gone_after_the_pop() {
    let mut v = Validator::new();
    v.push_child_scope(ScopeType::Function);
    v.declare_symbol("x".to_string(), Symbol::new(ValueType::Void(VoidType::new()), true), Position::empty());
    assert!(v.is_symbol_mut("x"));
    assert!(v.is_in_scope_stack(ScopeType::Function));
    v.pop_child_scope();
    assert!(!v.has_symbol("x"));
    assert!(!v.is_in_scope_stack(ScopeType::Function));
}

#[test]
fn a_break_outside_a_loop_is_refused() {
    let mut v = Validator::new();
    let res = v.validate(&Node::Break { pos_start: Position::empty(), pos_end: Position::empty() });
    let e = res.error().as_ref().unwrap();
    assert_eq!(e.kind(), ErrorKind::Semantic);
    assert_eq!(e.details(), "Break statement outside of loop!");
    assert!(e.parent().is_none());
}

#[test]
fn a_declaration_gives_the_variable_its_type() {
    let mut v = Validator::new();
    let res = v.validate(&declaration("x", ValueType::U64(NumberType::new()), number("5")));
    assert!(res.error().is_none());
    assert_eq!(res.value_type().as_ref().unwrap().value_type(), ValueTypes::U64);
    assert!(v.has_symbol("x"));
    assert!(v.is_symbol_mut("x"));
}

#[test]
fn a_second_declaration_names_the_first() {
    let mut v = Validator::new();
    let first = v.validate(&declaration("x", ValueType::U64(NumberType::new()), number("5")));
    assert!(first.error().is_none());
    let second = v.validate(&declaration("x", ValueType::U64(NumberType::new()), number("6")));
    let e = second.error().as_ref().unwrap();
    assert_eq!(e.details(), "Variable 'x' was already declared in this scope!");
    assert_eq!(e.parent().as_ref().unwrap().details(), "Previous declaration of 'x'");
}

#[test]
fn a_value_of_the_wrong_type_is_refused() {
    let mut v = Validator::new();
    let res = v.validate(&declaration("c", ValueType::Char(CharType::new()), number("5")));
    let e = res.error().as_ref().unwrap();
    assert_eq!(e.details(), "Type 'number' can't be assigned to type '<CharType>[]'!");
    assert!(!v.has_symbol("c"));
}

#[test]
fn a_block_that_checks_leaves_the_scopes_as_they_were() {
    let mut v = Validator::new();
    let block = Node::Statements {
        statements: vec![declaration("inner", ValueType::U64(NumberType::new()), number("1"))],
        pos_start: Position::empty(),
        pos_end: Position::empty(),
    };
    let res = v.validate(&block);
    assert!(res.error().is_none());
    assert_eq!(res.value_type().as_ref().unwrap().value_type(), ValueTypes::Ignored);
    assert!(res.node().is_some());
    assert!(!v.has_symbol("inner"));
    assert!(!v.is_in_scope_stack(ScopeType::Block));
    assert!(v.find_first_function().is_none());
}
