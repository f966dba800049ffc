use umber_lang::error::{self, ErrorKind};
use umber_lang::nodes::var::declare::VarDeclarationNode;
use umber_lang::nodes::{Node, NodeType};
use umber_lang::position::Position;
use umber_lang::results::parse::ParseResult;
use umber_lang::token::{Token, TokenType};
use umber_lang::values::types::list::ListType;
use umber_lang::values::types::number::NumberType;
use umber_lang::values::types::string::StringType;
use umber_lang::values::value_type::number_type::NumberType as NumberValueType;
use umber_lang::values::value_type::ValueType as SecondValueType;
use umber_lang::values::vtype::{ValueType, ValueTypes};

fn at(index: usize) -> Position {
    let mut p = Position::new("main.ub".to_string());
    for _ in 0..index {
        p.advance(&'x');
    }
    p
}

#[test]
fn advancing_over_a_text_counts_characters_lines_and_columns() {
    let mut p = Position::new("main.ub".to_string());
    for c in "ab\ncde\nfg".chars() {
        p.advance(&c);
    }
    assert_eq!(*p.index(), 9);
    assert_eq!(*p.line(), 2);
    assert_eq!(*p.col(), 2);
    assert_eq!(p.file_name(), "main.ub");
}

#[test]
fn a_declaration_ends_where_its_value_ends() {
    let value = Node::Number {
        token: Token::new_with_value(TokenType::U64, "5".to_string(), at(4), at(5)),
        value_type: SecondValueType::U64(NumberValueType::new()),
    };
    let n = VarDeclarationNode::new("x".to_string(), value, false, at(0));
    assert_eq!(*n.pos_end().index(), 5);
    assert_eq!(*n.value_node().pos_end().index(), 5);
    assert_eq!(n.node_type(), NodeType::VarDeclaration);
    assert_eq!(*n.pos_start().index(), 0);
}

#[test]
fn types_of_the_first_system_compare_by_kind() {
    let n = NumberType::new();
    assert_eq!(n.value_type(), ValueTypes::Number);
    assert!(n.eq(NumberType::new().value_type()));
    assert!(!n.eq(StringType::new().value_type()));
    assert_eq!(n.box_clone().value_type(), ValueTypes::Number);
    let l = ListType::new(Box::new(NumberType::new()));
    assert!(l.eq(ValueTypes::Array));
    assert!(!l.eq(ValueTypes::Number));
    assert_eq!(l.box_clone().element_type().value_type(), ValueTypes::Number);
}

#[test]
fn a_parse_result_never_asks_for_tokens_back() {
    let mut r = ParseResult::new();
    assert_eq!(r.to_reverse_count(), 0);
    r.register_advancement();
    let mut failed = ParseResult::new();
    failed.failure(error::invalid_syntax_error(Position::empty(), Position::empty(), "bad"));
    let (n, e) = r.try_register_res(failed);
    assert!(n.is_none());
    assert_eq!(e.unwrap().kind(), ErrorKind::InvalidSyntax);
    assert_eq!(r.to_reverse_count(), 0);
    assert!(!r.has_error());
}
