use umber_lang::position::Position;
use umber_lang::token::{Token, TokenType};
use umber_lang::values::value_size::ValueSize;
use umber_lang::values::value_type::bool_type::BoolType;
use umber_lang::values::value_type::char_type::CharType;
use umber_lang::values::value_type::number_type::NumberType;
use umber_lang::values::value_type::pointer_type::PointerType;
use umber_lang::values::value_type::string_type::StringType;
use umber_lang::values::value_type::struct_type::StructType;
use umber_lang::values::value_type::u8_type::U8Type;
use umber_lang::values::value_type::{ValueType, ValueTypes};

fn op(t: TokenType) -> Token {
    Token::new_without_value(t, Position::empty(), Position::empty())
}

fn ptr(t: ValueType, m: bool) -> ValueType {
    ValueType::Pointer(PointerType::new(t, m))
}

#[test]
fn numbers_combine_with_numbers_of_their_kind() {
    let u64t = ValueType::U64(NumberType::new());
    let u8t = ValueType::U8(U8Type::new());
    let r = u64t.is_valid_bin_op(&op(TokenType::Plus), &u64t).unwrap();
    assert_eq!(r.value_type(), ValueTypes::U64);
    let r = u64t.is_valid_bin_op(&op(TokenType::Lt), &u64t).unwrap();
    assert_eq!(r.value_type(), ValueTypes::Bool);
    assert!(u64t.is_valid_bin_op(&op(TokenType::Plus), &u8t).is_none());
    assert!(u64t.is_valid_bin_op(&op(TokenType::And), &u64t).is_none());
}

#[test]
fn booleans_allow_logic_and_comparisons() {
    let b = ValueType::Bool(BoolType::new());
    assert_eq!(b.is_valid_bin_op(&op(TokenType::And), &b).unwrap().value_type(), ValueTypes::Bool);
    assert!(b.is_valid_bin_op(&op(TokenType::Plus), &b).is_none());
    assert_eq!(b.is_valid_unary_op(&op(TokenType::Not)).unwrap().value_type(), ValueTypes::Bool);
}

#[test]
fn a_pointer_is_dereferenced_to_its_pointee() {
    let p = ptr(ValueType::Char(CharType::new()), false);
    assert_eq!(p.is_valid_unary_op(&op(TokenType::Dereference)).unwrap().value_type(), ValueTypes::Char);
    assert!(p.is_valid_unary_op(&op(TokenType::Minus)).is_none());
}

#[test]
fn pointers_are_equal_when_their_pointees_are() {
    let a = ptr(ValueType::U8(U8Type::new()), false);
    let b = ptr(ValueType::U8(U8Type::new()), true);
    let c = ptr(ValueType::Bool(BoolType::new()), false);
    assert!(a.eq(&a));
    assert!(a.eq(&b) && b.eq(&a));
    assert!(!a.eq(&c) && !c.eq(&a));
    let s1 = ValueType::Struct(StructType::new("A".to_string()));
    let s2 = ValueType::Struct(StructType::new("B".to_string()));
    assert!(s1.eq(&s2));
}

#[test]
fn casts_and_sizes() {
    let u64t = ValueType::U64(NumberType::new());
    let s = ValueType::String(StringType::new());
    assert!(u64t.is_valid_cast(&ptr(ValueType::Char(CharType::new()), false)));
    assert!(s.is_valid_cast(&ptr(ValueType::Char(CharType::new()), false)));
    assert!(!s.is_valid_cast(&ptr(ValueType::Char(CharType::new()), true)));
    assert!(!s.is_valid_cast(&u64t));
    assert_eq!(ValueType::U8(U8Type::new()).get_size(), ValueSize::Byte);
    assert_eq!(u64t.get_size().get_size_in_bytes(), 8);
    assert_eq!(ptr(u64t, false).to_string(), "<PointerType>[number]");
}
