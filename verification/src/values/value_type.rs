//! The types of Umber values and the rules that say which operations and
//! casts they allow.
use vstd::prelude::*;
use crate::token::{Token, TokenType};
use crate::text::decimal;
use crate::values::value_size::ValueSize;

pub mod number_type;
pub mod u32_type;
pub mod u16_type;
pub mod u8_type;
pub mod bool_type;
pub mod char_type;
pub mod string_type;
pub mod function_type;
pub mod void_type;
pub mod pointer_type;
pub mod struct_type;
pub mod generic_type;
pub mod ignored_type;
pub mod f64_type;
pub mod extern_type;
pub mod array_type;

use number_type::NumberType;
use u32_type::U32Type;
use u16_type::U16Type;
use u8_type::U8Type;
use bool_type::BoolType;
use char_type::CharType;
use string_type::StringType;
use function_type::FunctionType;
use void_type::VoidType;
use pointer_type::PointerType;
use struct_type::StructType;
use generic_type::GenericType;
use ignored_type::IgnoredType;
use f64_type::F64Type;
use extern_type::ExternType;
use array_type::ArrayType;

verus! {

/// The unsigned 64-bit number type.
pub type U64Type = NumberType;

/// The kind of a type, without its parameters.
#[derive(Debug, PartialEq, Eq, Structural, Copy, Clone)]
pub enum ValueTypes {
    U64,
    U32,
    U16,
    U8,
    I64,
    I32,
    I16,
    I8,
    Bool,
    Char,
    String,
    Function,
    Void,
    Pointer,
    Struct,
    Generic,
    Ignored,
    F64,
    Extern,
    Array,
}

/// A type as a value.
pub enum SpecType {
    U64,
    U32,
    U16,
    U8,
    Bool,
    Char,
    String,
    Function { args: Seq<SpecType>, ret: Box<SpecType> },
    Void,
    Pointer { pointee: Box<SpecType>, is_mutable: bool },
    Struct { name: Seq<char> },
    Generic { name: Seq<char> },
    Ignored,
    F64,
    Extern,
    Array { size: usize, children: Box<SpecType> },
}

/// An operator that keeps a number's type: arithmetic and bitwise.
pub open spec fn is_arith_op(op: TokenType) -> bool {
    op == TokenType::Minus || op == TokenType::Plus || op == TokenType::Mul || op == TokenType::Div
        || op == TokenType::Modulo || op == TokenType::BitOr || op == TokenType::BitAnd
        || op == TokenType::BitXor || op == TokenType::BitShl || op == TokenType::BitShr
}

/// A comparison operator, whose result is a boolean.
pub open spec fn is_compare_op(op: TokenType) -> bool {
    op == TokenType::Ee || op == TokenType::Ne || op == TokenType::Gt || op == TokenType::Lt
        || op == TokenType::Gte || op == TokenType::Lte
}

/// The type of `x op y` for numbers of one kind: the kind itself for arithmetic,
/// `bool` for comparisons.
pub open spec fn number_bin_op(this: SpecType, op: TokenType, t: SpecType) -> Option<SpecType> {
    if t.kind() != this.kind() {
        None
    } else if is_arith_op(op) {
        Some(this)
    } else if is_compare_op(op) {
        Some(SpecType::Bool)
    } else {
        None
    }
}

/// The type of a prefix `op x` for a number of the given kind.
pub open spec fn number_unary_op(this: SpecType, op: TokenType) -> Option<SpecType> {
    if op == TokenType::Minus || op == TokenType::Plus || op == TokenType::BitNot {
        Some(this)
    } else {
        None
    }
}

impl SpecType {
    pub open spec fn kind(self) -> ValueTypes {
        match self {
            SpecType::U64 => ValueTypes::U64,
            SpecType::U32 => ValueTypes::U32,
            SpecType::U16 => ValueTypes::U16,
            SpecType::U8 => ValueTypes::U8,
            SpecType::Bool => ValueTypes::Bool,
            SpecType::Char => ValueTypes::Char,
            SpecType::String => ValueTypes::String,
            SpecType::Function { .. } => ValueTypes::Function,
            SpecType::Void => ValueTypes::Void,
            SpecType::Pointer { .. } => ValueTypes::Pointer,
            SpecType::Struct { .. } => ValueTypes::Struct,
            SpecType::Generic { .. } => ValueTypes::Generic,
            SpecType::Ignored => ValueTypes::Ignored,
            SpecType::F64 => ValueTypes::F64,
            SpecType::Extern => ValueTypes::Extern,
            SpecType::Array { .. } => ValueTypes::Array,
        }
    }

    /// Type equality as the checker uses it: pointers compare their pointee
    /// types, arrays their size and element types, generics their names; every
    /// other type is equal to any type of the same kind.
    pub open spec fn type_eq(self, other: SpecType) -> bool
        decreases self,
    {
        match self {
            SpecType::Pointer { pointee, .. } => match other {
                SpecType::Pointer { pointee: other_pointee, .. } => pointee.type_eq(*other_pointee),
                _ => false,
            },
            SpecType::Array { size, children } => match other {
                SpecType::Array { size: other_size, children: other_children } =>
                    size == other_size && children.type_eq(*other_children),
                _ => false,
            },
            SpecType::Generic { name } => match other {
                SpecType::Generic { name: other_name } => name == other_name,
                _ => false,
            },
            _ => self.kind() == other.kind(),
        }
    }

    /// The type of `self op t`, if the operation is allowed.
    pub open spec fn bin_op(self, op: TokenType, t: SpecType) -> Option<SpecType> {
        match self {
            SpecType::U64 => number_bin_op(self, op, t),
            SpecType::U32 => number_bin_op(self, op, t),
            SpecType::U16 => number_bin_op(self, op, t),
            SpecType::U8 => number_bin_op(self, op, t),
            SpecType::F64 => number_bin_op(self, op, t),
            SpecType::Bool => if t.kind() != ValueTypes::Bool {
                None
            } else if op == TokenType::Or || op == TokenType::And || is_compare_op(op) {
                Some(SpecType::Bool)
            } else {
                None
            },
            SpecType::Generic { .. } => Some(self),
            _ => None,
        }
    }

    /// The type of the prefix operation `op self`, if it is allowed.
    pub open spec fn unary_op(self, op: TokenType) -> Option<SpecType> {
        match self {
            SpecType::U64 => number_unary_op(self, op),
            SpecType::U32 => number_unary_op(self, op),
            SpecType::U16 => number_unary_op(self, op),
            SpecType::U8 => number_unary_op(self, op),
            SpecType::F64 => number_unary_op(self, op),
            SpecType::Bool => if op == TokenType::Not { Some(SpecType::Bool) } else { None },
            SpecType::Pointer { pointee, .. } => if op == TokenType::Dereference {
                Some(*pointee)
            } else {
                None
            },
            SpecType::Generic { .. } => Some(self),
            _ => None,
        }
    }

    /// A value of this type may be cast to `t`.
    pub open spec fn valid_cast(self, t: SpecType) -> bool {
        let k = t.kind();
        match self {
            SpecType::U64 => k == ValueTypes::Bool || k == ValueTypes::Pointer || k == ValueTypes::Char,
            SpecType::U32 => k == ValueTypes::Bool || k == ValueTypes::Pointer || k == ValueTypes::Char
                || k == ValueTypes::U64 || k == ValueTypes::U16 || k == ValueTypes::U8,
            SpecType::U16 => k == ValueTypes::Bool || k == ValueTypes::Pointer || k == ValueTypes::Char
                || k == ValueTypes::U64 || k == ValueTypes::U32 || k == ValueTypes::U8,
            SpecType::U8 => k == ValueTypes::Bool || k == ValueTypes::Pointer || k == ValueTypes::Char
                || k == ValueTypes::U64 || k == ValueTypes::U32 || k == ValueTypes::U16,
            SpecType::Bool => k == ValueTypes::U64,
            SpecType::Char => true,
            SpecType::F64 => k == ValueTypes::Bool || k == ValueTypes::U64,
            SpecType::String => match t {
                SpecType::Pointer { pointee, is_mutable } => pointee.kind() == ValueTypes::Char && !is_mutable,
                _ => false,
            },
            SpecType::Generic { .. } => true,
            _ => false,
        }
    }

    /// The operand size of a value of this type; a generic type has none.
    pub open spec fn size(self) -> Option<ValueSize>
        decreases self,
    {
        match self {
            SpecType::U32 => Some(ValueSize::Dword),
            SpecType::U16 => Some(ValueSize::Word),
            SpecType::U8 => Some(ValueSize::Byte),
            SpecType::Generic { .. } => None,
            SpecType::Array { children, .. } => children.size(),
            _ => Some(ValueSize::Qword),
        }
    }

    /// How the type is printed in messages.
    pub open spec fn display(self) -> Seq<char>
        decreases self,
    {
        match self {
            SpecType::U64 => "number"@,
            SpecType::U32 => "u32"@,
            SpecType::U16 => "u16"@,
            SpecType::U8 => "u8"@,
            SpecType::Bool => "<BoolType>[]"@,
            SpecType::Char => "<CharType>[]"@,
            SpecType::String => "string"@,
            SpecType::Function { .. } => "<FunctionType>[]"@,
            SpecType::Void => "void"@,
            SpecType::Pointer { pointee, .. } => "<PointerType>["@ + pointee.display() + "]"@,
            SpecType::Struct { name } => "struct "@ + name,
            SpecType::Generic { name } => "<"@ + name + ">"@,
            SpecType::Ignored => "IgnoredType"@,
            SpecType::F64 => "f64"@,
            SpecType::Extern => "<ExternType>[]"@,
            SpecType::Array { size, children } =>
                "<ArrayType>[Type: "@ + children.display() + ", Size: "@ + decimal(size as nat) + "]"@,
        }
    }
}

/// A type of an Umber value.
#[derive(Debug)]
pub enum ValueType {
    U64(NumberType),
    U32(U32Type),
    U16(U16Type),
    U8(U8Type),
    Bool(BoolType),
    Char(CharType),
    String(StringType),
    Function(FunctionType),
    Void(VoidType),
    Pointer(PointerType),
    Struct(StructType),
    Generic(GenericType),
    Ignored(IgnoredType),
    F64(F64Type),
    Extern(ExternType),
    Array(ArrayType),
}

/// The types in `s`, each as a value.
pub open spec fn types_view(s: Seq<ValueType>) -> Seq<SpecType>
    decreases s,
{
    if s.len() == 0 {
        Seq::empty()
    } else {
        types_view(s.drop_last()).push(s.last().spec_view())
    }
}

/// An optional type as a value.
pub open spec fn opt_type_view(t: Option<ValueType>) -> Option<SpecType> {
    match t {
        Some(t) => Some(t.spec_view()),
        None => None,
    }
}

impl ValueType {
    pub open spec fn spec_view(self) -> SpecType
        decreases self,
    {
        match self {
            ValueType::U64(_) => SpecType::U64,
            ValueType::U32(_) => SpecType::U32,
            ValueType::U16(_) => SpecType::U16,
            ValueType::U8(_) => SpecType::U8,
            ValueType::Bool(_) => SpecType::Bool,
            ValueType::Char(_) => SpecType::Char,
            ValueType::String(_) => SpecType::String,
            ValueType::Function(f) => SpecType::Function {
                args: types_view(f.arg_types@),
                ret: Box::new(f.return_type.spec_view()),
            },
            ValueType::Void(_) => SpecType::Void,
            ValueType::Pointer(p) => SpecType::Pointer {
                pointee: Box::new(p.pointee_type.spec_view()),
                is_mutable: p.is_mutable,
            },
            ValueType::Struct(s) => SpecType::Struct { name: s.name@ },
            ValueType::Generic(g) => SpecType::Generic { name: g.generic_name@ },
            ValueType::Ignored(_) => SpecType::Ignored,
            ValueType::F64(_) => SpecType::F64,
            ValueType::Extern(_) => SpecType::Extern,
            ValueType::Array(a) => SpecType::Array {
                size: a.size,
                children: Box::new(a.children_type.spec_view()),
            },
        }
    }
}

impl View for ValueType {
    type V = SpecType;

    open spec fn view(&self) -> SpecType {
        self.spec_view()
    }
}

/// `types_view` takes each element by its view.
pub proof fn lemma_types_view(s: Seq<ValueType>)
    ensures
        types_view(s).len() == s.len(),
        forall|i: int| 0 <= i < s.len() ==> #[trigger] types_view(s)[i] == s[i]@,
    decreases s.len(),
{
    if s.len() > 0 {
        lemma_types_view(s.drop_last());
    }
}

/// Two sequences of types with equal views of their elements have equal views.
pub proof fn lemma_types_view_eq(s: Seq<ValueType>, t: Seq<ValueType>)
    requires
        s.len() == t.len(),
        forall|i: int| 0 <= i < s.len() ==> #[trigger] s[i]@ == t[i]@,
    ensures
        types_view(s) == types_view(t),
{
    lemma_types_view(s);
    lemma_types_view(t);
    assert(types_view(s) =~= types_view(t));
}

impl ValueType {
    pub fn value_type(&self) -> (r: ValueTypes)
        ensures
            r == self@.kind(),
    {
        match self {
            ValueType::U64(t) => t.value_type(),
            ValueType::U32(t) => t.value_type(),
            ValueType::U16(t) => t.value_type(),
            ValueType::U8(t) => t.value_type(),
            ValueType::Bool(t) => t.value_type(),
            ValueType::Char(t) => t.value_type(),
            ValueType::String(t) => t.value_type(),
            ValueType::Function(t) => t.value_type(),
            ValueType::Void(t) => t.value_type(),
            ValueType::Pointer(t) => t.value_type(),
            ValueType::Struct(t) => t.value_type(),
            ValueType::Generic(t) => t.value_type(),
            ValueType::Ignored(t) => t.value_type(),
            ValueType::F64(t) => t.value_type(),
            ValueType::Extern(t) => t.value_type(),
            ValueType::Array(t) => t.value_type(),
        }
    }

    pub fn eq(&self, other: &ValueType) -> (r: bool)
        ensures
            r == self@.type_eq(other@),
        decreases self,
    {
        match self {
            ValueType::U64(t) => t.eq(other),
            ValueType::U32(t) => t.eq(other),
            ValueType::U16(t) => t.eq(other),
            ValueType::U8(t) => t.eq(other),
            ValueType::Bool(t) => t.eq(other),
            ValueType::Char(t) => t.eq(other),
            ValueType::String(t) => t.eq(other),
            ValueType::Function(t) => t.eq(other),
            ValueType::Void(t) => t.eq(other),
            ValueType::Pointer(t) => t.eq(other),
            ValueType::Struct(t) => t.eq(other),
            ValueType::Generic(t) => t.eq(other),
            ValueType::Ignored(t) => t.eq(other),
            ValueType::F64(t) => t.eq(other),
            ValueType::Extern(t) => t.eq(other),
            ValueType::Array(t) => t.eq(other),
        }
    }

    pub fn is_valid_bin_op(&self, op: &Token, t: &ValueType) -> (r: Option<ValueType>)
        ensures
            opt_type_view(r) == self@.bin_op(op.tok_type, t@),
    {
        match self {
            ValueType::U64(x) => x.is_valid_bin_op(op, t),
            ValueType::U32(x) => x.is_valid_bin_op(op, t),
            ValueType::U16(x) => x.is_valid_bin_op(op, t),
            ValueType::U8(x) => x.is_valid_bin_op(op, t),
            ValueType::Bool(x) => x.is_valid_bin_op(op, t),
            ValueType::Char(x) => x.is_valid_bin_op(op, t),
            ValueType::String(x) => x.is_valid_bin_op(op, t),
            ValueType::Function(x) => x.is_valid_bin_op(op, t),
            ValueType::Void(x) => x.is_valid_bin_op(op, t),
            ValueType::Pointer(x) => x.is_valid_bin_op(op, t),
            ValueType::Struct(x) => x.is_valid_bin_op(op, t),
            ValueType::Generic(x) => x.is_valid_bin_op(op, t),
            ValueType::Ignored(x) => x.is_valid_bin_op(op, t),
            ValueType::F64(x) => x.is_valid_bin_op(op, t),
            ValueType::Extern(x) => x.is_valid_bin_op(op, t),
            ValueType::Array(x) => x.is_valid_bin_op(op, t),
        }
    }

    pub fn is_valid_unary_op(&self, op: &Token) -> (r: Option<ValueType>)
        ensures
            opt_type_view(r) == self@.unary_op(op.tok_type),
    {
        match self {
            ValueType::U64(x) => x.is_valid_unary_op(op),
            ValueType::U32(x) => x.is_valid_unary_op(op),
            ValueType::U16(x) => x.is_valid_unary_op(op),
            ValueType::U8(x) => x.is_valid_unary_op(op),
            ValueType::Bool(x) => x.is_valid_unary_op(op),
            ValueType::Char(x) => x.is_valid_unary_op(op),
            ValueType::String(x) => x.is_valid_unary_op(op),
            ValueType::Function(x) => x.is_valid_unary_op(op),
            ValueType::Void(x) => x.is_valid_unary_op(op),
            ValueType::Pointer(x) => x.is_valid_unary_op(op),
            ValueType::Struct(x) => x.is_valid_unary_op(op),
            ValueType::Generic(x) => x.is_valid_unary_op(op),
            ValueType::Ignored(x) => x.is_valid_unary_op(op),
            ValueType::F64(x) => x.is_valid_unary_op(op),
            ValueType::Extern(x) => x.is_valid_unary_op(op),
            ValueType::Array(x) => x.is_valid_unary_op(op),
        }
    }

    pub fn is_valid_cast(&self, t: &ValueType) -> (r: bool)
        ensures
            r == self@.valid_cast(t@),
    {
        match self {
            ValueType::U64(x) => x.is_valid_cast(t),
            ValueType::U32(x) => x.is_valid_cast(t),
            ValueType::U16(x) => x.is_valid_cast(t),
            ValueType::U8(x) => x.is_valid_cast(t),
            ValueType::Bool(x) => x.is_valid_cast(t),
            ValueType::Char(x) => x.is_valid_cast(t),
            ValueType::String(x) => x.is_valid_cast(t),
            ValueType::Function(x) => x.is_valid_cast(t),
            ValueType::Void(x) => x.is_valid_cast(t),
            ValueType::Pointer(x) => x.is_valid_cast(t),
            ValueType::Struct(x) => x.is_valid_cast(t),
            ValueType::Generic(x) => x.is_valid_cast(t),
            ValueType::Ignored(x) => x.is_valid_cast(t),
            ValueType::F64(x) => x.is_valid_cast(t),
            ValueType::Extern(x) => x.is_valid_cast(t),
            ValueType::Array(x) => x.is_valid_cast(t),
        }
    }

    /// A copy of this type.
    pub fn box_clone(&self) -> (r: ValueType)
        ensures
            r@ == self@,
        decreases self,
    {
        match self {
            ValueType::U64(x) => x.box_clone(),
            ValueType::U32(x) => x.box_clone(),
            ValueType::U16(x) => x.box_clone(),
            ValueType::U8(x) => x.box_clone(),
            ValueType::Bool(x) => x.box_clone(),
            ValueType::Char(x) => x.box_clone(),
            ValueType::String(x) => x.box_clone(),
            ValueType::Function(x) => x.box_clone(),
            ValueType::Void(x) => x.box_clone(),
            ValueType::Pointer(x) => x.box_clone(),
            ValueType::Struct(x) => x.box_clone(),
            ValueType::Generic(x) => x.box_clone(),
            ValueType::Ignored(x) => x.box_clone(),
            ValueType::F64(x) => x.box_clone(),
            ValueType::Extern(x) => x.box_clone(),
            ValueType::Array(x) => x.box_clone(),
        }
    }

    /// The operand size of a value of this type; a generic type has none.
    pub fn get_size(&self) -> (r: ValueSize)
        requires
            self@.size() is Some,
        ensures
            r == self@.size()->0,
        decreases self,
    {
        match self {
            ValueType::U64(x) => x.get_size(),
            ValueType::U32(x) => x.get_size(),
            ValueType::U16(x) => x.get_size(),
            ValueType::U8(x) => x.get_size(),
            ValueType::Bool(x) => x.get_size(),
            ValueType::Char(x) => x.get_size(),
            ValueType::String(x) => x.get_size(),
            ValueType::Function(x) => x.get_size(),
            ValueType::Void(x) => x.get_size(),
            ValueType::Pointer(x) => x.get_size(),
            ValueType::Struct(x) => x.get_size(),
            ValueType::Generic(_) => unreached(),
            ValueType::Ignored(x) => x.get_size(),
            ValueType::F64(x) => x.get_size(),
            ValueType::Extern(x) => x.get_size(),
            ValueType::Array(x) => x.get_size(),
        }
    }

    /// The type as it is printed in messages.
    pub fn to_string(&self) -> (r: String)
        ensures
            r@ == self@.display(),
        decreases self,
    {
        match self {
            ValueType::U64(x) => x.to_string(),
            ValueType::U32(x) => x.to_string(),
            ValueType::U16(x) => x.to_string(),
            ValueType::U8(x) => x.to_string(),
            ValueType::Bool(x) => x.to_string(),
            ValueType::Char(x) => x.to_string(),
            ValueType::String(x) => x.to_string(),
            ValueType::Function(x) => x.to_string(),
            ValueType::Void(x) => x.to_string(),
            ValueType::Pointer(x) => x.to_string(),
            ValueType::Struct(x) => x.to_string(),
            ValueType::Generic(x) => x.to_string(),
            ValueType::Ignored(x) => x.to_string(),
            ValueType::F64(x) => x.to_string(),
            ValueType::Extern(x) => x.to_string(),
            ValueType::Array(x) => x.to_string(),
        }
    }
}

/// One of the four integer types.
pub open spec fn is_integer_type(t: SpecType) -> bool {
    t == SpecType::U64 || t == SpecType::U32 || t == SpecType::U16 || t == SpecType::U8
}

/// The operators on an integer type: two values of the same integer type
/// compare (`==`, `!=`, `<`, `>`, `<=`, `>=`) to a boolean, and combine by
/// the arithmetic and bit operators (`+`, `-`, `*`, `/`, `%`, `|`, `&`,
/// `^`, `<<`, `>>`) to a value of that type; no other operator applies, and
/// no operator applies to an integer and a value of another type. The
/// prefix operators `-`, `+` and `~` give a value of the same type.
pub proof fn law_integer_operators(t: SpecType, u: SpecType, op: TokenType)
    requires
        is_integer_type(t),
    ensures
        u != t ==> t.bin_op(op, u) is None,
        (op == TokenType::Ee || op == TokenType::Ne || op == TokenType::Lt || op == TokenType::Gt || op
            == TokenType::Lte || op == TokenType::Gte) ==> t.bin_op(op, t) == Some(SpecType::Bool),
        (op == TokenType::Plus || op == TokenType::Minus || op == TokenType::Mul || op == TokenType::Div || op
            == TokenType::Modulo || op == TokenType::BitOr || op == TokenType::BitAnd || op == TokenType::BitXor
            || op == TokenType::BitShl || op == TokenType::BitShr) ==> t.bin_op(op, t) == Some(t),
        !(op == TokenType::Ee || op == TokenType::Ne || op == TokenType::Lt || op == TokenType::Gt || op
            == TokenType::Lte || op == TokenType::Gte || op == TokenType::Plus || op == TokenType::Minus || op
            == TokenType::Mul || op == TokenType::Div || op == TokenType::Modulo || op == TokenType::BitOr || op
            == TokenType::BitAnd || op == TokenType::BitXor || op == TokenType::BitShl || op == TokenType::BitShr)
            ==> t.bin_op(op, t) is None,
        t.unary_op(op) == (if op == TokenType::Minus || op == TokenType::Plus || op == TokenType::BitNot {
            Some(t)
        } else {
            None
        }),
{
}

/// The operators on booleans: two booleans combine by `||` and `&&`, and
/// compare by `==`, `!=`, `<`, `>`, `<=`, `>=`, to a boolean; no other
/// operator applies, and none applies to a boolean and a value of another
/// kind. The prefix `!` gives a boolean, and no other prefix applies.
pub proof fn law_boolean_operators(u: SpecType, op: TokenType)
    ensures
        u.kind() != ValueTypes::Bool ==> SpecType::Bool.bin_op(op, u) is None,
        SpecType::Bool.bin_op(op, SpecType::Bool) == (if op == TokenType::Or || op == TokenType::And || op
            == TokenType::Ee || op == TokenType::Ne || op == TokenType::Lt || op == TokenType::Gt || op
            == TokenType::Lte || op == TokenType::Gte {
            Some(SpecType::Bool)
        } else {
            None
        }),
        SpecType::Bool.unary_op(op) == (if op == TokenType::Not { Some(SpecType::Bool) } else { None }),
{
}

/// The casts from integers: `u64` casts to a boolean, a pointer or a
/// character; `u32`, `u16` and `u8` cast to those and to each other integer
/// type; no integer casts to a string, a function, a structure or `void`.
pub proof fn law_integer_casts(t: SpecType, u: SpecType)
    requires
        is_integer_type(t),
    ensures
        (u.kind() == ValueTypes::Bool || u.kind() == ValueTypes::Pointer || u.kind() == ValueTypes::Char)
            ==> t.valid_cast(u),
        (t != SpecType::U64 && is_integer_type(u) && u != t) ==> t.valid_cast(u),
        (t == SpecType::U64 && is_integer_type(u)) ==> !t.valid_cast(u),
        (u.kind() == ValueTypes::String || u.kind() == ValueTypes::Function || u.kind() == ValueTypes::Struct
            || u.kind() == ValueTypes::Void) ==> !t.valid_cast(u),
{
}

/// Every type equals itself.
pub proof fn law_type_eq_reflexive(t: SpecType)
    ensures
        t.type_eq(t),
    decreases t,
{
    match t {
        SpecType::Pointer { pointee, .. } => law_type_eq_reflexive(*pointee),
        SpecType::Array { children, .. } => law_type_eq_reflexive(*children),
        _ => {},
    }
}

/// Type equality does not depend on the order of the two types.
pub proof fn law_type_eq_symmetric(a: SpecType, b: SpecType)
    ensures
        a.type_eq(b) == b.type_eq(a),
    decreases a,
{
    match (a, b) {
        (SpecType::Pointer { pointee: p, .. }, SpecType::Pointer { pointee: q, .. }) => law_type_eq_symmetric(*p, *q),
        (SpecType::Array { children: p, .. }, SpecType::Array { children: q, .. }) => law_type_eq_symmetric(*p, *q),
        _ => {},
    }
}

} // verus!
