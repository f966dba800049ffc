//! The first, smaller type system of the language: kinds of values and the
//! operators each kind allows.
use vstd::prelude::*;
use crate::token::Token;

verus! {

/// The kind of a value.
#[derive(Debug, PartialEq, Eq, Structural, Copy, Clone)]
pub enum ValueTypes {
    Number,
    Bool,
    String,
    Function,
    Void,
    Array,
}

/// A type of this type system.
pub trait ValueType {
    /// The kind of the type, as a value.
    spec fn kind(&self) -> ValueTypes;

    /// The kind of the type.
    fn value_type(&self) -> (r: ValueTypes)
        ensures
            r == self.kind();

    /// Whether a type of the kind `other` is the same type as this one: it
    /// is exactly when the kinds are the same.
    fn eq(&self, other: ValueTypes) -> (r: bool)
        ensures
            r == (self.kind() == other);

    /// A boxed copy of the type.
    fn box_clone(&self) -> (r: Box<Self>)
        ensures
            r.kind() == self.kind();

    /// The kind of `self op t`, or `None` where the operation is not allowed.
    fn is_valid_bin_op(&self, op: &Token, t: ValueTypes) -> Option<ValueTypes>;

    /// The kind of `op self`, or `None` where the operation is not allowed.
    fn is_valid_unary_op(&self, op: &Token) -> Option<ValueTypes>;
}

} // verus!
