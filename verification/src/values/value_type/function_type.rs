//! Function types.
use vstd::prelude::*;
use crate::token::Token;
use crate::values::value_size::ValueSize;
use crate::values::value_type::{ValueType, ValueTypes, SpecType, opt_type_view, types_view, lemma_types_view_eq};

verus! {

/// The type of a function from `arg_types` to `return_type`.
#[derive(Debug)]
pub struct FunctionType {
    pub arg_types: Vec<ValueType>,
    pub return_type: Box<ValueType>,
}

impl View for FunctionType {
    type V = SpecType;

    open spec fn view(&self) -> SpecType {
        SpecType::Function { args: types_view(self.arg_types@), ret: Box::new(self.return_type.spec_view()) }
    }
}

/// A copy of each type in `v`, in order.
pub fn clone_types(v: &Vec<ValueType>) -> (r: Vec<ValueType>)
    ensures
        types_view(r@) == types_view(v@),
    decreases v,
{
    let mut r: Vec<ValueType> = Vec::new();
    let mut i: usize = 0;
    while i < v.len()
        invariant
            i <= v.len(),
            r@.len() == i,
            forall|j: int| 0 <= j < i ==> #[trigger] r@[j]@ == v@[j]@,
        decreases v.len() - i,
    {
        proof {
            assert(decreases_to!(v => v@));
            assert(decreases_to!(v@ => v@[i as int]));
        }
        r.push(v[i].box_clone());
        i = i + 1;
    }
    proof {
        lemma_types_view_eq(r@, v@);
    }
    r
}

impl FunctionType {
    pub fn new(arg_types: Vec<ValueType>, return_type: ValueType) -> (r: Self)
        ensures
            r.arg_types == arg_types,
            *r.return_type == return_type,
    {
        FunctionType { arg_types, return_type: Box::new(return_type) }
    }

    pub fn arg_types(&self) -> (r: &Vec<ValueType>)
        ensures
            *r == self.arg_types,
    {
        &self.arg_types
    }

    pub fn return_type(&self) -> (r: &ValueType)
        ensures
            *r == *self.return_type,
    {
        &self.return_type
    }

    pub fn value_type(&self) -> (r: ValueTypes)
        ensures
            r == self@.kind(),
    {
        ValueTypes::Function
    }

    /// Any two function types are equal, whatever their signatures.
    pub fn eq(&self, other: &ValueType) -> (r: bool)
        ensures
            r == self@.type_eq(other@),
    {
        self.value_type() == other.value_type()
    }

    pub fn is_valid_bin_op(&self, _op: &Token, _t: &ValueType) -> (r: Option<ValueType>)
        ensures
            opt_type_view(r) == self@.bin_op(_op.tok_type, _t@),
    {
        None
    }

    pub fn is_valid_unary_op(&self, _op: &Token) -> (r: Option<ValueType>)
        ensures
            opt_type_view(r) == self@.unary_op(_op.tok_type),
    {
        None
    }

    pub fn is_valid_cast(&self, _t: &ValueType) -> (r: bool)
        ensures
            r == self@.valid_cast(_t@),
    {
        false
    }

    pub fn box_clone(&self) -> (r: ValueType)
        ensures
            r@ == self@,
        decreases self,
    {
        let args = clone_types(&self.arg_types);
        ValueType::Function(FunctionType::new(args, self.return_type.box_clone()))
    }

    pub fn get_size(&self) -> (r: ValueSize)
        ensures
            self@.size() == Some(r),
    {
        ValueSize::Qword
    }

    /// The type as it is printed in messages.
    pub fn to_string(&self) -> (r: String)
        ensures
            r@ == self@.display(),
    {
        String::from_str("<FunctionType>[]")
    }
}

} // verus!
