//! Symbols as the validator records them.
use vstd::prelude::*;
use crate::values::value_type::ValueType;

verus! {

/// A declared name: its type and whether it may be assigned to.
#[derive(Debug)]
pub struct Symbol {
    pub value_type: ValueType,
    pub is_mutable: bool,
}

impl Symbol {
    pub fn new(value_type: ValueType, is_mutable: bool) -> (r: Self)
        ensures
            r.value_type == value_type,
            r.is_mutable == is_mutable,
    {
        Symbol { value_type, is_mutable }
    }

    pub fn is_mutable(&self) -> (r: bool)
        ensures
            r == self.is_mutable,
    {
        self.is_mutable
    }

    pub fn value_type(&self) -> (r: &ValueType)
        ensures
            *r == self.value_type,
    {
        &self.value_type
    }
}

} // verus!
