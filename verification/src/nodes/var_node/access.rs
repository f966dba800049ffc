//! Reads of a variable.
use vstd::prelude::*;
use crate::position::Position;

verus! {

/// A read of `var_name` between two positions.
#[derive(Debug)]
pub struct VarAccessNode {
    pub var_name: String,
    pub pos_start: Position,
    pub pos_end: Position,
}

impl VarAccessNode {
    pub fn new(var_name: String, pos_start: Position, pos_end: Position) -> (r: Self)
        ensures
            r.var_name == var_name,
            r.pos_start == pos_start,
            r.pos_end == pos_end,
    {
        VarAccessNode { var_name, pos_start, pos_end }
    }

    pub fn var_name(&self) -> (r: &str)
        ensures
            r@ == self.var_name@,
    {
        self.var_name.as_str()
    }

    pub fn pos_start(&self) -> (r: &Position)
        ensures
            *r == self.pos_start,
    {
        &self.pos_start
    }

    pub fn pos_end(&self) -> (r: &Position)
        ensures
            *r == self.pos_end,
    {
        &self.pos_end
    }
}

} // verus!
