//! Assignments to a variable.
use vstd::prelude::*;
use crate::nodes::Node;
use crate::position::Position;

verus! {

/// `var_name = value_node`, starting at `pos_start`.
#[derive(Debug)]
pub struct VarAssignNode {
    pub var_name: String,
    pub value_node: Box<Node>,
    pub pos_start: Position,
}

impl VarAssignNode {
    pub fn new(var_name: String, value_node: Node, pos_start: Position) -> (r: Self)
        ensures
            r.var_name == var_name,
            *r.value_node == value_node,
            r.pos_start == pos_start,
    {
        VarAssignNode { var_name, value_node: Box::new(value_node), pos_start }
    }

    pub fn var_name(&self) -> (r: &str)
        ensures
            r@ == self.var_name@,
    {
        self.var_name.as_str()
    }

    pub fn value_node(&self) -> (r: &Node)
        ensures
            *r == *self.value_node,
    {
        &self.value_node
    }

    pub fn pos_start(&self) -> (r: &Position)
        ensures
            *r == self.pos_start,
    {
        &self.pos_start
    }
}

} // verus!
