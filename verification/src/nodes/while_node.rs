//! `while` loops.
use vstd::prelude::*;
use crate::nodes::Node;

verus! {

/// A loop that runs `body_node` while `condition_node` holds.
#[derive(Debug)]
pub struct WhileNode {
    pub condition_node: Box<Node>,
    pub body_node: Box<Node>,
}

impl WhileNode {
    pub fn new(condition_node: Node, body_node: Node) -> (r: Self)
        ensures
            *r.condition_node == condition_node,
            *r.body_node == body_node,
    {
        WhileNode { condition_node: Box::new(condition_node), body_node: Box::new(body_node) }
    }

    pub fn condition_node(&self) -> (r: &Node)
        ensures
            *r == *self.condition_node,
    {
        &self.condition_node
    }

    pub fn body_node(&self) -> (r: &Node)
        ensures
            *r == *self.body_node,
    {
        &self.body_node
    }
}

} // verus!
