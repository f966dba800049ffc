//! The result of a validation function.
use vstd::prelude::*;
use crate::error::{self, Error, SpecError, sem_err};
use crate::nodes::empty_pos;
use crate::nodes::{Node, SpecNode};
use crate::position::Position;
use crate::values::value_type::{ValueType, ValueTypes, SpecType, opt_type_view};

verus! {

/// A validation result as a value: its error, type, node and return type.
pub struct VRes {
    pub error: Option<SpecError>,
    pub value_type: Option<SpecType>,
    pub node: Option<SpecNode>,
    pub return_type: Option<SpecType>,
}

/// An optional node as a value.
pub open spec fn opt_node_view(n: Option<Node>) -> Option<SpecNode> {
    match n {
        Some(n) => Some(n@),
        None => None,
    }
}

/// An optional error as a value.
pub open spec fn opt_error_view(e: Option<Error>) -> Option<SpecError> {
    match e {
        Some(e) => Some(e@),
        None => None,
    }
}

/// The error that a structure type as a result gives.
pub open spec fn struct_result_error() -> SpecError {
    sem_err(empty_pos(), empty_pos(), "Structs are not allowed as return types"@)
}

/// A fresh result.
pub open spec fn vres_new() -> VRes {
    VRes { error: None, value_type: None, node: None, return_type: None }
}

/// `register_res` of `child` into `parent`: the new parent and the type and
/// node handed back.
pub open spec fn vres_register(parent: VRes, child: VRes) -> (VRes, Option<SpecType>, Option<SpecNode>) {
    if child.error is Some {
        (VRes { error: child.error, ..parent }, None, None)
    } else {
        let p = VRes { return_type: child.return_type, ..parent };
        if child.value_type is None || child.node is None {
            (p, None, None)
        } else {
            (p, child.value_type, child.node)
        }
    }
}

/// `success` with type `t` and node `n`: a structure type is refused.
pub open spec fn vres_success(r: VRes, t: SpecType, n: SpecNode) -> VRes {
    VRes {
        error: if t.kind() == ValueTypes::Struct { Some(struct_result_error()) } else { r.error },
        value_type: Some(t),
        node: Some(n),
        return_type: r.return_type,
    }
}

/// `failure` with the error `e`.
pub open spec fn vres_failure(r: VRes, e: SpecError) -> VRes {
    VRes { error: Some(e), ..r }
}

/// `success_return` with type `t`.
pub open spec fn vres_success_return(r: VRes, t: SpecType) -> VRes {
    VRes { return_type: Some(t), ..r }
}

/// What a validation function produced: a type and a rewritten node, or an
/// error; and the type of a `return` it met.
#[derive(Debug)]
pub struct ValidationResult {
    pub error: Option<Error>,
    pub value_type: Option<ValueType>,
    pub node: Option<Node>,
    pub return_type: Option<ValueType>,
}

impl View for ValidationResult {
    type V = VRes;

    open spec fn view(&self) -> VRes {
        VRes {
            error: opt_error_view(self.error),
            value_type: opt_type_view(self.value_type),
            node: opt_node_view(self.node),
            return_type: opt_type_view(self.return_type),
        }
    }
}

impl ValidationResult {
    pub fn new() -> (r: Self)
        ensures
            r@ == vres_new(),
    {
        ValidationResult { error: None, value_type: None, node: None, return_type: None }
    }

    /// Takes over the error of `res`, or else its return type; hands back its
    /// type and node when it has both and no error.
    pub fn register_res(&mut self, res: ValidationResult) -> (r: (Option<ValueType>, Option<Node>))
        ensures
            (final(self)@, opt_type_view(r.0), opt_node_view(r.1)) == vres_register(old(self)@, res@),
            res.error is None && res.value_type is Some && res.node is Some ==> r.0 == res.value_type && r.1
                == res.node,
    {
        if res.has_error() {
            self.error = res.error;
            return (None, None);
        }

        self.return_type = res.return_type;

        if res.value_type.is_none() || res.node.is_none() {
            return (None, None);
        }

        return (res.value_type, res.node);
    }

    /// Records the type and node; a structure type is refused.
    pub fn success(&mut self, value_type: ValueType, node: Node)
        ensures
            final(self)@ == vres_success(old(self)@, value_type@, node@),
    {
        if value_type.value_type() == ValueTypes::Struct {
            self.error = Some(error::semantic_error(
                Position::empty(),
                Position::empty(),
                "Structs are not allowed as return types",
            ));
        }

        self.value_type = Some(value_type);
        self.node = Some(node);
    }

    pub fn success_return(&mut self, return_type: ValueType)
        ensures
            final(self)@ == vres_success_return(old(self)@, return_type@),
    {
        self.return_type = Some(return_type);
    }

    pub fn failure(&mut self, error: Error)
        ensures
            final(self)@ == vres_failure(old(self)@, error@),
    {
        self.error = Some(error);
    }

    pub fn has_error(&self) -> (r: bool)
        ensures
            r == (self.error is Some),
    {
        self.error.is_some()
    }

    pub fn has_value_type(&self) -> (r: bool)
        ensures
            r == (self.value_type is Some),
    {
        self.value_type.is_some()
    }

    pub fn has_node(&self) -> (r: bool)
        ensures
            r == (self.node is Some),
    {
        self.node.is_some()
    }

    pub fn has_return_type(&self) -> (r: bool)
        ensures
            r == (self.return_type is Some),
    {
        self.return_type.is_some()
    }

    pub fn value_type(&self) -> (r: &Option<ValueType>)
        ensures
            *r == self.value_type,
    {
        &self.value_type
    }

    pub fn return_type(&self) -> (r: &Option<ValueType>)
        ensures
            *r == self.return_type,
    {
        &self.return_type
    }

    pub fn node(&self) -> (r: &Option<Node>)
        ensures
            *r == self.node,
    {
        &self.node
    }

    pub fn error(&self) -> (r: &Option<Error>)
        ensures
            *r == self.error,
    {
        &self.error
    }
}

} // verus!
