//! The result of a parsing function.
use vstd::prelude::*;
use crate::error::Error;
use crate::nodes::Node;

verus! {

/// What a parsing function produced: a node or an error, and how many
/// tokens it moved over.
#[derive(Debug)]
pub struct ParseResult {
    error: Option<Error>,
    node: Option<Node>,
    last_registered_advance_count: usize,
    advance_count: usize,
    to_reverse_count: usize,
}

/// A parse result as a value.
pub struct ParseResultView {
    pub error: Option<Error>,
    pub node: Option<Node>,
    pub last_registered_advance_count: usize,
    pub advance_count: usize,
    pub to_reverse_count: usize,
}

impl View for ParseResult {
    type V = ParseResultView;

    closed spec fn view(&self) -> ParseResultView {
        ParseResultView {
            error: self.error,
            node: self.node,
            last_registered_advance_count: self.last_registered_advance_count,
            advance_count: self.advance_count,
            to_reverse_count: self.to_reverse_count,
        }
    }
}

/// `n + 1`, or `n` where that does not fit.
pub open spec fn count_up(n: usize) -> usize {
    if n < usize::MAX { (n + 1) as usize } else { n }
}

impl ParseResult {
    /// No result asks for tokens to be given back: the count starts at zero,
    /// and the only method that changes it copies it from another result.
    #[verifier::type_invariant]
    spec fn nothing_to_reverse(self) -> bool {
        self.to_reverse_count == 0
    }

    pub fn new() -> (r: Self)
        ensures
            r@.error is None,
            r@.node is None,
            r@.last_registered_advance_count == 0,
            r@.advance_count == 0,
            r@.to_reverse_count == 0,
    {
        ParseResult {
            error: None,
            node: None,
            last_registered_advance_count: 0,
            advance_count: 0,
            to_reverse_count: 0,
        }
    }

    /// Counts one token moved over; the count stays at its maximum once there.
    pub fn register_advancement(&mut self)
        ensures
            final(self)@.last_registered_advance_count == 1,
            final(self)@.advance_count == count_up(old(self)@.advance_count),
            final(self)@.error == old(self)@.error,
            final(self)@.node == old(self)@.node,
            final(self)@.to_reverse_count == old(self)@.to_reverse_count,
    {
        proof {
            use_type_invariant(&*self);
        }
        self.last_registered_advance_count = 1;
        self.advance_count = self.advance_count.saturating_add(1);
    }

    /// Takes over the counts of `res`, and its error if it has one; gives
    /// back its node when it has no error.
    pub fn register_res(&mut self, res: ParseResult) -> (r: Option<Node>)
        ensures
            final(self)@.last_registered_advance_count == res@.last_registered_advance_count,
            final(self)@.advance_count == res@.advance_count,
            final(self)@.to_reverse_count == old(self)@.to_reverse_count,
            final(self)@.node == old(self)@.node,
            final(self)@.error == (if res@.error is Some { res@.error } else { old(self)@.error }),
            r == (if res@.error is Some { None } else { res@.node }),
    {
        proof {
            use_type_invariant(&*self);
            use_type_invariant(&res);
        }
        self.last_registered_advance_count = res.last_registered_advance_count;
        self.advance_count = res.advance_count;

        if res.has_error() {
            self.error = res.error;
            return None;
        }

        if !res.has_node() {
            return None;
        }

        return res.node;
    }

    /// Like `register_res`, but an error of `res` is handed back instead of
    /// being taken over.
    pub fn try_register_res(&mut self, res: ParseResult) -> (r: (Option<Node>, Option<Error>))
        ensures
            res@.error is Some ==> {
                &&& r.0 is None
                &&& r.1 == res@.error
                &&& final(self)@ == (ParseResultView { to_reverse_count: res@.to_reverse_count, ..old(self)@ })
            },
            res@.error is None ==> {
                &&& r.0 == res@.node
                &&& r.1 is None
                &&& final(self)@ == (ParseResultView {
                    last_registered_advance_count: res@.last_registered_advance_count,
                    advance_count: res@.advance_count,
                    ..old(self)@
                })
            },
    {
        proof {
            use_type_invariant(&*self);
            use_type_invariant(&res);
        }
        if res.has_error() {
            self.to_reverse_count = res.to_reverse_count;
            return (None, res.error);
        }
        return (self.register_res(res), None);
    }

    pub fn success(&mut self, node: Node)
        ensures
            final(self)@ == (ParseResultView { node: Some(node), ..old(self)@ }),
    {
        proof {
            use_type_invariant(&*self);
        }
        self.node = Some(node);
    }

    pub fn failure(&mut self, error: Error)
        ensures
            final(self)@ == (ParseResultView { error: Some(error), ..old(self)@ }),
    {
        proof {
            use_type_invariant(&*self);
        }
        self.error = Some(error);
    }

    pub fn has_error(&self) -> (r: bool)
        ensures
            r == (self@.error is Some),
    {
        return self.error.is_some();
    }

    pub fn has_node(&self) -> (r: bool)
        ensures
            r == (self@.node is Some),
    {
        return self.node.is_some();
    }

    pub fn node(&self) -> (r: &Option<Node>)
        ensures
            *r == self@.node,
    {
        return &self.node;
    }

    pub fn error(&self) -> (r: &Option<Error>)
        ensures
            *r == self@.error,
    {
        return &self.error;
    }

    /// How many tokens the parser must give back: always zero, since a
    /// result is only ever made by `new` and changed by the methods here.
    pub fn to_reverse_count(&self) -> (r: usize)
        ensures
            r == self@.to_reverse_count,
            r == 0,
    {
        proof {
            use_type_invariant(self);
        }
        self.to_reverse_count
    }
}

} // verus!
