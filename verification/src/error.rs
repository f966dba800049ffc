//! Errors reported by the parser and the validator.
use vstd::prelude::*;
use crate::position::{Position, SpecPosition};
use crate::text::string_of;

verus! {

#[derive(Debug, PartialEq, Eq, Structural, Copy, Clone)]
pub enum ErrorKind {
    InvalidSyntax,
    Semantic,
    Io,
}

/// An error of some kind between two positions, with a message and,
/// optionally, the error that caused it.
#[derive(Debug)]
pub struct Error {
    pub kind: ErrorKind,
    pub pos_start: Position,
    pub pos_end: Position,
    pub details: String,
    pub parent: Option<Box<Error>>,
}

/// An error as a value.
pub struct SpecError {
    pub kind: ErrorKind,
    pub pos_start: SpecPosition,
    pub pos_end: SpecPosition,
    pub details: Seq<char>,
    pub parent: Option<Box<SpecError>>,
}

/// A semantic error with no cause, as a value.
pub open spec fn sem_err(pos_start: SpecPosition, pos_end: SpecPosition, details: Seq<char>) -> SpecError {
    SpecError { kind: ErrorKind::Semantic, pos_start, pos_end, details, parent: None }
}

/// A semantic error caused by `parent`, as a value.
pub open spec fn sem_err_with_parent(pos_start: SpecPosition, pos_end: SpecPosition, details: Seq<char>, parent: SpecError) -> SpecError {
    SpecError { kind: ErrorKind::Semantic, pos_start, pos_end, details, parent: Some(Box::new(parent)) }
}

impl Error {
    pub open spec fn spec_view(self) -> SpecError
        decreases self,
    {
        SpecError {
            kind: self.kind,
            pos_start: self.pos_start@,
            pos_end: self.pos_end@,
            details: self.details@,
            parent: match self.parent {
                Some(p) => Some(Box::new(p.spec_view())),
                None => None,
            },
        }
    }
}

impl View for Error {
    type V = SpecError;

    open spec fn view(&self) -> SpecError {
        self.spec_view()
    }
}

impl Clone for Error {
    fn clone(&self) -> (r: Self)
        ensures
            r == *self,
        decreases self,
    {
        Error {
            kind: self.kind,
            pos_start: self.pos_start.clone(),
            pos_end: self.pos_end.clone(),
            details: self.details.clone(),
            parent: match &self.parent {
                Some(p) => Some(Box::new((**p).clone())),
                None => None,
            },
        }
    }
}

impl Error {
    pub fn new(kind: ErrorKind, pos_start: Position, pos_end: Position, details: &str, parent: Option<Error>) -> (r: Error)
        ensures
            r.kind == kind,
            r.pos_start == pos_start,
            r.pos_end == pos_end,
            r.details@ == details@,
            r.parent == (match parent { Some(p) => Some(Box::new(p)), None => None::<Box<Error>> }),
    {
        Error {
            kind,
            pos_start,
            pos_end,
            details: string_of(details),
            parent: match parent {
                Some(p) => Some(Box::new(p)),
                None => None,
            },
        }
    }

    pub fn kind(&self) -> (r: ErrorKind)
        ensures
            r == self.kind,
    {
        self.kind
    }

    pub fn details(&self) -> (r: &str)
        ensures
            r@ == self.details@,
    {
        self.details.as_str()
    }

    pub fn parent(&self) -> (r: &Option<Box<Error>>)
        ensures
            *r == self.parent,
    {
        &self.parent
    }
}

pub fn invalid_syntax_error(pos_start: Position, pos_end: Position, details: &str) -> (r: Error)
    ensures
        r.kind == ErrorKind::InvalidSyntax,
        r.pos_start == pos_start,
        r.pos_end == pos_end,
        r.details@ == details@,
        r.parent is None,
{
    Error::new(ErrorKind::InvalidSyntax, pos_start, pos_end, details, None)
}

pub fn invalid_syntax_error_with_parent(pos_start: Position, pos_end: Position, details: &str, parent: Error) -> (r: Error)
    ensures
        r.kind == ErrorKind::InvalidSyntax,
        r.pos_start == pos_start,
        r.pos_end == pos_end,
        r.details@ == details@,
        r.parent == Some(Box::new(parent)),
{
    Error::new(ErrorKind::InvalidSyntax, pos_start, pos_end, details, Some(parent))
}

pub fn semantic_error(pos_start: Position, pos_end: Position, details: &str) -> (r: Error)
    ensures
        r.kind == ErrorKind::Semantic,
        r.pos_start == pos_start,
        r.pos_end == pos_end,
        r.details@ == details@,
        r.parent is None,
        r@ == sem_err(pos_start@, pos_end@, details@),
{
    Error::new(ErrorKind::Semantic, pos_start, pos_end, details, None)
}

pub fn semantic_error_with_parent(pos_start: Position, pos_end: Position, details: &str, parent: Error) -> (r: Error)
    ensures
        r.kind == ErrorKind::Semantic,
        r.pos_start == pos_start,
        r.pos_end == pos_end,
        r.details@ == details@,
        r.parent == Some(Box::new(parent)),
        r@ == sem_err_with_parent(pos_start@, pos_end@, details@, parent@),
{
    Error::new(ErrorKind::Semantic, pos_start, pos_end, details, Some(parent))
}

pub fn io_error(pos_start: Position, pos_end: Position, details: &str) -> (r: Error)
    ensures
        r.kind == ErrorKind::Io,
        r.pos_start == pos_start,
        r.pos_end == pos_end,
        r.details@ == details@,
        r.parent is None,
{
    Error::new(ErrorKind::Io, pos_start, pos_end, details, None)
}

} // verus!
