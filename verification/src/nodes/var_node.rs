//! Variable nodes: declarations, accesses and assignments, before and after
//! type checking.
pub mod access;
pub mod declare;
pub mod typed_access;
pub mod typed_assign;
