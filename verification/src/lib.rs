//! The front end of the Umber compiler: tokens, positions, the type system,
//! the syntax tree, the recursive-descent parser and the semantic validator,
//! together with a few back-end tables and a small stack machine.
pub mod text;
pub mod utils;
pub mod position;
pub mod token;
pub mod values;
pub mod error;
pub mod nodes;
pub mod symbol_table;
pub mod results;
pub mod semantics;
pub mod syscall;
pub mod symboltable;
pub mod parser;
pub mod runtime;
pub mod preprocessor;
pub mod paths;
