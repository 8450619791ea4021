//! The evaluator core of a small Lisp-family language: an expression tree,
//! a chained lexical environment, exact-rational arithmetic, and a recursive
//! evaluator with quotation handling.

pub mod ast;
pub mod default_env;
pub mod env;
pub mod error;
pub mod eval;
pub mod laws;
pub mod rational;
pub mod render;
pub mod value;
