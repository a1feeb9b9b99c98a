//! The syntax tree and the parser that builds it.

pub mod ast;
pub mod cloning;
pub mod grammar;
pub mod laws;
pub mod parser;
