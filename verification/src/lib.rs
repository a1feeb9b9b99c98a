//! Front end of the Pulse compiler: a tokenizer, the token and syntax-tree
//! model, a recursive-descent parser for function declarations, and a
//! resolver that checks names, mutability and types over a stack of lexical
//! scopes.
//!
//! Every data type has a mathematical view, and the contract of every
//! function is stated over those views: `lexer::rules` says what the tokens
//! of a text are, `ast::grammar` what tree a token sequence stands for, and
//! `resolver::rules` what the first error of a tree is. What follows from
//! these is proved in `ast::laws`, `resolver::laws` and
//! `resolver::soundness`.

pub mod ast;
pub mod error;
pub mod lexer;
pub mod project;
pub mod resolver;
