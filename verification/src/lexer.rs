//! Tokens, the source spans that they carry, and the tokenizer.

pub mod lexer;
pub mod rules;
pub mod span;
pub mod token;
