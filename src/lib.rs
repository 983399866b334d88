//! The front end of a small C-like scripting language: a scanner from source
//! text to tokens and a recursive-descent parser from tokens to a syntax tree.
//!
//! `lexical` and `grammar` state, as spec functions, what the scanner and the
//! parser compute; `tokenizer` and `parser` are proved to compute exactly
//! that, and `laws` proves properties of the two.
pub mod ast;
pub mod grammar;
pub mod laws;
pub mod lexical;
pub mod parser;
pub mod progress;
pub mod text;
pub mod token;
pub mod tokenizer;
