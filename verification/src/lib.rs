//! Lexical front end of a small scripting language: source text in, classified tokens and
//! line-numbered diagnostics out.
//!
//! [`grammar`] states what the tokens and diagnostics of a text are, [`scanner`] computes
//! them, and [`laws`] proves what follows for every text.

pub mod cli;
pub mod error;
pub mod expr;
pub mod grammar;
pub mod laws;
pub mod scanner;
pub mod text;
pub mod token;
