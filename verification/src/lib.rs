//! Lexical front end for a small scripting language: source text in, a flat
//! sequence of typed tokens out, with precise source positions for
//! diagnostics.
//!
//! The behaviour of the executable scanner is pinned to a mathematical model
//! of the whole pass, `model::spec_tokenize`: a spec-level lexer over the
//! source's characters. `Lexer::tokenise` is proved to return exactly what
//! the model says, token fields and error diagnostics included.

pub mod ast;
pub mod diag;
pub mod lexer;
pub mod model;
pub mod parser;
pub mod props;
mod text;
pub mod token;
