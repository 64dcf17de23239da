//! A lexer for the Huff language: it turns the text of a `.huff` source file
//! into a stream of tokens, tracking a small context machine that decides how
//! identifiers, hex literals and parentheses are read.
//!
//! - `token`: tokens, spans, errors and their mathematical views;
//! - `chars`, `text`, `words`, `values`, `patterns`: character classes, text
//!   helpers, the Huff vocabulary, values read from words, regular expressions;
//! - `model`: the lexer's state and what one step of lexing does to it;
//! - `lexer`: the lexer itself, proved to follow `model`;
//! - `imports`: finding `#include` paths without lexing;
//! - `laws`: properties that hold of every step and every source.
#![allow(unused_imports)]

pub mod chars;
pub mod token;
pub mod text;
pub mod words;
pub mod values;
pub mod patterns;
pub mod model;
pub mod lexer;
pub mod imports;
pub mod laws;

pub use lexer::Lexer;
pub use token::{Context, TokenResult};
pub mod vocab_laws;
