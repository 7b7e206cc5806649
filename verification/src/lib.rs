//! A lexical analyser for a small Ruby-like scripting language.

pub mod cursor;
pub mod grammar;
pub mod lexer;
pub mod parser;
pub mod text;
pub mod token;
