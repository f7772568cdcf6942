//! Vocabulary, lexer and parser of the assembly language.
pub mod ast;
pub mod keywords;
pub mod lexer;
pub mod pattern;
pub mod text;
