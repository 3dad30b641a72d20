//! Sloth: a small interpreted language with a Polish-notation syntax.
//!
//! This crate holds the verified core of the interpreter: the lexer, the
//! token stream, the recursive-descent parser that builds the program's
//! syntax tree, and the registry of built-in modules.

pub mod text;
pub mod position;
pub mod errors;
pub mod lexer;
pub mod sloth;
pub mod builtins;
pub mod parser;
pub mod operations;
pub mod report;
pub mod builder;
