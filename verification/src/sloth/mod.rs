//! The program model: types, signatures, expressions, statements and the
//! program that the parser builds.

pub mod types;
pub mod structure;
pub mod function;
pub mod expression;
pub mod statement;
pub mod program;
