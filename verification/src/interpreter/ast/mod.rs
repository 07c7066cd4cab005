//! The abstract syntax tree.

pub mod expr;
pub mod printer;
pub mod stmt;
pub mod view;
