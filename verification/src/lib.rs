//! Yun: a small dynamically typed scripting language, from source text to
//! observed behaviour.

pub mod cli;
pub mod interpreter;
pub mod utils;
