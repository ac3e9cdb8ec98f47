//! A verified tree-walking interpreter for a small, dynamically typed,
//! class-based scripting language: scanner, recursive-descent parser, static
//! resolver and evaluator with closures, classes and inheritance.

pub mod token;
pub mod num;
pub mod table;
pub mod errors;
pub mod value;
pub mod environment;
pub mod ast;
pub mod scanner;
pub mod parser;
pub mod resolver;
pub mod interpreter;
pub mod pipeline;
