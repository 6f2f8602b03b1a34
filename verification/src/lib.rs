//! Front end and evaluation pipeline of a small expression-oriented
//! scripting language: a lexer from source text to tokens, a
//! recursive-descent parser from tokens to an expression tree, and a
//! tree-walking evaluator from an expression tree to a runtime value.

pub mod ast_printer;
pub mod expr;
pub mod float_bits;
pub mod interpreter;
pub mod parser;
pub mod primary_expr;
pub mod rlox;
pub mod scanner;
pub mod stmt;
pub mod text;
pub mod token;
