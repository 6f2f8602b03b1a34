//! The statement shapes the language reserves: a variable binding, a
//! print statement, and a bare expression statement.  No statement is
//! produced by the expression grammar yet.

use vstd::prelude::*;
use crate::expr::Expr;
use crate::token::Token;

verus! {

/// A statement.
pub enum Stmt {
    Var { name: Token, initializer: Box<Expr> },
    Print { expression: Box<Expr> },
    Expression { expression: Box<Expr> },
}

} // verus!
