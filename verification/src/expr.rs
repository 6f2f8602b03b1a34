//! The expression tree the parser builds and the evaluator consumes.

use vstd::prelude::*;
use crate::token::{LitV, Literal, Token, TokenV};

verus! {

/// A node of the expression tree.  Each non-leaf node exclusively owns
/// its children; the tree is never mutated after construction.
#[derive(Debug)]
pub enum Expr {
    Literal { value: Literal },
    Grouping { expression: Box<Expr> },
    Unary { operator: Token, right: Box<Expr> },
    Binary { left: Box<Expr>, operator: Token, right: Box<Expr> },
    Ternary { condition: Box<Expr>, positive: Box<Expr>, negative: Box<Expr> },
}

/// The mathematical shape of an [`Expr`].
pub ghost enum ExprV {
    Lit(LitV),
    Grouping(Box<ExprV>),
    Unary { op: TokenV, right: Box<ExprV> },
    Binary { left: Box<ExprV>, op: TokenV, right: Box<ExprV> },
    Ternary { cond: Box<ExprV>, pos: Box<ExprV>, neg: Box<ExprV> },
}

/// The mathematical shape of an expression tree.
pub open spec fn expr_v(e: Expr) -> ExprV
    decreases e,
{
    match e {
        Expr::Literal { value } => ExprV::Lit(value@),
        Expr::Grouping { expression } => ExprV::Grouping(Box::new(expr_v(*expression))),
        Expr::Unary { operator, right } => ExprV::Unary {
            op: operator@,
            right: Box::new(expr_v(*right)),
        },
        Expr::Binary { left, operator, right } => ExprV::Binary {
            left: Box::new(expr_v(*left)),
            op: operator@,
            right: Box::new(expr_v(*right)),
        },
        Expr::Ternary { condition, positive, negative } => ExprV::Ternary {
            cond: Box::new(expr_v(*condition)),
            pos: Box::new(expr_v(*positive)),
            neg: Box::new(expr_v(*negative)),
        },
    }
}

impl View for Expr {
    type V = ExprV;

    open spec fn view(&self) -> ExprV {
        expr_v(*self)
    }
}

} // verus!
