//! What the parser's primary level recognises: a bare literal, or a
//! parenthesized sub-expression.

use vstd::prelude::*;
use crate::expr::{Expr, ExprV};
use crate::token::{LitV, Literal};

verus! {

/// The outcome of parsing a primary expression.
pub enum PrimaryExprValue {
    Literal(Literal),
    Grouping(Expr),
}

/// The mathematical shape of a [`PrimaryExprValue`].
pub ghost enum PrimV {
    Lit(LitV),
    Group(ExprV),
}

impl View for PrimaryExprValue {
    type V = PrimV;

    open spec fn view(&self) -> PrimV {
        match self {
            PrimaryExprValue::Literal(l) => PrimV::Lit(l@),
            PrimaryExprValue::Grouping(e) => PrimV::Group(e@),
        }
    }
}

/// The expression node a primary outcome stands for: a literal node,
/// or a grouping node around the parenthesized sub-expression.
pub open spec fn prim_to_expr(p: PrimV) -> ExprV {
    match p {
        PrimV::Lit(l) => ExprV::Lit(l),
        PrimV::Group(e) => ExprV::Grouping(Box::new(e)),
    }
}

impl PrimaryExprValue {
    /// Turns this outcome into its expression node.
    pub fn into_expr(self) -> (e: Expr)
        ensures
            e@ == prim_to_expr(self@),
    {
        match self {
            PrimaryExprValue::Literal(literal) => Expr::Literal { value: literal },
            PrimaryExprValue::Grouping(expr) => Expr::Grouping { expression: Box::new(expr) },
        }
    }
}

} // verus!
