//! A tree-to-text printer: renders an expression tree in fully
//! parenthesized prefix form, e.g. `(* (- 123) (group 45.67))`.

use vstd::prelude::*;
use vstd::string::StringExecFns;
use crate::expr::{Expr, ExprV};
use crate::token::lit_text;

verus! {

/// The parenthesized prefix rendering of an expression tree.
pub open spec fn print_spec(e: ExprV) -> Seq<char>
    decreases e,
{
    match e {
        ExprV::Lit(v) => lit_text(v),
        ExprV::Grouping(inner) => "(group "@ + print_spec(*inner) + ")"@,
        ExprV::Unary { op, right } => "("@ + op.lexeme + " "@ + print_spec(*right) + ")"@,
        ExprV::Binary { left, op, right } => "("@ + op.lexeme + " "@ + print_spec(*left) + " "@
            + print_spec(*right) + ")"@,
        ExprV::Ternary { cond, pos, neg } => "(?: "@ + print_spec(*cond) + " "@ + print_spec(*pos)
            + " "@ + print_spec(*neg) + ")"@,
    }
}

/// The printer.  It holds no state.
pub struct AstPrinter {
}

impl AstPrinter {
    /// Builds a printer.
    pub fn new() -> (r: AstPrinter) {
        AstPrinter {  }
    }

    /// Renders an expression tree in parenthesized prefix form.
    pub fn print(&self, expr: &Expr) -> (r: String)
        ensures
            r@ == print_spec(expr@),
        decreases expr,
    {
        match expr {
            Expr::Literal { value } => value.text(),
            Expr::Grouping { expression } => {
                let mut s = String::from_str("(group ");
                s.append(self.print(&**expression).as_str());
                s.append(")");
                s
            },
            Expr::Unary { operator, right } => {
                let mut s = String::from_str("(");
                s.append(operator.lexeme.as_str());
                s.append(" ");
                s.append(self.print(&**right).as_str());
                s.append(")");
                s
            },
            Expr::Binary { left, operator, right } => {
                let mut s = String::from_str("(");
                s.append(operator.lexeme.as_str());
                s.append(" ");
                s.append(self.print(&**left).as_str());
                s.append(" ");
                s.append(self.print(&**right).as_str());
                s.append(")");
                s
            },
            Expr::Ternary { condition, positive, negative } => {
                let mut s = String::from_str("(?: ");
                s.append(self.print(&**condition).as_str());
                s.append(" ");
                s.append(self.print(&**positive).as_str());
                s.append(" ");
                s.append(self.print(&**negative).as_str());
                s.append(")");
                s
            },
        }
    }
}

} // verus!
