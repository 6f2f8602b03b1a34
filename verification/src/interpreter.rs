//! The evaluator: a tree walk that reduces an expression tree to a
//! runtime value, or fails fast on the first runtime error.  A
//! non-numeric operand to unary minus is a distinguished fatal defect,
//! not an ordinary runtime error.

use vstd::prelude::*;
use vstd::string::StringExecFns;
use crate::expr::{Expr, ExprV};
use crate::float_bits::{
    f64_add,
    f64_add_bits,
    f64_eq,
    f64_eq_bits,
    f64_ge,
    f64_ge_bits,
    f64_gt,
    f64_gt_bits,
    f64_le,
    f64_le_bits,
    f64_lt,
    f64_lt_bits,
    f64_mul,
    f64_mul_bits,
    f64_neg,
    f64_negate,
    f64_sub,
    f64_sub_bits,
};
use crate::token::{ErrV, LitV, Literal, Token, TokenType, TokenV, lit_text};

verus! {

/// A runtime error: the 1-based line of the offending operator and a
/// message.
#[derive(Clone, Debug)]
pub struct RuntimeError {
    pub line: usize,
    pub message: String,
}

impl View for RuntimeError {
    type V = ErrV;

    open spec fn view(&self) -> ErrV {
        ErrV { line: self.line as nat, msg: self.message@ }
    }
}

/// The unrecoverable failure class: a defect that aborts the whole
/// run, distinct from a reported runtime error.
#[derive(Clone, Debug)]
pub struct FatalError {
    pub message: String,
}

/// How an evaluation ends when it does not produce a value.
#[derive(Debug)]
pub enum EvalError {
    Runtime(RuntimeError),
    Fatal(FatalError),
}

/// The mathematical outcome of evaluating an expression.
pub ghost enum EvalOut {
    Val(LitV),
    RtErr(ErrV),
    Fatal(Seq<char>),
}

/// Truthiness: a number is truthy exactly when it is nonzero, a
/// boolean is itself, a string is always truthy, nil never is.
pub open spec fn truthy(l: LitV) -> bool {
    match l {
        LitV::Num(n) => !f64_eq(n, 0),
        LitV::Bool(b) => b,
        LitV::Str(t) => true,
        LitV::Nil => false,
    }
}

/// The outcome of a binary operation on two already-evaluated
/// operands: numeric comparison and arithmetic when both are numbers;
/// otherwise string coercion of both sides, whatever the operator,
/// when either side is a string; otherwise a reported runtime error.
pub open spec fn eval_binary(l: LitV, op: TokenV, r: LitV) -> EvalOut {
    match (l, r) {
        (LitV::Num(a), LitV::Num(b)) => {
            if op.kind == TokenType::GreaterEqual {
                EvalOut::Val(LitV::Bool(f64_ge(a, b)))
            } else if op.kind == TokenType::Greater {
                EvalOut::Val(LitV::Bool(f64_gt(a, b)))
            } else if op.kind == TokenType::Less {
                EvalOut::Val(LitV::Bool(f64_lt(a, b)))
            } else if op.kind == TokenType::LessEqual {
                EvalOut::Val(LitV::Bool(f64_le(a, b)))
            } else if op.kind == TokenType::EqualEqual {
                EvalOut::Val(LitV::Bool(f64_eq(a, b)))
            } else if op.kind == TokenType::BangEqual {
                EvalOut::Val(LitV::Bool(!f64_eq(a, b)))
            } else if op.kind == TokenType::Plus {
                EvalOut::Val(LitV::Num(f64_add(a, b)))
            } else if op.kind == TokenType::Minus {
                EvalOut::Val(LitV::Num(f64_sub(a, b)))
            } else if op.kind == TokenType::Star {
                EvalOut::Val(LitV::Num(f64_mul(a, b)))
            } else {
                EvalOut::RtErr(
                    ErrV { line: op.line, msg: "Invalid operator for a binary expression"@ },
                )
            }
        },
        (LitV::Str(a), rr) => EvalOut::Val(LitV::Str(a + lit_text(rr))),
        (ll, LitV::Str(b)) => EvalOut::Val(LitV::Str(lit_text(ll) + b)),
        _ => EvalOut::RtErr(
            ErrV { line: op.line, msg: "Can not perform "@ + op.lexeme + " on this expression"@ },
        ),
    }
}

/// The mathematical evaluator: depth-first, left to right, fail-fast;
/// the branch of a ternary that is not selected is never evaluated.
pub open spec fn eval_spec(e: ExprV) -> EvalOut
    decreases e,
{
    match e {
        ExprV::Lit(v) => EvalOut::Val(v),
        ExprV::Grouping(inner) => eval_spec(*inner),
        ExprV::Unary { op, right } => match eval_spec(*right) {
            EvalOut::Val(v) => {
                if op.kind == TokenType::Minus {
                    match v {
                        LitV::Num(n) => EvalOut::Val(LitV::Num(f64_neg(n))),
                        _ => EvalOut::Fatal("Operand must be a number"@),
                    }
                } else if op.kind == TokenType::Bang {
                    EvalOut::Val(LitV::Bool(!truthy(v)))
                } else {
                    EvalOut::RtErr(
                        ErrV { line: op.line, msg: "Invalid operator for an unary expression"@ },
                    )
                }
            },
            other => other,
        },
        ExprV::Binary { left, op, right } => match eval_spec(*left) {
            EvalOut::Val(l) => match eval_spec(*right) {
                EvalOut::Val(r) => eval_binary(l, op, r),
                other => other,
            },
            other => other,
        },
        ExprV::Ternary { cond, pos, neg } => match eval_spec(*cond) {
            EvalOut::Val(v) => if truthy(v) {
                eval_spec(*pos)
            } else {
                eval_spec(*neg)
            },
            other => other,
        },
    }
}

/// Whether an executable evaluation result carries exactly a spec
/// outcome.
pub open spec fn eval_matches(r: Result<Literal, EvalError>, o: EvalOut) -> bool {
    match o {
        EvalOut::Val(v) => r is Ok && r->Ok_0@ == v,
        EvalOut::RtErr(e) => r is Err && r->Err_0 is Runtime && r->Err_0->Runtime_0@ == e,
        EvalOut::Fatal(m) => r is Err && r->Err_0 is Fatal && r->Err_0->Fatal_0.message@ == m,
    }
}

/// The tree-walking evaluator.  It holds no state; each call is
/// independent.
pub struct Interpreter {
}

impl Interpreter {
    /// Builds an evaluator.
    pub fn new() -> (r: Interpreter) {
        Interpreter {  }
    }

    /// The canonical text of a runtime value.
    pub fn stringify(&self, value: &Literal) -> (s: String)
        ensures
            s@ == lit_text(value@),
    {
        value.text()
    }

    /// Decides truthiness of a runtime value.
    pub fn is_truthy(&self, literal: &Literal) -> (b: bool)
        ensures
            b == truthy(literal@),
    {
        match literal {
            Literal::Number(value) => !f64_eq_bits(*value, 0),
            Literal::Boolean(value) => *value,
            Literal::String(s) => true,
            Literal::Nil => false,
        }
    }

    /// Reduces a binary operation on two evaluated operands.
    fn binary_value(&self, l: Literal, operator: &Token, r: Literal) -> (res: Result<
        Literal,
        EvalError,
    >)
        ensures
            eval_matches(res, eval_binary(l@, operator@, r@)),
    {
        match (l, r) {
            (Literal::Number(a), Literal::Number(b)) => match operator.token_type {
                TokenType::GreaterEqual => Ok(Literal::Boolean(f64_ge_bits(a, b))),
                TokenType::Greater => Ok(Literal::Boolean(f64_gt_bits(a, b))),
                TokenType::Less => Ok(Literal::Boolean(f64_lt_bits(a, b))),
                TokenType::LessEqual => Ok(Literal::Boolean(f64_le_bits(a, b))),
                TokenType::EqualEqual => Ok(Literal::Boolean(f64_eq_bits(a, b))),
                TokenType::BangEqual => Ok(Literal::Boolean(!f64_eq_bits(a, b))),
                TokenType::Plus => Ok(Literal::Number(f64_add_bits(a, b))),
                TokenType::Minus => Ok(Literal::Number(f64_sub_bits(a, b))),
                TokenType::Star => Ok(Literal::Number(f64_mul_bits(a, b))),
                _ => Err(
                    EvalError::Runtime(
                        RuntimeError {
                            line: operator.line,
                            message: String::from_str("Invalid operator for a binary expression"),
                        },
                    ),
                ),
            },
            (Literal::String(a), rr) => {
                let mut s = a;
                s.append(rr.text().as_str());
                Ok(Literal::String(s))
            },
            (ll, Literal::String(b)) => {
                let mut s = ll.text();
                s.append(b.as_str());
                Ok(Literal::String(s))
            },
            _ => {
                let mut message = String::from_str("Can not perform ");
                message.append(operator.lexeme.as_str());
                message.append(" on this expression");
                Err(EvalError::Runtime(RuntimeError { line: operator.line, message }))
            },
        }
    }

    /// Evaluates an expression tree: exactly the outcome of
    /// [`eval_spec`] on its shape, with the fatal defect of a
    /// non-numeric unary-minus operand kept apart from runtime errors.
    pub fn evaluate(&self, expr: &Expr) -> (r: Result<Literal, EvalError>)
        ensures
            eval_matches(r, eval_spec(expr@)),
        decreases expr,
    {
        match expr {
            Expr::Literal { value } => Ok(value.dup()),
            Expr::Grouping { expression } => self.evaluate(&**expression),
            Expr::Unary { operator, right } => {
                let value = match self.evaluate(&**right) {
                    Ok(v) => v,
                    Err(e) => {
                        return Err(e);
                    },
                };
                match operator.token_type {
                    TokenType::Minus => match value.as_number() {
                        Some(v) => Ok(Literal::Number(f64_negate(v))),
                        None => Err(
                            EvalError::Fatal(
                                FatalError {
                                    message: String::from_str("Operand must be a number"),
                                },
                            ),
                        ),
                    },
                    TokenType::Bang => Ok(Literal::Boolean(!self.is_truthy(&value))),
                    _ => Err(
                        EvalError::Runtime(
                            RuntimeError {
                                line: operator.line,
                                message: String::from_str(
                                    "Invalid operator for an unary expression",
                                ),
                            },
                        ),
                    ),
                }
            },
            Expr::Binary { left, operator, right } => {
                let left_value = match self.evaluate(&**left) {
                    Ok(v) => v,
                    Err(e) => {
                        return Err(e);
                    },
                };
                let right_value = match self.evaluate(&**right) {
                    Ok(v) => v,
                    Err(e) => {
                        return Err(e);
                    },
                };
                self.binary_value(left_value, operator, right_value)
            },
            Expr::Ternary { condition, positive, negative } => {
                let value = match self.evaluate(&**condition) {
                    Ok(v) => v,
                    Err(e) => {
                        return Err(e);
                    },
                };
                if self.is_truthy(&value) {
                    self.evaluate(&**positive)
                } else {
                    self.evaluate(&**negative)
                }
            },
        }
    }
}

/// The untaken branch of a ternary never matters: when the condition
/// evaluates to a truthy value, the outcome is the outcome of the
/// taken branch, whatever stands in the other branch — and likewise
/// for a falsy condition.
pub proof fn lemma_ternary_short_circuit(cond: ExprV, pos: ExprV, neg: ExprV, other: ExprV)
    requires
        eval_spec(cond) is Val,
    ensures
        truthy(eval_spec(cond)->Val_0) ==> eval_spec(
            ExprV::Ternary { cond: Box::new(cond), pos: Box::new(pos), neg: Box::new(neg) },
        ) == eval_spec(
            ExprV::Ternary { cond: Box::new(cond), pos: Box::new(pos), neg: Box::new(other) },
        ),
        !truthy(eval_spec(cond)->Val_0) ==> eval_spec(
            ExprV::Ternary { cond: Box::new(cond), pos: Box::new(pos), neg: Box::new(neg) },
        ) == eval_spec(
            ExprV::Ternary { cond: Box::new(cond), pos: Box::new(other), neg: Box::new(neg) },
        ),
{
}

/// String coercion wins regardless of operand order: whenever either
/// operand of a binary operation is a string and the operands are not
/// both numbers, the outcome is the concatenation of the canonical
/// texts of the two operands, in operand order, whatever the operator.
pub proof fn lemma_string_coercion(l: LitV, op: TokenV, r: LitV)
    requires
        l is Str || r is Str,
        !(l is Num && r is Num),
    ensures
        eval_binary(l, op, r) == EvalOut::Val(LitV::Str(lit_text(l) + lit_text(r))),
{
}

} // verus!
