//! Expressions of one operand.

use crate::logical_plan::expressions::Expr;
use vstd::prelude::*;

verus! {

/// An expression of one operand.
pub enum UnaryExpr {
    Not(Not),
}

/// The negation of a truth value.
pub struct Not {
    pub expr: Box<Expr>,
}

/// `NOT expr`.
pub fn not(expr: Expr) -> (e: Expr)
    ensures
        e == Expr::Unary(UnaryExpr::Not(Not { expr: Box::new(expr) })),
{
    Expr::Unary(UnaryExpr::Not(Not { expr: Box::new(expr) }))
}

} // verus!
