//! Comparisons and the boolean connectives.

use crate::logical_plan::expressions::Expr;
use vstd::prelude::*;

verus! {

/// The operators of boolean binary expressions.
#[derive(Clone, Copy, Debug, PartialEq, Eq, Structural)]
pub enum BinaryOperator {
    And,
    Or,
    Eq,
    Neq,
    Gt,
    GtEq,
    Lt,
    LtEq,
}

impl BinaryOperator {
    /// The name of the operator, which names the field of its result.
    pub open spec fn spec_name(self) -> Seq<char> {
        match self {
            BinaryOperator::And => "and"@,
            BinaryOperator::Or => "or"@,
            BinaryOperator::Eq => "eq"@,
            BinaryOperator::Neq => "neq"@,
            BinaryOperator::Gt => "gt"@,
            BinaryOperator::GtEq => "gteq"@,
            BinaryOperator::Lt => "lt"@,
            BinaryOperator::LtEq => "lteq"@,
        }
    }

    /// The sign of the operator, as a printed expression shows it.
    pub open spec fn spec_sign(self) -> Seq<char> {
        match self {
            BinaryOperator::And => "AND"@,
            BinaryOperator::Or => "OR"@,
            BinaryOperator::Eq => "="@,
            BinaryOperator::Neq => "!="@,
            BinaryOperator::Gt => ">"@,
            BinaryOperator::GtEq => ">="@,
            BinaryOperator::Lt => "<"@,
            BinaryOperator::LtEq => "<="@,
        }
    }

    pub fn name(&self) -> (r: &'static str)
        ensures
            r@ == self.spec_name(),
    {
        match self {
            BinaryOperator::And => "and",
            BinaryOperator::Or => "or",
            BinaryOperator::Eq => "eq",
            BinaryOperator::Neq => "neq",
            BinaryOperator::Gt => "gt",
            BinaryOperator::GtEq => "gteq",
            BinaryOperator::Lt => "lt",
            BinaryOperator::LtEq => "lteq",
        }
    }

    pub fn sign(&self) -> (r: &'static str)
        ensures
            r@ == self.spec_sign(),
    {
        match self {
            BinaryOperator::And => "AND",
            BinaryOperator::Or => "OR",
            BinaryOperator::Eq => "=",
            BinaryOperator::Neq => "!=",
            BinaryOperator::Gt => ">",
            BinaryOperator::GtEq => ">=",
            BinaryOperator::Lt => "<",
            BinaryOperator::LtEq => "<=",
        }
    }
}

/// A boolean expression of two operands.
pub struct BinaryExpr {
    pub op: BinaryOperator,
    pub l: Box<Expr>,
    pub r: Box<Expr>,
}

/// The expression `l op r`.
pub fn binary(op: BinaryOperator, l: Expr, r: Expr) -> (e: Expr)
    ensures
        e == Expr::Binary(BinaryExpr { op, l: Box::new(l), r: Box::new(r) }),
{
    Expr::Binary(BinaryExpr { op, l: Box::new(l), r: Box::new(r) })
}

/// `l AND r`.
pub fn and(l: Expr, r: Expr) -> (e: Expr)
    ensures
        e == Expr::Binary(BinaryExpr { op: BinaryOperator::And, l: Box::new(l), r: Box::new(r) }),
{
    binary(BinaryOperator::And, l, r)
}

/// `l OR r`.
pub fn or(l: Expr, r: Expr) -> (e: Expr)
    ensures
        e == Expr::Binary(BinaryExpr { op: BinaryOperator::Or, l: Box::new(l), r: Box::new(r) }),
{
    binary(BinaryOperator::Or, l, r)
}

impl Expr {
    /// `self = rhs`.
    pub fn eq(self, rhs: Expr) -> (e: Expr)
        ensures
            e == Expr::Binary(
                BinaryExpr { op: BinaryOperator::Eq, l: Box::new(self), r: Box::new(rhs) },
            ),
    {
        binary(BinaryOperator::Eq, self, rhs)
    }

    /// `self != rhs`.
    pub fn neq(self, rhs: Expr) -> (e: Expr)
        ensures
            e == Expr::Binary(
                BinaryExpr { op: BinaryOperator::Neq, l: Box::new(self), r: Box::new(rhs) },
            ),
    {
        binary(BinaryOperator::Neq, self, rhs)
    }

    /// `self > rhs`.
    pub fn gt(self, rhs: Expr) -> (e: Expr)
        ensures
            e == Expr::Binary(
                BinaryExpr { op: BinaryOperator::Gt, l: Box::new(self), r: Box::new(rhs) },
            ),
    {
        binary(BinaryOperator::Gt, self, rhs)
    }

    /// `self >= rhs`.
    pub fn gteq(self, rhs: Expr) -> (e: Expr)
        ensures
            e == Expr::Binary(
                BinaryExpr { op: BinaryOperator::GtEq, l: Box::new(self), r: Box::new(rhs) },
            ),
    {
        binary(BinaryOperator::GtEq, self, rhs)
    }

    /// `self < rhs`.
    pub fn lt(self, rhs: Expr) -> (e: Expr)
        ensures
            e == Expr::Binary(
                BinaryExpr { op: BinaryOperator::Lt, l: Box::new(self), r: Box::new(rhs) },
            ),
    {
        binary(BinaryOperator::Lt, self, rhs)
    }

    /// `self <= rhs`.
    pub fn lteq(self, rhs: Expr) -> (e: Expr)
        ensures
            e == Expr::Binary(
                BinaryExpr { op: BinaryOperator::LtEq, l: Box::new(self), r: Box::new(rhs) },
            ),
    {
        binary(BinaryOperator::LtEq, self, rhs)
    }
}

} // verus!
