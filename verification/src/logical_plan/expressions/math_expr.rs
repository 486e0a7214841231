//! Arithmetic.

use crate::logical_plan::expressions::Expr;
use vstd::prelude::*;

verus! {

/// The operators of arithmetic.
#[derive(Clone, Copy, Debug, PartialEq, Eq, Structural)]
pub enum MathOperator {
    Add,
    Subtract,
    Multiply,
    Divide,
    Modulus,
}

impl MathOperator {
    /// The name of the operator, which names the field of its result.
    pub open spec fn spec_name(self) -> Seq<char> {
        match self {
            MathOperator::Add => "add"@,
            MathOperator::Subtract => "subtract"@,
            MathOperator::Multiply => "mult"@,
            MathOperator::Divide => "div"@,
            MathOperator::Modulus => "mod"@,
        }
    }

    /// The sign of the operator, as a printed expression shows it.
    pub open spec fn spec_sign(self) -> Seq<char> {
        match self {
            MathOperator::Add => "+"@,
            MathOperator::Subtract => "-"@,
            MathOperator::Multiply => "*"@,
            MathOperator::Divide => "/"@,
            MathOperator::Modulus => "%"@,
        }
    }

    pub fn name(&self) -> (r: &'static str)
        ensures
            r@ == self.spec_name(),
    {
        match self {
            MathOperator::Add => "add",
            MathOperator::Subtract => "subtract",
            MathOperator::Multiply => "mult",
            MathOperator::Divide => "div",
            MathOperator::Modulus => "mod",
        }
    }

    pub fn sign(&self) -> (r: &'static str)
        ensures
            r@ == self.spec_sign(),
    {
        match self {
            MathOperator::Add => "+",
            MathOperator::Subtract => "-",
            MathOperator::Multiply => "*",
            MathOperator::Divide => "/",
            MathOperator::Modulus => "%",
        }
    }
}

/// An arithmetic expression of two operands.
pub struct MathExpr {
    pub op: MathOperator,
    pub l: Box<Expr>,
    pub r: Box<Expr>,
}

/// The expression `l op r`.
pub fn math(op: MathOperator, l: Expr, r: Expr) -> (e: Expr)
    ensures
        e == Expr::Math(MathExpr { op, l: Box::new(l), r: Box::new(r) }),
{
    Expr::Math(MathExpr { op, l: Box::new(l), r: Box::new(r) })
}

impl Expr {
    /// `self + rhs`.
    pub fn add(self, rhs: Expr) -> (e: Expr)
        ensures
            e == Expr::Math(
                MathExpr { op: MathOperator::Add, l: Box::new(self), r: Box::new(rhs) },
            ),
    {
        math(MathOperator::Add, self, rhs)
    }

    /// `self - rhs`.
    pub fn subtract(self, rhs: Expr) -> (e: Expr)
        ensures
            e == Expr::Math(
                MathExpr { op: MathOperator::Subtract, l: Box::new(self), r: Box::new(rhs) },
            ),
    {
        math(MathOperator::Subtract, self, rhs)
    }

    /// `self * rhs`.
    pub fn mult(self, rhs: Expr) -> (e: Expr)
        ensures
            e == Expr::Math(
                MathExpr { op: MathOperator::Multiply, l: Box::new(self), r: Box::new(rhs) },
            ),
    {
        math(MathOperator::Multiply, self, rhs)
    }

    /// `self / rhs`.
    pub fn div(self, rhs: Expr) -> (e: Expr)
        ensures
            e == Expr::Math(
                MathExpr { op: MathOperator::Divide, l: Box::new(self), r: Box::new(rhs) },
            ),
    {
        math(MathOperator::Divide, self, rhs)
    }

    /// `self % rhs`.
    pub fn modulus(self, rhs: Expr) -> (e: Expr)
        ensures
            e == Expr::Math(
                MathExpr { op: MathOperator::Modulus, l: Box::new(self), r: Box::new(rhs) },
            ),
    {
        math(MathOperator::Modulus, self, rhs)
    }
}

} // verus!
