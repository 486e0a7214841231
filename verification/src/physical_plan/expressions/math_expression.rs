//! Integer arithmetic, row by row.

use crate::datatypes::column_vector::ColumnVector;
use crate::datatypes::record_batch::RecordBatch;
use crate::error::QueryError;
use crate::physical_plan::expressions::binary_expression::{calculate, MathOp};
use crate::physical_plan::expressions::{binary, gives, lifted, BinaryKind, Expression};
use vstd::prelude::*;

verus! {

/// Applies the operator to what the operands evaluated to: the failure of
/// the left operand, else that of the right one, else the column that the
/// operator makes of the two.
fn evaluate_math(op: MathOp, l: Result<ColumnVector, QueryError>, r: Result<ColumnVector, QueryError>) -> (out:
    Result<ColumnVector, QueryError>)
    ensures
        gives(out, binary(BinaryKind::Math(op), lifted(l), lifted(r))),
{
    let ll = match l {
        Ok(c) => c,
        Err(e) => {
            return Err(e);
        },
    };
    let rr = match r {
        Ok(c) => c,
        Err(e) => {
            return Err(e);
        },
    };
    calculate(op, &ll, &rr)
}

/// The sum of the operands.
pub struct AddExpression {
    pub l: Box<Expression>,
    pub r: Box<Expression>,
}

/// The left operand less the right one.
pub struct SubtractExpression {
    pub l: Box<Expression>,
    pub r: Box<Expression>,
}

/// The product of the operands.
pub struct MultiplyExpression {
    pub l: Box<Expression>,
    pub r: Box<Expression>,
}

/// The left operand divided by the right one, rounded towards zero.
pub struct DivideExpression {
    pub l: Box<Expression>,
    pub r: Box<Expression>,
}

/// The remainder of the left operand divided by the right one.
pub struct ModulusExpression {
    pub l: Box<Expression>,
    pub r: Box<Expression>,
}

impl AddExpression {
    pub fn evaluate(&self, input: &RecordBatch) -> (out: Result<ColumnVector, QueryError>)
        ensures
            gives(out, Expression::Add(*self).evaluated(input@)),
        decreases self,
    {
        let l = self.l.evaluate(input);
        let r = self.r.evaluate(input);
        evaluate_math(MathOp::Add, l, r)
    }
}

impl SubtractExpression {
    pub fn evaluate(&self, input: &RecordBatch) -> (out: Result<ColumnVector, QueryError>)
        ensures
            gives(out, Expression::Subtract(*self).evaluated(input@)),
        decreases self,
    {
        let l = self.l.evaluate(input);
        let r = self.r.evaluate(input);
        evaluate_math(MathOp::Subtract, l, r)
    }
}

impl MultiplyExpression {
    pub fn evaluate(&self, input: &RecordBatch) -> (out: Result<ColumnVector, QueryError>)
        ensures
            gives(out, Expression::Multiply(*self).evaluated(input@)),
        decreases self,
    {
        let l = self.l.evaluate(input);
        let r = self.r.evaluate(input);
        evaluate_math(MathOp::Multiply, l, r)
    }
}

impl DivideExpression {
    pub fn evaluate(&self, input: &RecordBatch) -> (out: Result<ColumnVector, QueryError>)
        ensures
            gives(out, Expression::Divide(*self).evaluated(input@)),
        decreases self,
    {
        let l = self.l.evaluate(input);
        let r = self.r.evaluate(input);
        evaluate_math(MathOp::Divide, l, r)
    }
}

impl ModulusExpression {
    pub fn evaluate(&self, input: &RecordBatch) -> (out: Result<ColumnVector, QueryError>)
        ensures
            gives(out, Expression::Modulus(*self).evaluated(input@)),
        decreases self,
    {
        let l = self.l.evaluate(input);
        let r = self.r.evaluate(input);
        evaluate_math(MathOp::Modulus, l, r)
    }
}

} // verus!
