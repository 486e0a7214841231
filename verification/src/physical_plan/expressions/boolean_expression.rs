//! Expressions that give a truth value for each row.

use crate::datatypes::column_vector::ColumnVector;
use crate::datatypes::record_batch::RecordBatch;
use crate::error::QueryError;
use crate::physical_plan::expressions::binary_expression::{compare, BooleanOp};
use crate::physical_plan::expressions::{binary, gives, lifted, BinaryKind, Expression};
use vstd::prelude::*;

verus! {

/// Applies the operator to what the operands evaluated to: the failure of
/// the left operand, else that of the right one, else the column that the
/// operator makes of the two.
fn evaluate_boolean(op: BooleanOp, l: Result<ColumnVector, QueryError>, r: Result<ColumnVector, QueryError>) -> (out:
    Result<ColumnVector, QueryError>)
    ensures
        gives(out, binary(BinaryKind::Boolean(op), lifted(l), lifted(r))),
{
    let ll = match l {
        Ok(c) => c,
        Err(e) => {
            return Err(e);
        },
    };
    let rr = match r {
        Ok(c) => c,
        Err(e) => {
            return Err(e);
        },
    };
    compare(op, &ll, &rr)
}

/// Both operands are true.
pub struct AndExpression {
    pub l: Box<Expression>,
    pub r: Box<Expression>,
}

/// One of the operands is true.
pub struct OrExpression {
    pub l: Box<Expression>,
    pub r: Box<Expression>,
}

/// The operands are equal.
pub struct EqExpression {
    pub l: Box<Expression>,
    pub r: Box<Expression>,
}

/// The operands are different.
pub struct NeqExpression {
    pub l: Box<Expression>,
    pub r: Box<Expression>,
}

/// The left operand comes before the right one.
pub struct LtExpression {
    pub l: Box<Expression>,
    pub r: Box<Expression>,
}

/// The left operand does not come after the right one.
pub struct LtEqExpression {
    pub l: Box<Expression>,
    pub r: Box<Expression>,
}

/// The left operand comes after the right one.
pub struct GtExpression {
    pub l: Box<Expression>,
    pub r: Box<Expression>,
}

/// The left operand does not come before the right one.
pub struct GtEqExpression {
    pub l: Box<Expression>,
    pub r: Box<Expression>,
}

impl AndExpression {
    pub fn evaluate(&self, input: &RecordBatch) -> (out: Result<ColumnVector, QueryError>)
        ensures
            gives(out, Expression::And(*self).evaluated(input@)),
        decreases self,
    {
        let l = self.l.evaluate(input);
        let r = self.r.evaluate(input);
        evaluate_boolean(BooleanOp::And, l, r)
    }
}

impl OrExpression {
    pub fn evaluate(&self, input: &RecordBatch) -> (out: Result<ColumnVector, QueryError>)
        ensures
            gives(out, Expression::Or(*self).evaluated(input@)),
        decreases self,
    {
        let l = self.l.evaluate(input);
        let r = self.r.evaluate(input);
        evaluate_boolean(BooleanOp::Or, l, r)
    }
}

impl EqExpression {
    pub fn evaluate(&self, input: &RecordBatch) -> (out: Result<ColumnVector, QueryError>)
        ensures
            gives(out, Expression::Eq(*self).evaluated(input@)),
        decreases self,
    {
        let l = self.l.evaluate(input);
        let r = self.r.evaluate(input);
        evaluate_boolean(BooleanOp::Eq, l, r)
    }
}

impl NeqExpression {
    pub fn evaluate(&self, input: &RecordBatch) -> (out: Result<ColumnVector, QueryError>)
        ensures
            gives(out, Expression::Neq(*self).evaluated(input@)),
        decreases self,
    {
        let l = self.l.evaluate(input);
        let r = self.r.evaluate(input);
        evaluate_boolean(BooleanOp::Neq, l, r)
    }
}

impl LtExpression {
    pub fn evaluate(&self, input: &RecordBatch) -> (out: Result<ColumnVector, QueryError>)
        ensures
            gives(out, Expression::Lt(*self).evaluated(input@)),
        decreases self,
    {
        let l = self.l.evaluate(input);
        let r = self.r.evaluate(input);
        evaluate_boolean(BooleanOp::Lt, l, r)
    }
}

impl LtEqExpression {
    pub fn evaluate(&self, input: &RecordBatch) -> (out: Result<ColumnVector, QueryError>)
        ensures
            gives(out, Expression::LtEq(*self).evaluated(input@)),
        decreases self,
    {
        let l = self.l.evaluate(input);
        let r = self.r.evaluate(input);
        evaluate_boolean(BooleanOp::LtEq, l, r)
    }
}

impl GtExpression {
    pub fn evaluate(&self, input: &RecordBatch) -> (out: Result<ColumnVector, QueryError>)
        ensures
            gives(out, Expression::Gt(*self).evaluated(input@)),
        decreases self,
    {
        let l = self.l.evaluate(input);
        let r = self.r.evaluate(input);
        evaluate_boolean(BooleanOp::Gt, l, r)
    }
}

impl GtEqExpression {
    pub fn evaluate(&self, input: &RecordBatch) -> (out: Result<ColumnVector, QueryError>)
        ensures
            gives(out, Expression::GtEq(*self).evaluated(input@)),
        decreases self,
    {
        let l = self.l.evaluate(input);
        let r = self.r.evaluate(input);
        evaluate_boolean(BooleanOp::GtEq, l, r)
    }
}

} // verus!
