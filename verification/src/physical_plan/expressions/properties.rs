//! What every evaluation gives.

use crate::datatypes::record_batch::BatchSpec;
use crate::physical_plan::expressions::Expression;
use vstd::prelude::*;

verus! {

/// An expression evaluates to a column of as many slots as the batch has
/// rows, for every batch whose columns are of one length.
pub proof fn theorem_evaluated_length(e: Expression, b: BatchSpec)
    requires
        b.rectangular(),
    ensures
        e.evaluated(b) matches Ok(c) ==> c.items.len() == b.rows(),
    decreases e,
{
    match e {
        Expression::Column(_) => {},
        Expression::LiteralLong(_) => {},
        Expression::LiteralString(_) => {},
        Expression::Cast(x) => {
            theorem_evaluated_length(*x.expr, b);
        },
        Expression::And(x) => {
            theorem_evaluated_length(*x.l, b);
        },
        Expression::Or(x) => {
            theorem_evaluated_length(*x.l, b);
        },
        Expression::Eq(x) => {
            theorem_evaluated_length(*x.l, b);
        },
        Expression::Neq(x) => {
            theorem_evaluated_length(*x.l, b);
        },
        Expression::Lt(x) => {
            theorem_evaluated_length(*x.l, b);
        },
        Expression::LtEq(x) => {
            theorem_evaluated_length(*x.l, b);
        },
        Expression::Gt(x) => {
            theorem_evaluated_length(*x.l, b);
        },
        Expression::GtEq(x) => {
            theorem_evaluated_length(*x.l, b);
        },
        Expression::Add(x) => {
            theorem_evaluated_length(*x.l, b);
        },
        Expression::Subtract(x) => {
            theorem_evaluated_length(*x.l, b);
        },
        Expression::Multiply(x) => {
            theorem_evaluated_length(*x.l, b);
        },
        Expression::Divide(x) => {
            theorem_evaluated_length(*x.l, b);
        },
        Expression::Modulus(x) => {
            theorem_evaluated_length(*x.l, b);
        },
    }
}

} // verus!
