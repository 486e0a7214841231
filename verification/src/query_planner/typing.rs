//! The types that logical expressions promise are the types that their
//! physical expressions give.

use crate::datatypes::record_batch::BatchSpec;
use crate::datatypes::schema::{lemma_first_index, FieldSpec};
use crate::logical_plan::expressions::Expr;
use crate::physical_plan::expressions::Expression;
use crate::logical_plan::expressions::math_expr::MathOperator;
use crate::query_planner::{lowered_expr, math_expression};
use vstd::prelude::*;

verus! {

/// An arithmetic expression that evaluates gives a column of the type of
/// its left operand.
pub proof fn lemma_math_expression_type(op: MathOperator, l: Expression, r: Expression, b: BatchSpec)
    requires
        math_expression(op, l, r).evaluated(b) is Ok,
    ensures
        l.evaluated(b) is Ok,
        math_expression(op, l, r).evaluated(b)->Ok_0.data_type == l.evaluated(
            b,
        )->Ok_0.data_type,
{
    match op {
        MathOperator::Add => {},
        MathOperator::Subtract => {},
        MathOperator::Multiply => {},
        MathOperator::Divide => {},
        MathOperator::Modulus => {},
    }
}

/// The type of the field that a logical expression gives is the type of
/// the column that its physical expression evaluates to: for every batch
/// with the columns of the input schema on which the evaluation succeeds.
pub proof fn theorem_field_type_is_column_type(e: Expr, schema: Seq<FieldSpec>, b: BatchSpec)
    requires
        b.conforms(schema),
        lowered_expr(e, schema) is Ok,
        lowered_expr(e, schema)->Ok_0.evaluated(b) is Ok,
    ensures
        e.field(schema) is Ok,
        e.field(schema)->Ok_0.data_type == lowered_expr(e, schema)->Ok_0.evaluated(
            b,
        )->Ok_0.data_type,
    decreases e,
{
    match e {
        Expr::Column(c) => {
            lemma_first_index(schema, c.name@);
        },
        Expr::ColumnIndex(_) => {},
        Expr::Literal(_) => {},
        Expr::Cast(c) => {
            theorem_field_type_is_column_type(*c.expr, schema, b);
        },
        Expr::Binary(_) => {},
        Expr::Unary(_) => {},
        Expr::Math(m) => {
            lemma_math_expression_type(
                m.op,
                lowered_expr(*m.l, schema)->Ok_0,
                lowered_expr(*m.r, schema)->Ok_0,
                b,
            );
            theorem_field_type_is_column_type(*m.l, schema, b);
        },
        Expr::Aggr(_) => {},
        Expr::Alias(a) => {
            theorem_field_type_is_column_type(*a.expr, schema, b);
        },
    }
}

} // verus!
