//! Physical expressions: evaluators that take a record batch and give a
//! column.

pub mod accumulator_properties;
pub mod aggregate_expression;
pub mod binary_expression;
pub mod boolean_expression;
pub mod cast_expression;
pub mod column_expression;
pub mod count_expression;
pub mod math_expression;
pub mod max_expression;
pub mod min_expression;
pub mod properties;
pub mod sum_expression;

use crate::datatypes::arrow_types::ArrowType;
use crate::datatypes::column_vector::{ColumnSpec, ColumnVector};
use crate::datatypes::literal_value_vector::LiteralValueVector;
use crate::datatypes::record_batch::{BatchSpec, RecordBatch};
use crate::datatypes::scalar::{Datum, ScalarValue};
use crate::error::QueryError;
use crate::physical_plan::expressions::binary_expression::{BooleanOp, MathOp};
use crate::physical_plan::expressions::binary_expression::{calculated, compared};
use crate::physical_plan::expressions::boolean_expression::{
    AndExpression, EqExpression, GtEqExpression, GtExpression, LtEqExpression, LtExpression,
    NeqExpression, OrExpression,
};
use crate::physical_plan::expressions::cast_expression::{cast_column, CastExpression};
use crate::physical_plan::expressions::column_expression::ColumnExpression;
use crate::physical_plan::expressions::math_expression::{
    AddExpression, DivideExpression, ModulusExpression, MultiplyExpression, SubtractExpression,
};
use crate::text::{decimal_text, integer_to_string, join, joined, views};
use vstd::prelude::*;
use vstd::string::*;

verus! {

/// A physical expression.
pub enum Expression {
    Column(ColumnExpression),
    LiteralLong(LiteralLongExpression),
    LiteralString(LiteralStringExpression),
    Cast(CastExpression),
    And(AndExpression),
    Or(OrExpression),
    Eq(EqExpression),
    Neq(NeqExpression),
    Lt(LtExpression),
    LtEq(LtEqExpression),
    Gt(GtExpression),
    GtEq(GtEqExpression),
    Add(AddExpression),
    Subtract(SubtractExpression),
    Multiply(MultiplyExpression),
    Divide(DivideExpression),
    Modulus(ModulusExpression),
}

/// A whole-number constant.
pub struct LiteralLongExpression {
    pub value: i64,
}

/// A text constant.
pub struct LiteralStringExpression {
    pub value: String,
}

/// Whether a result of evaluation holds the column, or the failure, that
/// is expected.
pub open spec fn gives(r: Result<ColumnVector, QueryError>, expected: Result<
    ColumnSpec,
    QueryError,
>) -> bool {
    match expected {
        Ok(c) => r is Ok && r->Ok_0@ == c,
        Err(e) => r is Err && r->Err_0 == e,
    }
}

/// A result of evaluation as mathematics sees it.
pub open spec fn lifted(r: Result<ColumnVector, QueryError>) -> Result<ColumnSpec, QueryError> {
    match r {
        Ok(c) => Ok(c@),
        Err(e) => Err(e),
    }
}

/// The constant column of `rows` slots that all hold `value`.
pub open spec fn constant(data_type: ArrowType, value: Datum, rows: nat) -> ColumnSpec {
    ColumnSpec { data_type, items: Seq::new(rows, |i: int| Some(value)) }
}

impl Expression {
    /// What the expression evaluates to on a batch: a column of as many
    /// slots as the batch has rows, or a failure.
    pub open spec fn evaluated(&self, input: BatchSpec) -> Result<ColumnSpec, QueryError>
        decreases self,
    {
        match self {
            Expression::Column(e) => e.evaluated(input),
            Expression::LiteralLong(e) => Ok(
                constant(
                    ArrowType::Int64Type,
                    Datum::Integer(ArrowType::Int64Type, e.value as int),
                    input.rows(),
                ),
            ),
            Expression::LiteralString(e) => Ok(
                constant(ArrowType::StringType, Datum::Text(e.value@), input.rows()),
            ),
            Expression::Cast(e) => match e.expr.evaluated(input) {
                Ok(c) => cast_column(c, e.data_type),
                Err(err) => Err(err),
            },
            Expression::And(e) => binary(BinaryKind::Boolean(BooleanOp::And), e.l.evaluated(input), e.r.evaluated(input)),
            Expression::Or(e) => binary(BinaryKind::Boolean(BooleanOp::Or), e.l.evaluated(input), e.r.evaluated(input)),
            Expression::Eq(e) => binary(BinaryKind::Boolean(BooleanOp::Eq), e.l.evaluated(input), e.r.evaluated(input)),
            Expression::Neq(e) => binary(BinaryKind::Boolean(BooleanOp::Neq), e.l.evaluated(input), e.r.evaluated(input)),
            Expression::Lt(e) => binary(BinaryKind::Boolean(BooleanOp::Lt), e.l.evaluated(input), e.r.evaluated(input)),
            Expression::LtEq(e) => binary(BinaryKind::Boolean(BooleanOp::LtEq), e.l.evaluated(input), e.r.evaluated(input)),
            Expression::Gt(e) => binary(BinaryKind::Boolean(BooleanOp::Gt), e.l.evaluated(input), e.r.evaluated(input)),
            Expression::GtEq(e) => binary(BinaryKind::Boolean(BooleanOp::GtEq), e.l.evaluated(input), e.r.evaluated(input)),
            Expression::Add(e) => binary(BinaryKind::Math(MathOp::Add), e.l.evaluated(input), e.r.evaluated(input)),
            Expression::Subtract(e) => binary(BinaryKind::Math(MathOp::Subtract), e.l.evaluated(input), e.r.evaluated(input)),
            Expression::Multiply(e) => binary(BinaryKind::Math(MathOp::Multiply), e.l.evaluated(input), e.r.evaluated(input)),
            Expression::Divide(e) => binary(BinaryKind::Math(MathOp::Divide), e.l.evaluated(input), e.r.evaluated(input)),
            Expression::Modulus(e) => binary(BinaryKind::Math(MathOp::Modulus), e.l.evaluated(input), e.r.evaluated(input)),
        }
    }

    /// The text of the expression, as a printed physical plan shows it.
    pub open spec fn text(&self) -> Seq<char>
        decreases self,
    {
        match self {
            Expression::Column(e) => decimal_text(e.i as int),
            Expression::LiteralLong(e) => decimal_text(e.value as int),
            Expression::LiteralString(e) => e.value@,
            Expression::Cast(e) => "CAST("@ + e.expr.text() + " AS "@ + e.data_type.spec_name()
                + ")"@,
            Expression::And(e) => e.l.text() + " AND "@ + e.r.text(),
            Expression::Or(e) => e.l.text() + " OR "@ + e.r.text(),
            Expression::Eq(e) => e.l.text() + " = "@ + e.r.text(),
            Expression::Neq(e) => e.l.text() + " != "@ + e.r.text(),
            Expression::Lt(e) => e.l.text() + " < "@ + e.r.text(),
            Expression::LtEq(e) => e.l.text() + " <= "@ + e.r.text(),
            Expression::Gt(e) => e.l.text() + " > "@ + e.r.text(),
            Expression::GtEq(e) => e.l.text() + " >= "@ + e.r.text(),
            Expression::Add(e) => e.l.text() + "+"@ + e.r.text(),
            Expression::Subtract(e) => e.l.text() + "-"@ + e.r.text(),
            Expression::Multiply(e) => e.l.text() + "*"@ + e.r.text(),
            Expression::Divide(e) => e.l.text() + "/"@ + e.r.text(),
            Expression::Modulus(e) => e.l.text() + "%"@ + e.r.text(),
        }
    }

    /// The text of the expression.
    pub fn to_string(&self) -> (r: String)
        ensures
            r@ == self.text(),
        decreases self,
    {
        match self {
            Expression::Column(e) => integer_to_string(e.i as i128),
            Expression::LiteralLong(e) => integer_to_string(e.value as i128),
            Expression::LiteralString(e) => e.value.clone(),
            Expression::Cast(e) => {
                let mut out = "CAST(".to_owned();
                out.append(e.expr.to_string().as_str());
                out.append(" AS ");
                out.append(e.data_type.name());
                out.append(")");
                out
            },
            Expression::And(e) => infix(e.l.to_string(), " AND ", e.r.to_string()),
            Expression::Or(e) => infix(e.l.to_string(), " OR ", e.r.to_string()),
            Expression::Eq(e) => infix(e.l.to_string(), " = ", e.r.to_string()),
            Expression::Neq(e) => infix(e.l.to_string(), " != ", e.r.to_string()),
            Expression::Lt(e) => infix(e.l.to_string(), " < ", e.r.to_string()),
            Expression::LtEq(e) => infix(e.l.to_string(), " <= ", e.r.to_string()),
            Expression::Gt(e) => infix(e.l.to_string(), " > ", e.r.to_string()),
            Expression::GtEq(e) => infix(e.l.to_string(), " >= ", e.r.to_string()),
            Expression::Add(e) => infix(e.l.to_string(), "+", e.r.to_string()),
            Expression::Subtract(e) => infix(e.l.to_string(), "-", e.r.to_string()),
            Expression::Multiply(e) => infix(e.l.to_string(), "*", e.r.to_string()),
            Expression::Divide(e) => infix(e.l.to_string(), "/", e.r.to_string()),
            Expression::Modulus(e) => infix(e.l.to_string(), "%", e.r.to_string()),
        }
    }

    /// Evaluates the expression against a batch.
    pub fn evaluate(&self, input: &RecordBatch) -> (r: Result<ColumnVector, QueryError>)
        ensures
            gives(r, self.evaluated(input@)),
        decreases self,
    {
        match self {
            Expression::Column(e) => e.evaluate(input),
            Expression::LiteralLong(e) => e.evaluate(input),
            Expression::LiteralString(e) => e.evaluate(input),
            Expression::Cast(e) => e.evaluate(input),
            Expression::And(e) => e.evaluate(input),
            Expression::Or(e) => e.evaluate(input),
            Expression::Eq(e) => e.evaluate(input),
            Expression::Neq(e) => e.evaluate(input),
            Expression::Lt(e) => e.evaluate(input),
            Expression::LtEq(e) => e.evaluate(input),
            Expression::Gt(e) => e.evaluate(input),
            Expression::GtEq(e) => e.evaluate(input),
            Expression::Add(e) => e.evaluate(input),
            Expression::Subtract(e) => e.evaluate(input),
            Expression::Multiply(e) => e.evaluate(input),
            Expression::Divide(e) => e.evaluate(input),
            Expression::Modulus(e) => e.evaluate(input),
        }
    }
}

/// Two texts with a sign between them.
pub fn infix(l: String, sign: &str, r: String) -> (out: String)
    ensures
        out@ == l@ + sign@ + r@,
{
    let mut out = l;
    out.append(sign);
    out.append(r.as_str());
    out
}

/// The texts of a run of physical expressions.
pub open spec fn expression_texts(exprs: Seq<Expression>) -> Seq<Seq<char>> {
    exprs.map_values(|e: Expression| e.text())
}

/// The texts of a list of physical expressions, with a comma and a space
/// between them.
pub fn expressions_to_string(exprs: &Vec<Expression>) -> (r: String)
    ensures
        r@ == joined(expression_texts(exprs@), ", "@),
{
    let mut parts: Vec<String> = Vec::new();
    let mut i: usize = 0;
    while i < exprs.len()
        invariant
            i <= exprs.len(),
            parts@.len() == i,
            forall|k: int| 0 <= k < i ==> (#[trigger] parts@[k])@ == exprs@[k].text(),
        decreases exprs.len() - i,
    {
        parts.push(exprs[i].to_string());
        i = i + 1;
    }
    assert(views(parts@) =~= expression_texts(exprs@));
    join(&parts, ", ")
}

/// The two families of binary expressions.
pub enum BinaryKind {
    Boolean(BooleanOp),
    Math(MathOp),
}

/// What a binary expression evaluates to, from what its operands evaluate
/// to: the failure of the left operand, else that of the right, else what
/// the operator makes of the two columns.
pub open spec fn binary(
    kind: BinaryKind,
    l: Result<ColumnSpec, QueryError>,
    r: Result<ColumnSpec, QueryError>,
) -> Result<ColumnSpec, QueryError> {
    match l {
        Err(e) => Err(e),
        Ok(lc) => match r {
            Err(e) => Err(e),
            Ok(rc) => match kind {
                BinaryKind::Boolean(op) => compared(op, lc, rc),
                BinaryKind::Math(op) => calculated(op, lc, rc),
            },
        },
    }
}

impl LiteralLongExpression {
    /// A column of as many slots as the batch has rows, which all hold the
    /// constant.
    pub fn evaluate(&self, input: &RecordBatch) -> (r: Result<ColumnVector, QueryError>)
        ensures
            gives(r, Expression::LiteralLong(*self).evaluated(input@)),
    {
        let v = LiteralValueVector {
            arrow_type: ArrowType::Int64Type,
            value: Some(ScalarValue::Int64(self.value)),
            size: input.row_count_or_zero(),
        };
        Ok(ColumnVector::Literal(v))
    }
}

impl LiteralStringExpression {
    /// A column of as many slots as the batch has rows, which all hold the
    /// constant.
    pub fn evaluate(&self, input: &RecordBatch) -> (r: Result<ColumnVector, QueryError>)
        ensures
            gives(r, Expression::LiteralString(*self).evaluated(input@)),
    {
        let v = LiteralValueVector {
            arrow_type: ArrowType::StringType,
            value: Some(ScalarValue::Utf8(self.value.clone())),
            size: input.row_count_or_zero(),
        };
        Ok(ColumnVector::Literal(v))
    }
}

} // verus!
