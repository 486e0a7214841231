use crate::datatypes::arrow_types::ArrowType;
use vstd::prelude::*;

verus! {

/// Why a query, or a step of it, failed.
#[derive(Debug)]
pub enum QueryError {
    /// An expression names a column that its input does not have.
    UnknownColumn(String),
    /// A schema was asked for a field name that it does not have.
    UnknownField(String),
    /// A column index lies beyond the columns of its input.
    IndexOutOfRange(usize),
    /// The two operands of a binary expression have different types.
    TypeMismatch(ArrowType, ArrowType),
    /// The two operands of a binary expression have different lengths.
    LengthMismatch(usize, usize),
    /// A value of this type cannot be built, converted or aggregated.
    UnsupportedType(ArrowType),
    /// The optimizer or the planner met a plan node that it does not handle.
    UnsupportedPlan(String),
    /// The planner met an expression that it does not handle.
    UnsupportedExpression(String),
    /// Integer arithmetic failed: a division by zero, or a result that the
    /// column's type cannot hold.
    ArithmeticFailure,
    /// The text of a column has outgrown what one vector can hold.
    VectorTooLarge,
    /// The content of a source cannot be read.
    SourceIoFailure,
    /// No table is registered under this name.
    UnknownTable(String),
}

/// A failure as mathematics sees it: every text is a sequence of
/// characters.
pub enum QueryFault {
    UnknownColumn(Seq<char>),
    UnknownField(Seq<char>),
    IndexOutOfRange(usize),
    TypeMismatch(ArrowType, ArrowType),
    LengthMismatch(usize, usize),
    UnsupportedType(ArrowType),
    UnsupportedPlan(Seq<char>),
    UnsupportedExpression(Seq<char>),
    ArithmeticFailure,
    VectorTooLarge,
    SourceIoFailure,
    UnknownTable(Seq<char>),
}

impl View for QueryError {
    type V = QueryFault;

    open spec fn view(&self) -> QueryFault {
        match self {
            QueryError::UnknownColumn(s) => QueryFault::UnknownColumn(s@),
            QueryError::UnknownField(s) => QueryFault::UnknownField(s@),
            QueryError::IndexOutOfRange(i) => QueryFault::IndexOutOfRange(*i),
            QueryError::TypeMismatch(l, r) => QueryFault::TypeMismatch(*l, *r),
            QueryError::LengthMismatch(l, r) => QueryFault::LengthMismatch(*l, *r),
            QueryError::UnsupportedType(t) => QueryFault::UnsupportedType(*t),
            QueryError::UnsupportedPlan(s) => QueryFault::UnsupportedPlan(s@),
            QueryError::UnsupportedExpression(s) => QueryFault::UnsupportedExpression(s@),
            QueryError::ArithmeticFailure => QueryFault::ArithmeticFailure,
            QueryError::VectorTooLarge => QueryFault::VectorTooLarge,
            QueryError::SourceIoFailure => QueryFault::SourceIoFailure,
            QueryError::UnknownTable(s) => QueryFault::UnknownTable(s@),
        }
    }
}

} // verus!
