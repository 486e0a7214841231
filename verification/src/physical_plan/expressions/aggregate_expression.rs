//! Aggregate expressions and the accumulators that fold their input.

use crate::datatypes::arrow_types::ArrowType;
use crate::datatypes::scalar::{view_of, Datum, ScalarValue};
use crate::error::QueryError;
use crate::physical_plan::expressions::binary_expression::datum_less;
use crate::physical_plan::expressions::count_expression::{
    CountAccumulator, CountDistinctAccumulator, CountDistinctExpression, CountExpression,
};
use crate::physical_plan::expressions::max_expression::{MaxAccumulator, MaxExpression};
use crate::physical_plan::expressions::min_expression::{MinAccumulator, MinExpression};
use crate::physical_plan::expressions::sum_expression::{SumAccumulator, SumExpression};
use crate::physical_plan::expressions::Expression;
use vstd::prelude::*;
use vstd::string::*;

verus! {

/// The most inputs that a count can count: its result is a 32-bit integer.
pub const COUNT_LIMIT: usize = 0x7fff_ffff;

/// The state of an accumulator, as mathematics sees it.
pub enum AccumulatorState {
    /// The type of the sum, and the total so far.
    Sum(ArrowType, Option<Datum>),
    /// The type of the values, and the greatest so far.
    Max(ArrowType, Option<Datum>),
    /// The type of the values, and the least so far.
    Min(ArrowType, Option<Datum>),
    /// The number of values so far.
    Count(nat),
    /// The different values so far, in the order in which they came.
    CountDistinct(Seq<Datum>),
}

/// The state after one more input. A null changes nothing. A sum takes
/// integers of its type and adds them, and fails where the total leaves
/// the type; the greatest and the least take values of their type; the
/// counts take any value, and fail beyond `COUNT_LIMIT`.
pub open spec fn accumulated(s: AccumulatorState, input: Option<Datum>) -> Result<
    AccumulatorState,
    QueryError,
> {
    match input {
        None => Ok(s),
        Some(d) => match s {
            AccumulatorState::Sum(t, total) => if !t.is_integer() {
                Err(QueryError::UnsupportedType(t))
            } else if d.data_type() != t {
                Err(QueryError::TypeMismatch(t, d.data_type()))
            } else {
                match total {
                    Some(Datum::Integer(u, y)) => if t.admits(y + d->Integer_1) {
                        Ok(AccumulatorState::Sum(t, Some(Datum::Integer(t, y + d->Integer_1))))
                    } else {
                        Err(QueryError::ArithmeticFailure)
                    },
                    _ => Ok(AccumulatorState::Sum(t, Some(d))),
                }
            },
            AccumulatorState::Max(t, best) => if t.is_floating() {
                Err(QueryError::UnsupportedType(t))
            } else if d.data_type() != t {
                Err(QueryError::TypeMismatch(t, d.data_type()))
            } else {
                match best {
                    Some(b) => if datum_less(b, d) {
                        Ok(AccumulatorState::Max(t, Some(d)))
                    } else {
                        Ok(s)
                    },
                    None => Ok(AccumulatorState::Max(t, Some(d))),
                }
            },
            AccumulatorState::Min(t, best) => if t.is_floating() {
                Err(QueryError::UnsupportedType(t))
            } else if d.data_type() != t {
                Err(QueryError::TypeMismatch(t, d.data_type()))
            } else {
                match best {
                    Some(b) => if datum_less(d, b) {
                        Ok(AccumulatorState::Min(t, Some(d)))
                    } else {
                        Ok(s)
                    },
                    None => Ok(AccumulatorState::Min(t, Some(d))),
                }
            },
            AccumulatorState::Count(n) => if n >= COUNT_LIMIT {
                Err(QueryError::ArithmeticFailure)
            } else {
                Ok(AccumulatorState::Count(n + 1))
            },
            AccumulatorState::CountDistinct(seen) => if seen.contains(d) {
                Ok(s)
            } else if seen.len() >= COUNT_LIMIT {
                Err(QueryError::ArithmeticFailure)
            } else {
                Ok(AccumulatorState::CountDistinct(seen.push(d)))
            },
        },
    }
}

/// A count as a value: a 32-bit integer. A count beyond `COUNT_LIMIT`,
/// which no accumulator reaches, has no value.
pub open spec fn count_value(n: nat) -> Option<Datum> {
    if n <= COUNT_LIMIT {
        Some(Datum::Integer(ArrowType::Int32Type, n as int))
    } else {
        None
    }
}

/// The value that an accumulator gives at the end: the total, the greatest
/// or the least, which are absent where no value came; or the count.
pub open spec fn final_of(s: AccumulatorState) -> Option<Datum> {
    match s {
        AccumulatorState::Sum(_, total) => total,
        AccumulatorState::Max(_, best) => best,
        AccumulatorState::Min(_, best) => best,
        AccumulatorState::Count(n) => count_value(n),
        AccumulatorState::CountDistinct(seen) => count_value(seen.len()),
    }
}

/// The state after a run of inputs, in order; the first failure stops the
/// run.
pub open spec fn accumulated_all(s: AccumulatorState, inputs: Seq<Option<Datum>>) -> Result<
    AccumulatorState,
    QueryError,
>
    decreases inputs.len(),
{
    if inputs.len() == 0 {
        Ok(s)
    } else {
        match accumulated_all(s, inputs.drop_last()) {
            Ok(before) => accumulated(before, inputs.last()),
            Err(e) => Err(e),
        }
    }
}

/// Whether `accumulate` did what `accumulated` says: the next state, or
/// the failure with the state unchanged.
pub open spec fn steps(
    before: AccumulatorState,
    input: Option<Datum>,
    r: Result<(), QueryError>,
    after: AccumulatorState,
) -> bool {
    match accumulated(before, input) {
        Ok(s) => r is Ok && after == s,
        Err(e) => r == Err::<(), QueryError>(e) && after == before,
    }
}

/// Per-group state that one aggregate folds its input into.
pub enum Accumulator {
    Sum(SumAccumulator),
    Max(MaxAccumulator),
    Min(MinAccumulator),
    Count(CountAccumulator),
    CountDistinct(CountDistinctAccumulator),
}

impl View for Accumulator {
    type V = AccumulatorState;

    open spec fn view(&self) -> AccumulatorState {
        match self {
            Accumulator::Sum(a) => a@,
            Accumulator::Max(a) => a@,
            Accumulator::Min(a) => a@,
            Accumulator::Count(a) => a@,
            Accumulator::CountDistinct(a) => a@,
        }
    }
}

impl Accumulator {
    /// Takes one more input.
    pub fn accumulate(&mut self, value: Option<ScalarValue>) -> (r: Result<(), QueryError>)
        ensures
            steps(old(self)@, view_of(value), r, final(self)@),
    {
        match self {
            Accumulator::Sum(a) => a.accumulate(value),
            Accumulator::Max(a) => a.accumulate(value),
            Accumulator::Min(a) => a.accumulate(value),
            Accumulator::Count(a) => a.accumulate(value),
            Accumulator::CountDistinct(a) => a.accumulate(value),
        }
    }

    /// The value of the aggregate over the inputs taken so far.
    pub fn final_value(&self) -> (r: Option<ScalarValue>)
        ensures
            view_of(r) == final_of(self@),
    {
        match self {
            Accumulator::Sum(a) => a.final_value(),
            Accumulator::Max(a) => a.final_value(),
            Accumulator::Min(a) => a.final_value(),
            Accumulator::Count(a) => a.final_value(),
            Accumulator::CountDistinct(a) => a.final_value(),
        }
    }
}

/// An aggregate over the values of an input expression.
pub enum AggregateExpression {
    Sum(SumExpression),
    Max(MaxExpression),
    Min(MinExpression),
    Count(CountExpression),
    CountDistinct(CountDistinctExpression),
}

impl AggregateExpression {
    /// The state of a new accumulator for the aggregate, made for values of
    /// type `t`.
    pub open spec fn initial_state(&self, t: ArrowType) -> AccumulatorState {
        match self {
            AggregateExpression::Sum(_) => AccumulatorState::Sum(t, None),
            AggregateExpression::Max(_) => AccumulatorState::Max(t, None),
            AggregateExpression::Min(_) => AccumulatorState::Min(t, None),
            AggregateExpression::Count(_) => AccumulatorState::Count(0),
            AggregateExpression::CountDistinct(_) => AccumulatorState::CountDistinct(Seq::empty()),
        }
    }

    /// The expression whose values the aggregate folds.
    pub open spec fn input(&self) -> Expression {
        match self {
            AggregateExpression::Sum(e) => e.expr,
            AggregateExpression::Max(e) => e.expr,
            AggregateExpression::Min(e) => e.expr,
            AggregateExpression::Count(e) => e.expr,
            AggregateExpression::CountDistinct(e) => e.expr,
        }
    }

    /// The text of the aggregate, as a printed physical plan shows it.
    pub open spec fn text(&self) -> Seq<char> {
        match self {
            AggregateExpression::Sum(e) => "SUM("@ + e.expr.text() + ")"@,
            AggregateExpression::Max(e) => "MAX("@ + e.expr.text() + ")"@,
            AggregateExpression::Min(e) => "MIN("@ + e.expr.text() + ")"@,
            AggregateExpression::Count(e) => "COUNT("@ + e.expr.text() + ")"@,
            AggregateExpression::CountDistinct(e) => "COUNT(DISTINCT "@ + e.expr.text() + ")"@,
        }
    }

    /// The text of the aggregate.
    pub fn to_string(&self) -> (r: String)
        ensures
            r@ == self.text(),
    {
        let mut out = match self {
            AggregateExpression::Sum(_) => "SUM(".to_owned(),
            AggregateExpression::Max(_) => "MAX(".to_owned(),
            AggregateExpression::Min(_) => "MIN(".to_owned(),
            AggregateExpression::Count(_) => "COUNT(".to_owned(),
            AggregateExpression::CountDistinct(_) => "COUNT(DISTINCT ".to_owned(),
        };
        out.append(self.input_expression().to_string().as_str());
        out.append(")");
        out
    }

    /// The expression whose values the aggregate folds.
    pub fn input_expression(&self) -> (r: &Expression)
        ensures
            *r == self.input(),
    {
        match self {
            AggregateExpression::Sum(e) => e.input_expression(),
            AggregateExpression::Max(e) => e.input_expression(),
            AggregateExpression::Min(e) => e.input_expression(),
            AggregateExpression::Count(e) => e.input_expression(),
            AggregateExpression::CountDistinct(e) => e.input_expression(),
        }
    }

    /// A new accumulator for the aggregate, for values of type
    /// `arrow_type`.
    pub fn create_accumulator(&self, arrow_type: ArrowType) -> (r: Accumulator)
        ensures
            r@ == self.initial_state(arrow_type),
    {
        match self {
            AggregateExpression::Sum(e) => e.create_accumulator(arrow_type),
            AggregateExpression::Max(e) => e.create_accumulator(arrow_type),
            AggregateExpression::Min(e) => e.create_accumulator(arrow_type),
            AggregateExpression::Count(e) => e.create_accumulator(arrow_type),
            AggregateExpression::CountDistinct(e) => e.create_accumulator(arrow_type),
        }
    }
}

} // verus!
