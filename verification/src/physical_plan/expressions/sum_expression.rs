//! The sum of a column.

use crate::datatypes::arrow_types::ArrowType;
use crate::datatypes::scalar::{view_of, ScalarValue};
use crate::error::QueryError;
use crate::physical_plan::expressions::aggregate_expression::{
    final_of, steps, Accumulator, AccumulatorState,
};
use crate::physical_plan::expressions::Expression;
use vstd::prelude::*;

verus! {

/// The sum of the values of an expression.
pub struct SumExpression {
    pub expr: Expression,
}

impl SumExpression {
    /// The expression whose values are added.
    pub fn input_expression(&self) -> (r: &Expression)
        ensures
            *r == self.expr,
    {
        &self.expr
    }

    /// A new accumulator for sums of type `arrow_type`.
    pub fn create_accumulator(&self, arrow_type: ArrowType) -> (r: Accumulator)
        ensures
            r@ == AccumulatorState::Sum(arrow_type, None),
    {
        Accumulator::Sum(SumAccumulator::new(arrow_type))
    }
}

/// The running total of the integers of one type.
pub struct SumAccumulator {
    value: Option<ScalarValue>,
    arrow_type: ArrowType,
}

impl View for SumAccumulator {
    type V = AccumulatorState;

    closed spec fn view(&self) -> AccumulatorState {
        AccumulatorState::Sum(self.arrow_type, view_of(self.value))
    }
}

impl SumAccumulator {
    /// An accumulator for sums of type `arrow_type`, which has taken no
    /// value yet.
    pub fn new(arrow_type: ArrowType) -> (r: SumAccumulator)
        ensures
            r@ == AccumulatorState::Sum(arrow_type, None),
    {
        SumAccumulator { value: None, arrow_type }
    }

    /// Adds one more input to the total: the first value sets it, a null
    /// changes nothing.
    pub fn accumulate(&mut self, value: Option<ScalarValue>) -> (r: Result<(), QueryError>)
        ensures
            steps(old(self)@, view_of(value), r, final(self)@),
    {
        let input = match value {
            Some(v) => v,
            None => {
                return Ok(());
            },
        };
        let t = self.arrow_type;
        if !t.is_integer_type() {
            return Err(QueryError::UnsupportedType(t));
        }
        if input.get_type() != t {
            return Err(QueryError::TypeMismatch(t, input.get_type()));
        }
        let total: Option<i128> = match &self.value {
            Some(current) => current.to_integer(),
            None => None,
        };
        match (total, input.to_integer()) {
            (Some(y), Some(x)) => {
                match ScalarValue::from_integer(t, y + x) {
                    Some(next) => {
                        self.value = Some(next);
                        Ok(())
                    },
                    None => Err(QueryError::ArithmeticFailure),
                }
            },
            _ => {
                self.value = Some(input);
                Ok(())
            },
        }
    }

    /// The total; absent where no value came.
    pub fn final_value(&self) -> (r: Option<ScalarValue>)
        ensures
            view_of(r) == final_of(self@),
    {
        match &self.value {
            Some(v) => Some(v.clone()),
            None => None,
        }
    }
}

} // verus!
