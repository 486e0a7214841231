//! The greatest value of a column.

use crate::datatypes::arrow_types::ArrowType;
use crate::datatypes::scalar::{view_of, ScalarValue};
use crate::error::QueryError;
use crate::physical_plan::expressions::aggregate_expression::{
    final_of, steps, Accumulator, AccumulatorState,
};
use crate::physical_plan::expressions::binary_expression::value_less;
use crate::physical_plan::expressions::Expression;
use vstd::prelude::*;

verus! {

/// The greatest of the values of an expression.
pub struct MaxExpression {
    pub expr: Expression,
}

impl MaxExpression {
    /// The expression whose values are folded.
    pub fn input_expression(&self) -> (r: &Expression)
        ensures
            *r == self.expr,
    {
        &self.expr
    }

    /// A new accumulator for values of type `arrow_type`.
    pub fn create_accumulator(&self, arrow_type: ArrowType) -> (r: Accumulator)
        ensures
            r@ == AccumulatorState::Max(arrow_type, None),
    {
        Accumulator::Max(MaxAccumulator::new(arrow_type))
    }
}

/// The greatest of the values of one type that came so far.
pub struct MaxAccumulator {
    value: Option<ScalarValue>,
    arrow_type: ArrowType,
}

impl View for MaxAccumulator {
    type V = AccumulatorState;

    closed spec fn view(&self) -> AccumulatorState {
        AccumulatorState::Max(self.arrow_type, view_of(self.value))
    }
}

impl MaxAccumulator {
    /// An accumulator for values of type `arrow_type`, which has taken no
    /// value yet.
    pub fn new(arrow_type: ArrowType) -> (r: MaxAccumulator)
        ensures
            r@ == AccumulatorState::Max(arrow_type, None),
    {
        MaxAccumulator { value: None, arrow_type }
    }

    /// Takes one more input: it replaces the greatest so far where it
    /// comes after it in the order of the type; a null changes nothing.
    pub fn accumulate(&mut self, value: Option<ScalarValue>) -> (r: Result<(), QueryError>)
        ensures
            steps(old(self)@, view_of(value), r, final(self)@),
    {
        let input = match value {
            Some(v) => v,
            None => {
                return Ok(());
            },
        };
        let t = self.arrow_type;
        if t.is_floating_type() {
            return Err(QueryError::UnsupportedType(t));
        }
        if input.get_type() != t {
            return Err(QueryError::TypeMismatch(t, input.get_type()));
        }
        let replace: bool = match &self.value {
            Some(current) => value_less(current, &input),
            None => true,
        };
        if replace {
            self.value = Some(input);
        }
        Ok(())
    }

    /// The greatest value; absent where no value came.
    pub fn final_value(&self) -> (r: Option<ScalarValue>)
        ensures
            view_of(r) == final_of(self@),
    {
        match &self.value {
            Some(v) => Some(v.clone()),
            None => None,
        }
    }
}

} // verus!
