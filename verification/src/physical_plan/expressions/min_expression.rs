//! The least value of a column.

use crate::datatypes::arrow_types::ArrowType;
use crate::datatypes::scalar::{view_of, ScalarValue};
use crate::error::QueryError;
use crate::physical_plan::expressions::aggregate_expression::{
    final_of, steps, Accumulator, AccumulatorState,
};
use crate::physical_plan::expressions::binary_expression::value_less;
use crate::physical_plan::expressions::Expression;
use vstd::prelude::*;

verus! {

/// The least of the values of an expression.
pub struct MinExpression {
    pub expr: Expression,
}

impl MinExpression {
    /// The expression whose values are folded.
    pub fn input_expression(&self) -> (r: &Expression)
        ensures
            *r == self.expr,
    {
        &self.expr
    }

    /// A new accumulator for values of type `arrow_type`.
    pub fn create_accumulator(&self, arrow_type: ArrowType) -> (r: Accumulator)
        ensures
            r@ == AccumulatorState::Min(arrow_type, None),
    {
        Accumulator::Min(MinAccumulator::new(arrow_type))
    }
}

/// The least of the values of one type that came so far.
pub struct MinAccumulator {
    value: Option<ScalarValue>,
    arrow_type: ArrowType,
}

impl View for MinAccumulator {
    type V = AccumulatorState;

    closed spec fn view(&self) -> AccumulatorState {
        AccumulatorState::Min(self.arrow_type, view_of(self.value))
    }
}

impl MinAccumulator {
    /// An accumulator for values of type `arrow_type`, which has taken no
    /// value yet.
    pub fn new(arrow_type: ArrowType) -> (r: MinAccumulator)
        ensures
            r@ == AccumulatorState::Min(arrow_type, None),
    {
        MinAccumulator { value: None, arrow_type }
    }

    /// Takes one more input: it replaces the least so far where it
    /// comes before it in the order of the type; a null changes nothing.
    pub fn accumulate(&mut self, value: Option<ScalarValue>) -> (r: Result<(), QueryError>)
        ensures
            steps(old(self)@, view_of(value), r, final(self)@),
    {
        let input = match value {
            Some(v) => v,
            None => {
                return Ok(());
            },
        };
        let t = self.arrow_type;
        if t.is_floating_type() {
            return Err(QueryError::UnsupportedType(t));
        }
        if input.get_type() != t {
            return Err(QueryError::TypeMismatch(t, input.get_type()));
        }
        let replace: bool = match &self.value {
            Some(current) => value_less(&input, current),
            None => true,
        };
        if replace {
            self.value = Some(input);
        }
        Ok(())
    }

    /// The least value; absent where no value came.
    pub fn final_value(&self) -> (r: Option<ScalarValue>)
        ensures
            view_of(r) == final_of(self@),
    {
        match &self.value {
            Some(v) => Some(v.clone()),
            None => None,
        }
    }
}

} // verus!
