//! Counts of the values of a column.

use crate::datatypes::arrow_types::ArrowType;
use crate::datatypes::scalar::{view_of, Datum, ScalarValue};
use crate::error::QueryError;
use crate::physical_plan::expressions::aggregate_expression::{
    final_of, steps, Accumulator, AccumulatorState, COUNT_LIMIT,
};
use crate::physical_plan::expressions::Expression;
use vstd::prelude::*;

verus! {

/// The number of values of an expression that are no nulls.
pub struct CountExpression {
    pub expr: Expression,
}

/// The number of different values of an expression, nulls aside.
pub struct CountDistinctExpression {
    pub expr: Expression,
}

impl CountExpression {
    /// The expression whose values are counted.
    pub fn input_expression(&self) -> (r: &Expression)
        ensures
            *r == self.expr,
    {
        &self.expr
    }

    /// A new accumulator; the type of the values plays no part.
    pub fn create_accumulator(&self, arrow_type: ArrowType) -> (r: Accumulator)
        ensures
            r@ == AccumulatorState::Count(0),
    {
        Accumulator::Count(CountAccumulator::new())
    }
}

impl CountDistinctExpression {
    /// The expression whose values are counted.
    pub fn input_expression(&self) -> (r: &Expression)
        ensures
            *r == self.expr,
    {
        &self.expr
    }

    /// A new accumulator; the type of the values plays no part.
    pub fn create_accumulator(&self, arrow_type: ArrowType) -> (r: Accumulator)
        ensures
            r@ == AccumulatorState::CountDistinct(Seq::empty()),
    {
        Accumulator::CountDistinct(CountDistinctAccumulator::new())
    }
}

/// Counts the values that came.
pub struct CountAccumulator {
    count: usize,
}

impl View for CountAccumulator {
    type V = AccumulatorState;

    closed spec fn view(&self) -> AccumulatorState {
        AccumulatorState::Count(self.count as nat)
    }
}

impl CountAccumulator {
    /// An accumulator that has counted nothing yet.
    pub fn new() -> (r: CountAccumulator)
        ensures
            r@ == AccumulatorState::Count(0),
    {
        CountAccumulator { count: 0 }
    }

    /// Counts one more input, unless it is a null.
    pub fn accumulate(&mut self, value: Option<ScalarValue>) -> (r: Result<(), QueryError>)
        ensures
            steps(old(self)@, view_of(value), r, final(self)@),
    {
        match value {
            None => Ok(()),
            Some(_) => {
                if self.count >= COUNT_LIMIT {
                    Err(QueryError::ArithmeticFailure)
                } else {
                    self.count = self.count + 1;
                    Ok(())
                }
            },
        }
    }

    /// The count, as a 32-bit integer.
    pub fn final_value(&self) -> (r: Option<ScalarValue>)
        ensures
            view_of(r) == final_of(self@),
    {
        if self.count <= COUNT_LIMIT {
            Some(ScalarValue::Int32(self.count as i32))
        } else {
            None
        }
    }
}

/// The views of a run of values.
pub open spec fn datums(values: Seq<ScalarValue>) -> Seq<Datum> {
    values.map_values(|v: ScalarValue| v@)
}

/// Counts the different values that came.
pub struct CountDistinctAccumulator {
    seen: Vec<ScalarValue>,
}

impl View for CountDistinctAccumulator {
    type V = AccumulatorState;

    closed spec fn view(&self) -> AccumulatorState {
        AccumulatorState::CountDistinct(datums(self.seen@))
    }
}

impl CountDistinctAccumulator {
    /// An accumulator that has seen nothing yet.
    pub fn new() -> (r: CountDistinctAccumulator)
        ensures
            r@ == AccumulatorState::CountDistinct(Seq::empty()),
    {
        let r = CountDistinctAccumulator { seen: Vec::new() };
        assert(datums(r.seen@) =~= Seq::empty());
        r
    }

    /// Whether a value came before.
    fn has_seen(&self, value: &ScalarValue) -> (r: bool)
        ensures
            r == datums(self.seen@).contains(value@),
    {
        let mut i: usize = 0;
        while i < self.seen.len()
            invariant
                i <= self.seen.len(),
                forall|k: int| 0 <= k < i ==> (#[trigger] datums(self.seen@)[k]) != value@,
            decreases self.seen.len() - i,
        {
            if self.seen[i].equals(value) {
                assert(datums(self.seen@)[i as int] == value@);
                return true;
            }
            i = i + 1;
        }
        false
    }

    /// Takes one more input: a value that did not come before is kept; a
    /// null changes nothing.
    pub fn accumulate(&mut self, value: Option<ScalarValue>) -> (r: Result<(), QueryError>)
        ensures
            steps(old(self)@, view_of(value), r, final(self)@),
    {
        match value {
            None => Ok(()),
            Some(v) => {
                if self.has_seen(&v) {
                    Ok(())
                } else if self.seen.len() >= COUNT_LIMIT {
                    Err(QueryError::ArithmeticFailure)
                } else {
                    let ghost before = datums(self.seen@);
                    self.seen.push(v);
                    assert(datums(self.seen@) =~= before.push(v@));
                    Ok(())
                }
            },
        }
    }

    /// The number of different values, as a 32-bit integer.
    pub fn final_value(&self) -> (r: Option<ScalarValue>)
        ensures
            view_of(r) == final_of(self@),
    {
        if self.seen.len() <= COUNT_LIMIT {
            Some(ScalarValue::Int32(self.seen.len() as i32))
        } else {
            None
        }
    }
}

} // verus!
