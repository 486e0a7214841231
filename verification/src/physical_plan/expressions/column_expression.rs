//! References to a column of the batch.

use crate::datatypes::column_vector::{ColumnSpec, ColumnVector};
use crate::datatypes::record_batch::{BatchSpec, RecordBatch};
use crate::error::QueryError;
use crate::physical_plan::expressions::{gives, Expression};
use vstd::prelude::*;

verus! {

/// The column at index `i` of the batch.
#[derive(Debug)]
pub struct ColumnExpression {
    pub i: usize,
}

impl ColumnExpression {
    /// The column at `i`; a failure where the batch has no such column.
    pub open spec fn evaluated(&self, input: BatchSpec) -> Result<ColumnSpec, QueryError> {
        if self.i < input.columns.len() {
            Ok(input.columns[self.i as int])
        } else {
            Err(QueryError::IndexOutOfRange(self.i))
        }
    }

    /// The column at `i` of the batch.
    pub fn evaluate(&self, input: &RecordBatch) -> (r: Result<ColumnVector, QueryError>)
        ensures
            gives(r, Expression::Column(*self).evaluated(input@)),
    {
        if self.i < input.column_count() {
            Ok(input.field(self.i))
        } else {
            Err(QueryError::IndexOutOfRange(self.i))
        }
    }
}

} // verus!
