//! Constant columns.

use crate::datatypes::arrow_types::ArrowType;
use crate::datatypes::scalar::{view_of, Datum, ScalarValue};
use vstd::prelude::*;

verus! {

/// A column of `size` slots that all hold the same value.
pub struct LiteralValueVector {
    pub arrow_type: ArrowType,
    pub value: Option<ScalarValue>,
    pub size: usize,
}

impl LiteralValueVector {
    /// The slots of the column: the one value, `size` times.
    pub open spec fn items(&self) -> Seq<Option<Datum>> {
        Seq::new(self.size as nat, |i: int| view_of(self.value))
    }

    /// The column type.
    pub fn get_type(&self) -> (t: ArrowType)
        ensures
            t == self.arrow_type,
    {
        self.arrow_type
    }

    /// The value at `i`: the one value of the column, `None` beyond its end.
    pub fn get_value(&self, i: usize) -> (r: Option<ScalarValue>)
        ensures
            view_of(r) == (if i < self.size {
                view_of(self.value)
            } else {
                None
            }),
    {
        if i >= self.size {
            None
        } else {
            match &self.value {
                Some(v) => Some(v.clone()),
                None => None,
            }
        }
    }

    /// The number of slots.
    pub fn size(&self) -> (n: usize)
        ensures
            n == self.size,
    {
        self.size
    }
}

} // verus!
