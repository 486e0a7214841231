//! Read-only typed columns.

use crate::datatypes::arrow_field_vector::ArrowFieldVector;
use crate::datatypes::arrow_types::ArrowType;
use crate::datatypes::arrow_vector_builder::{total_text_bytes, TEXT_LIMIT};
use crate::datatypes::literal_value_vector::LiteralValueVector;
use crate::datatypes::scalar::{view_of, Datum, ScalarValue};
use vstd::prelude::*;

verus! {

/// A column as mathematics sees it: its type and its slots, where `None`
/// stands for a null.
pub struct ColumnSpec {
    pub data_type: ArrowType,
    pub items: Seq<Option<Datum>>,
}

impl ColumnSpec {
    /// Whether the column is one that a builder can hold: its type is no
    /// floating-point type, every value is of its type, and its texts take
    /// no more than `TEXT_LIMIT` bytes.
    pub open spec fn valid(self) -> bool {
        &&& !self.data_type.is_floating()
        &&& forall|i: int|
            0 <= i < self.items.len() ==> ((#[trigger] self.items[i]) matches Some(d)
                ==> d.data_type() == self.data_type)
        &&& total_text_bytes(self.items) <= TEXT_LIMIT
    }
}

/// One typed column: an arrow array, or one value repeated.
pub enum ColumnVector {
    Arrow(ArrowFieldVector),
    Literal(LiteralValueVector),
}

impl View for ColumnVector {
    type V = ColumnSpec;

    open spec fn view(&self) -> ColumnSpec {
        ColumnSpec { data_type: self.data_type(), items: self.items() }
    }
}

impl ColumnVector {
    /// The column type.
    pub open spec fn data_type(&self) -> ArrowType {
        match self {
            ColumnVector::Arrow(v) => v.data_type(),
            ColumnVector::Literal(v) => v.arrow_type,
        }
    }

    /// The slots of the column, in order; `None` stands for a null.
    pub open spec fn items(&self) -> Seq<Option<Datum>> {
        match self {
            ColumnVector::Arrow(v) => v.items(),
            ColumnVector::Literal(v) => v.items(),
        }
    }

    /// What the column gives at `i`: its slot, or nothing beyond its end.
    pub open spec fn value_at(&self, i: int) -> Option<Datum> {
        if 0 <= i < self.items().len() {
            self.items()[i]
        } else {
            None
        }
    }

    /// The column type.
    pub fn get_type(&self) -> (t: ArrowType)
        ensures
            t == self.data_type(),
    {
        match self {
            ColumnVector::Arrow(v) => v.get_type(),
            ColumnVector::Literal(v) => v.get_type(),
        }
    }

    /// The value at `i`: `None` beyond the end of the column and for a null.
    pub fn get_value(&self, i: usize) -> (r: Option<ScalarValue>)
        ensures
            view_of(r) == self.value_at(i as int),
    {
        match self {
            ColumnVector::Arrow(v) => v.get_value(i),
            ColumnVector::Literal(v) => v.get_value(i),
        }
    }

    /// The number of slots.
    pub fn size(&self) -> (n: usize)
        ensures
            n == self.items().len(),
    {
        match self {
            ColumnVector::Arrow(v) => v.size(),
            ColumnVector::Literal(v) => v.size(),
        }
    }

    /// A second handle on the same column: an arrow array is shared, a
    /// constant is copied.
    pub fn share(&self) -> (r: ColumnVector)
        ensures
            r.data_type() == self.data_type(),
            r.items() == self.items(),
    {
        match self {
            ColumnVector::Arrow(v) => ColumnVector::Arrow(v.share()),
            ColumnVector::Literal(v) => {
                let value = match &v.value {
                    Some(x) => Some(x.clone()),
                    None => None,
                };
                let r = LiteralValueVector { arrow_type: v.arrow_type, value, size: v.size };
                ColumnVector::Literal(r)
            },
        }
    }
}

} // verus!
