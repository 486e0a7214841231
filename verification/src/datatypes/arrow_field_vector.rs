//! Columns held as arrow arrays.

use crate::datatypes::arrow_types::ArrowType;
use crate::datatypes::scalar::{view_of, Datum, ScalarValue};
use arrow::array::{
    Array, ArrayRef, BooleanArray, Int16Array, Int32Array, Int64Array, Int8Array, StringArray,
    UInt16Array, UInt32Array, UInt64Array, UInt8Array,
};
use vstd::prelude::*;

verus! {

/// An arrow array of one of the supported column types (arrow's `ArrayRef`).
#[verifier::external_body]
pub struct ArrayHandle {
    pub(crate) array: ArrayRef,
}

/// The column type of the array.
pub uninterp spec fn array_type(a: ArrayHandle) -> ArrowType;

/// The slots of the array, in order; `None` stands for a null.
pub uninterp spec fn array_items(a: ArrayHandle) -> Seq<Option<Datum>>;

impl ArrayHandle {
    /// arrow's `Array::len`: the number of slots.
    #[verifier::external_body]
    fn len(&self) -> (n: usize)
        ensures
            n == array_items(*self).len(),
    {
        self.array.len()
    }

    /// arrow's `Array::is_null`: whether the slot at `i` is a null.
    #[verifier::external_body]
    fn is_null(&self, i: usize) -> (b: bool)
        requires
            i < array_items(*self).len(),
        ensures
            b == (array_items(*self)[i as int] is None),
    {
        self.array.is_null(i)
    }

    /// `Arc::clone` on arrow's `ArrayRef`: a second handle on the same array.
    #[verifier::external_body]
    fn share(&self) -> (r: ArrayHandle)
        ensures
            array_type(r) == array_type(*self),
            array_items(r) == array_items(*self),
    {
        ArrayHandle { array: self.array.clone() }
    }

    /// arrow's `BooleanArray::value`: what the slot at `i` holds, where it
    /// is no null.
    #[verifier::external_body]
    fn boolean_at(&self, i: usize) -> (v: bool)
        requires
            array_type(*self) == ArrowType::BooleanType,
            i < array_items(*self).len(),
        ensures
            array_items(*self)[i as int] is Some ==> array_items(*self)[i as int] == Some(
                Datum::Boolean(v),
            ),
    {
        self.array.as_any().downcast_ref::<BooleanArray>().unwrap().value(i)
    }

    /// arrow's `PrimitiveArray::value` on an `Int8Array`: what the slot at
    /// `i` holds, where it is no null.
    #[verifier::external_body]
    fn int8_at(&self, i: usize) -> (v: i8)
        requires
            array_type(*self) == ArrowType::Int8Type,
            i < array_items(*self).len(),
        ensures
            array_items(*self)[i as int] is Some ==> array_items(*self)[i as int] == Some(
                Datum::Integer(ArrowType::Int8Type, v as int),
            ),
    {
        self.array.as_any().downcast_ref::<Int8Array>().unwrap().value(i)
    }

    /// arrow's `PrimitiveArray::value` on an `Int16Array`: what the slot at
    /// `i` holds, where it is no null.
    #[verifier::external_body]
    fn int16_at(&self, i: usize) -> (v: i16)
        requires
            array_type(*self) == ArrowType::Int16Type,
            i < array_items(*self).len(),
        ensures
            array_items(*self)[i as int] is Some ==> array_items(*self)[i as int] == Some(
                Datum::Integer(ArrowType::Int16Type, v as int),
            ),
    {
        self.array.as_any().downcast_ref::<Int16Array>().unwrap().value(i)
    }

    /// arrow's `PrimitiveArray::value` on an `Int32Array`: what the slot at
    /// `i` holds, where it is no null.
    #[verifier::external_body]
    fn int32_at(&self, i: usize) -> (v: i32)
        requires
            array_type(*self) == ArrowType::Int32Type,
            i < array_items(*self).len(),
        ensures
            array_items(*self)[i as int] is Some ==> array_items(*self)[i as int] == Some(
                Datum::Integer(ArrowType::Int32Type, v as int),
            ),
    {
        self.array.as_any().downcast_ref::<Int32Array>().unwrap().value(i)
    }

    /// arrow's `PrimitiveArray::value` on an `Int64Array`: what the slot at
    /// `i` holds, where it is no null.
    #[verifier::external_body]
    fn int64_at(&self, i: usize) -> (v: i64)
        requires
            array_type(*self) == ArrowType::Int64Type,
            i < array_items(*self).len(),
        ensures
            array_items(*self)[i as int] is Some ==> array_items(*self)[i as int] == Some(
                Datum::Integer(ArrowType::Int64Type, v as int),
            ),
    {
        self.array.as_any().downcast_ref::<Int64Array>().unwrap().value(i)
    }

    /// arrow's `PrimitiveArray::value` on a `UInt8Array`: what the slot at
    /// `i` holds, where it is no null.
    #[verifier::external_body]
    fn uint8_at(&self, i: usize) -> (v: u8)
        requires
            array_type(*self) == ArrowType::UInt8Type,
            i < array_items(*self).len(),
        ensures
            array_items(*self)[i as int] is Some ==> array_items(*self)[i as int] == Some(
                Datum::Integer(ArrowType::UInt8Type, v as int),
            ),
    {
        self.array.as_any().downcast_ref::<UInt8Array>().unwrap().value(i)
    }

    /// arrow's `PrimitiveArray::value` on a `UInt16Array`: what the slot at
    /// `i` holds, where it is no null.
    #[verifier::external_body]
    fn uint16_at(&self, i: usize) -> (v: u16)
        requires
            array_type(*self) == ArrowType::UInt16Type,
            i < array_items(*self).len(),
        ensures
            array_items(*self)[i as int] is Some ==> array_items(*self)[i as int] == Some(
                Datum::Integer(ArrowType::UInt16Type, v as int),
            ),
    {
        self.array.as_any().downcast_ref::<UInt16Array>().unwrap().value(i)
    }

    /// arrow's `PrimitiveArray::value` on a `UInt32Array`: what the slot at
    /// `i` holds, where it is no null.
    #[verifier::external_body]
    fn uint32_at(&self, i: usize) -> (v: u32)
        requires
            array_type(*self) == ArrowType::UInt32Type,
            i < array_items(*self).len(),
        ensures
            array_items(*self)[i as int] is Some ==> array_items(*self)[i as int] == Some(
                Datum::Integer(ArrowType::UInt32Type, v as int),
            ),
    {
        self.array.as_any().downcast_ref::<UInt32Array>().unwrap().value(i)
    }

    /// arrow's `PrimitiveArray::value` on a `UInt64Array`: what the slot at
    /// `i` holds, where it is no null.
    #[verifier::external_body]
    fn uint64_at(&self, i: usize) -> (v: u64)
        requires
            array_type(*self) == ArrowType::UInt64Type,
            i < array_items(*self).len(),
        ensures
            array_items(*self)[i as int] is Some ==> array_items(*self)[i as int] == Some(
                Datum::Integer(ArrowType::UInt64Type, v as int),
            ),
    {
        self.array.as_any().downcast_ref::<UInt64Array>().unwrap().value(i)
    }

    /// arrow's `GenericByteArray::value` on a `StringArray`: the text that
    /// the slot at `i` holds, where it is no null.
    #[verifier::external_body]
    fn text_at(&self, i: usize) -> (v: String)
        requires
            array_type(*self) == ArrowType::StringType,
            i < array_items(*self).len(),
        ensures
            array_items(*self)[i as int] is Some ==> array_items(*self)[i as int] == Some(
                Datum::Text(v@),
            ),
    {
        self.array.as_any().downcast_ref::<StringArray>().unwrap().value(i).to_string()
    }
}

/// A column held as an arrow array.
pub struct ArrowFieldVector {
    arrow_type: ArrowType,
    array: ArrayHandle,
}

impl ArrowFieldVector {
    #[verifier::type_invariant]
    spec fn well_typed(self) -> bool {
        array_type(self.array) == self.arrow_type && !self.arrow_type.is_floating()
    }

    /// The column type.
    pub closed spec fn data_type(&self) -> ArrowType {
        self.arrow_type
    }

    /// The slots of the column, in order; `None` stands for a null.
    pub closed spec fn items(&self) -> Seq<Option<Datum>> {
        array_items(self.array)
    }

    /// What the column gives at `i`: its slot, or nothing beyond its end.
    pub open spec fn value_at(&self, i: int) -> Option<Datum> {
        if 0 <= i < self.items().len() {
            self.items()[i]
        } else {
            None
        }
    }

    /// Takes the array that a builder of type `arrow_type` finished.
    pub(crate) fn from_handle(arrow_type: ArrowType, array: ArrayHandle) -> (r: ArrowFieldVector)
        requires
            array_type(array) == arrow_type,
            !arrow_type.is_floating(),
        ensures
            r.data_type() == arrow_type,
            r.items() == array_items(array),
    {
        ArrowFieldVector { arrow_type, array }
    }

    /// The column type, which is never a floating-point type.
    pub fn get_type(&self) -> (t: ArrowType)
        ensures
            t == self.data_type(),
            !t.is_floating(),
    {
        proof {
            use_type_invariant(self);
        }
        self.arrow_type
    }

    /// The number of slots.
    pub fn size(&self) -> (n: usize)
        ensures
            n == self.items().len(),
    {
        self.array.len()
    }

    /// The value at `i`: `None` beyond the end of the column and for a null.
    pub fn get_value(&self, i: usize) -> (r: Option<ScalarValue>)
        ensures
            view_of(r) == self.value_at(i as int),
            r matches Some(v) ==> v@.data_type() == self.data_type(),
    {
        proof {
            use_type_invariant(self);
        }
        if i >= self.array.len() {
            return None;
        }
        if self.array.is_null(i) {
            return None;
        }
        match self.arrow_type {
            ArrowType::BooleanType => Some(ScalarValue::Boolean(self.array.boolean_at(i))),
            ArrowType::Int8Type => Some(ScalarValue::Int8(self.array.int8_at(i))),
            ArrowType::Int16Type => Some(ScalarValue::Int16(self.array.int16_at(i))),
            ArrowType::Int32Type => Some(ScalarValue::Int32(self.array.int32_at(i))),
            ArrowType::Int64Type => Some(ScalarValue::Int64(self.array.int64_at(i))),
            ArrowType::UInt8Type => Some(ScalarValue::UInt8(self.array.uint8_at(i))),
            ArrowType::UInt16Type => Some(ScalarValue::UInt16(self.array.uint16_at(i))),
            ArrowType::UInt32Type => Some(ScalarValue::UInt32(self.array.uint32_at(i))),
            ArrowType::UInt64Type => Some(ScalarValue::UInt64(self.array.uint64_at(i))),
            ArrowType::StringType => Some(ScalarValue::Utf8(self.array.text_at(i))),
            ArrowType::FloatType => None,
            ArrowType::DoubleType => None,
        }
    }

    /// A second handle on the same column.
    pub fn share(&self) -> (r: ArrowFieldVector)
        ensures
            r.data_type() == self.data_type(),
            r.items() == self.items(),
    {
        proof {
            use_type_invariant(self);
        }
        ArrowFieldVector { arrow_type: self.arrow_type, array: self.array.share() }
    }
}

} // verus!
