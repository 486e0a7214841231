//! Casts of a column to another type.

use crate::datatypes::arrow_types::ArrowType;
use crate::datatypes::arrow_vector_builder::{
    build_vector, parsed, stored_all, total_text_bytes, views_of, TEXT_LIMIT,
};
use crate::datatypes::column_vector::{ColumnSpec, ColumnVector};
use crate::datatypes::record_batch::RecordBatch;
use crate::datatypes::scalar::{view_of, Datum, ScalarValue};
use crate::error::QueryError;
use crate::physical_plan::expressions::{gives, Expression};
use crate::text::{parse_bool, parse_integer};
use vstd::prelude::*;

verus! {

/// The cast of an expression to `data_type`.
pub struct CastExpression {
    pub expr: Box<Expression>,
    pub data_type: ArrowType,
}

/// The value of type `t` that a value converts to: the value itself where
/// it is of type `t`; what a text writes; the same number, where `t` is an
/// integer type that can hold it. A null for everything else: a text that
/// writes no value of `t`, a number that `t` cannot hold, a number or a
/// truth value cast to another kind.
pub open spec fn converted(d: Datum, t: ArrowType) -> Option<Datum> {
    if d.data_type() == t {
        Some(d)
    } else {
        match d {
            Datum::Text(s) => parsed(t, s),
            Datum::Integer(_, v) => if t.admits(v) {
                Some(Datum::Integer(t, v))
            } else {
                None
            },
            Datum::Boolean(_) => None,
        }
    }
}

/// The slot that a slot converts to: a null stays a null.
pub open spec fn converted_item(item: Option<Datum>, t: ArrowType) -> Option<Datum> {
    match item {
        Some(d) => converted(d, t),
        None => None,
    }
}

/// The slots of a column, each converted to `t`.
pub open spec fn converted_items(items: Seq<Option<Datum>>, t: ArrowType) -> Seq<Option<Datum>> {
    Seq::new(items.len(), |i: int| converted_item(items[i], t))
}

/// What the cast of a column to `t` gives: a column of type `t` with every
/// slot converted; a failure for a floating-point type, and where the texts
/// of the column would take more than `TEXT_LIMIT` bytes.
pub open spec fn cast_column(c: ColumnSpec, t: ArrowType) -> Result<ColumnSpec, QueryError> {
    if t.is_floating() {
        Err(QueryError::UnsupportedType(t))
    } else if total_text_bytes(converted_items(c.items, t)) > TEXT_LIMIT {
        Err(QueryError::VectorTooLarge)
    } else {
        Ok(ColumnSpec { data_type: t, items: converted_items(c.items, t) })
    }
}

/// Converts a value to the type `t`.
pub fn convert(v: &ScalarValue, t: ArrowType) -> (r: Option<ScalarValue>)
    ensures
        view_of(r) == converted(v@, t),
{
    if v.get_type() == t {
        return Some(v.clone());
    }
    match v {
        ScalarValue::Utf8(s) => {
            if t == ArrowType::BooleanType {
                match parse_bool(s.as_str()) {
                    Some(b) => Some(ScalarValue::Boolean(b)),
                    None => None,
                }
            } else if t.is_integer_type() {
                let (min, max) = t.bounds();
                match parse_integer(s.as_str(), min, max) {
                    Some(n) => ScalarValue::from_integer(t, n),
                    None => None,
                }
            } else {
                None
            }
        },
        ScalarValue::Boolean(_) => None,
        _ => match v.to_integer() {
            Some(n) => ScalarValue::from_integer(t, n),
            None => None,
        },
    }
}

/// Converts a value to an 8-bit signed integer.
pub fn convert_to_i8(v: &ScalarValue) -> (r: Option<ScalarValue>)
    ensures
        view_of(r) == converted(v@, ArrowType::Int8Type),
{
    convert(v, ArrowType::Int8Type)
}

/// Converts a value to a 16-bit signed integer.
pub fn convert_to_i16(v: &ScalarValue) -> (r: Option<ScalarValue>)
    ensures
        view_of(r) == converted(v@, ArrowType::Int16Type),
{
    convert(v, ArrowType::Int16Type)
}

/// Converts a value to a 32-bit signed integer.
pub fn convert_to_i32(v: &ScalarValue) -> (r: Option<ScalarValue>)
    ensures
        view_of(r) == converted(v@, ArrowType::Int32Type),
{
    convert(v, ArrowType::Int32Type)
}

/// Converts a value to a 64-bit signed integer.
pub fn convert_to_i64(v: &ScalarValue) -> (r: Option<ScalarValue>)
    ensures
        view_of(r) == converted(v@, ArrowType::Int64Type),
{
    convert(v, ArrowType::Int64Type)
}

/// Converts a value to an 8-bit unsigned integer.
pub fn convert_to_u8(v: &ScalarValue) -> (r: Option<ScalarValue>)
    ensures
        view_of(r) == converted(v@, ArrowType::UInt8Type),
{
    convert(v, ArrowType::UInt8Type)
}

/// Converts a value to a 16-bit unsigned integer.
pub fn convert_to_u16(v: &ScalarValue) -> (r: Option<ScalarValue>)
    ensures
        view_of(r) == converted(v@, ArrowType::UInt16Type),
{
    convert(v, ArrowType::UInt16Type)
}

/// Converts a value to a 32-bit unsigned integer.
pub fn convert_to_u32(v: &ScalarValue) -> (r: Option<ScalarValue>)
    ensures
        view_of(r) == converted(v@, ArrowType::UInt32Type),
{
    convert(v, ArrowType::UInt32Type)
}

/// Converts a value to a 64-bit unsigned integer.
pub fn convert_to_u64(v: &ScalarValue) -> (r: Option<ScalarValue>)
    ensures
        view_of(r) == converted(v@, ArrowType::UInt64Type),
{
    convert(v, ArrowType::UInt64Type)
}

/// A cast through a wider integer type is the cast itself: where a number
/// is of an integer type whose every value the type `through` has too, the
/// conversion to `through` and on to any type gives what the conversion to
/// that type gives.
pub proof fn theorem_cast_through_wider(d: Datum, through: ArrowType, target: ArrowType)
    requires
        d.wf(),
        d is Integer,
        d.data_type().widens_to(through),
    ensures
        converted(d, through) is Some,
        converted(converted(d, through)->Some_0, target) == converted(d, target),
{
}

impl CastExpression {
    /// Evaluates the operand and converts the column slot by slot.
    pub fn evaluate(&self, input: &RecordBatch) -> (out: Result<ColumnVector, QueryError>)
        ensures
            gives(out, Expression::Cast(*self).evaluated(input@)),
        decreases self,
    {
        let value = match self.expr.evaluate(input) {
            Ok(c) => c,
            Err(e) => {
                return Err(e);
            },
        };
        let t = self.data_type;
        if t.is_floating_type() {
            return Err(QueryError::UnsupportedType(t));
        }
        let n: usize = value.size();
        let mut values: Vec<Option<ScalarValue>> = Vec::new();
        let mut i: usize = 0;
        while i < n
            invariant
                i <= n,
                n == value.items().len(),
                values@.len() == i,
                forall|k: int|
                    0 <= k < i ==> view_of(#[trigger] values@[k]) == converted_item(
                        value.items()[k],
                        t,
                    ),
            decreases n - i,
        {
            let converted_value = match value.get_value(i) {
                Some(v) => match t {
                    ArrowType::Int8Type => convert_to_i8(&v),
                    ArrowType::Int16Type => convert_to_i16(&v),
                    ArrowType::Int32Type => convert_to_i32(&v),
                    ArrowType::Int64Type => convert_to_i64(&v),
                    ArrowType::UInt8Type => convert_to_u8(&v),
                    ArrowType::UInt16Type => convert_to_u16(&v),
                    ArrowType::UInt32Type => convert_to_u32(&v),
                    ArrowType::UInt64Type => convert_to_u64(&v),
                    _ => convert(&v, t),
                },
                None => None,
            };
            values.push(converted_value);
            i = i + 1;
        }
        proof {
            let items = converted_items(value.items(), t);
            assert(stored_all(t, views_of(values@)) =~= items);
        }
        build_vector(t, &values)
    }
}

} // verus!
