//! Single values of a column, and what they stand for.

use crate::datatypes::arrow_types::ArrowType;
use crate::text::{bool_text, bool_to_string, bytes_of, decimal_text, integer_to_string, text_eq};
use vstd::prelude::*;

verus! {

/// What one value of a column is, as mathematics sees it.
pub enum Datum {
    Boolean(bool),
    /// A whole number of the given integer type.
    Integer(ArrowType, int),
    Text(Seq<char>),
}

impl Datum {
    /// The column type that the value belongs to.
    pub open spec fn data_type(self) -> ArrowType {
        match self {
            Datum::Boolean(_) => ArrowType::BooleanType,
            Datum::Integer(t, _) => t,
            Datum::Text(_) => ArrowType::StringType,
        }
    }

    /// The value is one that its type has: an integer lies within the bounds
    /// of its integer type.
    pub open spec fn wf(self) -> bool {
        match self {
            Datum::Integer(t, v) => t.admits(v),
            _ => true,
        }
    }

    /// The text of the value: `true` or `false`, decimal digits, or the text
    /// itself.
    pub open spec fn text(self) -> Seq<char> {
        match self {
            Datum::Boolean(b) => bool_text(b),
            Datum::Integer(_, v) => decimal_text(v),
            Datum::Text(s) => s,
        }
    }

    /// The number of bytes that the value takes in the text store of a string
    /// column; zero for every other value.
    pub open spec fn text_bytes(self) -> nat {
        match self {
            Datum::Text(s) => bytes_of(s).len(),
            _ => 0,
        }
    }
}

/// One value of a column, with its type. Floating-point values have no form
/// here: the types `FloatType` and `DoubleType` name columns whose values
/// this library cannot hold.
#[derive(Debug)]
pub enum ScalarValue {
    Boolean(bool),
    Int8(i8),
    Int16(i16),
    Int32(i32),
    Int64(i64),
    UInt8(u8),
    UInt16(u16),
    UInt32(u32),
    UInt64(u64),
    Utf8(String),
}

impl View for ScalarValue {
    type V = Datum;

    open spec fn view(&self) -> Datum {
        match self {
            ScalarValue::Boolean(b) => Datum::Boolean(*b),
            ScalarValue::Int8(v) => Datum::Integer(ArrowType::Int8Type, *v as int),
            ScalarValue::Int16(v) => Datum::Integer(ArrowType::Int16Type, *v as int),
            ScalarValue::Int32(v) => Datum::Integer(ArrowType::Int32Type, *v as int),
            ScalarValue::Int64(v) => Datum::Integer(ArrowType::Int64Type, *v as int),
            ScalarValue::UInt8(v) => Datum::Integer(ArrowType::UInt8Type, *v as int),
            ScalarValue::UInt16(v) => Datum::Integer(ArrowType::UInt16Type, *v as int),
            ScalarValue::UInt32(v) => Datum::Integer(ArrowType::UInt32Type, *v as int),
            ScalarValue::UInt64(v) => Datum::Integer(ArrowType::UInt64Type, *v as int),
            ScalarValue::Utf8(s) => Datum::Text(s@),
        }
    }
}

/// The view of a value that may be absent.
pub open spec fn view_of(value: Option<ScalarValue>) -> Option<Datum> {
    match value {
        Some(v) => Some(v@),
        None => None,
    }
}

impl Clone for ScalarValue {
    fn clone(&self) -> (r: Self)
        ensures
            r@ == self@,
    {
        match self {
            ScalarValue::Boolean(b) => ScalarValue::Boolean(*b),
            ScalarValue::Int8(v) => ScalarValue::Int8(*v),
            ScalarValue::Int16(v) => ScalarValue::Int16(*v),
            ScalarValue::Int32(v) => ScalarValue::Int32(*v),
            ScalarValue::Int64(v) => ScalarValue::Int64(*v),
            ScalarValue::UInt8(v) => ScalarValue::UInt8(*v),
            ScalarValue::UInt16(v) => ScalarValue::UInt16(*v),
            ScalarValue::UInt32(v) => ScalarValue::UInt32(*v),
            ScalarValue::UInt64(v) => ScalarValue::UInt64(*v),
            ScalarValue::Utf8(s) => ScalarValue::Utf8(s.clone()),
        }
    }
}

impl ScalarValue {
    /// The column type that the value belongs to.
    pub fn get_type(&self) -> (t: ArrowType)
        ensures
            t == self@.data_type(),
    {
        match self {
            ScalarValue::Boolean(_) => ArrowType::BooleanType,
            ScalarValue::Int8(_) => ArrowType::Int8Type,
            ScalarValue::Int16(_) => ArrowType::Int16Type,
            ScalarValue::Int32(_) => ArrowType::Int32Type,
            ScalarValue::Int64(_) => ArrowType::Int64Type,
            ScalarValue::UInt8(_) => ArrowType::UInt8Type,
            ScalarValue::UInt16(_) => ArrowType::UInt16Type,
            ScalarValue::UInt32(_) => ArrowType::UInt32Type,
            ScalarValue::UInt64(_) => ArrowType::UInt64Type,
            ScalarValue::Utf8(_) => ArrowType::StringType,
        }
    }

    /// The number that an integer value holds; `None` for a value that is no
    /// integer.
    pub fn to_integer(&self) -> (r: Option<i128>)
        ensures
            r == match self@ {
                Datum::Integer(_, v) => Some(v as i128),
                _ => None,
            },
            r matches Some(v) ==> self@ == Datum::Integer(self@.data_type(), v as int)
                && self@.data_type().admits(v as int),
    {
        match self {
            ScalarValue::Int8(v) => Some(*v as i128),
            ScalarValue::Int16(v) => Some(*v as i128),
            ScalarValue::Int32(v) => Some(*v as i128),
            ScalarValue::Int64(v) => Some(*v as i128),
            ScalarValue::UInt8(v) => Some(*v as i128),
            ScalarValue::UInt16(v) => Some(*v as i128),
            ScalarValue::UInt32(v) => Some(*v as i128),
            ScalarValue::UInt64(v) => Some(*v as i128),
            _ => None,
        }
    }

    /// The value of integer type `t` that holds the number `v`; `None` where
    /// `t` is no integer type or cannot hold `v`.
    pub fn from_integer(t: ArrowType, v: i128) -> (r: Option<ScalarValue>)
        ensures
            view_of(r) == (if t.admits(v as int) {
                Some(Datum::Integer(t, v as int))
            } else {
                None
            }),
    {
        match t {
            ArrowType::Int8Type => if -0x80 <= v && v <= 0x7f {
                Some(ScalarValue::Int8(v as i8))
            } else {
                None
            },
            ArrowType::Int16Type => if -0x8000 <= v && v <= 0x7fff {
                Some(ScalarValue::Int16(v as i16))
            } else {
                None
            },
            ArrowType::Int32Type => if -0x8000_0000 <= v && v <= 0x7fff_ffff {
                Some(ScalarValue::Int32(v as i32))
            } else {
                None
            },
            ArrowType::Int64Type => if -0x8000_0000_0000_0000 <= v && v <= 0x7fff_ffff_ffff_ffff {
                Some(ScalarValue::Int64(v as i64))
            } else {
                None
            },
            ArrowType::UInt8Type => if 0 <= v && v <= 0xff {
                Some(ScalarValue::UInt8(v as u8))
            } else {
                None
            },
            ArrowType::UInt16Type => if 0 <= v && v <= 0xffff {
                Some(ScalarValue::UInt16(v as u16))
            } else {
                None
            },
            ArrowType::UInt32Type => if 0 <= v && v <= 0xffff_ffff {
                Some(ScalarValue::UInt32(v as u32))
            } else {
                None
            },
            ArrowType::UInt64Type => if 0 <= v && v <= 0xffff_ffff_ffff_ffff {
                Some(ScalarValue::UInt64(v as u64))
            } else {
                None
            },
            _ => None,
        }
    }

    /// Whether two values are the same value of the same type.
    pub fn equals(&self, other: &ScalarValue) -> (r: bool)
        ensures
            r == (self@ == other@),
    {
        match (self, other) {
            (ScalarValue::Boolean(a), ScalarValue::Boolean(b)) => *a == *b,
            (ScalarValue::Int8(a), ScalarValue::Int8(b)) => *a == *b,
            (ScalarValue::Int16(a), ScalarValue::Int16(b)) => *a == *b,
            (ScalarValue::Int32(a), ScalarValue::Int32(b)) => *a == *b,
            (ScalarValue::Int64(a), ScalarValue::Int64(b)) => *a == *b,
            (ScalarValue::UInt8(a), ScalarValue::UInt8(b)) => *a == *b,
            (ScalarValue::UInt16(a), ScalarValue::UInt16(b)) => *a == *b,
            (ScalarValue::UInt32(a), ScalarValue::UInt32(b)) => *a == *b,
            (ScalarValue::UInt64(a), ScalarValue::UInt64(b)) => *a == *b,
            (ScalarValue::Utf8(a), ScalarValue::Utf8(b)) => text_eq(a.as_str(), b.as_str()),
            _ => false,
        }
    }

    /// The text of the value, as a row of output shows it.
    pub fn to_text(&self) -> (r: String)
        ensures
            r@ == self@.text(),
    {
        match self {
            ScalarValue::Boolean(b) => bool_to_string(*b),
            ScalarValue::Int8(v) => integer_to_string(*v as i128),
            ScalarValue::Int16(v) => integer_to_string(*v as i128),
            ScalarValue::Int32(v) => integer_to_string(*v as i128),
            ScalarValue::Int64(v) => integer_to_string(*v as i128),
            ScalarValue::UInt8(v) => integer_to_string(*v as i128),
            ScalarValue::UInt16(v) => integer_to_string(*v as i128),
            ScalarValue::UInt32(v) => integer_to_string(*v as i128),
            ScalarValue::UInt64(v) => integer_to_string(*v as i128),
            ScalarValue::Utf8(s) => s.clone(),
        }
    }
}

/// Whether two values that may be absent are the same: both absent, or the
/// same value of the same type.
pub fn same_value(a: &Option<ScalarValue>, b: &Option<ScalarValue>) -> (r: bool)
    ensures
        r == (view_of(*a) == view_of(*b)),
{
    match (a, b) {
        (Some(x), Some(y)) => x.equals(y),
        (None, None) => true,
        _ => false,
    }
}

} // verus!
