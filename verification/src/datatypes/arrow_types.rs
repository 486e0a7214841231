use vstd::prelude::*;

verus! {

/// The closed set of column types.
#[derive(Clone, Copy, Debug, PartialEq, Eq, Structural)]
pub enum ArrowType {
    BooleanType,
    Int8Type,
    Int16Type,
    Int32Type,
    Int64Type,
    UInt8Type,
    UInt16Type,
    UInt32Type,
    UInt64Type,
    FloatType,
    DoubleType,
    StringType,
}

impl ArrowType {
    /// The canonical text of the type, as plan printouts show it.
    pub open spec fn spec_name(self) -> Seq<char> {
        match self {
            ArrowType::BooleanType => "BooleanType"@,
            ArrowType::Int8Type => "Int8Type"@,
            ArrowType::Int16Type => "Int16Type"@,
            ArrowType::Int32Type => "Int32Type"@,
            ArrowType::Int64Type => "Int64Type"@,
            ArrowType::UInt8Type => "UInt8Type"@,
            ArrowType::UInt16Type => "UInt16Type"@,
            ArrowType::UInt32Type => "UInt32Type"@,
            ArrowType::UInt64Type => "UInt64Type"@,
            ArrowType::FloatType => "FloatType"@,
            ArrowType::DoubleType => "DoubleType"@,
            ArrowType::StringType => "StringType"@,
        }
    }

    /// The canonical text of the type.
    pub fn name(&self) -> (r: &'static str)
        ensures
            r@ == self.spec_name(),
    {
        match self {
            ArrowType::BooleanType => "BooleanType",
            ArrowType::Int8Type => "Int8Type",
            ArrowType::Int16Type => "Int16Type",
            ArrowType::Int32Type => "Int32Type",
            ArrowType::Int64Type => "Int64Type",
            ArrowType::UInt8Type => "UInt8Type",
            ArrowType::UInt16Type => "UInt16Type",
            ArrowType::UInt32Type => "UInt32Type",
            ArrowType::UInt64Type => "UInt64Type",
            ArrowType::FloatType => "FloatType",
            ArrowType::DoubleType => "DoubleType",
            ArrowType::StringType => "StringType",
        }
    }

    /// Whether values of the type are whole numbers.
    pub open spec fn is_integer(self) -> bool {
        match self {
            ArrowType::Int8Type | ArrowType::Int16Type | ArrowType::Int32Type
            | ArrowType::Int64Type | ArrowType::UInt8Type | ArrowType::UInt16Type
            | ArrowType::UInt32Type | ArrowType::UInt64Type => true,
            _ => false,
        }
    }

    /// Whether values of the type are floating-point numbers.
    pub open spec fn is_floating(self) -> bool {
        self == ArrowType::FloatType || self == ArrowType::DoubleType
    }

    /// The least value of an integer type.
    pub open spec fn min_value(self) -> int {
        match self {
            ArrowType::Int8Type => i8::MIN as int,
            ArrowType::Int16Type => i16::MIN as int,
            ArrowType::Int32Type => i32::MIN as int,
            ArrowType::Int64Type => i64::MIN as int,
            _ => 0,
        }
    }

    /// The greatest value of an integer type.
    pub open spec fn max_value(self) -> int {
        match self {
            ArrowType::Int8Type => i8::MAX as int,
            ArrowType::Int16Type => i16::MAX as int,
            ArrowType::Int32Type => i32::MAX as int,
            ArrowType::Int64Type => i64::MAX as int,
            ArrowType::UInt8Type => u8::MAX as int,
            ArrowType::UInt16Type => u16::MAX as int,
            ArrowType::UInt32Type => u32::MAX as int,
            ArrowType::UInt64Type => u64::MAX as int,
            _ => 0,
        }
    }

    /// Whether the type is an integer type that can hold `v`.
    pub open spec fn admits(self, v: int) -> bool {
        self.is_integer() && self.min_value() <= v <= self.max_value()
    }

    /// Whether every value of `self` is also a value of `wider`.
    pub open spec fn widens_to(self, wider: ArrowType) -> bool {
        &&& self.is_integer()
        &&& wider.is_integer()
        &&& wider.min_value() <= self.min_value()
        &&& self.max_value() <= wider.max_value()
    }

    pub fn is_integer_type(&self) -> (r: bool)
        ensures
            r == self.is_integer(),
    {
        match self {
            ArrowType::Int8Type | ArrowType::Int16Type | ArrowType::Int32Type
            | ArrowType::Int64Type | ArrowType::UInt8Type | ArrowType::UInt16Type
            | ArrowType::UInt32Type | ArrowType::UInt64Type => true,
            _ => false,
        }
    }

    pub fn is_floating_type(&self) -> (r: bool)
        ensures
            r == self.is_floating(),
    {
        match self {
            ArrowType::FloatType | ArrowType::DoubleType => true,
            _ => false,
        }
    }
}

} // verus!
