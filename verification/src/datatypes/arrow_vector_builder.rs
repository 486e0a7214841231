//! Typed builders of arrow arrays.

use crate::datatypes::arrow_field_vector::{array_items, array_type, ArrayHandle, ArrowFieldVector};
use crate::datatypes::column_vector::{ColumnSpec, ColumnVector};
use crate::datatypes::arrow_types::ArrowType;
use crate::datatypes::scalar::{view_of, Datum, ScalarValue};
use crate::error::QueryError;
use crate::text::{byte_count, bytes_of, parse_bool, parse_bool_spec, parse_integer, parse_integer_spec};
use arrow::array::{
    make_builder, ArrayBuilder, BooleanBuilder, Int16Builder, Int32Builder, Int64Builder,
    Int8Builder, StringBuilder, UInt16Builder, UInt32Builder, UInt64Builder, UInt8Builder,
};
use arrow::datatypes::DataType;
use vstd::prelude::*;

verus! {

/// The most slots that a builder is asked to reserve when it is made.
pub const CAPACITY_HINT_LIMIT: usize = 0x10_0000;

/// The most bytes of text that one string column can hold.
pub const TEXT_LIMIT: usize = 0x7fff_ffff;

#[verifier::external_type_specification]
#[verifier::external_body]
pub struct ExDataType(DataType);

/// An arrow array builder of one of the supported column types (arrow's
/// `Box<dyn ArrayBuilder>`).
#[verifier::external_body]
pub struct BuilderHandle {
    inner: Box<dyn ArrayBuilder>,
}

/// The column type that the builder was made for.
pub uninterp spec fn builder_type(b: BuilderHandle) -> ArrowType;

/// The slots that the builder holds so far, in the order in which they were
/// appended; `None` stands for a null.
pub uninterp spec fn builder_items(b: BuilderHandle) -> Seq<Option<Datum>>;

/// The slot that holds a boolean, or a null.
pub open spec fn boolean_slot(v: Option<bool>) -> Option<Datum> {
    match v {
        Some(x) => Some(Datum::Boolean(x)),
        None => None,
    }
}

/// The slot that holds a text, or a null.
pub open spec fn text_slot_of(v: Option<&str>) -> Option<Datum> {
    match v {
        Some(s) => Some(Datum::Text(s@)),
        None => None,
    }
}

/// The bytes that the texts of a run of slots take together.
pub open spec fn total_text_bytes(items: Seq<Option<Datum>>) -> nat
    decreases items.len(),
{
    if items.len() == 0 {
        0
    } else {
        total_text_bytes(items.drop_last()) + (match items.last() {
            Some(d) => d.text_bytes(),
            None => 0,
        })
    }
}

impl ArrowType {
    /// The arrow data type of the same name.
    #[verifier::external_body]
    pub fn to_datatype(&self) -> DataType {
        match self {
            ArrowType::BooleanType => DataType::Boolean,
            ArrowType::Int8Type => DataType::Int8,
            ArrowType::Int16Type => DataType::Int16,
            ArrowType::Int32Type => DataType::Int32,
            ArrowType::Int64Type => DataType::Int64,
            ArrowType::UInt8Type => DataType::UInt8,
            ArrowType::UInt16Type => DataType::UInt16,
            ArrowType::UInt32Type => DataType::UInt32,
            ArrowType::UInt64Type => DataType::UInt64,
            ArrowType::FloatType => DataType::Float32,
            ArrowType::DoubleType => DataType::Float64,
            ArrowType::StringType => DataType::Utf8,
        }
    }
}

impl BuilderHandle {
    /// arrow's `make_builder`, for the arrow data type of `arrow_type`: an
    /// empty builder of that type.
    #[verifier::external_body]
    fn create(arrow_type: ArrowType, capacity: usize) -> (b: BuilderHandle)
        requires
            !arrow_type.is_floating(),
            capacity <= CAPACITY_HINT_LIMIT,
        ensures
            builder_type(b) == arrow_type,
            builder_items(b) == Seq::<Option<Datum>>::empty(),
    {
        BuilderHandle { inner: make_builder(&arrow_type.to_datatype(), capacity) }
    }

    /// arrow's `BooleanBuilder::append_option`: one more slot at the end,
    /// which holds `v`, or a null where `v` is `None`.
    #[verifier::external_body]
    fn append_boolean(&mut self, v: Option<bool>)
        requires
            builder_type(*old(self)) == ArrowType::BooleanType,
        ensures
            builder_type(*final(self)) == builder_type(*old(self)),
            builder_items(*final(self)) == builder_items(*old(self)).push(boolean_slot(v)),
    {
        self.inner.as_any_mut().downcast_mut::<BooleanBuilder>().unwrap().append_option(v)
    }

    /// arrow's `PrimitiveBuilder::append_option` on an `Int8Builder`: one
    /// more slot at the end, which holds `v`, or a null where `v` is `None`.
    #[verifier::external_body]
    fn append_int8(&mut self, v: Option<i8>)
        requires
            builder_type(*old(self)) == ArrowType::Int8Type,
        ensures
            builder_type(*final(self)) == builder_type(*old(self)),
            builder_items(*final(self)) == builder_items(*old(self)).push((match v {
                Some(x) => Some(Datum::Integer(ArrowType::Int8Type, x as int)),
                None => None,
            })),
    {
        self.inner.as_any_mut().downcast_mut::<Int8Builder>().unwrap().append_option(v)
    }

    /// arrow's `PrimitiveBuilder::append_option` on an `Int16Builder`: one
    /// more slot at the end, which holds `v`, or a null where `v` is `None`.
    #[verifier::external_body]
    fn append_int16(&mut self, v: Option<i16>)
        requires
            builder_type(*old(self)) == ArrowType::Int16Type,
        ensures
            builder_type(*final(self)) == builder_type(*old(self)),
            builder_items(*final(self)) == builder_items(*old(self)).push((match v {
                Some(x) => Some(Datum::Integer(ArrowType::Int16Type, x as int)),
                None => None,
            })),
    {
        self.inner.as_any_mut().downcast_mut::<Int16Builder>().unwrap().append_option(v)
    }

    /// arrow's `PrimitiveBuilder::append_option` on an `Int32Builder`: one
    /// more slot at the end, which holds `v`, or a null where `v` is `None`.
    #[verifier::external_body]
    fn append_int32(&mut self, v: Option<i32>)
        requires
            builder_type(*old(self)) == ArrowType::Int32Type,
        ensures
            builder_type(*final(self)) == builder_type(*old(self)),
            builder_items(*final(self)) == builder_items(*old(self)).push((match v {
                Some(x) => Some(Datum::Integer(ArrowType::Int32Type, x as int)),
                None => None,
            })),
    {
        self.inner.as_any_mut().downcast_mut::<Int32Builder>().unwrap().append_option(v)
    }

    /// arrow's `PrimitiveBuilder::append_option` on an `Int64Builder`: one
    /// more slot at the end, which holds `v`, or a null where `v` is `None`.
    #[verifier::external_body]
    fn append_int64(&mut self, v: Option<i64>)
        requires
            builder_type(*old(self)) == ArrowType::Int64Type,
        ensures
            builder_type(*final(self)) == builder_type(*old(self)),
            builder_items(*final(self)) == builder_items(*old(self)).push((match v {
                Some(x) => Some(Datum::Integer(ArrowType::Int64Type, x as int)),
                None => None,
            })),
    {
        self.inner.as_any_mut().downcast_mut::<Int64Builder>().unwrap().append_option(v)
    }

    /// arrow's `PrimitiveBuilder::append_option` on a `UInt8Builder`: one
    /// more slot at the end, which holds `v`, or a null where `v` is `None`.
    #[verifier::external_body]
    fn append_uint8(&mut self, v: Option<u8>)
        requires
            builder_type(*old(self)) == ArrowType::UInt8Type,
        ensures
            builder_type(*final(self)) == builder_type(*old(self)),
            builder_items(*final(self)) == builder_items(*old(self)).push((match v {
                Some(x) => Some(Datum::Integer(ArrowType::UInt8Type, x as int)),
                None => None,
            })),
    {
        self.inner.as_any_mut().downcast_mut::<UInt8Builder>().unwrap().append_option(v)
    }

    /// arrow's `PrimitiveBuilder::append_option` on a `UInt16Builder`: one
    /// more slot at the end, which holds `v`, or a null where `v` is `None`.
    #[verifier::external_body]
    fn append_uint16(&mut self, v: Option<u16>)
        requires
            builder_type(*old(self)) == ArrowType::UInt16Type,
        ensures
            builder_type(*final(self)) == builder_type(*old(self)),
            builder_items(*final(self)) == builder_items(*old(self)).push((match v {
                Some(x) => Some(Datum::Integer(ArrowType::UInt16Type, x as int)),
                None => None,
            })),
    {
        self.inner.as_any_mut().downcast_mut::<UInt16Builder>().unwrap().append_option(v)
    }

    /// arrow's `PrimitiveBuilder::append_option` on a `UInt32Builder`: one
    /// more slot at the end, which holds `v`, or a null where `v` is `None`.
    #[verifier::external_body]
    fn append_uint32(&mut self, v: Option<u32>)
        requires
            builder_type(*old(self)) == ArrowType::UInt32Type,
        ensures
            builder_type(*final(self)) == builder_type(*old(self)),
            builder_items(*final(self)) == builder_items(*old(self)).push((match v {
                Some(x) => Some(Datum::Integer(ArrowType::UInt32Type, x as int)),
                None => None,
            })),
    {
        self.inner.as_any_mut().downcast_mut::<UInt32Builder>().unwrap().append_option(v)
    }

    /// arrow's `PrimitiveBuilder::append_option` on a `UInt64Builder`: one
    /// more slot at the end, which holds `v`, or a null where `v` is `None`.
    #[verifier::external_body]
    fn append_uint64(&mut self, v: Option<u64>)
        requires
            builder_type(*old(self)) == ArrowType::UInt64Type,
        ensures
            builder_type(*final(self)) == builder_type(*old(self)),
            builder_items(*final(self)) == builder_items(*old(self)).push((match v {
                Some(x) => Some(Datum::Integer(ArrowType::UInt64Type, x as int)),
                None => None,
            })),
    {
        self.inner.as_any_mut().downcast_mut::<UInt64Builder>().unwrap().append_option(v)
    }

    /// arrow's `GenericByteBuilder::append_option` on a `StringBuilder`: one
    /// more slot at the end, which holds the text `v`, or a null where `v`
    /// is `None`. arrow panics once the bytes of all texts pass the range of
    /// its 32-bit offsets, so the caller keeps them within `TEXT_LIMIT`.
    #[verifier::external_body]
    fn append_text(&mut self, v: Option<&str>)
        requires
            builder_type(*old(self)) == ArrowType::StringType,
            total_text_bytes(builder_items(*old(self)).push(text_slot_of(v)))
                <= TEXT_LIMIT,
        ensures
            builder_type(*final(self)) == builder_type(*old(self)),
            builder_items(*final(self)) == builder_items(*old(self)).push(
                text_slot_of(v),
            ),
    {
        self.inner.as_any_mut().downcast_mut::<StringBuilder>().unwrap().append_option(v)
    }

    /// arrow's `ArrayBuilder::finish`: the array of the slots appended so
    /// far, of the builder's type.
    #[verifier::external_body]
    fn finish(&mut self) -> (a: ArrayHandle)
        ensures
            array_type(a) == builder_type(*old(self)),
            array_items(a) == builder_items(*old(self)),
    {
        ArrayHandle { array: self.inner.finish() }
    }
}

/// One more slot adds the bytes of its text, if it holds one.
pub proof fn lemma_total_text_push(items: Seq<Option<Datum>>, slot: Option<Datum>)
    ensures
        total_text_bytes(items.push(slot)) == total_text_bytes(items) + (match slot {
            Some(d) => d.text_bytes(),
            None => 0,
        }),
{
    assert(items.push(slot).drop_last() =~= items);
}

/// What a builder of type `t` stores for a text: the value that the text
/// writes, or a null where it writes none.
pub open spec fn parsed(t: ArrowType, s: Seq<char>) -> Option<Datum> {
    if t == ArrowType::BooleanType {
        match parse_bool_spec(s) {
            Some(b) => Some(Datum::Boolean(b)),
            None => None,
        }
    } else if t.is_integer() {
        match parse_integer_spec(bytes_of(s), t.min_value(), t.max_value()) {
            Some(v) => Some(Datum::Integer(t, v)),
            None => None,
        }
    } else {
        None
    }
}

/// What a builder of type `t` stores for a value: the value itself where it
/// is of type `t`; what a text writes, where it is a text; a null for every
/// other value and for an absent one.
pub open spec fn stored(t: ArrowType, value: Option<Datum>) -> Option<Datum> {
    match value {
        None => None,
        Some(d) => if d.data_type() == t {
            Some(d)
        } else {
            match d {
                Datum::Text(s) => parsed(t, s),
                _ => None,
            }
        },
    }
}

impl ArrowType {
    /// The least and the greatest value of an integer type; `(0, 0)` for
    /// every other type.
    pub fn bounds(&self) -> (r: (i128, i128))
        ensures
            r.0 == self.min_value(),
            r.1 == self.max_value(),
    {
        match self {
            ArrowType::Int8Type => (-0x80, 0x7f),
            ArrowType::Int16Type => (-0x8000, 0x7fff),
            ArrowType::Int32Type => (-0x8000_0000, 0x7fff_ffff),
            ArrowType::Int64Type => (-0x8000_0000_0000_0000, 0x7fff_ffff_ffff_ffff),
            ArrowType::UInt8Type => (0, 0xff),
            ArrowType::UInt16Type => (0, 0xffff),
            ArrowType::UInt32Type => (0, 0xffff_ffff),
            ArrowType::UInt64Type => (0, 0xffff_ffff_ffff_ffff),
            _ => (0, 0),
        }
    }
}

/// An empty arrow builder of a known column type, as the factory hands it
/// out.
pub struct ArrowArrayBuilder {
    arrow_type: ArrowType,
    handle: BuilderHandle,
}

impl ArrowArrayBuilder {
    #[verifier::type_invariant]
    spec fn fresh(self) -> bool {
        &&& builder_type(self.handle) == self.arrow_type
        &&& builder_items(self.handle).len() == 0
        &&& !self.arrow_type.is_floating()
    }

    /// The column type that the builder was made for.
    pub closed spec fn data_type(&self) -> ArrowType {
        self.arrow_type
    }
}

/// Makes arrow builders for the column types.
pub struct ArrowArrayFactory;

impl ArrowArrayFactory {
    /// An empty builder of columns of `arrow_type`, with room reserved for
    /// `initial_capacity` values (for fewer, where that is more than
    /// `CAPACITY_HINT_LIMIT`). The floating-point types have no builder.
    pub fn create(arrow_type: ArrowType, initial_capacity: usize) -> (r: Result<
        ArrowArrayBuilder,
        QueryError,
    >)
        ensures
            arrow_type.is_floating() ==> r == Err::<ArrowArrayBuilder, QueryError>(
                QueryError::UnsupportedType(arrow_type),
            ),
            !arrow_type.is_floating() ==> r is Ok && r->Ok_0.data_type() == arrow_type,
    {
        if arrow_type.is_floating_type() {
            return Err(QueryError::UnsupportedType(arrow_type));
        }
        let capacity: usize = if initial_capacity > CAPACITY_HINT_LIMIT {
            CAPACITY_HINT_LIMIT
        } else {
            initial_capacity
        };
        let handle = BuilderHandle::create(arrow_type, capacity);
        Ok(ArrowArrayBuilder { arrow_type, handle })
    }
}

/// Fills a column of one type value by value, and finishes it into a column
/// vector.
pub struct ArrowVectorBuilder {
    arrow_type: ArrowType,
    text_bytes: usize,
    arrow_array_builder: BuilderHandle,
}

impl ArrowVectorBuilder {
    /// The builder is consistent: it knows the type of its arrow builder and
    /// the bytes of text in it, which are within `TEXT_LIMIT`.
    pub closed spec fn wf(&self) -> bool {
        &&& builder_type(self.arrow_array_builder) == self.arrow_type
        &&& !self.arrow_type.is_floating()
        &&& self.text_bytes == total_text_bytes(builder_items(self.arrow_array_builder))
        &&& self.text_bytes <= TEXT_LIMIT
    }

    /// The column type that the builder fills.
    pub closed spec fn data_type(&self) -> ArrowType {
        self.arrow_type
    }

    /// The slots appended so far, in order; `None` stands for a null.
    pub closed spec fn items(&self) -> Seq<Option<Datum>> {
        builder_items(self.arrow_array_builder)
    }

    /// Whether the builder has room for one more value: only a text can
    /// find none, where it would bring the bytes of text past `TEXT_LIMIT`.
    pub open spec fn has_room(&self, value: Option<Datum>) -> bool {
        total_text_bytes(self.items().push(stored(self.data_type(), value))) <= TEXT_LIMIT
    }

    pub fn new(array_builder: ArrowArrayBuilder) -> (r: ArrowVectorBuilder)
        ensures
            r.wf(),
            r.data_type() == array_builder.data_type(),
            r.items() == Seq::<Option<Datum>>::empty(),
    {
        proof {
            use_type_invariant(&array_builder);
        }
        ArrowVectorBuilder {
            arrow_type: array_builder.arrow_type,
            text_bytes: 0,
            arrow_array_builder: array_builder.handle,
        }
    }

    /// The column type that the builder fills.
    pub fn get_type(&self) -> (t: ArrowType)
        ensures
            t == self.data_type(),
    {
        self.arrow_type
    }

    /// The number that the builder stores for a value, where its type is an
    /// integer type.
    fn integer_for(t: ArrowType, value: &Option<ScalarValue>) -> (r: Option<i128>)
        requires
            t.is_integer(),
        ensures
            stored(t, view_of(*value)) == (match r {
                Some(v) => Some(Datum::Integer(t, v as int)),
                None => None,
            }),
            r matches Some(v) ==> t.admits(v as int),
    {
        match value {
            Some(ScalarValue::Utf8(s)) => {
                let (min, max) = t.bounds();
                parse_integer(s.as_str(), min, max)
            },
            Some(v) => {
                if v.get_type() == t {
                    v.to_integer()
                } else {
                    None
                }
            },
            None => None,
        }
    }

    /// Appends one value: the value itself where it is of the builder's
    /// type; what a text writes, where it is a text (a null where it writes
    /// no value of the type); a null for every other value and for `None`.
    /// Fails, and leaves the builder as it was, only where a text finds no
    /// room.
    pub fn append(&mut self, value: Option<ScalarValue>) -> (r: Result<(), QueryError>)
        requires
            old(self).wf(),
        ensures
            final(self).wf(),
            final(self).data_type() == old(self).data_type(),
            old(self).has_room(view_of(value)) ==> r is Ok && final(self).items() == old(
                self,
            ).items().push(stored(old(self).data_type(), view_of(value))),
            !old(self).has_room(view_of(value)) ==> r == Err::<(), QueryError>(
                QueryError::VectorTooLarge,
            ) && final(self).items() == old(self).items(),
    {
        let ghost slot = stored(self.arrow_type, view_of(value));
        let ghost before = self.items();
        proof {
            lemma_total_text_push(before, slot);
        }
        match self.arrow_type {
            ArrowType::StringType => {
                match value {
                    Some(ScalarValue::Utf8(s)) => {
                        let text: &str = s.as_str();
                        let length: usize = byte_count(text);
                        if length > TEXT_LIMIT - self.text_bytes {
                            return Err(QueryError::VectorTooLarge);
                        }
                        self.arrow_array_builder.append_text(Some(text));
                        self.text_bytes = self.text_bytes + length;
                    },
                    _ => {
                        self.arrow_array_builder.append_text(None);
                    },
                }
            },
            ArrowType::BooleanType => {
                let v: Option<bool> = match value {
                    Some(ScalarValue::Boolean(b)) => Some(b),
                    Some(ScalarValue::Utf8(s)) => parse_bool(s.as_str()),
                    _ => None,
                };
                self.arrow_array_builder.append_boolean(v);
            },
            ArrowType::Int8Type => {
                let v: Option<i8> = match Self::integer_for(ArrowType::Int8Type, &value) {
                    Some(x) => Some(x as i8),
                    None => None,
                };
                self.arrow_array_builder.append_int8(v);
            },
            ArrowType::Int16Type => {
                let v: Option<i16> = match Self::integer_for(ArrowType::Int16Type, &value) {
                    Some(x) => Some(x as i16),
                    None => None,
                };
                self.arrow_array_builder.append_int16(v);
            },
            ArrowType::Int32Type => {
                let v: Option<i32> = match Self::integer_for(ArrowType::Int32Type, &value) {
                    Some(x) => Some(x as i32),
                    None => None,
                };
                self.arrow_array_builder.append_int32(v);
            },
            ArrowType::Int64Type => {
                let v: Option<i64> = match Self::integer_for(ArrowType::Int64Type, &value) {
                    Some(x) => Some(x as i64),
                    None => None,
                };
                self.arrow_array_builder.append_int64(v);
            },
            ArrowType::UInt8Type => {
                let v: Option<u8> = match Self::integer_for(ArrowType::UInt8Type, &value) {
                    Some(x) => Some(x as u8),
                    None => None,
                };
                self.arrow_array_builder.append_uint8(v);
            },
            ArrowType::UInt16Type => {
                let v: Option<u16> = match Self::integer_for(ArrowType::UInt16Type, &value) {
                    Some(x) => Some(x as u16),
                    None => None,
                };
                self.arrow_array_builder.append_uint16(v);
            },
            ArrowType::UInt32Type => {
                let v: Option<u32> = match Self::integer_for(ArrowType::UInt32Type, &value) {
                    Some(x) => Some(x as u32),
                    None => None,
                };
                self.arrow_array_builder.append_uint32(v);
            },
            ArrowType::UInt64Type => {
                let v: Option<u64> = match Self::integer_for(ArrowType::UInt64Type, &value) {
                    Some(x) => Some(x as u64),
                    None => None,
                };
                self.arrow_array_builder.append_uint64(v);
            },
            ArrowType::FloatType => {},
            ArrowType::DoubleType => {},
        }
        Ok(())
    }

    /// Finishes the column: a vector of the builder's type that holds the
    /// slots appended, in order.
    pub fn build(self) -> (r: ColumnVector)
        requires
            self.wf(),
        ensures
            r.data_type() == self.data_type(),
            r.items() == self.items(),
    {
        let mut this = self;
        let array = this.arrow_array_builder.finish();
        ColumnVector::Arrow(ArrowFieldVector::from_handle(this.arrow_type, array))
    }
}

/// What a builder of type `t` stores for each value of a run.
pub open spec fn stored_all(t: ArrowType, values: Seq<Option<Datum>>) -> Seq<Option<Datum>> {
    values.map_values(|v: Option<Datum>| stored(t, v))
}

/// The views of a run of values that may be absent.
pub open spec fn views_of(values: Seq<Option<ScalarValue>>) -> Seq<Option<Datum>> {
    values.map_values(|v: Option<ScalarValue>| view_of(v))
}

/// The texts of the first slots of a run take no more bytes than those of
/// all.
pub proof fn lemma_total_text_grows(items: Seq<Option<Datum>>, k: int)
    requires
        0 <= k <= items.len(),
    ensures
        total_text_bytes(items.subrange(0, k)) <= total_text_bytes(items),
    decreases items.len() - k,
{
    if k == items.len() {
        assert(items.subrange(0, k) =~= items);
    } else {
        lemma_total_text_grows(items, k + 1);
        assert(items.subrange(0, k + 1).drop_last() =~= items.subrange(0, k));
    }
}

/// The column of type `t` that holds what a builder of the type stores for
/// each of `values`, in order; a failure for a floating-point type, and
/// where the texts of the column would take more than `TEXT_LIMIT` bytes.
pub open spec fn built(t: ArrowType, values: Seq<Option<Datum>>) -> Result<ColumnSpec, QueryError> {
    if t.is_floating() {
        Err(QueryError::UnsupportedType(t))
    } else if total_text_bytes(stored_all(t, values)) > TEXT_LIMIT {
        Err(QueryError::VectorTooLarge)
    } else {
        Ok(ColumnSpec { data_type: t, items: stored_all(t, values) })
    }
}

/// Builds the column of type `arrow_type` that holds what a builder of the
/// type stores for each of `values`, in order.
pub fn build_vector(arrow_type: ArrowType, values: &Vec<Option<ScalarValue>>) -> (r: Result<
    ColumnVector,
    QueryError,
>)
    ensures
        match built(arrow_type, views_of(values@)) {
            Ok(c) => r is Ok && r->Ok_0@ == c,
            Err(e) => r is Err && r->Err_0 == e,
        },
{
    let array = match ArrowArrayFactory::create(arrow_type, values.len()) {
        Ok(a) => a,
        Err(e) => {
            return Err(e);
        },
    };
    let mut builder = ArrowVectorBuilder::new(array);
    let ghost all = stored_all(arrow_type, views_of(values@));
    let mut i: usize = 0;
    while i < values.len()
        invariant
            i <= values.len(),
            builder.wf(),
            builder.data_type() == arrow_type,
            all == stored_all(arrow_type, views_of(values@)),
            builder.items() == all.subrange(0, i as int),
        decreases values.len() - i,
    {
        let value = match &values[i] {
            Some(v) => Some(v.clone()),
            None => None,
        };
        proof {
            assert(all.subrange(0, i + 1) =~= all.subrange(0, i as int).push(all[i as int]));
            lemma_total_text_grows(all, i + 1);
        }
        match builder.append(value) {
            Ok(()) => {},
            Err(e) => {
                return Err(e);
            },
        }
        i = i + 1;
    }
    proof {
        assert(all.subrange(0, i as int) =~= all);
    }
    Ok(builder.build())
}

} // verus!
