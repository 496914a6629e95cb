//! Runtime record batches.

use vstd::prelude::*;

use crate::arrow_type::{ArrowType, DataType, DataTypeView, OtherType, TimeUnit};
use crate::cell::{ArrowCellOf, ArrowCellView, Int256};

verus! {

/// Values of one Arrow array, `None` where the array is null.
///
/// Floating point values are held as their IEEE 754 bit patterns.
#[allow(inconsistent_fields)]
#[derive(Debug, PartialEq, Eq)]
pub enum ColumnArray {
    /// Booleans.
    Boolean(Vec<Option<bool>>),
    /// Signed 8-bit integers.
    Int8(Vec<Option<i8>>),
    /// Signed 16-bit integers.
    Int16(Vec<Option<i16>>),
    /// Signed 32-bit integers.
    Int32(Vec<Option<i32>>),
    /// Signed 64-bit integers.
    Int64(Vec<Option<i64>>),
    /// Unsigned 8-bit integers.
    UInt8(Vec<Option<u8>>),
    /// Unsigned 16-bit integers.
    UInt16(Vec<Option<u16>>),
    /// Unsigned 32-bit integers.
    UInt32(Vec<Option<u32>>),
    /// Unsigned 64-bit integers.
    UInt64(Vec<Option<u64>>),
    /// Bit patterns of 16-bit floats.
    Float16(Vec<Option<u16>>),
    /// Bit patterns of 32-bit floats.
    Float32(Vec<Option<u32>>),
    /// Bit patterns of 64-bit floats.
    Float64(Vec<Option<u64>>),
    /// Days from the Unix epoch.
    Date32(Vec<Option<i32>>),
    /// Milliseconds from the Unix epoch.
    Date64(Vec<Option<i64>>),
    /// Times of day in seconds.
    Time32Second(Vec<Option<i32>>),
    /// Times of day in milliseconds.
    Time32Millisecond(Vec<Option<i32>>),
    /// Times of day in microseconds.
    Time64Microsecond(Vec<Option<i64>>),
    /// Times of day in nanoseconds.
    Time64Nanosecond(Vec<Option<i64>>),
    /// 32-bit decimals.
    Decimal32 {
        /// Declared precision.
        precision: u8,
        /// Declared scale.
        scale: i8,
        /// Unscaled values.
        values: Vec<Option<i32>>,
    },
    /// 64-bit decimals.
    Decimal64 {
        /// Declared precision.
        precision: u8,
        /// Declared scale.
        scale: i8,
        /// Unscaled values.
        values: Vec<Option<i64>>,
    },
    /// 128-bit decimals.
    Decimal128 {
        /// Declared precision.
        precision: u8,
        /// Declared scale.
        scale: i8,
        /// Unscaled values.
        values: Vec<Option<i128>>,
    },
    /// 256-bit decimals.
    Decimal256 {
        /// Declared precision.
        precision: u8,
        /// Declared scale.
        scale: i8,
        /// Unscaled values.
        values: Vec<Option<Int256>>,
    },
    /// Offsets from the Unix epoch.
    Timestamp {
        /// Unit of the offsets.
        unit: TimeUnit,
        /// Timezone metadata.
        timezone: Option<String>,
        /// Offsets.
        values: Vec<Option<i64>>,
    },
    /// Strings with 32-bit offsets.
    Utf8(Vec<Option<String>>),
    /// Strings with 64-bit offsets.
    LargeUtf8(Vec<Option<String>>),
    /// String views.
    Utf8View(Vec<Option<String>>),
    /// Bytes with 32-bit offsets.
    Binary(Vec<Option<Vec<u8>>>),
    /// Bytes with 64-bit offsets.
    LargeBinary(Vec<Option<Vec<u8>>>),
    /// Byte views.
    BinaryView(Vec<Option<Vec<u8>>>),
    /// Bytes of a fixed length.
    FixedSizeBinary {
        /// Declared length.
        size: i32,
        /// Values.
        values: Vec<Option<Vec<u8>>>,
    },
    /// Values of a type that is not converted: the type, and where the array is null.
    Other {
        /// Type of the values.
        data_type: OtherType<String>,
        /// True where the array is null.
        nulls: Vec<bool>,
    },
}

/// The characters of the string at an index, if there is one.
pub open spec fn string_at(values: Seq<Option<String>>, row: int) -> Option<Seq<char>> {
    match values[row] {
        Some(value) => Some(value@),
        None => None,
    }
}

/// The bytes at an index, if there are any.
pub open spec fn bytes_at(values: Seq<Option<Vec<u8>>>, row: int) -> Option<Seq<u8>> {
    match values[row] {
        Some(value) => Some(value@),
        None => None,
    }
}

impl ColumnArray {
    /// The number of rows.
    pub open spec fn row_count(self) -> nat {
        match self {
            ColumnArray::Boolean(values) => values@.len(),
            ColumnArray::Int8(values) => values@.len(),
            ColumnArray::Int16(values) => values@.len(),
            ColumnArray::Int32(values) => values@.len(),
            ColumnArray::Int64(values) => values@.len(),
            ColumnArray::UInt8(values) => values@.len(),
            ColumnArray::UInt16(values) => values@.len(),
            ColumnArray::UInt32(values) => values@.len(),
            ColumnArray::UInt64(values) => values@.len(),
            ColumnArray::Float16(values) => values@.len(),
            ColumnArray::Float32(values) => values@.len(),
            ColumnArray::Float64(values) => values@.len(),
            ColumnArray::Date32(values) => values@.len(),
            ColumnArray::Date64(values) => values@.len(),
            ColumnArray::Time32Second(values) => values@.len(),
            ColumnArray::Time32Millisecond(values) => values@.len(),
            ColumnArray::Time64Microsecond(values) => values@.len(),
            ColumnArray::Time64Nanosecond(values) => values@.len(),
            ColumnArray::Decimal32 { values, .. } => values@.len(),
            ColumnArray::Decimal64 { values, .. } => values@.len(),
            ColumnArray::Decimal128 { values, .. } => values@.len(),
            ColumnArray::Decimal256 { values, .. } => values@.len(),
            ColumnArray::Timestamp { values, .. } => values@.len(),
            ColumnArray::Utf8(values) => values@.len(),
            ColumnArray::LargeUtf8(values) => values@.len(),
            ColumnArray::Utf8View(values) => values@.len(),
            ColumnArray::Binary(values) => values@.len(),
            ColumnArray::LargeBinary(values) => values@.len(),
            ColumnArray::BinaryView(values) => values@.len(),
            ColumnArray::FixedSizeBinary { values, .. } => values@.len(),
            ColumnArray::Other { nulls, .. } => nulls@.len(),
        }
    }

    /// The data type.
    pub open spec fn type_view(self) -> DataTypeView {
        match self {
            ColumnArray::Boolean(_) => ArrowType::Boolean,
            ColumnArray::Int8(_) => ArrowType::Int8,
            ColumnArray::Int16(_) => ArrowType::Int16,
            ColumnArray::Int32(_) => ArrowType::Int32,
            ColumnArray::Int64(_) => ArrowType::Int64,
            ColumnArray::UInt8(_) => ArrowType::UInt8,
            ColumnArray::UInt16(_) => ArrowType::UInt16,
            ColumnArray::UInt32(_) => ArrowType::UInt32,
            ColumnArray::UInt64(_) => ArrowType::UInt64,
            ColumnArray::Float16(_) => ArrowType::Float16,
            ColumnArray::Float32(_) => ArrowType::Float32,
            ColumnArray::Float64(_) => ArrowType::Float64,
            ColumnArray::Date32(_) => ArrowType::Date32,
            ColumnArray::Date64(_) => ArrowType::Date64,
            ColumnArray::Time32Second(_) => ArrowType::Time32(TimeUnit::Second),
            ColumnArray::Time32Millisecond(_) => ArrowType::Time32(TimeUnit::Millisecond),
            ColumnArray::Time64Microsecond(_) => ArrowType::Time64(TimeUnit::Microsecond),
            ColumnArray::Time64Nanosecond(_) => ArrowType::Time64(TimeUnit::Nanosecond),
            ColumnArray::Decimal32 { precision, scale, .. } => {
                ArrowType::Decimal32(precision, scale)
            },
            ColumnArray::Decimal64 { precision, scale, .. } => {
                ArrowType::Decimal64(precision, scale)
            },
            ColumnArray::Decimal128 { precision, scale, .. } => {
                ArrowType::Decimal128(precision, scale)
            },
            ColumnArray::Decimal256 { precision, scale, .. } => {
                ArrowType::Decimal256(precision, scale)
            },
            ColumnArray::Timestamp { unit, timezone: Some(timezone), .. } => ArrowType::Timestamp(
                unit,
                Some(timezone@),
            ),
            ColumnArray::Timestamp { unit, timezone: None, .. } => ArrowType::Timestamp(unit, None),
            ColumnArray::Utf8(_) => ArrowType::Utf8,
            ColumnArray::LargeUtf8(_) => ArrowType::LargeUtf8,
            ColumnArray::Utf8View(_) => ArrowType::Utf8View,
            ColumnArray::Binary(_) => ArrowType::Binary,
            ColumnArray::LargeBinary(_) => ArrowType::LargeBinary,
            ColumnArray::BinaryView(_) => ArrowType::BinaryView,
            ColumnArray::FixedSizeBinary { size, .. } => ArrowType::FixedSizeBinary(size),
            ColumnArray::Other { data_type, .. } => ArrowType::Other(data_type@),
        }
    }

    /// The value at a row.
    pub open spec fn cell_at(self, row: int) -> ArrowCellView {
        match self {
            ColumnArray::Boolean(values) => match values@[row] {
                Some(value) => ArrowCellOf::Boolean(value),
                None => ArrowCellOf::Null,
            },
            ColumnArray::Int8(values) => match values@[row] {
                Some(value) => ArrowCellOf::Int8(value),
                None => ArrowCellOf::Null,
            },
            ColumnArray::Int16(values) => match values@[row] {
                Some(value) => ArrowCellOf::Int16(value),
                None => ArrowCellOf::Null,
            },
            ColumnArray::Int32(values) => match values@[row] {
                Some(value) => ArrowCellOf::Int32(value),
                None => ArrowCellOf::Null,
            },
            ColumnArray::Int64(values) => match values@[row] {
                Some(value) => ArrowCellOf::Int64(value),
                None => ArrowCellOf::Null,
            },
            ColumnArray::UInt8(values) => match values@[row] {
                Some(value) => ArrowCellOf::UInt8(value),
                None => ArrowCellOf::Null,
            },
            ColumnArray::UInt16(values) => match values@[row] {
                Some(value) => ArrowCellOf::UInt16(value),
                None => ArrowCellOf::Null,
            },
            ColumnArray::UInt32(values) => match values@[row] {
                Some(value) => ArrowCellOf::UInt32(value),
                None => ArrowCellOf::Null,
            },
            ColumnArray::UInt64(values) => match values@[row] {
                Some(value) => ArrowCellOf::UInt64(value),
                None => ArrowCellOf::Null,
            },
            ColumnArray::Float16(values) => match values@[row] {
                Some(value) => ArrowCellOf::Float16(value),
                None => ArrowCellOf::Null,
            },
            ColumnArray::Float32(values) => match values@[row] {
                Some(value) => ArrowCellOf::Float32(value),
                None => ArrowCellOf::Null,
            },
            ColumnArray::Float64(values) => match values@[row] {
                Some(value) => ArrowCellOf::Float64(value),
                None => ArrowCellOf::Null,
            },
            ColumnArray::Date32(values) => match values@[row] {
                Some(value) => ArrowCellOf::Date32(value),
                None => ArrowCellOf::Null,
            },
            ColumnArray::Date64(values) => match values@[row] {
                Some(value) => ArrowCellOf::Date64(value),
                None => ArrowCellOf::Null,
            },
            ColumnArray::Time32Second(values) => match values@[row] {
                Some(value) => ArrowCellOf::Time32Second(value),
                None => ArrowCellOf::Null,
            },
            ColumnArray::Time32Millisecond(values) => match values@[row] {
                Some(value) => ArrowCellOf::Time32Millisecond(value),
                None => ArrowCellOf::Null,
            },
            ColumnArray::Time64Microsecond(values) => match values@[row] {
                Some(value) => ArrowCellOf::Time64Microsecond(value),
                None => ArrowCellOf::Null,
            },
            ColumnArray::Time64Nanosecond(values) => match values@[row] {
                Some(value) => ArrowCellOf::Time64Nanosecond(value),
                None => ArrowCellOf::Null,
            },
            ColumnArray::Decimal32 { values, .. } => match values@[row] {
                Some(value) => ArrowCellOf::Decimal32(value),
                None => ArrowCellOf::Null,
            },
            ColumnArray::Decimal64 { values, .. } => match values@[row] {
                Some(value) => ArrowCellOf::Decimal64(value),
                None => ArrowCellOf::Null,
            },
            ColumnArray::Decimal128 { values, .. } => match values@[row] {
                Some(value) => ArrowCellOf::Decimal128(value),
                None => ArrowCellOf::Null,
            },
            ColumnArray::Decimal256 { values, .. } => match values@[row] {
                Some(value) => ArrowCellOf::Decimal256(value),
                None => ArrowCellOf::Null,
            },
            ColumnArray::Timestamp { unit, values, .. } => match values@[row] {
                Some(value) => timestamp_cell(unit, value),
                None => ArrowCellOf::Null,
            },
            ColumnArray::Utf8(values) => match string_at(values@, row) {
                Some(value) => ArrowCellOf::Utf8(value),
                None => ArrowCellOf::Null,
            },
            ColumnArray::LargeUtf8(values) => match string_at(values@, row) {
                Some(value) => ArrowCellOf::Utf8(value),
                None => ArrowCellOf::Null,
            },
            ColumnArray::Utf8View(values) => match string_at(values@, row) {
                Some(value) => ArrowCellOf::Utf8(value),
                None => ArrowCellOf::Null,
            },
            ColumnArray::Binary(values) => match bytes_at(values@, row) {
                Some(value) => ArrowCellOf::Binary(value),
                None => ArrowCellOf::Null,
            },
            ColumnArray::LargeBinary(values) => match bytes_at(values@, row) {
                Some(value) => ArrowCellOf::Binary(value),
                None => ArrowCellOf::Null,
            },
            ColumnArray::BinaryView(values) => match bytes_at(values@, row) {
                Some(value) => ArrowCellOf::Binary(value),
                None => ArrowCellOf::Null,
            },
            ColumnArray::FixedSizeBinary { values, .. } => match bytes_at(values@, row) {
                Some(value) => ArrowCellOf::Binary(value),
                None => ArrowCellOf::Null,
            },
            ColumnArray::Other { nulls, .. } => if nulls@[row] {
                ArrowCellOf::Null
            } else {
                ArrowCellOf::Other
            },
        }
    }

    /// Returns the number of rows.
    pub fn len(&self) -> (len: usize)
        ensures
            len == self.row_count(),
    {
        match self {
            ColumnArray::Boolean(values) => values.len(),
            ColumnArray::Int8(values) => values.len(),
            ColumnArray::Int16(values) => values.len(),
            ColumnArray::Int32(values) => values.len(),
            ColumnArray::Int64(values) => values.len(),
            ColumnArray::UInt8(values) => values.len(),
            ColumnArray::UInt16(values) => values.len(),
            ColumnArray::UInt32(values) => values.len(),
            ColumnArray::UInt64(values) => values.len(),
            ColumnArray::Float16(values) => values.len(),
            ColumnArray::Float32(values) => values.len(),
            ColumnArray::Float64(values) => values.len(),
            ColumnArray::Date32(values) => values.len(),
            ColumnArray::Date64(values) => values.len(),
            ColumnArray::Time32Second(values) => values.len(),
            ColumnArray::Time32Millisecond(values) => values.len(),
            ColumnArray::Time64Microsecond(values) => values.len(),
            ColumnArray::Time64Nanosecond(values) => values.len(),
            ColumnArray::Decimal32 { values, .. } => values.len(),
            ColumnArray::Decimal64 { values, .. } => values.len(),
            ColumnArray::Decimal128 { values, .. } => values.len(),
            ColumnArray::Decimal256 { values, .. } => values.len(),
            ColumnArray::Timestamp { values, .. } => values.len(),
            ColumnArray::Utf8(values) => values.len(),
            ColumnArray::LargeUtf8(values) => values.len(),
            ColumnArray::Utf8View(values) => values.len(),
            ColumnArray::Binary(values) => values.len(),
            ColumnArray::LargeBinary(values) => values.len(),
            ColumnArray::BinaryView(values) => values.len(),
            ColumnArray::FixedSizeBinary { values, .. } => values.len(),
            ColumnArray::Other { nulls, .. } => nulls.len(),
        }
    }

    /// Returns the data type.
    pub fn data_type(&self) -> (data_type: DataType)
        ensures
            data_type@ == self.type_view(),
    {
        match self {
            ColumnArray::Boolean(_) => ArrowType::Boolean,
            ColumnArray::Int8(_) => ArrowType::Int8,
            ColumnArray::Int16(_) => ArrowType::Int16,
            ColumnArray::Int32(_) => ArrowType::Int32,
            ColumnArray::Int64(_) => ArrowType::Int64,
            ColumnArray::UInt8(_) => ArrowType::UInt8,
            ColumnArray::UInt16(_) => ArrowType::UInt16,
            ColumnArray::UInt32(_) => ArrowType::UInt32,
            ColumnArray::UInt64(_) => ArrowType::UInt64,
            ColumnArray::Float16(_) => ArrowType::Float16,
            ColumnArray::Float32(_) => ArrowType::Float32,
            ColumnArray::Float64(_) => ArrowType::Float64,
            ColumnArray::Date32(_) => ArrowType::Date32,
            ColumnArray::Date64(_) => ArrowType::Date64,
            ColumnArray::Time32Second(_) => ArrowType::Time32(TimeUnit::Second),
            ColumnArray::Time32Millisecond(_) => ArrowType::Time32(TimeUnit::Millisecond),
            ColumnArray::Time64Microsecond(_) => ArrowType::Time64(TimeUnit::Microsecond),
            ColumnArray::Time64Nanosecond(_) => ArrowType::Time64(TimeUnit::Nanosecond),
            ColumnArray::Decimal32 { precision, scale, .. } => {
                ArrowType::Decimal32(*precision, *scale)
            },
            ColumnArray::Decimal64 { precision, scale, .. } => {
                ArrowType::Decimal64(*precision, *scale)
            },
            ColumnArray::Decimal128 { precision, scale, .. } => {
                ArrowType::Decimal128(*precision, *scale)
            },
            ColumnArray::Decimal256 { precision, scale, .. } => {
                ArrowType::Decimal256(*precision, *scale)
            },
            ColumnArray::Timestamp { unit, timezone, .. } => match timezone {
                Some(timezone) => ArrowType::Timestamp(*unit, Some(timezone.clone())),
                None => ArrowType::Timestamp(*unit, None),
            },
            ColumnArray::Utf8(_) => ArrowType::Utf8,
            ColumnArray::LargeUtf8(_) => ArrowType::LargeUtf8,
            ColumnArray::Utf8View(_) => ArrowType::Utf8View,
            ColumnArray::Binary(_) => ArrowType::Binary,
            ColumnArray::LargeBinary(_) => ArrowType::LargeBinary,
            ColumnArray::BinaryView(_) => ArrowType::BinaryView,
            ColumnArray::FixedSizeBinary { size, .. } => ArrowType::FixedSizeBinary(*size),
            ColumnArray::Other { data_type, .. } => ArrowType::Other(data_type.clone()),
        }
    }

    /// Returns true when the value at a row is null.
    pub fn is_null(&self, row: usize) -> (result: bool)
        requires
            row < self.row_count(),
        ensures
            result == (self.cell_at(row as int) is Null),
    {
        match self {
            ColumnArray::Boolean(values) => values[row].is_none(),
            ColumnArray::Int8(values) => values[row].is_none(),
            ColumnArray::Int16(values) => values[row].is_none(),
            ColumnArray::Int32(values) => values[row].is_none(),
            ColumnArray::Int64(values) => values[row].is_none(),
            ColumnArray::UInt8(values) => values[row].is_none(),
            ColumnArray::UInt16(values) => values[row].is_none(),
            ColumnArray::UInt32(values) => values[row].is_none(),
            ColumnArray::UInt64(values) => values[row].is_none(),
            ColumnArray::Float16(values) => values[row].is_none(),
            ColumnArray::Float32(values) => values[row].is_none(),
            ColumnArray::Float64(values) => values[row].is_none(),
            ColumnArray::Date32(values) => values[row].is_none(),
            ColumnArray::Date64(values) => values[row].is_none(),
            ColumnArray::Time32Second(values) => values[row].is_none(),
            ColumnArray::Time32Millisecond(values) => values[row].is_none(),
            ColumnArray::Time64Microsecond(values) => values[row].is_none(),
            ColumnArray::Time64Nanosecond(values) => values[row].is_none(),
            ColumnArray::Decimal32 { values, .. } => values[row].is_none(),
            ColumnArray::Decimal64 { values, .. } => values[row].is_none(),
            ColumnArray::Decimal128 { values, .. } => values[row].is_none(),
            ColumnArray::Decimal256 { values, .. } => values[row].is_none(),
            ColumnArray::Timestamp { values, .. } => values[row].is_none(),
            ColumnArray::Utf8(values) => values[row].is_none(),
            ColumnArray::LargeUtf8(values) => values[row].is_none(),
            ColumnArray::Utf8View(values) => values[row].is_none(),
            ColumnArray::Binary(values) => values[row].is_none(),
            ColumnArray::LargeBinary(values) => values[row].is_none(),
            ColumnArray::BinaryView(values) => values[row].is_none(),
            ColumnArray::FixedSizeBinary { values, .. } => values[row].is_none(),
            ColumnArray::Other { nulls, .. } => nulls[row],
        }
    }

    /// Returns a copy of the rows `start..start + len`.
    pub fn slice(&self, start: usize, len: usize) -> (result: Self)
        requires
            start + len <= self.row_count(),
        ensures
            result.row_count() == len,
            result.type_view() == self.type_view(),
            forall|row: int|
                0 <= row < len ==> #[trigger] result.cell_at(row) == self.cell_at(start + row),
    {
        match self {
            ColumnArray::Boolean(values) => ColumnArray::Boolean(slice_values(values, start, len)),
            ColumnArray::Int8(values) => ColumnArray::Int8(slice_values(values, start, len)),
            ColumnArray::Int16(values) => ColumnArray::Int16(slice_values(values, start, len)),
            ColumnArray::Int32(values) => ColumnArray::Int32(slice_values(values, start, len)),
            ColumnArray::Int64(values) => ColumnArray::Int64(slice_values(values, start, len)),
            ColumnArray::UInt8(values) => ColumnArray::UInt8(slice_values(values, start, len)),
            ColumnArray::UInt16(values) => ColumnArray::UInt16(slice_values(values, start, len)),
            ColumnArray::UInt32(values) => ColumnArray::UInt32(slice_values(values, start, len)),
            ColumnArray::UInt64(values) => ColumnArray::UInt64(slice_values(values, start, len)),
            ColumnArray::Float16(values) => ColumnArray::Float16(slice_values(values, start, len)),
            ColumnArray::Float32(values) => ColumnArray::Float32(slice_values(values, start, len)),
            ColumnArray::Float64(values) => ColumnArray::Float64(slice_values(values, start, len)),
            ColumnArray::Date32(values) => ColumnArray::Date32(slice_values(values, start, len)),
            ColumnArray::Date64(values) => ColumnArray::Date64(slice_values(values, start, len)),
            ColumnArray::Time32Second(values) => {
                ColumnArray::Time32Second(slice_values(values, start, len))
            },
            ColumnArray::Time32Millisecond(values) => {
                ColumnArray::Time32Millisecond(slice_values(values, start, len))
            },
            ColumnArray::Time64Microsecond(values) => {
                ColumnArray::Time64Microsecond(slice_values(values, start, len))
            },
            ColumnArray::Time64Nanosecond(values) => {
                ColumnArray::Time64Nanosecond(slice_values(values, start, len))
            },
            ColumnArray::Decimal32 { precision, scale, values } => ColumnArray::Decimal32 {
                precision: *precision,
                scale: *scale,
                values: slice_values(values, start, len),
            },
            ColumnArray::Decimal64 { precision, scale, values } => ColumnArray::Decimal64 {
                precision: *precision,
                scale: *scale,
                values: slice_values(values, start, len),
            },
            ColumnArray::Decimal128 { precision, scale, values } => ColumnArray::Decimal128 {
                precision: *precision,
                scale: *scale,
                values: slice_values(values, start, len),
            },
            ColumnArray::Decimal256 { precision, scale, values } => ColumnArray::Decimal256 {
                precision: *precision,
                scale: *scale,
                values: slice_values(values, start, len),
            },
            ColumnArray::Timestamp { unit, timezone, values } => ColumnArray::Timestamp {
                unit: *unit,
                timezone: timezone.clone(),
                values: slice_values(values, start, len),
            },
            ColumnArray::Utf8(values) => ColumnArray::Utf8(slice_strings(values, start, len)),
            ColumnArray::LargeUtf8(values) => {
                ColumnArray::LargeUtf8(slice_strings(values, start, len))
            },
            ColumnArray::Utf8View(values) => {
                ColumnArray::Utf8View(slice_strings(values, start, len))
            },
            ColumnArray::Binary(values) => ColumnArray::Binary(slice_bytes(values, start, len)),
            ColumnArray::LargeBinary(values) => {
                ColumnArray::LargeBinary(slice_bytes(values, start, len))
            },
            ColumnArray::BinaryView(values) => {
                ColumnArray::BinaryView(slice_bytes(values, start, len))
            },
            ColumnArray::FixedSizeBinary { size, values } => ColumnArray::FixedSizeBinary {
                size: *size,
                values: slice_bytes(values, start, len),
            },
            ColumnArray::Other { data_type, nulls } => ColumnArray::Other {
                data_type: data_type.clone(),
                nulls: slice_flags(nulls, start, len),
            },
        }
    }
}

/// The cell of a timestamp.
pub open spec fn timestamp_cell(unit: TimeUnit, value: i64) -> ArrowCellView {
    match unit {
        TimeUnit::Second => ArrowCellOf::TimestampSecond(value),
        TimeUnit::Millisecond => ArrowCellOf::TimestampMillisecond(value),
        TimeUnit::Microsecond => ArrowCellOf::TimestampMicrosecond(value),
        TimeUnit::Nanosecond => ArrowCellOf::TimestampNanosecond(value),
    }
}

/// Copies a range of values.
fn slice_values<T: Copy>(values: &Vec<Option<T>>, start: usize, len: usize) -> (result: Vec<
    Option<T>,
>)
    requires
        start + len <= values.len(),
    ensures
        result@ == values@.subrange(start as int, start + len),
{
    let mut result: Vec<Option<T>> = Vec::with_capacity(len);
    let mut index: usize = 0;
    while index < len
        invariant
            index <= len,
            start + len <= values.len(),
            result@ == values@.subrange(start as int, start + index),
        decreases len - index,
    {
        result.push(values[start + index]);
        index += 1;
        assert(result@ =~= values@.subrange(start as int, start + index));
    }
    result
}

/// Copies a range of flags.
fn slice_flags(values: &Vec<bool>, start: usize, len: usize) -> (result: Vec<bool>)
    requires
        start + len <= values.len(),
    ensures
        result@ == values@.subrange(start as int, start + len),
{
    let mut result: Vec<bool> = Vec::with_capacity(len);
    let mut index: usize = 0;
    while index < len
        invariant
            index <= len,
            start + len <= values.len(),
            result@ == values@.subrange(start as int, start + index),
        decreases len - index,
    {
        result.push(values[start + index]);
        index += 1;
        assert(result@ =~= values@.subrange(start as int, start + index));
    }
    result
}

/// Copies a range of strings.
fn slice_strings(values: &Vec<Option<String>>, start: usize, len: usize) -> (result: Vec<
    Option<String>,
>)
    requires
        start + len <= values.len(),
    ensures
        result@.len() == len,
        forall|row: int|
            0 <= row < len ==> #[trigger] string_at(result@, row) == string_at(values@, start + row),
{
    let mut result: Vec<Option<String>> = Vec::with_capacity(len);
    let mut index: usize = 0;
    while index < len
        invariant
            index <= len,
            start + len <= values.len(),
            result@.len() == index,
            forall|row: int|
                0 <= row < index ==> #[trigger] string_at(result@, row) == string_at(
                    values@,
                    start + row,
                ),
        decreases len - index,
    {
        let ghost before = result@;
        let value: Option<String> = match &values[start + index] {
            Some(value) => Some(value.clone()),
            None => None,
        };
        result.push(value);
        assert forall|row: int| 0 <= row < index + 1 implies #[trigger] string_at(result@, row)
            == string_at(values@, start + row) by {
            if row < index {
                assert(string_at(before, row) == string_at(values@, start + row));
            }
        }
        index += 1;
    }
    result
}

/// Copies a range of byte strings.
fn slice_bytes(values: &Vec<Option<Vec<u8>>>, start: usize, len: usize) -> (result: Vec<
    Option<Vec<u8>>,
>)
    requires
        start + len <= values.len(),
    ensures
        result@.len() == len,
        forall|row: int|
            0 <= row < len ==> #[trigger] bytes_at(result@, row) == bytes_at(values@, start + row),
{
    let mut result: Vec<Option<Vec<u8>>> = Vec::with_capacity(len);
    let mut index: usize = 0;
    while index < len
        invariant
            index <= len,
            start + len <= values.len(),
            result@.len() == index,
            forall|row: int|
                0 <= row < index ==> #[trigger] bytes_at(result@, row) == bytes_at(
                    values@,
                    start + row,
                ),
        decreases len - index,
    {
        let ghost before = result@;
        let value: Option<Vec<u8>> = match &values[start + index] {
            Some(value) => Some(vstd::slice::slice_to_vec(value.as_slice())),
            None => None,
        };
        result.push(value);
        assert forall|row: int| 0 <= row < index + 1 implies #[trigger] bytes_at(result@, row)
            == bytes_at(values@, start + row) by {
            if row < index {
                assert(bytes_at(before, row) == bytes_at(values@, start + row));
            }
        }
        index += 1;
    }
    result
}

/// Arrow arrays of equal length under field names.
#[derive(Debug, PartialEq, Eq)]
pub struct RecordBatch {
    names: Vec<String>,
    columns: Vec<ColumnArray>,
    row_count: usize,
}

impl RecordBatch {
    /// The field names.
    pub closed spec fn names(self) -> Seq<Seq<char>> {
        self.names@.map_values(|name: String| name@)
    }

    /// The arrays.
    pub closed spec fn arrays(self) -> Seq<ColumnArray> {
        self.columns@
    }

    /// The number of rows.
    pub closed spec fn rows(self) -> usize {
        self.row_count
    }

    /// One name per array, and the batch's number of rows in every array.
    #[verifier::type_invariant]
    pub open spec fn well_formed(self) -> bool {
        &&& self.names().len() == self.arrays().len()
        &&& self.arrays().len() <= usize::MAX
        &&& forall|i: int|
            0 <= i < self.arrays().len() ==> (#[trigger] self.arrays()[i]).row_count()
                == self.rows()
    }

    /// Creates a batch of named arrays of one length.
    pub fn try_new(names: Vec<String>, columns: Vec<ColumnArray>, row_count: usize) -> (result:
        Option<Self>)
        ensures
            result is Some <==> names@.len() == columns@.len() && forall|i: int|
                0 <= i < columns@.len() ==> (#[trigger] columns@[i]).row_count() == row_count,
            result matches Some(batch) ==> batch.names() == names@.map_values(
                |name: String| name@,
            ) && batch.arrays() == columns@ && batch.rows() == row_count,
    {
        if names.len() != columns.len() {
            return None;
        }
        let mut index: usize = 0;
        while index < columns.len()
            invariant
                index <= columns@.len(),
                forall|i: int|
                    0 <= i < index ==> (#[trigger] columns@[i]).row_count() == row_count,
            decreases columns@.len() - index,
        {
            if columns[index].len() != row_count {
                return None;
            }
            index += 1;
        }
        Some(RecordBatch { names, columns, row_count })
    }

    /// Returns the number of rows.
    pub fn num_rows(&self) -> (count: usize)
        ensures
            count == self.rows(),
    {
        self.row_count
    }

    /// Returns the number of columns.
    pub fn num_columns(&self) -> (count: usize)
        ensures
            count == self.arrays().len(),
    {
        self.columns.len()
    }

    /// Returns a field name.
    pub fn name(&self, index: usize) -> (name: &str)
        requires
            index < self.arrays().len(),
        ensures
            name@ == self.names()[index as int],
    {
        proof {
            use_type_invariant(self);
        }
        self.names[index].as_str()
    }

    /// Returns the arrays.
    pub fn columns(&self) -> (columns: &Vec<ColumnArray>)
        ensures
            columns@ == self.arrays(),
    {
        &self.columns
    }

    /// Returns a copy of the rows `start..start + len`.
    pub fn slice(&self, start: usize, len: usize) -> (result: Self)
        requires
            start + len <= self.rows(),
        ensures
            is_slice(*self, start, len, result),
    {
        proof {
            use_type_invariant(self);
        }
        let mut names: Vec<String> = Vec::new();
        let mut columns: Vec<ColumnArray> = Vec::new();
        let mut index: usize = 0;
        while index < self.columns.len()
            invariant
                self.well_formed(),
                start + len <= self.rows(),
                index <= self.columns@.len(),
                names@.len() == index,
                columns@.len() == index,
                forall|i: int| 0 <= i < index ==> (#[trigger] names@[i])@ == self.names()[i],
                forall|i: int|
                    0 <= i < index ==> is_array_slice(
                        self.arrays()[i],
                        start,
                        len,
                        #[trigger] columns@[i],
                    ),
            decreases self.columns@.len() - index,
        {
            assert(self.arrays()[index as int].row_count() == self.rows());
            assert(self.names().len() == self.names@.len());
            names.push(self.names[index].clone());
            columns.push(self.columns[index].slice(start, len));
            index += 1;
        }
        assert(names@.map_values(|name: String| name@) =~= self.names());
        RecordBatch { names, columns, row_count: len }
    }
}

/// Whether an array holds the rows `start..start + len` of another.
pub open spec fn is_array_slice(
    array: ColumnArray,
    start: usize,
    len: usize,
    slice: ColumnArray,
) -> bool {
    &&& slice.row_count() == len
    &&& slice.type_view() == array.type_view()
    &&& forall|row: int|
        0 <= row < len ==> #[trigger] slice.cell_at(row) == array.cell_at(start + row)
}

/// Whether a batch holds the rows `start..start + len` of another.
pub open spec fn is_slice(batch: RecordBatch, start: usize, len: usize, slice: RecordBatch) -> bool {
    &&& slice.names() == batch.names()
    &&& slice.rows() == len
    &&& slice.arrays().len() == batch.arrays().len()
    &&& forall|i: int|
        0 <= i < batch.arrays().len() ==> is_array_slice(
            batch.arrays()[i],
            start,
            len,
            #[trigger] slice.arrays()[i],
        )
}

} // verus!
