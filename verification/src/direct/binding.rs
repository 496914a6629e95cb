//! Bound runtime direct TDS columns.

use vstd::prelude::*;

use crate::arrow_type::{DataType, TimeUnit};
use crate::batch::ColumnArray;
use crate::cell::{ArrowCell, ArrowCellOf, ArrowCellView, Int256};
use crate::classify::{
    is_binary_family, is_binary_family_to_varbinary, is_string_family,
    is_string_family_to_nvarchar, DecimalArrowToMssql, FixedSizeBinaryArrowToMssql,
    PrimitiveArrowToMssql, TemporalArrowToMssql, VariableWidthArrowToMssql,
};
use crate::context::NanosecondPolicy;
use crate::diagnostic::{value_conversion_error, DiagnosticCode, Error, ErrorView, Result};
use crate::direct::cell::{is_countable, DirectCell, DirectCellView};
use crate::direct::encoder::{column_error, row_column_diagnostic};
use crate::direct::plan::{DirectColumnEncoding, DirectColumnPlan, DirectColumnView};
use crate::direct::value::{direct_cell, direct_cell_outcome, direct_cell_view};
use crate::mapping::{SchemaMapping, SchemaMappingView};
use crate::message::{MessageOf, TypeFamily};

verus! {

/// Plan, mapping and policy of one bound column.
#[derive(Debug, Clone, Copy)]
pub struct BoundColumn<'a> {
    /// Planned column.
    pub plan: &'a DirectColumnPlan,
    /// Mapping that the column was planned from.
    pub mapping: &'a SchemaMapping,
    /// Nanosecond policy of the encoder.
    pub nanosecond_policy: NanosecondPolicy,
}

/// Runtime array bound to one planned column.
#[allow(inconsistent_fields)]
#[derive(Debug)]
pub enum BoundDirectColumn<'a> {
    /// Booleans for `bit`.
    Boolean {
        /// Column.
        column: BoundColumn<'a>,
        /// Values.
        array: &'a Vec<Option<bool>>,
    },
    /// Unsigned 8-bit integers for `tinyint`.
    UInt8 {
        /// Column.
        column: BoundColumn<'a>,
        /// Values.
        array: &'a Vec<Option<u8>>,
    },
    /// Signed 8-bit integers for `smallint`.
    Int8 {
        /// Column.
        column: BoundColumn<'a>,
        /// Values.
        array: &'a Vec<Option<i8>>,
    },
    /// Signed 16-bit integers for `smallint`.
    Int16 {
        /// Column.
        column: BoundColumn<'a>,
        /// Values.
        array: &'a Vec<Option<i16>>,
    },
    /// Signed 32-bit integers for `int`.
    Int32 {
        /// Column.
        column: BoundColumn<'a>,
        /// Values.
        array: &'a Vec<Option<i32>>,
    },
    /// Unsigned 16-bit integers for `int`.
    UInt16 {
        /// Column.
        column: BoundColumn<'a>,
        /// Values.
        array: &'a Vec<Option<u16>>,
    },
    /// Signed 64-bit integers for `bigint`.
    Int64 {
        /// Column.
        column: BoundColumn<'a>,
        /// Values.
        array: &'a Vec<Option<i64>>,
    },
    /// Unsigned 32-bit integers for `bigint`.
    UInt32 {
        /// Column.
        column: BoundColumn<'a>,
        /// Values.
        array: &'a Vec<Option<u32>>,
    },
    /// Unsigned 64-bit integers for `bigint`.
    UInt64 {
        /// Column.
        column: BoundColumn<'a>,
        /// Values.
        array: &'a Vec<Option<u64>>,
    },
    /// Unsigned 64-bit integers for `decimal(20,0)`.
    UInt64Decimal20_0 {
        /// Column.
        column: BoundColumn<'a>,
        /// Values.
        array: &'a Vec<Option<u64>>,
    },
    /// 32-bit decimals for `decimal`.
    Decimal32 {
        /// Column.
        column: BoundColumn<'a>,
        /// Conversion.
        classification: DecimalArrowToMssql,
        /// Values.
        array: &'a Vec<Option<i32>>,
    },
    /// 64-bit decimals for `decimal`.
    Decimal64 {
        /// Column.
        column: BoundColumn<'a>,
        /// Conversion.
        classification: DecimalArrowToMssql,
        /// Values.
        array: &'a Vec<Option<i64>>,
    },
    /// 128-bit decimals for `decimal`.
    Decimal128 {
        /// Column.
        column: BoundColumn<'a>,
        /// Conversion.
        classification: DecimalArrowToMssql,
        /// Values.
        array: &'a Vec<Option<i128>>,
    },
    /// 256-bit decimals for `decimal`.
    Decimal256 {
        /// Column.
        column: BoundColumn<'a>,
        /// Conversion.
        classification: DecimalArrowToMssql,
        /// Values.
        array: &'a Vec<Option<Int256>>,
    },
    /// Bit patterns of 32-bit floats for `real`.
    Float32 {
        /// Column.
        column: BoundColumn<'a>,
        /// Values.
        array: &'a Vec<Option<u32>>,
    },
    /// Bit patterns of 16-bit floats for `real`.
    Float16 {
        /// Column.
        column: BoundColumn<'a>,
        /// Values.
        array: &'a Vec<Option<u16>>,
    },
    /// Bit patterns of 64-bit floats for `float`.
    Float64 {
        /// Column.
        column: BoundColumn<'a>,
        /// Values.
        array: &'a Vec<Option<u64>>,
    },
    /// Strings with 32-bit offsets for `nvarchar`.
    Utf8 {
        /// Column.
        column: BoundColumn<'a>,
        /// Values.
        array: &'a Vec<Option<String>>,
    },
    /// Strings with 64-bit offsets for `nvarchar`.
    LargeUtf8 {
        /// Column.
        column: BoundColumn<'a>,
        /// Values.
        array: &'a Vec<Option<String>>,
    },
    /// String views for `nvarchar`.
    Utf8View {
        /// Column.
        column: BoundColumn<'a>,
        /// Values.
        array: &'a Vec<Option<String>>,
    },
    /// Bytes with 32-bit offsets for `varbinary`.
    Binary {
        /// Column.
        column: BoundColumn<'a>,
        /// Values.
        array: &'a Vec<Option<Vec<u8>>>,
    },
    /// Bytes with 64-bit offsets for `varbinary`.
    LargeBinary {
        /// Column.
        column: BoundColumn<'a>,
        /// Values.
        array: &'a Vec<Option<Vec<u8>>>,
    },
    /// Byte views for `varbinary`.
    BinaryView {
        /// Column.
        column: BoundColumn<'a>,
        /// Values.
        array: &'a Vec<Option<Vec<u8>>>,
    },
    /// Bytes of one length for `binary`.
    FixedSizeBinary {
        /// Column.
        column: BoundColumn<'a>,
        /// Conversion.
        classification: FixedSizeBinaryArrowToMssql,
        /// Values.
        array: &'a Vec<Option<Vec<u8>>>,
    },
    /// Days for `date`.
    Date32 {
        /// Column.
        column: BoundColumn<'a>,
        /// Values.
        array: &'a Vec<Option<i32>>,
    },
    /// Milliseconds for `datetime2(3)`.
    Date64 {
        /// Column.
        column: BoundColumn<'a>,
        /// Values.
        array: &'a Vec<Option<i64>>,
    },
    /// Second timestamps for `datetime` or `datetime2`.
    TimestampSecond {
        /// Column.
        column: BoundColumn<'a>,
        /// Values.
        array: &'a Vec<Option<i64>>,
    },
    /// Millisecond timestamps for `datetime` or `datetime2`.
    TimestampMillisecond {
        /// Column.
        column: BoundColumn<'a>,
        /// Values.
        array: &'a Vec<Option<i64>>,
    },
    /// Microsecond timestamps for `datetime` or `datetime2`.
    TimestampMicrosecond {
        /// Column.
        column: BoundColumn<'a>,
        /// Values.
        array: &'a Vec<Option<i64>>,
    },
    /// Nanosecond timestamps for `datetime` or `datetime2`.
    TimestampNanosecond {
        /// Column.
        column: BoundColumn<'a>,
        /// Values.
        array: &'a Vec<Option<i64>>,
    },
    /// Times of day in seconds for `time`.
    Time32Second {
        /// Column.
        column: BoundColumn<'a>,
        /// Values.
        array: &'a Vec<Option<i32>>,
    },
    /// Times of day in milliseconds for `time`.
    Time32Millisecond {
        /// Column.
        column: BoundColumn<'a>,
        /// Values.
        array: &'a Vec<Option<i32>>,
    },
    /// Times of day in microseconds for `time`.
    Time64Microsecond {
        /// Column.
        column: BoundColumn<'a>,
        /// Values.
        array: &'a Vec<Option<i64>>,
    },
    /// Times of day in nanoseconds for `time`.
    Time64Nanosecond {
        /// Column.
        column: BoundColumn<'a>,
        /// Values.
        array: &'a Vec<Option<i64>>,
    },
    /// Second timestamps for `datetimeoffset`.
    DateTimeOffsetSecond {
        /// Column.
        column: BoundColumn<'a>,
        /// Values.
        array: &'a Vec<Option<i64>>,
    },
    /// Millisecond timestamps for `datetimeoffset`.
    DateTimeOffsetMillisecond {
        /// Column.
        column: BoundColumn<'a>,
        /// Values.
        array: &'a Vec<Option<i64>>,
    },
    /// Microsecond timestamps for `datetimeoffset`.
    DateTimeOffsetMicrosecond {
        /// Column.
        column: BoundColumn<'a>,
        /// Values.
        array: &'a Vec<Option<i64>>,
    },
    /// Nanosecond timestamps for `datetimeoffset`.
    DateTimeOffsetNanosecond {
        /// Column.
        column: BoundColumn<'a>,
        /// Values.
        array: &'a Vec<Option<i64>>,
    },
}

/// What contracts know of a [`BoundDirectColumn`].
#[verifier::ext_equal]
pub struct BoundColumnView {
    /// Planned column.
    pub plan: DirectColumnView,
    /// Mapping.
    pub mapping: SchemaMappingView,
    /// Nanosecond policy.
    pub policy: NanosecondPolicy,
    /// Value of every row.
    pub cells: Seq<ArrowCellView>,
}

impl BoundColumnView {
    /// The direct cell of a row.
    #[verifier::opaque]
    pub open spec fn outcome(self, row: int) -> core::result::Result<DirectCellView, ErrorView> {
        direct_cell_outcome(
            self.plan.encoding,
            self.mapping,
            self.policy,
            row as usize,
            self.cells[row],
        )
    }
}

/// The values of an array.
pub open spec fn array_cells(array: ColumnArray) -> Seq<ArrowCellView> {
    Seq::new(array.row_count(), |row: int| array.cell_at(row))
}

impl<'a> View for BoundDirectColumn<'a> {
    type V = BoundColumnView;

    open spec fn view(&self) -> BoundColumnView {
        BoundColumnView {
            plan: self.column_spec().plan@,
            mapping: self.column_spec().mapping@,
            policy: self.column_spec().nanosecond_policy,
            cells: array_cells(self.source()),
        }
    }
}

impl<'a> BoundDirectColumn<'a> {
    /// The plan, mapping and policy.
    pub open spec fn column_spec(self) -> BoundColumn<'a> {
        match self {
            BoundDirectColumn::Boolean { column, .. } => column,
            BoundDirectColumn::UInt8 { column, .. } => column,
            BoundDirectColumn::Int8 { column, .. } => column,
            BoundDirectColumn::Int16 { column, .. } => column,
            BoundDirectColumn::Int32 { column, .. } => column,
            BoundDirectColumn::UInt16 { column, .. } => column,
            BoundDirectColumn::Int64 { column, .. } => column,
            BoundDirectColumn::UInt32 { column, .. } => column,
            BoundDirectColumn::UInt64 { column, .. } => column,
            BoundDirectColumn::UInt64Decimal20_0 { column, .. } => column,
            BoundDirectColumn::Decimal32 { column, .. } => column,
            BoundDirectColumn::Decimal64 { column, .. } => column,
            BoundDirectColumn::Decimal128 { column, .. } => column,
            BoundDirectColumn::Decimal256 { column, .. } => column,
            BoundDirectColumn::Float32 { column, .. } => column,
            BoundDirectColumn::Float16 { column, .. } => column,
            BoundDirectColumn::Float64 { column, .. } => column,
            BoundDirectColumn::Utf8 { column, .. } => column,
            BoundDirectColumn::LargeUtf8 { column, .. } => column,
            BoundDirectColumn::Utf8View { column, .. } => column,
            BoundDirectColumn::Binary { column, .. } => column,
            BoundDirectColumn::LargeBinary { column, .. } => column,
            BoundDirectColumn::BinaryView { column, .. } => column,
            BoundDirectColumn::FixedSizeBinary { column, .. } => column,
            BoundDirectColumn::Date32 { column, .. } => column,
            BoundDirectColumn::Date64 { column, .. } => column,
            BoundDirectColumn::TimestampSecond { column, .. } => column,
            BoundDirectColumn::TimestampMillisecond { column, .. } => column,
            BoundDirectColumn::TimestampMicrosecond { column, .. } => column,
            BoundDirectColumn::TimestampNanosecond { column, .. } => column,
            BoundDirectColumn::Time32Second { column, .. } => column,
            BoundDirectColumn::Time32Millisecond { column, .. } => column,
            BoundDirectColumn::Time64Microsecond { column, .. } => column,
            BoundDirectColumn::Time64Nanosecond { column, .. } => column,
            BoundDirectColumn::DateTimeOffsetSecond { column, .. } => column,
            BoundDirectColumn::DateTimeOffsetMillisecond { column, .. } => column,
            BoundDirectColumn::DateTimeOffsetMicrosecond { column, .. } => column,
            BoundDirectColumn::DateTimeOffsetNanosecond { column, .. } => column,
        }
    }

    /// The values as an array; declared sizes and timezones are left out.
    pub open spec fn source(self) -> ColumnArray {
        match self {
            BoundDirectColumn::Boolean { array, .. } => ColumnArray::Boolean(*array),
            BoundDirectColumn::UInt8 { array, .. } => ColumnArray::UInt8(*array),
            BoundDirectColumn::Int8 { array, .. } => ColumnArray::Int8(*array),
            BoundDirectColumn::Int16 { array, .. } => ColumnArray::Int16(*array),
            BoundDirectColumn::Int32 { array, .. } => ColumnArray::Int32(*array),
            BoundDirectColumn::UInt16 { array, .. } => ColumnArray::UInt16(*array),
            BoundDirectColumn::Int64 { array, .. } => ColumnArray::Int64(*array),
            BoundDirectColumn::UInt32 { array, .. } => ColumnArray::UInt32(*array),
            BoundDirectColumn::UInt64 { array, .. } => ColumnArray::UInt64(*array),
            BoundDirectColumn::UInt64Decimal20_0 { array, .. } => ColumnArray::UInt64(*array),
            BoundDirectColumn::Decimal32 { array, .. } => {
                ColumnArray::Decimal32 { precision: 0, scale: 0, values: *array }
            },
            BoundDirectColumn::Decimal64 { array, .. } => {
                ColumnArray::Decimal64 { precision: 0, scale: 0, values: *array }
            },
            BoundDirectColumn::Decimal128 { array, .. } => {
                ColumnArray::Decimal128 { precision: 0, scale: 0, values: *array }
            },
            BoundDirectColumn::Decimal256 { array, .. } => {
                ColumnArray::Decimal256 { precision: 0, scale: 0, values: *array }
            },
            BoundDirectColumn::Float32 { array, .. } => ColumnArray::Float32(*array),
            BoundDirectColumn::Float16 { array, .. } => ColumnArray::Float16(*array),
            BoundDirectColumn::Float64 { array, .. } => ColumnArray::Float64(*array),
            BoundDirectColumn::Utf8 { array, .. } => ColumnArray::Utf8(*array),
            BoundDirectColumn::LargeUtf8 { array, .. } => ColumnArray::LargeUtf8(*array),
            BoundDirectColumn::Utf8View { array, .. } => ColumnArray::Utf8View(*array),
            BoundDirectColumn::Binary { array, .. } => ColumnArray::Binary(*array),
            BoundDirectColumn::LargeBinary { array, .. } => ColumnArray::LargeBinary(*array),
            BoundDirectColumn::BinaryView { array, .. } => ColumnArray::BinaryView(*array),
            BoundDirectColumn::FixedSizeBinary { array, .. } => {
                ColumnArray::FixedSizeBinary { size: 0, values: *array }
            },
            BoundDirectColumn::Date32 { array, .. } => ColumnArray::Date32(*array),
            BoundDirectColumn::Date64 { array, .. } => ColumnArray::Date64(*array),
            BoundDirectColumn::TimestampSecond { array, .. } => ColumnArray::Timestamp {
                unit: TimeUnit::Second,
                timezone: None,
                values: *array,
            },
            BoundDirectColumn::TimestampMillisecond { array, .. } => ColumnArray::Timestamp {
                unit: TimeUnit::Millisecond,
                timezone: None,
                values: *array,
            },
            BoundDirectColumn::TimestampMicrosecond { array, .. } => ColumnArray::Timestamp {
                unit: TimeUnit::Microsecond,
                timezone: None,
                values: *array,
            },
            BoundDirectColumn::TimestampNanosecond { array, .. } => ColumnArray::Timestamp {
                unit: TimeUnit::Nanosecond,
                timezone: None,
                values: *array,
            },
            BoundDirectColumn::Time32Second { array, .. } => ColumnArray::Time32Second(*array),
            BoundDirectColumn::Time32Millisecond { array, .. } => {
                ColumnArray::Time32Millisecond(*array)
            },
            BoundDirectColumn::Time64Microsecond { array, .. } => {
                ColumnArray::Time64Microsecond(*array)
            },
            BoundDirectColumn::Time64Nanosecond { array, .. } => {
                ColumnArray::Time64Nanosecond(*array)
            },
            BoundDirectColumn::DateTimeOffsetSecond { array, .. } => ColumnArray::Timestamp {
                unit: TimeUnit::Second,
                timezone: None,
                values: *array,
            },
            BoundDirectColumn::DateTimeOffsetMillisecond { array, .. } => ColumnArray::Timestamp {
                unit: TimeUnit::Millisecond,
                timezone: None,
                values: *array,
            },
            BoundDirectColumn::DateTimeOffsetMicrosecond { array, .. } => ColumnArray::Timestamp {
                unit: TimeUnit::Microsecond,
                timezone: None,
                values: *array,
            },
            BoundDirectColumn::DateTimeOffsetNanosecond { array, .. } => ColumnArray::Timestamp {
                unit: TimeUnit::Nanosecond,
                timezone: None,
                values: *array,
            },
        }
    }

    /// Whether the variant is that of an encoding and of the layout of an array.
    pub open spec fn is_variant_for(
        self,
        encoding: DirectColumnEncoding,
        array: ColumnArray,
    ) -> bool {
        match self {
            BoundDirectColumn::Boolean { .. } => array is Boolean
                && encoding == DirectColumnEncoding::Primitive(PrimitiveArrowToMssql::BooleanToBit),
            BoundDirectColumn::UInt8 { .. } => array is UInt8
                && encoding == DirectColumnEncoding::Primitive(
                    PrimitiveArrowToMssql::UInt8ToTinyInt,
                ),
            BoundDirectColumn::Int8 { .. } => array is Int8
                && encoding == DirectColumnEncoding::Primitive(
                    PrimitiveArrowToMssql::Int8ToSmallInt,
                ),
            BoundDirectColumn::Int16 { .. } => array is Int16
                && encoding == DirectColumnEncoding::Primitive(
                    PrimitiveArrowToMssql::Int16ToSmallInt,
                ),
            BoundDirectColumn::Int32 { .. } => array is Int32
                && encoding == DirectColumnEncoding::Primitive(PrimitiveArrowToMssql::Int32ToInt),
            BoundDirectColumn::UInt16 { .. } => array is UInt16
                && encoding == DirectColumnEncoding::Primitive(PrimitiveArrowToMssql::UInt16ToInt),
            BoundDirectColumn::Int64 { .. } => array is Int64
                && encoding == DirectColumnEncoding::Primitive(
                    PrimitiveArrowToMssql::Int64ToBigInt,
                ),
            BoundDirectColumn::UInt32 { .. } => array is UInt32
                && encoding == DirectColumnEncoding::Primitive(
                    PrimitiveArrowToMssql::UInt32ToBigInt,
                ),
            BoundDirectColumn::UInt64 { .. } => array is UInt64
                && encoding == DirectColumnEncoding::Primitive(
                    PrimitiveArrowToMssql::UInt64ToCheckedBigInt,
                ),
            BoundDirectColumn::UInt64Decimal20_0 { .. } => array is UInt64
                && encoding == DirectColumnEncoding::UInt64Decimal20_0,
            BoundDirectColumn::Decimal32 { classification, .. } => array is Decimal32
                && encoding == DirectColumnEncoding::Decimal(classification)
                && classification is Decimal32,
            BoundDirectColumn::Decimal64 { classification, .. } => array is Decimal64
                && encoding == DirectColumnEncoding::Decimal(classification)
                && classification is Decimal64,
            BoundDirectColumn::Decimal128 { classification, .. } => array is Decimal128
                && encoding == DirectColumnEncoding::Decimal(classification)
                && classification is Decimal128,
            BoundDirectColumn::Decimal256 { classification, .. } => array is Decimal256
                && encoding == DirectColumnEncoding::Decimal(classification)
                && classification is Decimal256CheckedDowncast,
            BoundDirectColumn::Float32 { .. } => array is Float32
                && encoding == DirectColumnEncoding::Primitive(
                    PrimitiveArrowToMssql::Float32ToReal,
                ),
            BoundDirectColumn::Float16 { .. } => array is Float16
                && encoding == DirectColumnEncoding::Primitive(
                    PrimitiveArrowToMssql::Float16ToReal,
                ),
            BoundDirectColumn::Float64 { .. } => array is Float64
                && encoding == DirectColumnEncoding::Primitive(
                    PrimitiveArrowToMssql::Float64ToFloat,
                ),
            BoundDirectColumn::Utf8 { .. } => array is Utf8
                && (encoding matches DirectColumnEncoding::VariableWidth(
                    VariableWidthArrowToMssql::StringToNVarChar { .. },
                )),
            BoundDirectColumn::LargeUtf8 { .. } => array is LargeUtf8
                && (encoding matches DirectColumnEncoding::VariableWidth(
                    VariableWidthArrowToMssql::StringToNVarChar { .. },
                )),
            BoundDirectColumn::Utf8View { .. } => array is Utf8View
                && (encoding matches DirectColumnEncoding::VariableWidth(
                    VariableWidthArrowToMssql::StringToNVarChar { .. },
                )),
            BoundDirectColumn::Binary { .. } => array is Binary
                && (encoding matches DirectColumnEncoding::VariableWidth(
                    VariableWidthArrowToMssql::BytesToVarBinary { .. },
                )),
            BoundDirectColumn::LargeBinary { .. } => array is LargeBinary
                && (encoding matches DirectColumnEncoding::VariableWidth(
                    VariableWidthArrowToMssql::BytesToVarBinary { .. },
                )),
            BoundDirectColumn::BinaryView { .. } => array is BinaryView
                && (encoding matches DirectColumnEncoding::VariableWidth(
                    VariableWidthArrowToMssql::BytesToVarBinary { .. },
                )),
            BoundDirectColumn::FixedSizeBinary { classification, .. } => array is FixedSizeBinary
                && encoding == DirectColumnEncoding::FixedSizeBinary(classification),
            BoundDirectColumn::Date32 { .. } => array is Date32
                && encoding == DirectColumnEncoding::Temporal(TemporalArrowToMssql::Date32ToDate),
            BoundDirectColumn::Date64 { .. } => array is Date64
                && encoding == DirectColumnEncoding::Temporal(
                    TemporalArrowToMssql::Date64ToDateTime2,
                ),
            BoundDirectColumn::TimestampSecond { .. } => {
                array matches ColumnArray::Timestamp { unit: TimeUnit::Second, .. }
                    && (encoding == DirectColumnEncoding::Temporal(
                        TemporalArrowToMssql::TimestampSecondToDateTime,
                    )
                    || encoding == DirectColumnEncoding::Temporal(
                        TemporalArrowToMssql::TimestampSecondToDateTime2,
                    )
                    || encoding == DirectColumnEncoding::Temporal(
                        TemporalArrowToMssql::TimestampSecondTzToDateTime2,
                    ))
            },
            BoundDirectColumn::TimestampMillisecond { .. } => {
                array matches ColumnArray::Timestamp { unit: TimeUnit::Millisecond, .. }
                    && (encoding == DirectColumnEncoding::Temporal(
                        TemporalArrowToMssql::TimestampMillisecondToDateTime,
                    )
                    || encoding == DirectColumnEncoding::Temporal(
                        TemporalArrowToMssql::TimestampMillisecondToDateTime2,
                    )
                    || encoding == DirectColumnEncoding::Temporal(
                        TemporalArrowToMssql::TimestampMillisecondTzToDateTime2,
                    ))
            },
            BoundDirectColumn::TimestampMicrosecond { .. } => {
                array matches ColumnArray::Timestamp { unit: TimeUnit::Microsecond, .. }
                    && (encoding == DirectColumnEncoding::Temporal(
                        TemporalArrowToMssql::TimestampMicrosecondToDateTime,
                    )
                    || encoding == DirectColumnEncoding::Temporal(
                        TemporalArrowToMssql::TimestampMicrosecondToDateTime2,
                    )
                    || encoding == DirectColumnEncoding::Temporal(
                        TemporalArrowToMssql::TimestampMicrosecondTzToDateTime2,
                    ))
            },
            BoundDirectColumn::TimestampNanosecond { .. } => {
                array matches ColumnArray::Timestamp { unit: TimeUnit::Nanosecond, .. }
                    && (encoding == DirectColumnEncoding::Temporal(
                        TemporalArrowToMssql::TimestampNanosecondToDateTime,
                    )
                    || encoding == DirectColumnEncoding::Temporal(
                        TemporalArrowToMssql::TimestampNanosecondToDateTime2,
                    )
                    || encoding == DirectColumnEncoding::Temporal(
                        TemporalArrowToMssql::TimestampNanosecondTzToDateTime2,
                    ))
            },
            BoundDirectColumn::Time32Second { .. } => array is Time32Second
                && encoding == DirectColumnEncoding::Temporal(
                    TemporalArrowToMssql::Time32SecondToTime,
                ),
            BoundDirectColumn::Time32Millisecond { .. } => array is Time32Millisecond
                && encoding == DirectColumnEncoding::Temporal(
                    TemporalArrowToMssql::Time32MillisecondToTime,
                ),
            BoundDirectColumn::Time64Microsecond { .. } => array is Time64Microsecond
                && encoding == DirectColumnEncoding::Temporal(
                    TemporalArrowToMssql::Time64MicrosecondToTime,
                ),
            BoundDirectColumn::Time64Nanosecond { .. } => array is Time64Nanosecond
                && encoding == DirectColumnEncoding::Temporal(
                    TemporalArrowToMssql::Time64NanosecondToTime,
                ),
            BoundDirectColumn::DateTimeOffsetSecond { .. } => {
                array matches ColumnArray::Timestamp { unit: TimeUnit::Second, .. }
                    && encoding == DirectColumnEncoding::Temporal(
                        TemporalArrowToMssql::TimestampSecondTzToDateTimeOffset,
                    )
            },
            BoundDirectColumn::DateTimeOffsetMillisecond { .. } => {
                array matches ColumnArray::Timestamp { unit: TimeUnit::Millisecond, .. }
                    && encoding == DirectColumnEncoding::Temporal(
                        TemporalArrowToMssql::TimestampMillisecondTzToDateTimeOffset,
                    )
            },
            BoundDirectColumn::DateTimeOffsetMicrosecond { .. } => {
                array matches ColumnArray::Timestamp { unit: TimeUnit::Microsecond, .. }
                    && encoding == DirectColumnEncoding::Temporal(
                        TemporalArrowToMssql::TimestampMicrosecondTzToDateTimeOffset,
                    )
            },
            BoundDirectColumn::DateTimeOffsetNanosecond { .. } => {
                array matches ColumnArray::Timestamp { unit: TimeUnit::Nanosecond, .. }
                    && encoding == DirectColumnEncoding::Temporal(
                        TemporalArrowToMssql::TimestampNanosecondTzToDateTimeOffset,
                    )
            },
        }
    }

    /// Returns the plan, mapping and policy.
    pub fn column(&self) -> (column: BoundColumn<'a>)
        ensures
            column == self.column_spec(),
    {
        match self {
            BoundDirectColumn::Boolean { column, .. } => *column,
            BoundDirectColumn::UInt8 { column, .. } => *column,
            BoundDirectColumn::Int8 { column, .. } => *column,
            BoundDirectColumn::Int16 { column, .. } => *column,
            BoundDirectColumn::Int32 { column, .. } => *column,
            BoundDirectColumn::UInt16 { column, .. } => *column,
            BoundDirectColumn::Int64 { column, .. } => *column,
            BoundDirectColumn::UInt32 { column, .. } => *column,
            BoundDirectColumn::UInt64 { column, .. } => *column,
            BoundDirectColumn::UInt64Decimal20_0 { column, .. } => *column,
            BoundDirectColumn::Decimal32 { column, .. } => *column,
            BoundDirectColumn::Decimal64 { column, .. } => *column,
            BoundDirectColumn::Decimal128 { column, .. } => *column,
            BoundDirectColumn::Decimal256 { column, .. } => *column,
            BoundDirectColumn::Float32 { column, .. } => *column,
            BoundDirectColumn::Float16 { column, .. } => *column,
            BoundDirectColumn::Float64 { column, .. } => *column,
            BoundDirectColumn::Utf8 { column, .. } => *column,
            BoundDirectColumn::LargeUtf8 { column, .. } => *column,
            BoundDirectColumn::Utf8View { column, .. } => *column,
            BoundDirectColumn::Binary { column, .. } => *column,
            BoundDirectColumn::LargeBinary { column, .. } => *column,
            BoundDirectColumn::BinaryView { column, .. } => *column,
            BoundDirectColumn::FixedSizeBinary { column, .. } => *column,
            BoundDirectColumn::Date32 { column, .. } => *column,
            BoundDirectColumn::Date64 { column, .. } => *column,
            BoundDirectColumn::TimestampSecond { column, .. } => *column,
            BoundDirectColumn::TimestampMillisecond { column, .. } => *column,
            BoundDirectColumn::TimestampMicrosecond { column, .. } => *column,
            BoundDirectColumn::TimestampNanosecond { column, .. } => *column,
            BoundDirectColumn::Time32Second { column, .. } => *column,
            BoundDirectColumn::Time32Millisecond { column, .. } => *column,
            BoundDirectColumn::Time64Microsecond { column, .. } => *column,
            BoundDirectColumn::Time64Nanosecond { column, .. } => *column,
            BoundDirectColumn::DateTimeOffsetSecond { column, .. } => *column,
            BoundDirectColumn::DateTimeOffsetMillisecond { column, .. } => *column,
            BoundDirectColumn::DateTimeOffsetMicrosecond { column, .. } => *column,
            BoundDirectColumn::DateTimeOffsetNanosecond { column, .. } => *column,
        }
    }

    /// Returns the mapping.
    pub fn mapping(&self) -> (mapping: &'a SchemaMapping)
        ensures
            mapping@ == self@.mapping,
    {
        self.column().mapping
    }

    /// Returns the direct encoding.
    pub fn encoding(&self) -> (encoding: DirectColumnEncoding)
        ensures
            encoding == self@.plan.encoding,
    {
        self.column().plan.encoding()
    }

    /// Returns the number of rows.
    pub fn row_count(&self) -> (count: usize)
        ensures
            count == self@.cells.len(),
    {
        match self {
            BoundDirectColumn::Boolean { array, .. } => array.len(),
            BoundDirectColumn::UInt8 { array, .. } => array.len(),
            BoundDirectColumn::Int8 { array, .. } => array.len(),
            BoundDirectColumn::Int16 { array, .. } => array.len(),
            BoundDirectColumn::Int32 { array, .. } => array.len(),
            BoundDirectColumn::UInt16 { array, .. } => array.len(),
            BoundDirectColumn::Int64 { array, .. } => array.len(),
            BoundDirectColumn::UInt32 { array, .. } => array.len(),
            BoundDirectColumn::UInt64 { array, .. } => array.len(),
            BoundDirectColumn::UInt64Decimal20_0 { array, .. } => array.len(),
            BoundDirectColumn::Decimal32 { array, .. } => array.len(),
            BoundDirectColumn::Decimal64 { array, .. } => array.len(),
            BoundDirectColumn::Decimal128 { array, .. } => array.len(),
            BoundDirectColumn::Decimal256 { array, .. } => array.len(),
            BoundDirectColumn::Float32 { array, .. } => array.len(),
            BoundDirectColumn::Float16 { array, .. } => array.len(),
            BoundDirectColumn::Float64 { array, .. } => array.len(),
            BoundDirectColumn::Utf8 { array, .. } => array.len(),
            BoundDirectColumn::LargeUtf8 { array, .. } => array.len(),
            BoundDirectColumn::Utf8View { array, .. } => array.len(),
            BoundDirectColumn::Binary { array, .. } => array.len(),
            BoundDirectColumn::LargeBinary { array, .. } => array.len(),
            BoundDirectColumn::BinaryView { array, .. } => array.len(),
            BoundDirectColumn::FixedSizeBinary { array, .. } => array.len(),
            BoundDirectColumn::Date32 { array, .. } => array.len(),
            BoundDirectColumn::Date64 { array, .. } => array.len(),
            BoundDirectColumn::TimestampSecond { array, .. } => array.len(),
            BoundDirectColumn::TimestampMillisecond { array, .. } => array.len(),
            BoundDirectColumn::TimestampMicrosecond { array, .. } => array.len(),
            BoundDirectColumn::TimestampNanosecond { array, .. } => array.len(),
            BoundDirectColumn::Time32Second { array, .. } => array.len(),
            BoundDirectColumn::Time32Millisecond { array, .. } => array.len(),
            BoundDirectColumn::Time64Microsecond { array, .. } => array.len(),
            BoundDirectColumn::Time64Nanosecond { array, .. } => array.len(),
            BoundDirectColumn::DateTimeOffsetSecond { array, .. } => array.len(),
            BoundDirectColumn::DateTimeOffsetMillisecond { array, .. } => array.len(),
            BoundDirectColumn::DateTimeOffsetMicrosecond { array, .. } => array.len(),
            BoundDirectColumn::DateTimeOffsetNanosecond { array, .. } => array.len(),
        }
    }

    /// Returns the value of a row.
    pub fn arrow_cell(&self, row_index: usize) -> (cell: ArrowCell<'a>)
        requires
            row_index < self@.cells.len(),
        ensures
            cell@ == self@.cells[row_index as int],
    {
        match self {
            BoundDirectColumn::Boolean { array, .. } => match array[row_index] {
                Some(value) => ArrowCellOf::Boolean(value),
                None => ArrowCellOf::Null,
            },
            BoundDirectColumn::UInt8 { array, .. } => match array[row_index] {
                Some(value) => ArrowCellOf::UInt8(value),
                None => ArrowCellOf::Null,
            },
            BoundDirectColumn::Int8 { array, .. } => match array[row_index] {
                Some(value) => ArrowCellOf::Int8(value),
                None => ArrowCellOf::Null,
            },
            BoundDirectColumn::Int16 { array, .. } => match array[row_index] {
                Some(value) => ArrowCellOf::Int16(value),
                None => ArrowCellOf::Null,
            },
            BoundDirectColumn::Int32 { array, .. } => match array[row_index] {
                Some(value) => ArrowCellOf::Int32(value),
                None => ArrowCellOf::Null,
            },
            BoundDirectColumn::UInt16 { array, .. } => match array[row_index] {
                Some(value) => ArrowCellOf::UInt16(value),
                None => ArrowCellOf::Null,
            },
            BoundDirectColumn::Int64 { array, .. } => match array[row_index] {
                Some(value) => ArrowCellOf::Int64(value),
                None => ArrowCellOf::Null,
            },
            BoundDirectColumn::UInt32 { array, .. } => match array[row_index] {
                Some(value) => ArrowCellOf::UInt32(value),
                None => ArrowCellOf::Null,
            },
            BoundDirectColumn::UInt64 { array, .. } => match array[row_index] {
                Some(value) => ArrowCellOf::UInt64(value),
                None => ArrowCellOf::Null,
            },
            BoundDirectColumn::UInt64Decimal20_0 { array, .. } => match array[row_index] {
                Some(value) => ArrowCellOf::UInt64(value),
                None => ArrowCellOf::Null,
            },
            BoundDirectColumn::Decimal32 { array, .. } => match array[row_index] {
                Some(value) => ArrowCellOf::Decimal32(value),
                None => ArrowCellOf::Null,
            },
            BoundDirectColumn::Decimal64 { array, .. } => match array[row_index] {
                Some(value) => ArrowCellOf::Decimal64(value),
                None => ArrowCellOf::Null,
            },
            BoundDirectColumn::Decimal128 { array, .. } => match array[row_index] {
                Some(value) => ArrowCellOf::Decimal128(value),
                None => ArrowCellOf::Null,
            },
            BoundDirectColumn::Decimal256 { array, .. } => match array[row_index] {
                Some(value) => ArrowCellOf::Decimal256(value),
                None => ArrowCellOf::Null,
            },
            BoundDirectColumn::Float32 { array, .. } => match array[row_index] {
                Some(value) => ArrowCellOf::Float32(value),
                None => ArrowCellOf::Null,
            },
            BoundDirectColumn::Float16 { array, .. } => match array[row_index] {
                Some(value) => ArrowCellOf::Float16(value),
                None => ArrowCellOf::Null,
            },
            BoundDirectColumn::Float64 { array, .. } => match array[row_index] {
                Some(value) => ArrowCellOf::Float64(value),
                None => ArrowCellOf::Null,
            },
            BoundDirectColumn::Utf8 { array, .. } => match &array[row_index] {
                Some(value) => ArrowCellOf::Utf8(value.as_str()),
                None => ArrowCellOf::Null,
            },
            BoundDirectColumn::LargeUtf8 { array, .. } => match &array[row_index] {
                Some(value) => ArrowCellOf::Utf8(value.as_str()),
                None => ArrowCellOf::Null,
            },
            BoundDirectColumn::Utf8View { array, .. } => match &array[row_index] {
                Some(value) => ArrowCellOf::Utf8(value.as_str()),
                None => ArrowCellOf::Null,
            },
            BoundDirectColumn::Binary { array, .. } => match &array[row_index] {
                Some(value) => ArrowCellOf::Binary(value.as_slice()),
                None => ArrowCellOf::Null,
            },
            BoundDirectColumn::LargeBinary { array, .. } => match &array[row_index] {
                Some(value) => ArrowCellOf::Binary(value.as_slice()),
                None => ArrowCellOf::Null,
            },
            BoundDirectColumn::BinaryView { array, .. } => match &array[row_index] {
                Some(value) => ArrowCellOf::Binary(value.as_slice()),
                None => ArrowCellOf::Null,
            },
            BoundDirectColumn::FixedSizeBinary { array, .. } => match &array[row_index] {
                Some(value) => ArrowCellOf::Binary(value.as_slice()),
                None => ArrowCellOf::Null,
            },
            BoundDirectColumn::Date32 { array, .. } => match array[row_index] {
                Some(value) => ArrowCellOf::Date32(value),
                None => ArrowCellOf::Null,
            },
            BoundDirectColumn::Date64 { array, .. } => match array[row_index] {
                Some(value) => ArrowCellOf::Date64(value),
                None => ArrowCellOf::Null,
            },
            BoundDirectColumn::TimestampSecond { array, .. } => match array[row_index] {
                Some(value) => ArrowCellOf::TimestampSecond(value),
                None => ArrowCellOf::Null,
            },
            BoundDirectColumn::TimestampMillisecond { array, .. } => match array[row_index] {
                Some(value) => ArrowCellOf::TimestampMillisecond(value),
                None => ArrowCellOf::Null,
            },
            BoundDirectColumn::TimestampMicrosecond { array, .. } => match array[row_index] {
                Some(value) => ArrowCellOf::TimestampMicrosecond(value),
                None => ArrowCellOf::Null,
            },
            BoundDirectColumn::TimestampNanosecond { array, .. } => match array[row_index] {
                Some(value) => ArrowCellOf::TimestampNanosecond(value),
                None => ArrowCellOf::Null,
            },
            BoundDirectColumn::Time32Second { array, .. } => match array[row_index] {
                Some(value) => ArrowCellOf::Time32Second(value),
                None => ArrowCellOf::Null,
            },
            BoundDirectColumn::Time32Millisecond { array, .. } => match array[row_index] {
                Some(value) => ArrowCellOf::Time32Millisecond(value),
                None => ArrowCellOf::Null,
            },
            BoundDirectColumn::Time64Microsecond { array, .. } => match array[row_index] {
                Some(value) => ArrowCellOf::Time64Microsecond(value),
                None => ArrowCellOf::Null,
            },
            BoundDirectColumn::Time64Nanosecond { array, .. } => match array[row_index] {
                Some(value) => ArrowCellOf::Time64Nanosecond(value),
                None => ArrowCellOf::Null,
            },
            BoundDirectColumn::DateTimeOffsetSecond { array, .. } => match array[row_index] {
                Some(value) => ArrowCellOf::TimestampSecond(value),
                None => ArrowCellOf::Null,
            },
            BoundDirectColumn::DateTimeOffsetMillisecond { array, .. } => match array[row_index] {
                Some(value) => ArrowCellOf::TimestampMillisecond(value),
                None => ArrowCellOf::Null,
            },
            BoundDirectColumn::DateTimeOffsetMicrosecond { array, .. } => match array[row_index] {
                Some(value) => ArrowCellOf::TimestampMicrosecond(value),
                None => ArrowCellOf::Null,
            },
            BoundDirectColumn::DateTimeOffsetNanosecond { array, .. } => match array[row_index] {
                Some(value) => ArrowCellOf::TimestampNanosecond(value),
                None => ArrowCellOf::Null,
            },
        }
    }

    /// Converts the value of a row to the cell of a row payload.
    pub fn cell(&self, row_index: usize) -> (result: Result<DirectCell<'a>>)
        requires
            row_index < self@.cells.len(),
        ensures
            direct_cell_view(result) == self@.outcome(row_index as int),
            result is Ok ==> is_countable(result->Ok_0@),
    {
        let column = self.column();
        reveal(BoundColumnView::outcome);
        direct_cell(
            column.plan.encoding(),
            column.mapping,
            column.nanosecond_policy,
            row_index,
            self.arrow_cell(row_index),
        )
    }
}

/// The error of an array that a planned column cannot read.
pub open spec fn downcast_error(column: DirectColumnView, array: ColumnArray) -> ErrorView {
    column_error(
        column,
        0,
        DiagnosticCode::ValueTypeMismatch,
        MessageOf::DirectTypeMismatch { runtime: array.type_view() },
    )
}

/// The error of an Arrow type that a type family does not take.
pub open spec fn family_error(
    column: DirectColumnView,
    family: TypeFamily,
    data_type: crate::arrow_type::DataTypeView,
) -> ErrorView {
    column_error(
        column,
        0,
        DiagnosticCode::ValueConversionUnsupported,
        MessageOf::BindingUnsupported { data_type, family },
    )
}

/// Whether an encoding other than a variable-width one reads an array.
pub open spec fn reads_array(encoding: DirectColumnEncoding, array: ColumnArray) -> bool {
    match encoding {
        DirectColumnEncoding::Primitive(PrimitiveArrowToMssql::BooleanToBit) => array is Boolean,
        DirectColumnEncoding::Primitive(PrimitiveArrowToMssql::UInt8ToTinyInt) => array is UInt8,
        DirectColumnEncoding::Primitive(PrimitiveArrowToMssql::Int8ToSmallInt) => array is Int8,
        DirectColumnEncoding::Primitive(PrimitiveArrowToMssql::Int16ToSmallInt) => array is Int16,
        DirectColumnEncoding::Primitive(PrimitiveArrowToMssql::Int32ToInt) => array is Int32,
        DirectColumnEncoding::Primitive(PrimitiveArrowToMssql::UInt16ToInt) => array is UInt16,
        DirectColumnEncoding::Primitive(PrimitiveArrowToMssql::Int64ToBigInt) => array is Int64,
        DirectColumnEncoding::Primitive(PrimitiveArrowToMssql::UInt32ToBigInt) => array is UInt32,
        DirectColumnEncoding::Primitive(PrimitiveArrowToMssql::UInt64ToCheckedBigInt) => {
            array is UInt64
        },
        DirectColumnEncoding::UInt64Decimal20_0 => array is UInt64,
        DirectColumnEncoding::Decimal(DecimalArrowToMssql::Decimal32 { .. }) => array is Decimal32,
        DirectColumnEncoding::Decimal(DecimalArrowToMssql::Decimal64 { .. }) => array is Decimal64,
        DirectColumnEncoding::Decimal(DecimalArrowToMssql::Decimal128 { .. }) => {
            array is Decimal128
        },
        DirectColumnEncoding::Decimal(DecimalArrowToMssql::Decimal256CheckedDowncast { .. }) => {
            array is Decimal256
        },
        DirectColumnEncoding::Primitive(PrimitiveArrowToMssql::Float32ToReal) => array is Float32,
        DirectColumnEncoding::Primitive(PrimitiveArrowToMssql::Float16ToReal) => array is Float16,
        DirectColumnEncoding::Primitive(PrimitiveArrowToMssql::Float64ToFloat) => array is Float64,
        DirectColumnEncoding::FixedSizeBinary(_) => array is FixedSizeBinary,
        DirectColumnEncoding::Temporal(TemporalArrowToMssql::Date32ToDate) => array is Date32,
        DirectColumnEncoding::Temporal(TemporalArrowToMssql::Date64ToDateTime2) => array is Date64,
        DirectColumnEncoding::Temporal(TemporalArrowToMssql::TimestampSecondToDateTime)
        | DirectColumnEncoding::Temporal(TemporalArrowToMssql::TimestampSecondToDateTime2)
        | DirectColumnEncoding::Temporal(TemporalArrowToMssql::TimestampSecondTzToDateTime2) => {
            array matches ColumnArray::Timestamp { unit: TimeUnit::Second, .. }
        },
        DirectColumnEncoding::Temporal(TemporalArrowToMssql::TimestampMillisecondToDateTime)
        | DirectColumnEncoding::Temporal(TemporalArrowToMssql::TimestampMillisecondToDateTime2)
        | DirectColumnEncoding::Temporal(
            TemporalArrowToMssql::TimestampMillisecondTzToDateTime2,
        ) => array matches ColumnArray::Timestamp { unit: TimeUnit::Millisecond, .. },
        DirectColumnEncoding::Temporal(TemporalArrowToMssql::TimestampMicrosecondToDateTime)
        | DirectColumnEncoding::Temporal(TemporalArrowToMssql::TimestampMicrosecondToDateTime2)
        | DirectColumnEncoding::Temporal(
            TemporalArrowToMssql::TimestampMicrosecondTzToDateTime2,
        ) => array matches ColumnArray::Timestamp { unit: TimeUnit::Microsecond, .. },
        DirectColumnEncoding::Temporal(TemporalArrowToMssql::TimestampNanosecondToDateTime)
        | DirectColumnEncoding::Temporal(TemporalArrowToMssql::TimestampNanosecondToDateTime2)
        | DirectColumnEncoding::Temporal(
            TemporalArrowToMssql::TimestampNanosecondTzToDateTime2,
        ) => array matches ColumnArray::Timestamp { unit: TimeUnit::Nanosecond, .. },
        DirectColumnEncoding::Temporal(TemporalArrowToMssql::Time32SecondToTime) => {
            array is Time32Second
        },
        DirectColumnEncoding::Temporal(TemporalArrowToMssql::Time32MillisecondToTime) => {
            array is Time32Millisecond
        },
        DirectColumnEncoding::Temporal(TemporalArrowToMssql::Time64MicrosecondToTime) => {
            array is Time64Microsecond
        },
        DirectColumnEncoding::Temporal(TemporalArrowToMssql::Time64NanosecondToTime) => {
            array is Time64Nanosecond
        },
        DirectColumnEncoding::Temporal(TemporalArrowToMssql::TimestampSecondTzToDateTimeOffset) => {
            array matches ColumnArray::Timestamp { unit: TimeUnit::Second, .. }
        },
        DirectColumnEncoding::Temporal(
            TemporalArrowToMssql::TimestampMillisecondTzToDateTimeOffset,
        ) => array matches ColumnArray::Timestamp { unit: TimeUnit::Millisecond, .. },
        DirectColumnEncoding::Temporal(
            TemporalArrowToMssql::TimestampMicrosecondTzToDateTimeOffset,
        ) => array matches ColumnArray::Timestamp { unit: TimeUnit::Microsecond, .. },
        DirectColumnEncoding::Temporal(
            TemporalArrowToMssql::TimestampNanosecondTzToDateTimeOffset,
        ) => array matches ColumnArray::Timestamp { unit: TimeUnit::Nanosecond, .. },
        DirectColumnEncoding::VariableWidth(_) => false,
    }
}

/// The error of binding an array to a planned column.
pub open spec fn binding_error(
    column: DirectColumnView,
    mapping: SchemaMappingView,
    array: ColumnArray,
) -> Option<ErrorView> {
    match column.encoding {
        DirectColumnEncoding::VariableWidth(
            VariableWidthArrowToMssql::StringToNVarChar { .. },
        ) => if !(mapping.mssql.ty is NVarChar && is_string_family(mapping.arrow.data_type)) {
            Some(family_error(column, TypeFamily::NVarChar, mapping.arrow.data_type))
        } else if !is_string_family(array.type_view()) {
            Some(family_error(column, TypeFamily::NVarChar, array.type_view()))
        } else {
            None
        },
        DirectColumnEncoding::VariableWidth(
            VariableWidthArrowToMssql::BytesToVarBinary { .. },
        ) => if !(mapping.mssql.ty is VarBinary && is_binary_family(mapping.arrow.data_type)) {
            Some(family_error(column, TypeFamily::VarBinary, mapping.arrow.data_type))
        } else if !is_binary_family(array.type_view()) {
            Some(family_error(column, TypeFamily::VarBinary, array.type_view()))
        } else {
            None
        },
        _ => if reads_array(column.encoding, array) {
            None
        } else {
            Some(downcast_error(column, array))
        },
    }
}

/// Whether a bound column is that of an array and a planned column.
pub open spec fn is_bound(
    bound: BoundDirectColumn<'_>,
    column: BoundColumn<'_>,
    array: ColumnArray,
) -> bool {
    &&& bound.is_variant_for(column.plan@.encoding, array)
    &&& bound@ == (BoundColumnView {
        plan: column.plan@,
        mapping: column.mapping@,
        policy: column.nanosecond_policy,
        cells: array_cells(array),
    })
}

/// Whether binding gave the column of an array, or the error in its place.
pub open spec fn is_bind_result(
    result: Result<BoundDirectColumn<'_>>,
    column: BoundColumn<'_>,
    array: ColumnArray,
) -> bool {
    match binding_error(column.plan@, column.mapping@, array) {
        Some(view) => result matches Err(error) && error@ == view,
        None => result matches Ok(bound) && is_bound(bound, column, array),
    }
}

/// Creates the error of an array that a planned column cannot read.
pub(crate) fn array_mismatch(column: &DirectColumnPlan, array: &ColumnArray) -> (error: Error)
    ensures
        error@ == downcast_error(column@, *array),
{
    value_conversion_error(
        row_column_diagnostic(
            column,
            0,
            DiagnosticCode::ValueTypeMismatch,
            MessageOf::DirectTypeMismatch { runtime: array.data_type() },
        ),
    )
}

/// Creates the error of an Arrow type that a type family does not take.
pub fn unsupported_planned_direct_type(
    column: &DirectColumnPlan,
    target_family: TypeFamily,
    data_type: &DataType,
) -> (error: Error)
    ensures
        error@ == family_error(column@, target_family, data_type@),
{
    value_conversion_error(
        row_column_diagnostic(
            column,
            0,
            DiagnosticCode::ValueConversionUnsupported,
            MessageOf::BindingUnsupported { data_type: data_type.clone(), family: target_family },
        ),
    )
}

/// Binds a string array.
pub fn bind_direct_nvarchar_array<'a>(array: &'a ColumnArray, column: BoundColumn<'a>) -> (result:
    Result<BoundDirectColumn<'a>>)
    requires
        column.plan@.encoding matches DirectColumnEncoding::VariableWidth(
            VariableWidthArrowToMssql::StringToNVarChar { .. },
        ),
    ensures
        is_bind_result(result, column, *array),
{
    if !is_string_family_to_nvarchar(column.mapping) {
        return Err(
            unsupported_planned_direct_type(
                column.plan,
                TypeFamily::NVarChar,
                column.mapping.arrow().data_type(),
            ),
        );
    }
    let bound = match array {
        ColumnArray::Utf8(values) => BoundDirectColumn::Utf8 { column, array: values },
        ColumnArray::LargeUtf8(values) => BoundDirectColumn::LargeUtf8 { column, array: values },
        ColumnArray::Utf8View(values) => BoundDirectColumn::Utf8View { column, array: values },
        _ => {
            return Err(
                unsupported_planned_direct_type(
                    column.plan,
                    TypeFamily::NVarChar,
                    &array.data_type(),
                ),
            );
        },
    };
    assert(array_cells(bound.source()) =~= array_cells(*array));
    Ok(bound)
}

/// Binds a byte string array.
pub fn bind_direct_varbinary_array<'a>(array: &'a ColumnArray, column: BoundColumn<'a>) -> (result:
    Result<BoundDirectColumn<'a>>)
    requires
        column.plan@.encoding matches DirectColumnEncoding::VariableWidth(
            VariableWidthArrowToMssql::BytesToVarBinary { .. },
        ),
    ensures
        is_bind_result(result, column, *array),
{
    if !is_binary_family_to_varbinary(column.mapping) {
        return Err(
            unsupported_planned_direct_type(
                column.plan,
                TypeFamily::VarBinary,
                column.mapping.arrow().data_type(),
            ),
        );
    }
    let bound = match array {
        ColumnArray::Binary(values) => BoundDirectColumn::Binary { column, array: values },
        ColumnArray::LargeBinary(values) => {
            BoundDirectColumn::LargeBinary { column, array: values }
        },
        ColumnArray::BinaryView(values) => BoundDirectColumn::BinaryView { column, array: values },
        _ => {
            return Err(
                unsupported_planned_direct_type(
                    column.plan,
                    TypeFamily::VarBinary,
                    &array.data_type(),
                ),
            );
        },
    };
    assert(array_cells(bound.source()) =~= array_cells(*array));
    Ok(bound)
}

/// Binds an array to a planned column.
pub fn bind_direct_column<'a>(array: &'a ColumnArray, column: BoundColumn<'a>) -> (result: Result<
    BoundDirectColumn<'a>,
>)
    ensures
        is_bind_result(result, column, *array),
{
    let bound = match column.plan.encoding() {
        DirectColumnEncoding::Primitive(PrimitiveArrowToMssql::BooleanToBit) => match array {
            ColumnArray::Boolean(values) => {
                BoundDirectColumn::Boolean { column, array: values }
            },
            _ => {
                return Err(array_mismatch(column.plan, array));
            },
        },
        DirectColumnEncoding::Primitive(PrimitiveArrowToMssql::UInt8ToTinyInt) => match array {
            ColumnArray::UInt8(values) => {
                BoundDirectColumn::UInt8 { column, array: values }
            },
            _ => {
                return Err(array_mismatch(column.plan, array));
            },
        },
        DirectColumnEncoding::Primitive(PrimitiveArrowToMssql::Int8ToSmallInt) => match array {
            ColumnArray::Int8(values) => {
                BoundDirectColumn::Int8 { column, array: values }
            },
            _ => {
                return Err(array_mismatch(column.plan, array));
            },
        },
        DirectColumnEncoding::Primitive(PrimitiveArrowToMssql::Int16ToSmallInt) => match array {
            ColumnArray::Int16(values) => {
                BoundDirectColumn::Int16 { column, array: values }
            },
            _ => {
                return Err(array_mismatch(column.plan, array));
            },
        },
        DirectColumnEncoding::Primitive(PrimitiveArrowToMssql::Int32ToInt) => match array {
            ColumnArray::Int32(values) => {
                BoundDirectColumn::Int32 { column, array: values }
            },
            _ => {
                return Err(array_mismatch(column.plan, array));
            },
        },
        DirectColumnEncoding::Primitive(PrimitiveArrowToMssql::UInt16ToInt) => match array {
            ColumnArray::UInt16(values) => {
                BoundDirectColumn::UInt16 { column, array: values }
            },
            _ => {
                return Err(array_mismatch(column.plan, array));
            },
        },
        DirectColumnEncoding::Primitive(PrimitiveArrowToMssql::Int64ToBigInt) => match array {
            ColumnArray::Int64(values) => {
                BoundDirectColumn::Int64 { column, array: values }
            },
            _ => {
                return Err(array_mismatch(column.plan, array));
            },
        },
        DirectColumnEncoding::Primitive(PrimitiveArrowToMssql::UInt32ToBigInt) => match array {
            ColumnArray::UInt32(values) => {
                BoundDirectColumn::UInt32 { column, array: values }
            },
            _ => {
                return Err(array_mismatch(column.plan, array));
            },
        },
        DirectColumnEncoding::Primitive(
            PrimitiveArrowToMssql::UInt64ToCheckedBigInt,
        ) => match array {
            ColumnArray::UInt64(values) => {
                BoundDirectColumn::UInt64 { column, array: values }
            },
            _ => {
                return Err(array_mismatch(column.plan, array));
            },
        },
        DirectColumnEncoding::UInt64Decimal20_0 => match array {
            ColumnArray::UInt64(values) => {
                BoundDirectColumn::UInt64Decimal20_0 { column, array: values }
            },
            _ => {
                return Err(array_mismatch(column.plan, array));
            },
        },
        DirectColumnEncoding::Decimal(classification) => match (classification, array) {
            (DecimalArrowToMssql::Decimal32 { .. }, ColumnArray::Decimal32 { values, .. }) => {
                BoundDirectColumn::Decimal32 { column, classification, array: values }
            },
            (DecimalArrowToMssql::Decimal64 { .. }, ColumnArray::Decimal64 { values, .. }) => {
                BoundDirectColumn::Decimal64 { column, classification, array: values }
            },
            (DecimalArrowToMssql::Decimal128 { .. }, ColumnArray::Decimal128 { values, .. }) => {
                BoundDirectColumn::Decimal128 { column, classification, array: values }
            },
            (DecimalArrowToMssql::Decimal256CheckedDowncast { .. }, ColumnArray::Decimal256 { values, .. }) => {
                BoundDirectColumn::Decimal256 { column, classification, array: values }
            },
            _ => {
                return Err(array_mismatch(column.plan, array));
            },
        },
        DirectColumnEncoding::Primitive(PrimitiveArrowToMssql::Float32ToReal) => match array {
            ColumnArray::Float32(values) => {
                BoundDirectColumn::Float32 { column, array: values }
            },
            _ => {
                return Err(array_mismatch(column.plan, array));
            },
        },
        DirectColumnEncoding::Primitive(PrimitiveArrowToMssql::Float16ToReal) => match array {
            ColumnArray::Float16(values) => {
                BoundDirectColumn::Float16 { column, array: values }
            },
            _ => {
                return Err(array_mismatch(column.plan, array));
            },
        },
        DirectColumnEncoding::Primitive(PrimitiveArrowToMssql::Float64ToFloat) => match array {
            ColumnArray::Float64(values) => {
                BoundDirectColumn::Float64 { column, array: values }
            },
            _ => {
                return Err(array_mismatch(column.plan, array));
            },
        },
        DirectColumnEncoding::VariableWidth(
            VariableWidthArrowToMssql::StringToNVarChar { .. },
        ) => {
            return bind_direct_nvarchar_array(array, column);
        },
        DirectColumnEncoding::VariableWidth(
            VariableWidthArrowToMssql::BytesToVarBinary { .. },
        ) => {
            return bind_direct_varbinary_array(array, column);
        },
        DirectColumnEncoding::FixedSizeBinary(classification) => match array {
            ColumnArray::FixedSizeBinary { values, .. } => BoundDirectColumn::FixedSizeBinary {
                column,
                classification,
                array: values,
            },
            _ => {
                return Err(array_mismatch(column.plan, array));
            },
        },
        DirectColumnEncoding::Temporal(TemporalArrowToMssql::Date32ToDate) => match array {
            ColumnArray::Date32(values) => {
                BoundDirectColumn::Date32 { column, array: values }
            },
            _ => {
                return Err(array_mismatch(column.plan, array));
            },
        },
        DirectColumnEncoding::Temporal(TemporalArrowToMssql::Date64ToDateTime2) => match array {
            ColumnArray::Date64(values) => {
                BoundDirectColumn::Date64 { column, array: values }
            },
            _ => {
                return Err(array_mismatch(column.plan, array));
            },
        },
        DirectColumnEncoding::Temporal(TemporalArrowToMssql::TimestampSecondToDateTime)
        | DirectColumnEncoding::Temporal(TemporalArrowToMssql::TimestampSecondToDateTime2)
        | DirectColumnEncoding::Temporal(
            TemporalArrowToMssql::TimestampSecondTzToDateTime2,
        ) => match array {
            ColumnArray::Timestamp { unit: TimeUnit::Second, values, .. } => {
                BoundDirectColumn::TimestampSecond { column, array: values }
            },
            _ => {
                return Err(array_mismatch(column.plan, array));
            },
        },
        DirectColumnEncoding::Temporal(TemporalArrowToMssql::TimestampMillisecondToDateTime)
        | DirectColumnEncoding::Temporal(TemporalArrowToMssql::TimestampMillisecondToDateTime2)
        | DirectColumnEncoding::Temporal(
            TemporalArrowToMssql::TimestampMillisecondTzToDateTime2,
        ) => match array {
            ColumnArray::Timestamp { unit: TimeUnit::Millisecond, values, .. } => {
                BoundDirectColumn::TimestampMillisecond { column, array: values }
            },
            _ => {
                return Err(array_mismatch(column.plan, array));
            },
        },
        DirectColumnEncoding::Temporal(TemporalArrowToMssql::TimestampMicrosecondToDateTime)
        | DirectColumnEncoding::Temporal(TemporalArrowToMssql::TimestampMicrosecondToDateTime2)
        | DirectColumnEncoding::Temporal(
            TemporalArrowToMssql::TimestampMicrosecondTzToDateTime2,
        ) => match array {
            ColumnArray::Timestamp { unit: TimeUnit::Microsecond, values, .. } => {
                BoundDirectColumn::TimestampMicrosecond { column, array: values }
            },
            _ => {
                return Err(array_mismatch(column.plan, array));
            },
        },
        DirectColumnEncoding::Temporal(TemporalArrowToMssql::TimestampNanosecondToDateTime)
        | DirectColumnEncoding::Temporal(TemporalArrowToMssql::TimestampNanosecondToDateTime2)
        | DirectColumnEncoding::Temporal(
            TemporalArrowToMssql::TimestampNanosecondTzToDateTime2,
        ) => match array {
            ColumnArray::Timestamp { unit: TimeUnit::Nanosecond, values, .. } => {
                BoundDirectColumn::TimestampNanosecond { column, array: values }
            },
            _ => {
                return Err(array_mismatch(column.plan, array));
            },
        },
        DirectColumnEncoding::Temporal(TemporalArrowToMssql::Time32SecondToTime) => match array {
            ColumnArray::Time32Second(values) => {
                BoundDirectColumn::Time32Second { column, array: values }
            },
            _ => {
                return Err(array_mismatch(column.plan, array));
            },
        },
        DirectColumnEncoding::Temporal(
            TemporalArrowToMssql::Time32MillisecondToTime,
        ) => match array {
            ColumnArray::Time32Millisecond(values) => {
                BoundDirectColumn::Time32Millisecond { column, array: values }
            },
            _ => {
                return Err(array_mismatch(column.plan, array));
            },
        },
        DirectColumnEncoding::Temporal(
            TemporalArrowToMssql::Time64MicrosecondToTime,
        ) => match array {
            ColumnArray::Time64Microsecond(values) => {
                BoundDirectColumn::Time64Microsecond { column, array: values }
            },
            _ => {
                return Err(array_mismatch(column.plan, array));
            },
        },
        DirectColumnEncoding::Temporal(
            TemporalArrowToMssql::Time64NanosecondToTime,
        ) => match array {
            ColumnArray::Time64Nanosecond(values) => {
                BoundDirectColumn::Time64Nanosecond { column, array: values }
            },
            _ => {
                return Err(array_mismatch(column.plan, array));
            },
        },
        DirectColumnEncoding::Temporal(
            TemporalArrowToMssql::TimestampSecondTzToDateTimeOffset,
        ) => match array {
            ColumnArray::Timestamp { unit: TimeUnit::Second, values, .. } => {
                BoundDirectColumn::DateTimeOffsetSecond { column, array: values }
            },
            _ => {
                return Err(array_mismatch(column.plan, array));
            },
        },
        DirectColumnEncoding::Temporal(
            TemporalArrowToMssql::TimestampMillisecondTzToDateTimeOffset,
        ) => match array {
            ColumnArray::Timestamp { unit: TimeUnit::Millisecond, values, .. } => {
                BoundDirectColumn::DateTimeOffsetMillisecond { column, array: values }
            },
            _ => {
                return Err(array_mismatch(column.plan, array));
            },
        },
        DirectColumnEncoding::Temporal(
            TemporalArrowToMssql::TimestampMicrosecondTzToDateTimeOffset,
        ) => match array {
            ColumnArray::Timestamp { unit: TimeUnit::Microsecond, values, .. } => {
                BoundDirectColumn::DateTimeOffsetMicrosecond { column, array: values }
            },
            _ => {
                return Err(array_mismatch(column.plan, array));
            },
        },
        DirectColumnEncoding::Temporal(
            TemporalArrowToMssql::TimestampNanosecondTzToDateTimeOffset,
        ) => match array {
            ColumnArray::Timestamp { unit: TimeUnit::Nanosecond, values, .. } => {
                BoundDirectColumn::DateTimeOffsetNanosecond { column, array: values }
            },
            _ => {
                return Err(array_mismatch(column.plan, array));
            },
        },
    };
    assert(array_cells(bound.source()) =~= array_cells(*array));
    Ok(bound)
}

} // verus!
