//! Diagnostic messages.

use vstd::prelude::*;

use crate::arrow_type::{arrow_type_name, data_type_text, ArrowType};
use crate::classify::{PrimitiveArrowToMssql, VariableWidthArrowToMssql};
use crate::mssql_type::{mssql_type_text, MssqlType};
use crate::text::{
    append_decimal, append_hex_byte, append_int, append_usize, decimal_text, hex_byte_text,
    int_text, quoted, quoted_text,
};

verus! {

/// Kind of an extracted Arrow cell.
#[derive(Debug, Clone, Copy, PartialEq, Eq, Hash, Structural)]
pub enum ArrowCellKind {
    /// `Null` cell.
    Null,
    /// `Boolean` cell.
    Boolean,
    /// `Int8` cell.
    Int8,
    /// `Int16` cell.
    Int16,
    /// `Int32` cell.
    Int32,
    /// `Int64` cell.
    Int64,
    /// `UInt8` cell.
    UInt8,
    /// `UInt16` cell.
    UInt16,
    /// `UInt32` cell.
    UInt32,
    /// `UInt64` cell.
    UInt64,
    /// `Decimal32` cell.
    Decimal32,
    /// `Decimal64` cell.
    Decimal64,
    /// `Decimal128` cell.
    Decimal128,
    /// `Decimal256` cell.
    Decimal256,
    /// `Date32` cell.
    Date32,
    /// `Date64` cell.
    Date64,
    /// `TimestampSecond` cell.
    TimestampSecond,
    /// `TimestampMillisecond` cell.
    TimestampMillisecond,
    /// `TimestampMicrosecond` cell.
    TimestampMicrosecond,
    /// `TimestampNanosecond` cell.
    TimestampNanosecond,
    /// `Time32Second` cell.
    Time32Second,
    /// `Time32Millisecond` cell.
    Time32Millisecond,
    /// `Time64Microsecond` cell.
    Time64Microsecond,
    /// `Time64Nanosecond` cell.
    Time64Nanosecond,
    /// `Float16` cell.
    Float16,
    /// `Float32` cell.
    Float32,
    /// `Float64` cell.
    Float64,
    /// `Utf8` cell.
    Utf8,
    /// `Binary` cell.
    Binary,
    /// `Other` cell.
    Other,
}

impl ArrowCellKind {
    /// The text of the value in a message.
    pub open spec fn text(self) -> Seq<char> {
        match self {
            ArrowCellKind::Null => "Null"@,
            ArrowCellKind::Boolean => "Boolean"@,
            ArrowCellKind::Int8 => "Int8"@,
            ArrowCellKind::Int16 => "Int16"@,
            ArrowCellKind::Int32 => "Int32"@,
            ArrowCellKind::Int64 => "Int64"@,
            ArrowCellKind::UInt8 => "UInt8"@,
            ArrowCellKind::UInt16 => "UInt16"@,
            ArrowCellKind::UInt32 => "UInt32"@,
            ArrowCellKind::UInt64 => "UInt64"@,
            ArrowCellKind::Decimal32 => "Decimal32"@,
            ArrowCellKind::Decimal64 => "Decimal64"@,
            ArrowCellKind::Decimal128 => "Decimal128"@,
            ArrowCellKind::Decimal256 => "Decimal256"@,
            ArrowCellKind::Date32 => "Date32"@,
            ArrowCellKind::Date64 => "Date64"@,
            ArrowCellKind::TimestampSecond => "TimestampSecond"@,
            ArrowCellKind::TimestampMillisecond => "TimestampMillisecond"@,
            ArrowCellKind::TimestampMicrosecond => "TimestampMicrosecond"@,
            ArrowCellKind::TimestampNanosecond => "TimestampNanosecond"@,
            ArrowCellKind::Time32Second => "Time32Second"@,
            ArrowCellKind::Time32Millisecond => "Time32Millisecond"@,
            ArrowCellKind::Time64Microsecond => "Time64Microsecond"@,
            ArrowCellKind::Time64Nanosecond => "Time64Nanosecond"@,
            ArrowCellKind::Float16 => "Float16"@,
            ArrowCellKind::Float32 => "Float32"@,
            ArrowCellKind::Float64 => "Float64"@,
            ArrowCellKind::Utf8 => "Utf8"@,
            ArrowCellKind::Binary => "Binary"@,
            ArrowCellKind::Other => "Other"@,
        }
    }

    /// Returns the text of the value in a message.
    pub fn name(&self) -> (name: &'static str)
        ensures
            name@ == self.text(),
    {
        match self {
            ArrowCellKind::Null => "Null",
            ArrowCellKind::Boolean => "Boolean",
            ArrowCellKind::Int8 => "Int8",
            ArrowCellKind::Int16 => "Int16",
            ArrowCellKind::Int32 => "Int32",
            ArrowCellKind::Int64 => "Int64",
            ArrowCellKind::UInt8 => "UInt8",
            ArrowCellKind::UInt16 => "UInt16",
            ArrowCellKind::UInt32 => "UInt32",
            ArrowCellKind::UInt64 => "UInt64",
            ArrowCellKind::Decimal32 => "Decimal32",
            ArrowCellKind::Decimal64 => "Decimal64",
            ArrowCellKind::Decimal128 => "Decimal128",
            ArrowCellKind::Decimal256 => "Decimal256",
            ArrowCellKind::Date32 => "Date32",
            ArrowCellKind::Date64 => "Date64",
            ArrowCellKind::TimestampSecond => "TimestampSecond",
            ArrowCellKind::TimestampMillisecond => "TimestampMillisecond",
            ArrowCellKind::TimestampMicrosecond => "TimestampMicrosecond",
            ArrowCellKind::TimestampNanosecond => "TimestampNanosecond",
            ArrowCellKind::Time32Second => "Time32Second",
            ArrowCellKind::Time32Millisecond => "Time32Millisecond",
            ArrowCellKind::Time64Microsecond => "Time64Microsecond",
            ArrowCellKind::Time64Nanosecond => "Time64Nanosecond",
            ArrowCellKind::Float16 => "Float16",
            ArrowCellKind::Float32 => "Float32",
            ArrowCellKind::Float64 => "Float64",
            ArrowCellKind::Utf8 => "Utf8",
            ArrowCellKind::Binary => "Binary",
            ArrowCellKind::Other => "Other",
        }
    }
}

/// Arrow payloads that a SQL Server type accepts.
#[derive(Debug, Clone, Copy, PartialEq, Eq, Hash, Structural)]
pub enum ExpectedPayload {
    /// Arrow boolean payload.
    Boolean,
    /// Arrow UInt8 payload.
    UInt8,
    /// Arrow Int8 or Int16 payload.
    SmallInt,
    /// Arrow Int32 or UInt16 payload.
    Int,
    /// Arrow Int64, UInt32, or UInt64 payload.
    BigInt,
    /// Arrow decimal-compatible payload.
    Decimal,
    /// Arrow Date32 payload.
    Date32,
    /// Arrow Date64 or timestamp payload planned as datetime2.
    DateTime2,
    /// Arrow time of day payload.
    Time,
    /// Arrow timestamp payload planned as datetime.
    DateTime,
    /// Timezone-aware Arrow timestamp payload planned as datetimeoffset.
    DateTimeOffset,
    /// Arrow Float32 payload.
    Float32,
    /// Arrow Float64 payload.
    Float64,
    /// Arrow UTF-8 payload.
    Utf8,
    /// Arrow binary payload.
    Binary,
}

impl ExpectedPayload {
    /// The text of the value in a message.
    pub open spec fn text(self) -> Seq<char> {
        match self {
            ExpectedPayload::Boolean => "Arrow boolean payload"@,
            ExpectedPayload::UInt8 => "Arrow UInt8 payload"@,
            ExpectedPayload::SmallInt => "Arrow Int8 or Int16 payload"@,
            ExpectedPayload::Int => "Arrow Int32 or UInt16 payload"@,
            ExpectedPayload::BigInt => "Arrow Int64, UInt32, or UInt64 payload"@,
            ExpectedPayload::Decimal => "Arrow decimal-compatible payload"@,
            ExpectedPayload::Date32 => "Arrow Date32 payload"@,
            ExpectedPayload::DateTime2 => "Arrow Date64 or timestamp payload planned as datetime2"@,
            ExpectedPayload::Time => "Arrow time of day payload"@,
            ExpectedPayload::DateTime => "Arrow timestamp payload planned as datetime"@,
            ExpectedPayload::DateTimeOffset => {
                "timezone-aware Arrow timestamp payload planned as datetimeoffset"@
            },
            ExpectedPayload::Float32 => "Arrow Float32 payload"@,
            ExpectedPayload::Float64 => "Arrow Float64 payload"@,
            ExpectedPayload::Utf8 => "Arrow UTF-8 payload"@,
            ExpectedPayload::Binary => "Arrow binary payload"@,
        }
    }

    /// Returns the text of the value in a message.
    pub fn name(&self) -> (name: &'static str)
        ensures
            name@ == self.text(),
    {
        match self {
            ExpectedPayload::Boolean => "Arrow boolean payload",
            ExpectedPayload::UInt8 => "Arrow UInt8 payload",
            ExpectedPayload::SmallInt => "Arrow Int8 or Int16 payload",
            ExpectedPayload::Int => "Arrow Int32 or UInt16 payload",
            ExpectedPayload::BigInt => "Arrow Int64, UInt32, or UInt64 payload",
            ExpectedPayload::Decimal => "Arrow decimal-compatible payload",
            ExpectedPayload::Date32 => "Arrow Date32 payload",
            ExpectedPayload::DateTime2 => "Arrow Date64 or timestamp payload planned as datetime2",
            ExpectedPayload::Time => "Arrow time of day payload",
            ExpectedPayload::DateTime => "Arrow timestamp payload planned as datetime",
            ExpectedPayload::DateTimeOffset => {
                "timezone-aware Arrow timestamp payload planned as datetimeoffset"
            },
            ExpectedPayload::Float32 => "Arrow Float32 payload",
            ExpectedPayload::Float64 => "Arrow Float64 payload",
            ExpectedPayload::Utf8 => "Arrow UTF-8 payload",
            ExpectedPayload::Binary => "Arrow binary payload",
        }
    }
}

/// Floating point value that is not finite.
#[derive(Debug, Clone, Copy, PartialEq, Eq, Hash, Structural)]
pub enum NonFinite {
    /// `NaN`.
    NaN,
    /// `inf`.
    Infinity,
    /// `-inf`.
    NegativeInfinity,
}

impl NonFinite {
    /// The text of the value in a message.
    pub open spec fn text(self) -> Seq<char> {
        match self {
            NonFinite::NaN => "NaN"@,
            NonFinite::Infinity => "inf"@,
            NonFinite::NegativeInfinity => "-inf"@,
        }
    }

    /// Returns the text of the value in a message.
    pub fn name(&self) -> (name: &'static str)
        ensures
            name@ == self.text(),
    {
        match self {
            NonFinite::NaN => "NaN",
            NonFinite::Infinity => "inf",
            NonFinite::NegativeInfinity => "-inf",
        }
    }
}

/// Variable-width SQL Server type family.
#[derive(Debug, Clone, Copy, PartialEq, Eq, Hash, Structural)]
pub enum TypeFamily {
    /// `nvarchar`.
    NVarChar,
    /// `varbinary`.
    VarBinary,
}

impl TypeFamily {
    /// The text of the value in a message.
    pub open spec fn text(self) -> Seq<char> {
        match self {
            TypeFamily::NVarChar => "nvarchar"@,
            TypeFamily::VarBinary => "varbinary"@,
        }
    }

    /// Returns the text of the value in a message.
    pub fn name(&self) -> (name: &'static str)
        ensures
            name@ == self.text(),
    {
        match self {
            TypeFamily::NVarChar => "nvarchar",
            TypeFamily::VarBinary => "varbinary",
        }
    }
}

/// What went wrong, where the message holds no text of its own.
#[allow(inconsistent_fields)]
#[derive(Debug, Clone, Copy, PartialEq, Eq, Hash, Structural)]
pub enum Fault {
    /// Row index outside the runtime batch.
    RowOutsideBatch {
        /// Row.
        row_index: usize,
        /// Number of rows.
        row_count: usize,
    },
    /// Planned column that the runtime batch does not have.
    ColumnOutsideBatch,
    /// Unsigned integer above the range of `bigint`.
    BigIntOverflow {
        /// Offending value.
        value: u64,
    },
    /// 256-bit decimal that 128 bits cannot hold.
    Decimal256TooWide,
    /// Null in a column that allows none.
    NullInPlannedColumn,
    /// SQL Server type without a conversion.
    TargetUnsupported {
        /// SQL Server type.
        ty: MssqlType,
    },
    /// Decimal conversion of a target of another type.
    TargetNotDecimal,
    /// Planned decimal scale outside the range of a TDS numeric.
    DecimalScaleTooLarge {
        /// Scale.
        scale: i8,
    },
    /// Planned decimal scale that differs from the Arrow scale.
    DecimalScaleMismatch {
        /// What was planned.
        planned: u8,
        /// What was expected.
        expected: u8,
    },
    /// Decimal with more digits than planned.
    DecimalTooWide {
        /// Unscaled value.
        unscaled: i128,
        /// Number of digits.
        precision: u8,
    },
    /// Negative scale whose power of ten is too large.
    ScaleFactorOverflow {
        /// Scale.
        scale: i8,
    },
    /// Decimal that overflows when it is multiplied up to scale zero.
    ScaledDecimalOverflow {
        /// Unscaled value.
        unscaled: i128,
        /// Scale.
        scale: i8,
    },
    /// Day outside the SQL Server date range.
    DateOutOfRange {
        /// Day.
        days: i32,
    },
    /// Millisecond outside the `datetime2` range.
    Date64OutOfRange {
        /// Milliseconds from the Unix epoch.
        milliseconds: i64,
    },
    /// Nanoseconds that are no whole number of ticks.
    LossyNanoseconds {
        /// Nanoseconds.
        nanoseconds: i64,
    },
    /// Nanosecond component that 32 bits cannot hold.
    NanosecondsOutOfRange {
        /// Nanoseconds.
        nanoseconds: i64,
    },
    /// Time of day before midnight or after the end of the day.
    TimeOutOfRange {
        /// Offending value.
        value: i64,
    },
    /// Instant outside the `datetime` range.
    DateTimeOutOfRange {
        /// Offending value.
        value: i64,
    },
    /// Instant that the planned timezone cannot represent.
    InstantUnrepresentable {
        /// Seconds.
        seconds: i64,
    },
    /// Timezone offset that `datetimeoffset` cannot represent.
    OffsetUnrepresentable {
        /// Seconds.
        seconds: i32,
    },
    /// Floating point value that is not finite.
    NonFiniteFloat {
        /// Offending value.
        value: NonFinite,
    },
    /// String above the planned length.
    StringTooLong {
        /// Number of UTF-16 code units.
        code_units: usize,
        /// SQL Server type.
        ty: MssqlType,
    },
    /// Bytes above the planned length.
    BinaryTooLong {
        /// Number of bytes.
        bytes: usize,
        /// SQL Server type.
        ty: MssqlType,
    },
    /// Fixed-size binary value of another length than planned.
    BinaryLengthMismatch {
        /// Number of bytes.
        bytes: usize,
        /// Planned number of bytes.
        length: usize,
    },
    /// Planned column index that the runtime batch does not reach.
    MissingColumn {
        /// Index.
        index: usize,
        /// Number of columns.
        column_count: usize,
    },
    /// Runtime columns without mappings.
    ExtraColumns {
        /// Number of columns.
        column_count: usize,
        /// Number of mappings.
        mapping_count: usize,
    },
    /// Mapping at another position than its field.
    MappingPosition {
        /// Position of the mapping.
        position: usize,
        /// Index.
        index: usize,
    },
    /// Row layout with unequal numbers of offsets and lengths.
    RowCountMismatch {
        /// Number of row-token offsets.
        offset_count: usize,
        /// Number of row lengths.
        length_count: usize,
    },
    /// Row layout without rows over a payload with bytes.
    EmptyLayoutPayload {
        /// Payload length.
        payload_len: usize,
    },
    /// First row that does not start the payload.
    FirstRowOffset {
        /// Offset.
        offset: usize,
    },
    /// Row end above the address range.
    RowOverflow {
        /// Index.
        index: usize,
        /// Offset.
        offset: usize,
        /// Length.
        len: usize,
    },
    /// Row end past the payload.
    RowOutsidePayload {
        /// Index.
        index: usize,
        /// End.
        end: usize,
        /// Payload length.
        payload_len: usize,
    },
    /// Row that the next row does not follow.
    RowGap {
        /// Index.
        index: usize,
        /// End.
        end: usize,
        /// Offset of the next row.
        next_offset: usize,
    },
    /// Last row that does not end the payload.
    LastRowEnd {
        /// End.
        end: usize,
        /// Payload length.
        payload_len: usize,
    },
    /// Cell of a row that the layout does not have.
    CellRow {
        /// Row.
        row_index: usize,
        /// Number of rows.
        row_count: usize,
    },
    /// Cell end above the address range.
    CellOverflow {
        /// Offset.
        offset: usize,
        /// Length.
        len: usize,
    },
    /// Cell end past the payload.
    CellOutsidePayload {
        /// Row.
        row_index: usize,
        /// Column.
        column_index: usize,
        /// End.
        end: usize,
        /// Payload length.
        payload_len: usize,
    },
    /// Row-token offset past the payload.
    TokenOffsetOutside {
        /// Offset.
        offset: usize,
        /// Payload length.
        payload_len: usize,
    },
    /// Row-token offset that is not above the one before it.
    TokenOffsetOrder {
        /// Offset.
        offset: usize,
        /// Offset before it.
        previous: usize,
    },
    /// Row-token offset at another byte.
    NotRowToken {
        /// Offset.
        offset: usize,
        /// Byte that was found.
        byte: u8,
    },
    /// Payload with bytes and without rows.
    MissingTokenOffsets,
    /// Number of measured cells above the address range.
    CellCountOverflow,
    /// Number of cell lengths that fills no whole rows.
    CellCountMismatch {
        /// Number found.
        count: usize,
        /// Number of rows.
        row_count: usize,
        /// Number of columns.
        column_count: usize,
    },
    /// Row range limit of zero bytes.
    ZeroRangeLimit,
    /// Row range end above the address range.
    RangeEndOverflow,
    /// Column that was not measured.
    MeasuredColumn {
        /// Column.
        column_index: usize,
        /// Number of columns.
        column_count: usize,
    },
    /// Row range that was not measured.
    MeasuredRange {
        /// Start.
        start: usize,
        /// End.
        end: usize,
        /// Number of rows.
        row_count: usize,
    },
    /// Row length above the address range.
    MeasuredRowOverflow,
    /// Payload length above the address range.
    MeasuredPayloadOverflow,
    /// Row range outside the runtime batch.
    BatchRange {
        /// Start.
        start: usize,
        /// End.
        end: usize,
        /// Number of rows.
        row_count: usize,
    },
    /// Measurement of a batch of another shape.
    MeasuredBatchShape {
        /// Number of rows.
        row_count: usize,
        /// Number of columns.
        column_count: usize,
    },
    /// Row layout that does not tile the rows cell by cell.
    LayoutShape,
    /// Buffer of the wrong size for a null decimal.
    NullDecimalLength {
        /// Length.
        len: usize,
    },
    /// Buffer of the wrong size for a decimal.
    DecimalLength {
        /// Length.
        len: usize,
        /// What was expected.
        expected: usize,
    },
    /// Buffer of the wrong size for a date or time.
    TemporalLength {
        /// Length.
        len: usize,
        /// What was expected.
        expected: usize,
    },
    /// Time of a scale that TDS does not have.
    TimeScale {
        /// Scale.
        scale: u8,
    },
    /// Time of day that its scale's bytes cannot hold.
    TimeWidth {
        /// Increments since midnight.
        increments: u64,
        /// Scale.
        scale: u8,
    },
    /// Day that three bytes cannot hold.
    DateWidth {
        /// Day.
        days: u32,
    },
    /// Planned direct column that the runtime batch does not have.
    DirectColumnOutside,
    /// Null in a direct column that allows none.
    NullInDirectColumn,
    /// Cell index above the address range.
    CellIndexOverflow,
    /// Cell that the layout does not place.
    CellMissing,
    /// Null measured with a value's length.
    MeasuredNullLength {
        /// Row.
        row_index: usize,
        /// Column.
        column_index: usize,
        /// Length.
        len: usize,
    },
    /// Cell measured with another length than it has.
    MeasuredCellLength {
        /// Row.
        row_index: usize,
        /// Column.
        column_index: usize,
        /// Length.
        len: usize,
        /// What was expected.
        expected: usize,
    },
    /// Null placed with a value's length.
    NullCellLength {
        /// Row.
        row_index: usize,
        /// Column.
        column_index: usize,
        /// Length.
        len: usize,
    },
    /// Null placed past the payload.
    NullCellOutside,
    /// Nullable cell placed with another length than it has.
    NullableCellLength {
        /// Row.
        row_index: usize,
        /// Column.
        column_index: usize,
        /// Length.
        len: usize,
        /// What was expected.
        expected: usize,
    },
    /// Nullable cell length above the address range.
    NullableCellOverflow,
    /// Nullable value that one length byte cannot describe.
    NullableValueTooLong,
    /// Fixed-width cell placed with another length than it has.
    FixedCellLength {
        /// Row.
        row_index: usize,
        /// Column.
        column_index: usize,
        /// Length.
        len: usize,
        /// What was expected.
        expected: usize,
    },
    /// Cell range above the address range.
    CellEndOverflow,
    /// Cell range past the payload.
    CellRangeOutside,
    /// Primitive conversion without a fixed-width layout.
    PrimitiveLayout {
        /// Conversion.
        class: PrimitiveArrowToMssql,
    },
    /// Variable-width conversion in a primitive layout.
    VariableWidthLayout {
        /// Conversion.
        class: VariableWidthArrowToMssql,
    },
    /// Conversion that is neither primitive nor variable-width in a primitive layout.
    OtherLayout,
    /// Primitive row length above the address range.
    PrimitiveLengthOverflow,
    /// Encoded length above the address range.
    DirectLengthOverflow,
    /// Mapping index past the mappings.
    MappingIndex {
        /// Index.
        index: usize,
        /// Number found.
        count: usize,
    },
}

/// Diagnostic message, over the representation `S` of the text that it carries.
#[allow(inconsistent_fields)]
#[derive(Debug, PartialEq, Eq)]
pub enum MessageOf<S> {
    /// Message without text of its own.
    Fault(Fault),
    /// Reason given by a support policy.
    Reason {
        /// Reason.
        text: S,
    },
    /// Cell that the planned SQL Server type cannot hold.
    PayloadMismatch {
        /// What was expected.
        expected: ExpectedPayload,
        /// Text of what was found.
        got: S,
    },
    /// Arrow type whose values are not extracted.
    ExtractionUnsupported {
        /// Arrow type.
        data_type: ArrowType<S>,
    },
    /// Runtime array of another type than planned.
    ArrayTypeMismatch {
        /// What the runtime batch holds.
        runtime: ArrowType<S>,
        /// What was planned.
        planned: ArrowType<S>,
    },
    /// Runtime array that a direct column cannot read.
    DirectTypeMismatch {
        /// What the runtime batch holds.
        runtime: ArrowType<S>,
    },
    /// Arrow type without a direct binding to a SQL Server type family.
    BindingUnsupported {
        /// Arrow type.
        data_type: ArrowType<S>,
        /// Type family.
        family: TypeFamily,
    },
    /// Runtime field of another name than planned.
    FieldName {
        /// What the runtime batch holds.
        runtime: S,
        /// What was planned.
        planned: S,
    },
    /// Timezone metadata that names no timezone.
    TimezoneUnsupported {
        /// Timezone metadata.
        timezone: S,
    },
    /// Timestamp outside the `datetime2` range.
    TimestampOutOfRange {
        /// Unit.
        unit: S,
        /// Offending value.
        value: i64,
    },
    /// Timestamp that overflows when an offset is added.
    OffsetOverflow {
        /// Unit.
        unit: S,
        /// Offending value.
        value: i64,
        /// Offset in minutes.
        offset_minutes: i16,
    },
    /// Nullable cell measured with another length than it has.
    MeasuredNullableLength {
        /// Column name.
        column: S,
        /// Length.
        len: usize,
        /// What was expected.
        expected: usize,
    },
    /// Fixed-width cell measured with another length than it has.
    MeasuredFixedLength {
        /// Column name.
        column: S,
        /// Length.
        len: usize,
        /// What was expected.
        expected: usize,
    },
}

/// Diagnostic message.
pub type Message = MessageOf<String>;

/// Diagnostic message as contracts speak of it.
pub type MessageView = MessageOf<Seq<char>>;

impl View for MessageOf<String> {
    type V = MessageOf<Seq<char>>;

    open spec fn view(&self) -> MessageOf<Seq<char>> {
        match *self {
            MessageOf::Fault(fault) => MessageOf::Fault(fault),
            MessageOf::Reason { text } => MessageOf::Reason { text: text@ },
            MessageOf::PayloadMismatch { expected, got } => MessageOf::PayloadMismatch {
                expected,
                got: got@,
            },
            MessageOf::ExtractionUnsupported { data_type } => MessageOf::ExtractionUnsupported {
                data_type: data_type@,
            },
            MessageOf::ArrayTypeMismatch { runtime, planned } => MessageOf::ArrayTypeMismatch {
                runtime: runtime@,
                planned: planned@,
            },
            MessageOf::DirectTypeMismatch { runtime } => MessageOf::DirectTypeMismatch {
                runtime: runtime@,
            },
            MessageOf::BindingUnsupported { data_type, family } => MessageOf::BindingUnsupported {
                data_type: data_type@,
                family,
            },
            MessageOf::FieldName { runtime, planned } => MessageOf::FieldName {
                runtime: runtime@,
                planned: planned@,
            },
            MessageOf::TimezoneUnsupported { timezone } => MessageOf::TimezoneUnsupported {
                timezone: timezone@,
            },
            MessageOf::TimestampOutOfRange { unit, value } => MessageOf::TimestampOutOfRange {
                unit: unit@,
                value,
            },
            MessageOf::OffsetOverflow { unit, value, offset_minutes } => MessageOf::OffsetOverflow {
                unit: unit@,
                value,
                offset_minutes,
            },
            MessageOf::MeasuredNullableLength { column, len, expected } => {
                MessageOf::MeasuredNullableLength { column: column@, len, expected }
            },
            MessageOf::MeasuredFixedLength { column, len, expected } => {
                MessageOf::MeasuredFixedLength { column: column@, len, expected }
            },
        }
    }
}

/// The text of a fault.
pub open spec fn fault_text(fault: Fault) -> Seq<char> {
    match fault {
        Fault::RowOutsideBatch { row_index, row_count } => "row index "@
            + decimal_text(row_index as nat) + " is outside runtime batch with "@
            + decimal_text(row_count as nat) + " row(s)"@,
        Fault::ColumnOutsideBatch => "planned column index is outside the runtime batch"@,
        Fault::BigIntOverflow { value } => "Arrow UInt64 value "@ + decimal_text(value as nat)
            + " does not fit planned SQL Server bigint"@,
        Fault::Decimal256TooWide => {
            "Arrow Decimal256 value does not fit runtime i128 decimal representation"@
        },
        Fault::NullInPlannedColumn => "null value in non-nullable planned column"@,
        Fault::TargetUnsupported { ty } => "planned SQL Server type "@ + mssql_type_text(ty)
            + " is not supported yet"@,
        Fault::TargetNotDecimal => "planned SQL Server type is not decimal"@,
        Fault::DecimalScaleTooLarge { scale } => "planned SQL Server decimal scale "@
            + int_text(scale as int) + " cannot be represented by Tiberius Numeric"@,
        Fault::DecimalScaleMismatch { planned, expected } => "planned SQL Server decimal scale "@
            + decimal_text(planned as nat) + " is incompatible with Arrow decimal scale "@
            + decimal_text(expected as nat),
        Fault::DecimalTooWide { unscaled, precision } => "decimal value "@
            + int_text(unscaled as int) + " does not fit planned precision "@
            + decimal_text(precision as nat),
        Fault::ScaleFactorOverflow { scale } => "negative decimal scale "@
            + int_text(scale as int) + " normalization factor overflows"@,
        Fault::ScaledDecimalOverflow { unscaled, scale } => "decimal value "@
            + int_text(unscaled as int) + " overflows while normalizing scale "@
            + int_text(scale as int),
        Fault::DateOutOfRange { days } => "Arrow Date32 day offset "@ + int_text(days as int)
            + " is outside SQL Server date range"@,
        Fault::Date64OutOfRange { milliseconds } => "Arrow Date64 millisecond value "@
            + int_text(milliseconds as int) + " is outside SQL Server datetime2 range"@,
        Fault::LossyNanoseconds { nanoseconds } => "Arrow timestamp nanosecond value "@
            + int_text(nanoseconds as int) + " is not divisible by 100ns"@,
        Fault::NanosecondsOutOfRange { nanoseconds } => "timestamp nanosecond component "@
            + int_text(nanoseconds as int) + " is outside valid range"@,
        Fault::TimeOutOfRange { value } => "Arrow time value "@ + int_text(value as int)
            + " is outside SQL Server time range"@,
        Fault::DateTimeOutOfRange { value } => "Arrow timestamp value "@ + int_text(value as int)
            + " is outside SQL Server datetime range"@,
        Fault::InstantUnrepresentable { seconds } => "Arrow timestamp second value "@
            + int_text(seconds as int) + " cannot be represented in the planned timezone"@,
        Fault::OffsetUnrepresentable { seconds } => "resolved timezone offset "@
            + int_text(seconds as int)
            + " second(s) cannot be represented as a SQL Server datetimeoffset minute offset"@,
        Fault::NonFiniteFloat { value } => "non-finite floating point value "@ + value.text()
            + " is not supported"@,
        Fault::StringTooLong { code_units, ty } => "string value has "@
            + decimal_text(code_units as nat) + " UTF-16 code unit(s), exceeding planned "@
            + mssql_type_text(ty),
        Fault::BinaryTooLong { bytes, ty } => "binary value has "@ + decimal_text(bytes as nat)
            + " byte(s), exceeding planned "@ + mssql_type_text(ty),
        Fault::BinaryLengthMismatch { bytes, length } => "fixed-size binary value has "@
            + decimal_text(bytes as nat) + " byte(s), expected "@ + decimal_text(length as nat),
        Fault::MissingColumn { index, column_count } => "planned column index "@
            + decimal_text(index as nat) + " is outside runtime batch with "@
            + decimal_text(column_count as nat) + " column(s)"@,
        Fault::ExtraColumns { column_count, mapping_count } => "runtime batch has "@
            + decimal_text(column_count as nat) + " column(s) but mappings contain "@
            + decimal_text(mapping_count as nat) + " column(s)"@,
        Fault::MappingPosition { position, index } => "mapping position "@
            + decimal_text(position as nat) + " does not match planned Arrow field index "@
            + decimal_text(index as nat),
        Fault::RowCountMismatch { offset_count, length_count } => "row layout has "@
            + decimal_text(offset_count as nat) + " row-token offset(s) but "@
            + decimal_text(length_count as nat) + " row length(s)"@,
        Fault::EmptyLayoutPayload { payload_len } => {
            "empty row layout cannot describe non-empty payload length "@
                + decimal_text(payload_len as nat)
        },
        Fault::FirstRowOffset { offset } => "first row token offset must be 0, got "@
            + decimal_text(offset as nat),
        Fault::RowOverflow { index, offset, len } => "row "@ + decimal_text(index as nat)
            + " offset "@ + decimal_text(offset as nat) + " plus length "@
            + decimal_text(len as nat) + " overflows usize"@,
        Fault::RowOutsidePayload { index, end, payload_len } => "row "@
            + decimal_text(index as nat) + " ends at "@ + decimal_text(end as nat)
            + ", outside payload length "@ + decimal_text(payload_len as nat),
        Fault::RowGap { index, end, next_offset } => "row "@ + decimal_text(index as nat)
            + " ends at "@ + decimal_text(end as nat) + ", but next row token offset is "@
            + decimal_text(next_offset as nat),
        Fault::LastRowEnd { end, payload_len } => "last row ends at "@ + decimal_text(end as nat)
            + ", but payload length is "@ + decimal_text(payload_len as nat),
        Fault::CellRow { row_index, row_count } => "cell row index "@
            + decimal_text(row_index as nat) + " is outside row count "@
            + decimal_text(row_count as nat),
        Fault::CellOverflow { offset, len } => "cell offset "@ + decimal_text(offset as nat)
            + " plus length "@ + decimal_text(len as nat) + " overflows usize"@,
        Fault::CellOutsidePayload { row_index, column_index, end, payload_len } => "cell at row "@
            + decimal_text(row_index as nat) + " column "@ + decimal_text(column_index as nat)
            + " ends at "@ + decimal_text(end as nat) + ", outside payload length "@
            + decimal_text(payload_len as nat),
        Fault::TokenOffsetOutside { offset, payload_len } => "row token offset "@
            + decimal_text(offset as nat) + " is outside payload length "@
            + decimal_text(payload_len as nat),
        Fault::TokenOffsetOrder { offset, previous } => {
            "row token offsets must be strictly increasing: "@
                + decimal_text(offset as nat) + " followed "@ + decimal_text(previous as nat)
        },
        Fault::NotRowToken { offset, byte } => "row token offset "@ + decimal_text(offset as nat)
            + " points to byte 0x"@ + hex_byte_text(byte) + ", not 0xD1"@,
        Fault::MissingTokenOffsets => {
            "non-empty direct payload must include at least one row token offset"@
        },
        Fault::CellCountOverflow => "measured cell count overflowed usize"@,
        Fault::CellCountMismatch { count, row_count, column_count } => {
            "measured cell length count "@
                + decimal_text(count as nat) + " does not match row count "@
                + decimal_text(row_count as nat) + " and column count "@
                + decimal_text(column_count as nat)
        },
        Fault::ZeroRangeLimit => "direct row range byte limit must be greater than zero"@,
        Fault::RangeEndOverflow => "direct row range end overflowed usize"@,
        Fault::MeasuredColumn { column_index, column_count } => "direct measured column index "@
            + decimal_text(column_index as nat) + " is outside measured column count "@
            + decimal_text(column_count as nat),
        Fault::MeasuredRange { start, end, row_count } => "direct measured row range "@
            + decimal_text(start as nat) + ".."@ + decimal_text(end as nat)
            + " is outside measured row count "@ + decimal_text(row_count as nat),
        Fault::MeasuredRowOverflow => "measured row length overflowed usize"@,
        Fault::MeasuredPayloadOverflow => "measured payload length overflowed usize"@,
        Fault::BatchRange { start, end, row_count } => "direct row range "@
            + decimal_text(start as nat) + ".."@ + decimal_text(end as nat)
            + " is outside batch row count "@ + decimal_text(row_count as nat),
        Fault::MeasuredBatchShape { row_count, column_count } => "measured batch has "@
            + decimal_text(row_count as nat) + " row(s) and "@ + decimal_text(column_count as nat)
            + " column(s), unlike the runtime batch"@,
        Fault::LayoutShape => "row layout does not place every cell in row-major order"@,
        Fault::NullDecimalLength { len } => "null decimal cell has length "@
            + decimal_text(len as nat) + ", expected 1"@,
        Fault::DecimalLength { len, expected } => "decimal cell has length "@
            + decimal_text(len as nat) + ", expected "@ + decimal_text(expected as nat),
        Fault::TemporalLength { len, expected } => "temporal cell has length "@
            + decimal_text(len as nat) + ", expected "@ + decimal_text(expected as nat),
        Fault::TimeScale { scale } => "time scale "@ + decimal_text(scale as nat)
            + " is not supported"@,
        Fault::TimeWidth { increments, scale } => "time value "@ + decimal_text(increments as nat)
            + " does not fit scale "@ + decimal_text(scale as nat),
        Fault::DateWidth { days } => "date value "@ + decimal_text(days as nat)
            + " does not fit three bytes"@,
        Fault::DirectColumnOutside => "planned direct column index is outside the runtime batch"@,
        Fault::NullInDirectColumn => "null value in non-nullable direct primitive column"@,
        Fault::CellIndexOverflow => "cell position index overflowed usize"@,
        Fault::CellMissing => "cell position is outside measured row layout"@,
        Fault::MeasuredNullLength { row_index, column_index, len } => {
            "measured null primitive cell at row "@
                + decimal_text(row_index as nat) + " column "@ + decimal_text(column_index as nat)
                + " has length "@ + decimal_text(len as nat) + ", expected 1"@
        },
        Fault::MeasuredCellLength { row_index, column_index, len, expected } => {
            "measured cell at row "@
                + decimal_text(row_index as nat) + " column "@ + decimal_text(column_index as nat)
                + " has length "@ + decimal_text(len as nat) + ", expected "@
                + decimal_text(expected as nat)
        },
        Fault::NullCellLength { row_index, column_index, len } => "null cell at row "@
            + decimal_text(row_index as nat) + " column "@ + decimal_text(column_index as nat)
            + " has length "@ + decimal_text(len as nat) + ", expected 1"@,
        Fault::NullCellOutside => "null cell offset is outside payload"@,
        Fault::NullableCellLength { row_index, column_index, len, expected } => {
            "nullable primitive cell at row "@
                + decimal_text(row_index as nat) + " column "@ + decimal_text(column_index as nat)
                + " has length "@ + decimal_text(len as nat) + ", expected "@
                + decimal_text(expected as nat)
        },
        Fault::NullableCellOverflow => "nullable primitive cell length overflowed usize"@,
        Fault::NullableValueTooLong => "nullable primitive cell value length does not fit u8"@,
        Fault::FixedCellLength { row_index, column_index, len, expected } => {
            "fixed-width cell at row "@
                + decimal_text(row_index as nat) + " column "@ + decimal_text(column_index as nat)
                + " has length "@ + decimal_text(len as nat) + ", expected "@
                + decimal_text(expected as nat)
        },
        Fault::CellEndOverflow => "fixed-width cell end overflowed usize"@,
        Fault::CellRangeOutside => "fixed-width cell range is outside payload"@,
        Fault::PrimitiveLayout { class } => "direct primitive layout is not implemented yet for "@
            + class.text(),
        Fault::VariableWidthLayout { class } => {
            "direct primitive layout is not implemented for variable-width mapping "@
                + class.text()
        },
        Fault::OtherLayout => "direct primitive layout is not implemented for this mapping"@,
        Fault::PrimitiveLengthOverflow => "direct primitive row layout length overflowed usize"@,
        Fault::DirectLengthOverflow => "direct encoded length overflowed usize"@,
        Fault::MappingIndex { index, count } => "direct mapping index "@
            + decimal_text(index as nat) + " is outside mapping count "@
            + decimal_text(count as nat),
    }
}

/// The text of a message.
pub open spec fn message_text(message: MessageView) -> Seq<char> {
    match message {
        MessageOf::Fault(fault) => fault_text(fault),
        MessageOf::Reason { text } => text,
        MessageOf::PayloadMismatch { expected, got } => "expected "@ + expected.text() + ", got "@
            + got,
        MessageOf::ExtractionUnsupported { data_type } => "Arrow value extraction for "@
            + data_type_text(data_type) + " is not supported yet"@,
        MessageOf::ArrayTypeMismatch { runtime, planned } => "runtime Arrow type "@
            + data_type_text(runtime) + " does not match planned Arrow type "@
            + data_type_text(planned),
        MessageOf::DirectTypeMismatch { runtime } => "runtime Arrow type "@
            + data_type_text(runtime) + " does not match planned direct column type"@,
        MessageOf::BindingUnsupported { data_type, family } => "planned Arrow type "@
            + data_type_text(data_type) + " is not supported by direct "@ + family.text()
            + " binding"@,
        MessageOf::FieldName { runtime, planned } => "runtime Arrow field name "@ + runtime
            + " does not match planned Arrow field name "@ + planned,
        MessageOf::TimezoneUnsupported { timezone } => "Arrow timestamp timezone "@
            + quoted_text(timezone) + " is not a valid Arrow timezone name or fixed offset"@,
        MessageOf::TimestampOutOfRange { unit, value } => "Arrow timestamp "@ + unit + " value "@
            + int_text(value as int) + " is outside SQL Server datetime2 range"@,
        MessageOf::OffsetOverflow { unit, value, offset_minutes } => "Arrow timestamp "@ + unit
            + " value "@ + int_text(value as int) + " overflows while applying timezone offset "@
            + int_text(offset_minutes as int) + " minute(s)"@,
        MessageOf::MeasuredNullableLength { column, len, expected } => {
            "measured nullable primitive cell for column "@
                + column + " has length "@ + decimal_text(len as nat) + ", expected "@
                + decimal_text(expected as nat)
        },
        MessageOf::MeasuredFixedLength { column, len, expected } => {
            "measured fixed-width primitive cell for column "@
                + column + " has length "@ + decimal_text(len as nat) + ", expected "@
                + decimal_text(expected as nat)
        },
    }
}

impl Fault {
    /// Returns the text of the fault.
    pub fn to_text(&self) -> (text: String)
        ensures
            text@ == fault_text(*self),
    {
        let mut out: String;
        match self {
            Fault::RowOutsideBatch { row_index, row_count } => {
                out = String::from_str("row index ");
                append_usize(&mut out, *row_index);
                out.append(" is outside runtime batch with ");
                append_usize(&mut out, *row_count);
                out.append(" row(s)");
            },
            Fault::ColumnOutsideBatch => {
                out = String::from_str("planned column index is outside the runtime batch");
            },
            Fault::BigIntOverflow { value } => {
                out = String::from_str("Arrow UInt64 value ");
                append_decimal(&mut out, *value as u128);
                out.append(" does not fit planned SQL Server bigint");
            },
            Fault::Decimal256TooWide => {
                out = String::from_str(
                    "Arrow Decimal256 value does not fit runtime i128 decimal representation",
                );
            },
            Fault::NullInPlannedColumn => {
                out = String::from_str("null value in non-nullable planned column");
            },
            Fault::TargetUnsupported { ty } => {
                out = String::from_str("planned SQL Server type ");
                out.append(ty.to_sql().as_str());
                out.append(" is not supported yet");
            },
            Fault::TargetNotDecimal => {
                out = String::from_str("planned SQL Server type is not decimal");
            },
            Fault::DecimalScaleTooLarge { scale } => {
                out = String::from_str("planned SQL Server decimal scale ");
                append_int(&mut out, *scale as i128);
                out.append(" cannot be represented by Tiberius Numeric");
            },
            Fault::DecimalScaleMismatch { planned, expected } => {
                out = String::from_str("planned SQL Server decimal scale ");
                append_decimal(&mut out, *planned as u128);
                out.append(" is incompatible with Arrow decimal scale ");
                append_decimal(&mut out, *expected as u128);
            },
            Fault::DecimalTooWide { unscaled, precision } => {
                out = String::from_str("decimal value ");
                append_int(&mut out, *unscaled as i128);
                out.append(" does not fit planned precision ");
                append_decimal(&mut out, *precision as u128);
            },
            Fault::ScaleFactorOverflow { scale } => {
                out = String::from_str("negative decimal scale ");
                append_int(&mut out, *scale as i128);
                out.append(" normalization factor overflows");
            },
            Fault::ScaledDecimalOverflow { unscaled, scale } => {
                out = String::from_str("decimal value ");
                append_int(&mut out, *unscaled as i128);
                out.append(" overflows while normalizing scale ");
                append_int(&mut out, *scale as i128);
            },
            Fault::DateOutOfRange { days } => {
                out = String::from_str("Arrow Date32 day offset ");
                append_int(&mut out, *days as i128);
                out.append(" is outside SQL Server date range");
            },
            Fault::Date64OutOfRange { milliseconds } => {
                out = String::from_str("Arrow Date64 millisecond value ");
                append_int(&mut out, *milliseconds as i128);
                out.append(" is outside SQL Server datetime2 range");
            },
            Fault::LossyNanoseconds { nanoseconds } => {
                out = String::from_str("Arrow timestamp nanosecond value ");
                append_int(&mut out, *nanoseconds as i128);
                out.append(" is not divisible by 100ns");
            },
            Fault::NanosecondsOutOfRange { nanoseconds } => {
                out = String::from_str("timestamp nanosecond component ");
                append_int(&mut out, *nanoseconds as i128);
                out.append(" is outside valid range");
            },
            Fault::TimeOutOfRange { value } => {
                out = String::from_str("Arrow time value ");
                append_int(&mut out, *value as i128);
                out.append(" is outside SQL Server time range");
            },
            Fault::DateTimeOutOfRange { value } => {
                out = String::from_str("Arrow timestamp value ");
                append_int(&mut out, *value as i128);
                out.append(" is outside SQL Server datetime range");
            },
            Fault::InstantUnrepresentable { seconds } => {
                out = String::from_str("Arrow timestamp second value ");
                append_int(&mut out, *seconds as i128);
                out.append(" cannot be represented in the planned timezone");
            },
            Fault::OffsetUnrepresentable { seconds } => {
                out = String::from_str("resolved timezone offset ");
                append_int(&mut out, *seconds as i128);
                out.append(
                    " second(s) cannot be represented as a SQL Server datetimeoffset minute offset",
                );
            },
            Fault::NonFiniteFloat { value } => {
                out = String::from_str("non-finite floating point value ");
                out.append(value.name());
                out.append(" is not supported");
            },
            Fault::StringTooLong { code_units, ty } => {
                out = String::from_str("string value has ");
                append_usize(&mut out, *code_units);
                out.append(" UTF-16 code unit(s), exceeding planned ");
                out.append(ty.to_sql().as_str());
            },
            Fault::BinaryTooLong { bytes, ty } => {
                out = String::from_str("binary value has ");
                append_usize(&mut out, *bytes);
                out.append(" byte(s), exceeding planned ");
                out.append(ty.to_sql().as_str());
            },
            Fault::BinaryLengthMismatch { bytes, length } => {
                out = String::from_str("fixed-size binary value has ");
                append_usize(&mut out, *bytes);
                out.append(" byte(s), expected ");
                append_usize(&mut out, *length);
            },
            Fault::MissingColumn { index, column_count } => {
                out = String::from_str("planned column index ");
                append_usize(&mut out, *index);
                out.append(" is outside runtime batch with ");
                append_usize(&mut out, *column_count);
                out.append(" column(s)");
            },
            Fault::ExtraColumns { column_count, mapping_count } => {
                out = String::from_str("runtime batch has ");
                append_usize(&mut out, *column_count);
                out.append(" column(s) but mappings contain ");
                append_usize(&mut out, *mapping_count);
                out.append(" column(s)");
            },
            Fault::MappingPosition { position, index } => {
                out = String::from_str("mapping position ");
                append_usize(&mut out, *position);
                out.append(" does not match planned Arrow field index ");
                append_usize(&mut out, *index);
            },
            Fault::RowCountMismatch { offset_count, length_count } => {
                out = String::from_str("row layout has ");
                append_usize(&mut out, *offset_count);
                out.append(" row-token offset(s) but ");
                append_usize(&mut out, *length_count);
                out.append(" row length(s)");
            },
            Fault::EmptyLayoutPayload { payload_len } => {
                out = String::from_str(
                    "empty row layout cannot describe non-empty payload length ",
                );
                append_usize(&mut out, *payload_len);
            },
            Fault::FirstRowOffset { offset } => {
                out = String::from_str("first row token offset must be 0, got ");
                append_usize(&mut out, *offset);
            },
            Fault::RowOverflow { index, offset, len } => {
                out = String::from_str("row ");
                append_usize(&mut out, *index);
                out.append(" offset ");
                append_usize(&mut out, *offset);
                out.append(" plus length ");
                append_usize(&mut out, *len);
                out.append(" overflows usize");
            },
            Fault::RowOutsidePayload { index, end, payload_len } => {
                out = String::from_str("row ");
                append_usize(&mut out, *index);
                out.append(" ends at ");
                append_usize(&mut out, *end);
                out.append(", outside payload length ");
                append_usize(&mut out, *payload_len);
            },
            Fault::RowGap { index, end, next_offset } => {
                out = String::from_str("row ");
                append_usize(&mut out, *index);
                out.append(" ends at ");
                append_usize(&mut out, *end);
                out.append(", but next row token offset is ");
                append_usize(&mut out, *next_offset);
            },
            Fault::LastRowEnd { end, payload_len } => {
                out = String::from_str("last row ends at ");
                append_usize(&mut out, *end);
                out.append(", but payload length is ");
                append_usize(&mut out, *payload_len);
            },
            Fault::CellRow { row_index, row_count } => {
                out = String::from_str("cell row index ");
                append_usize(&mut out, *row_index);
                out.append(" is outside row count ");
                append_usize(&mut out, *row_count);
            },
            Fault::CellOverflow { offset, len } => {
                out = String::from_str("cell offset ");
                append_usize(&mut out, *offset);
                out.append(" plus length ");
                append_usize(&mut out, *len);
                out.append(" overflows usize");
            },
            Fault::CellOutsidePayload { row_index, column_index, end, payload_len } => {
                out = String::from_str("cell at row ");
                append_usize(&mut out, *row_index);
                out.append(" column ");
                append_usize(&mut out, *column_index);
                out.append(" ends at ");
                append_usize(&mut out, *end);
                out.append(", outside payload length ");
                append_usize(&mut out, *payload_len);
            },
            Fault::TokenOffsetOutside { offset, payload_len } => {
                out = String::from_str("row token offset ");
                append_usize(&mut out, *offset);
                out.append(" is outside payload length ");
                append_usize(&mut out, *payload_len);
            },
            Fault::TokenOffsetOrder { offset, previous } => {
                out = String::from_str("row token offsets must be strictly increasing: ");
                append_usize(&mut out, *offset);
                out.append(" followed ");
                append_usize(&mut out, *previous);
            },
            Fault::NotRowToken { offset, byte } => {
                out = String::from_str("row token offset ");
                append_usize(&mut out, *offset);
                out.append(" points to byte 0x");
                append_hex_byte(&mut out, *byte);
                out.append(", not 0xD1");
            },
            Fault::MissingTokenOffsets => {
                out = String::from_str(
                    "non-empty direct payload must include at least one row token offset",
                );
            },
            Fault::CellCountOverflow => {
                out = String::from_str("measured cell count overflowed usize");
            },
            Fault::CellCountMismatch { count, row_count, column_count } => {
                out = String::from_str("measured cell length count ");
                append_usize(&mut out, *count);
                out.append(" does not match row count ");
                append_usize(&mut out, *row_count);
                out.append(" and column count ");
                append_usize(&mut out, *column_count);
            },
            Fault::ZeroRangeLimit => {
                out = String::from_str("direct row range byte limit must be greater than zero");
            },
            Fault::RangeEndOverflow => {
                out = String::from_str("direct row range end overflowed usize");
            },
            Fault::MeasuredColumn { column_index, column_count } => {
                out = String::from_str("direct measured column index ");
                append_usize(&mut out, *column_index);
                out.append(" is outside measured column count ");
                append_usize(&mut out, *column_count);
            },
            Fault::MeasuredRange { start, end, row_count } => {
                out = String::from_str("direct measured row range ");
                append_usize(&mut out, *start);
                out.append("..");
                append_usize(&mut out, *end);
                out.append(" is outside measured row count ");
                append_usize(&mut out, *row_count);
            },
            Fault::MeasuredRowOverflow => {
                out = String::from_str("measured row length overflowed usize");
            },
            Fault::MeasuredPayloadOverflow => {
                out = String::from_str("measured payload length overflowed usize");
            },
            Fault::BatchRange { start, end, row_count } => {
                out = String::from_str("direct row range ");
                append_usize(&mut out, *start);
                out.append("..");
                append_usize(&mut out, *end);
                out.append(" is outside batch row count ");
                append_usize(&mut out, *row_count);
            },
            Fault::MeasuredBatchShape { row_count, column_count } => {
                out = String::from_str("measured batch has ");
                append_usize(&mut out, *row_count);
                out.append(" row(s) and ");
                append_usize(&mut out, *column_count);
                out.append(" column(s), unlike the runtime batch");
            },
            Fault::LayoutShape => {
                out = String::from_str("row layout does not place every cell in row-major order");
            },
            Fault::NullDecimalLength { len } => {
                out = String::from_str("null decimal cell has length ");
                append_usize(&mut out, *len);
                out.append(", expected 1");
            },
            Fault::DecimalLength { len, expected } => {
                out = String::from_str("decimal cell has length ");
                append_usize(&mut out, *len);
                out.append(", expected ");
                append_usize(&mut out, *expected);
            },
            Fault::TemporalLength { len, expected } => {
                out = String::from_str("temporal cell has length ");
                append_usize(&mut out, *len);
                out.append(", expected ");
                append_usize(&mut out, *expected);
            },
            Fault::TimeScale { scale } => {
                out = String::from_str("time scale ");
                append_decimal(&mut out, *scale as u128);
                out.append(" is not supported");
            },
            Fault::TimeWidth { increments, scale } => {
                out = String::from_str("time value ");
                append_decimal(&mut out, *increments as u128);
                out.append(" does not fit scale ");
                append_decimal(&mut out, *scale as u128);
            },
            Fault::DateWidth { days } => {
                out = String::from_str("date value ");
                append_decimal(&mut out, *days as u128);
                out.append(" does not fit three bytes");
            },
            Fault::DirectColumnOutside => {
                out = String::from_str("planned direct column index is outside the runtime batch");
            },
            Fault::NullInDirectColumn => {
                out = String::from_str("null value in non-nullable direct primitive column");
            },
            Fault::CellIndexOverflow => {
                out = String::from_str("cell position index overflowed usize");
            },
            Fault::CellMissing => {
                out = String::from_str("cell position is outside measured row layout");
            },
            Fault::MeasuredNullLength { row_index, column_index, len } => {
                out = String::from_str("measured null primitive cell at row ");
                append_usize(&mut out, *row_index);
                out.append(" column ");
                append_usize(&mut out, *column_index);
                out.append(" has length ");
                append_usize(&mut out, *len);
                out.append(", expected 1");
            },
            Fault::MeasuredCellLength { row_index, column_index, len, expected } => {
                out = String::from_str("measured cell at row ");
                append_usize(&mut out, *row_index);
                out.append(" column ");
                append_usize(&mut out, *column_index);
                out.append(" has length ");
                append_usize(&mut out, *len);
                out.append(", expected ");
                append_usize(&mut out, *expected);
            },
            Fault::NullCellLength { row_index, column_index, len } => {
                out = String::from_str("null cell at row ");
                append_usize(&mut out, *row_index);
                out.append(" column ");
                append_usize(&mut out, *column_index);
                out.append(" has length ");
                append_usize(&mut out, *len);
                out.append(", expected 1");
            },
            Fault::NullCellOutside => {
                out = String::from_str("null cell offset is outside payload");
            },
            Fault::NullableCellLength { row_index, column_index, len, expected } => {
                out = String::from_str("nullable primitive cell at row ");
                append_usize(&mut out, *row_index);
                out.append(" column ");
                append_usize(&mut out, *column_index);
                out.append(" has length ");
                append_usize(&mut out, *len);
                out.append(", expected ");
                append_usize(&mut out, *expected);
            },
            Fault::NullableCellOverflow => {
                out = String::from_str("nullable primitive cell length overflowed usize");
            },
            Fault::NullableValueTooLong => {
                out = String::from_str("nullable primitive cell value length does not fit u8");
            },
            Fault::FixedCellLength { row_index, column_index, len, expected } => {
                out = String::from_str("fixed-width cell at row ");
                append_usize(&mut out, *row_index);
                out.append(" column ");
                append_usize(&mut out, *column_index);
                out.append(" has length ");
                append_usize(&mut out, *len);
                out.append(", expected ");
                append_usize(&mut out, *expected);
            },
            Fault::CellEndOverflow => {
                out = String::from_str("fixed-width cell end overflowed usize");
            },
            Fault::CellRangeOutside => {
                out = String::from_str("fixed-width cell range is outside payload");
            },
            Fault::PrimitiveLayout { class } => {
                out = String::from_str("direct primitive layout is not implemented yet for ");
                out.append(class.name());
            },
            Fault::VariableWidthLayout { class } => {
                out = String::from_str(
                    "direct primitive layout is not implemented for variable-width mapping ",
                );
                out.append(class.to_text().as_str());
            },
            Fault::OtherLayout => {
                out = String::from_str(
                    "direct primitive layout is not implemented for this mapping",
                );
            },
            Fault::PrimitiveLengthOverflow => {
                out = String::from_str("direct primitive row layout length overflowed usize");
            },
            Fault::DirectLengthOverflow => {
                out = String::from_str("direct encoded length overflowed usize");
            },
            Fault::MappingIndex { index, count } => {
                out = String::from_str("direct mapping index ");
                append_usize(&mut out, *index);
                out.append(" is outside mapping count ");
                append_usize(&mut out, *count);
            },
        }
        out
    }
}

impl MessageOf<String> {
    /// Returns the text of the message.
    pub fn to_text(&self) -> (text: String)
        ensures
            text@ == message_text(self@),
    {
        let mut out: String;
        match self {
            MessageOf::Fault(fault) => {
                out = fault.to_text();
            },
            MessageOf::Reason { text } => {
                out = text.clone();
            },
            MessageOf::PayloadMismatch { expected, got } => {
                out = String::from_str("expected ");
                out.append(expected.name());
                out.append(", got ");
                out.append(got.as_str());
            },
            MessageOf::ExtractionUnsupported { data_type } => {
                out = String::from_str("Arrow value extraction for ");
                out.append(arrow_type_name(data_type).as_str());
                out.append(" is not supported yet");
            },
            MessageOf::ArrayTypeMismatch { runtime, planned } => {
                out = String::from_str("runtime Arrow type ");
                out.append(arrow_type_name(runtime).as_str());
                out.append(" does not match planned Arrow type ");
                out.append(arrow_type_name(planned).as_str());
            },
            MessageOf::DirectTypeMismatch { runtime } => {
                out = String::from_str("runtime Arrow type ");
                out.append(arrow_type_name(runtime).as_str());
                out.append(" does not match planned direct column type");
            },
            MessageOf::BindingUnsupported { data_type, family } => {
                out = String::from_str("planned Arrow type ");
                out.append(arrow_type_name(data_type).as_str());
                out.append(" is not supported by direct ");
                out.append(family.name());
                out.append(" binding");
            },
            MessageOf::FieldName { runtime, planned } => {
                out = String::from_str("runtime Arrow field name ");
                out.append(runtime.as_str());
                out.append(" does not match planned Arrow field name ");
                out.append(planned.as_str());
            },
            MessageOf::TimezoneUnsupported { timezone } => {
                out = String::from_str("Arrow timestamp timezone ");
                out.append(quoted(timezone.as_str()).as_str());
                out.append(" is not a valid Arrow timezone name or fixed offset");
            },
            MessageOf::TimestampOutOfRange { unit, value } => {
                out = String::from_str("Arrow timestamp ");
                out.append(unit.as_str());
                out.append(" value ");
                append_int(&mut out, *value as i128);
                out.append(" is outside SQL Server datetime2 range");
            },
            MessageOf::OffsetOverflow { unit, value, offset_minutes } => {
                out = String::from_str("Arrow timestamp ");
                out.append(unit.as_str());
                out.append(" value ");
                append_int(&mut out, *value as i128);
                out.append(" overflows while applying timezone offset ");
                append_int(&mut out, *offset_minutes as i128);
                out.append(" minute(s)");
            },
            MessageOf::MeasuredNullableLength { column, len, expected } => {
                out = String::from_str("measured nullable primitive cell for column ");
                out.append(column.as_str());
                out.append(" has length ");
                append_usize(&mut out, *len);
                out.append(", expected ");
                append_usize(&mut out, *expected);
            },
            MessageOf::MeasuredFixedLength { column, len, expected } => {
                out = String::from_str("measured fixed-width primitive cell for column ");
                out.append(column.as_str());
                out.append(" has length ");
                append_usize(&mut out, *len);
                out.append(", expected ");
                append_usize(&mut out, *expected);
            },
        }
        out
    }
}

} // verus!
