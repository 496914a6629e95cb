//! Classification of planned mappings by the conversion that they need.

use vstd::prelude::*;

use crate::arrow_type::{ArrowType, TimeUnit};
use crate::mapping::{SchemaMapping, SchemaMappingView};
use crate::mssql_type::{
    append_length_debug, length_debug_text, MssqlTimePrecision, MssqlType, MssqlTypeLength,
};

verus! {

/// Fixed-width primitive conversion.
#[derive(Debug, Clone, Copy, PartialEq, Eq, Hash, Structural)]
pub enum PrimitiveArrowToMssql {
    /// Boolean to `bit`.
    BooleanToBit,
    /// Unsigned 8-bit integer to `tinyint`.
    UInt8ToTinyInt,
    /// Signed 8-bit integer to `smallint`.
    Int8ToSmallInt,
    /// Signed 16-bit integer to `smallint`.
    Int16ToSmallInt,
    /// Signed 32-bit integer to `int`.
    Int32ToInt,
    /// Unsigned 16-bit integer to `int`.
    UInt16ToInt,
    /// Signed 64-bit integer to `bigint`.
    Int64ToBigInt,
    /// Unsigned 32-bit integer to `bigint`.
    UInt32ToBigInt,
    /// Unsigned 64-bit integer to `bigint`, checked for range.
    UInt64ToCheckedBigInt,
    /// 16-bit float to `real`.
    Float16ToReal,
    /// 32-bit float to `real`.
    Float32ToReal,
    /// 64-bit float to `float(53)`.
    Float64ToFloat,
}

/// The primitive conversion of a mapping, if it has one.
pub open spec fn primitive_class(mapping: SchemaMappingView) -> Option<PrimitiveArrowToMssql> {
    match (mapping.arrow.data_type, mapping.mssql.ty) {
        (ArrowType::Boolean, MssqlType::Bit) => Some(PrimitiveArrowToMssql::BooleanToBit),
        (ArrowType::UInt8, MssqlType::TinyInt) => Some(PrimitiveArrowToMssql::UInt8ToTinyInt),
        (ArrowType::Int8, MssqlType::SmallInt) => Some(PrimitiveArrowToMssql::Int8ToSmallInt),
        (ArrowType::Int16, MssqlType::SmallInt) => Some(PrimitiveArrowToMssql::Int16ToSmallInt),
        (ArrowType::Int32, MssqlType::Int) => Some(PrimitiveArrowToMssql::Int32ToInt),
        (ArrowType::UInt16, MssqlType::Int) => Some(PrimitiveArrowToMssql::UInt16ToInt),
        (ArrowType::Int64, MssqlType::BigInt) => Some(PrimitiveArrowToMssql::Int64ToBigInt),
        (ArrowType::UInt32, MssqlType::BigInt) => Some(PrimitiveArrowToMssql::UInt32ToBigInt),
        (ArrowType::Float16, MssqlType::Real) => Some(PrimitiveArrowToMssql::Float16ToReal),
        (ArrowType::Float32, MssqlType::Real) => Some(PrimitiveArrowToMssql::Float32ToReal),
        (ArrowType::Float64, MssqlType::Float { precision }) => if precision == 53 {
            Some(PrimitiveArrowToMssql::Float64ToFloat)
        } else {
            None
        },
        _ => None,
    }
}

impl PrimitiveArrowToMssql {
    /// Classifies a mapping as a primitive conversion.
    pub fn classify(mapping: &SchemaMapping) -> (class: Option<Self>)
        ensures
            class == primitive_class(mapping@),
    {
        let ty: MssqlType = *mapping.mssql().ty();
        match mapping.arrow().data_type() {
            ArrowType::Boolean if ty == MssqlType::Bit => Some(
                PrimitiveArrowToMssql::BooleanToBit,
            ),
            ArrowType::UInt8 if ty == MssqlType::TinyInt => Some(
                PrimitiveArrowToMssql::UInt8ToTinyInt,
            ),
            ArrowType::Int8 if ty == MssqlType::SmallInt => Some(
                PrimitiveArrowToMssql::Int8ToSmallInt,
            ),
            ArrowType::Int16 if ty == MssqlType::SmallInt => Some(
                PrimitiveArrowToMssql::Int16ToSmallInt,
            ),
            ArrowType::Int32 if ty == MssqlType::Int => Some(PrimitiveArrowToMssql::Int32ToInt),
            ArrowType::UInt16 if ty == MssqlType::Int => Some(PrimitiveArrowToMssql::UInt16ToInt),
            ArrowType::Int64 if ty == MssqlType::BigInt => Some(
                PrimitiveArrowToMssql::Int64ToBigInt,
            ),
            ArrowType::UInt32 if ty == MssqlType::BigInt => Some(
                PrimitiveArrowToMssql::UInt32ToBigInt,
            ),
            ArrowType::Float16 if ty == MssqlType::Real => Some(
                PrimitiveArrowToMssql::Float16ToReal,
            ),
            ArrowType::Float32 if ty == MssqlType::Real => Some(
                PrimitiveArrowToMssql::Float32ToReal,
            ),
            ArrowType::Float64 if ty == (MssqlType::Float { precision: 53 }) => Some(
                PrimitiveArrowToMssql::Float64ToFloat,
            ),
            _ => None,
        }
    }

    /// The name of the conversion.
    pub open spec fn text(self) -> Seq<char> {
        match self {
            PrimitiveArrowToMssql::BooleanToBit => "BooleanToBit"@,
            PrimitiveArrowToMssql::UInt8ToTinyInt => "UInt8ToTinyInt"@,
            PrimitiveArrowToMssql::Int8ToSmallInt => "Int8ToSmallInt"@,
            PrimitiveArrowToMssql::Int16ToSmallInt => "Int16ToSmallInt"@,
            PrimitiveArrowToMssql::Int32ToInt => "Int32ToInt"@,
            PrimitiveArrowToMssql::UInt16ToInt => "UInt16ToInt"@,
            PrimitiveArrowToMssql::Int64ToBigInt => "Int64ToBigInt"@,
            PrimitiveArrowToMssql::UInt32ToBigInt => "UInt32ToBigInt"@,
            PrimitiveArrowToMssql::UInt64ToCheckedBigInt => "UInt64ToCheckedBigInt"@,
            PrimitiveArrowToMssql::Float16ToReal => "Float16ToReal"@,
            PrimitiveArrowToMssql::Float32ToReal => "Float32ToReal"@,
            PrimitiveArrowToMssql::Float64ToFloat => "Float64ToFloat"@,
        }
    }

    /// Returns the name of the conversion.
    pub fn name(self) -> (name: &'static str)
        ensures
            name@ == self.text(),
    {
        match self {
            PrimitiveArrowToMssql::BooleanToBit => "BooleanToBit",
            PrimitiveArrowToMssql::UInt8ToTinyInt => "UInt8ToTinyInt",
            PrimitiveArrowToMssql::Int8ToSmallInt => "Int8ToSmallInt",
            PrimitiveArrowToMssql::Int16ToSmallInt => "Int16ToSmallInt",
            PrimitiveArrowToMssql::Int32ToInt => "Int32ToInt",
            PrimitiveArrowToMssql::UInt16ToInt => "UInt16ToInt",
            PrimitiveArrowToMssql::Int64ToBigInt => "Int64ToBigInt",
            PrimitiveArrowToMssql::UInt32ToBigInt => "UInt32ToBigInt",
            PrimitiveArrowToMssql::UInt64ToCheckedBigInt => "UInt64ToCheckedBigInt",
            PrimitiveArrowToMssql::Float16ToReal => "Float16ToReal",
            PrimitiveArrowToMssql::Float32ToReal => "Float32ToReal",
            PrimitiveArrowToMssql::Float64ToFloat => "Float64ToFloat",
        }
    }
}

/// Unsigned 64-bit integer conversion.
#[derive(Debug, Clone, Copy, PartialEq, Eq, Hash, Structural)]
pub enum UInt64ArrowToMssql {
    /// To `decimal(20,0)`.
    Decimal20_0,
    /// To `bigint`, checked for range.
    CheckedBigInt,
}

/// The unsigned 64-bit integer conversion of a mapping, if it has one.
pub open spec fn uint64_class(mapping: SchemaMappingView) -> Option<UInt64ArrowToMssql> {
    match (mapping.arrow.data_type, mapping.mssql.ty) {
        (ArrowType::UInt64, MssqlType::Decimal { precision, scale }) => if precision == 20
            && scale == 0 {
            Some(UInt64ArrowToMssql::Decimal20_0)
        } else {
            None
        },
        (ArrowType::UInt64, MssqlType::BigInt) => Some(UInt64ArrowToMssql::CheckedBigInt),
        _ => None,
    }
}

impl UInt64ArrowToMssql {
    /// Classifies a mapping as an unsigned 64-bit integer conversion.
    pub fn classify(mapping: &SchemaMapping) -> (class: Option<Self>)
        ensures
            class == uint64_class(mapping@),
    {
        let ty: MssqlType = *mapping.mssql().ty();
        match mapping.arrow().data_type() {
            ArrowType::UInt64 => if ty == (MssqlType::Decimal { precision: 20, scale: 0 }) {
                Some(UInt64ArrowToMssql::Decimal20_0)
            } else if ty == MssqlType::BigInt {
                Some(UInt64ArrowToMssql::CheckedBigInt)
            } else {
                None
            },
            _ => None,
        }
    }
}

/// Decimal conversion.
#[derive(Debug, Clone, Copy, PartialEq, Eq, Hash, Structural)]
pub enum DecimalArrowToMssql {
    /// From a 32-bit decimal.
    Decimal32 {
        /// Planned precision.
        target_precision: u8,
        /// Planned scale.
        target_scale: u8,
        /// Arrow scale, negative when values are multiplied up to scale zero.
        arrow_scale: i8,
    },
    /// From a 64-bit decimal.
    Decimal64 {
        /// Planned precision.
        target_precision: u8,
        /// Planned scale.
        target_scale: u8,
        /// Arrow scale, negative when values are multiplied up to scale zero.
        arrow_scale: i8,
    },
    /// From a 128-bit decimal.
    Decimal128 {
        /// Planned precision.
        target_precision: u8,
        /// Planned scale.
        target_scale: u8,
        /// Arrow scale, negative when values are multiplied up to scale zero.
        arrow_scale: i8,
    },
    /// From a 256-bit decimal whose values are checked to fit 128 bits.
    Decimal256CheckedDowncast {
        /// Planned precision.
        target_precision: u8,
        /// Planned scale.
        target_scale: u8,
        /// Arrow scale, negative when values are multiplied up to scale zero.
        arrow_scale: i8,
    },
}

/// Largest decimal scale of a TDS numeric.
pub const MAX_DECIMAL_SCALE: i8 = 37;

/// Whether values of an Arrow scale can be written at a planned scale: unchanged when the Arrow
/// scale is not negative, multiplied up to scale zero when it is.
pub open spec fn decimal_scales_agree(arrow_scale: i8, target_scale: i8) -> bool {
    &&& 0 <= target_scale <= MAX_DECIMAL_SCALE
    &&& target_scale == (if arrow_scale < 0 {
        0i8
    } else {
        arrow_scale
    })
}

/// The decimal conversion of a mapping, if it has one.
pub open spec fn decimal_class(mapping: SchemaMappingView) -> Option<DecimalArrowToMssql> {
    match (mapping.arrow.data_type, mapping.mssql.ty) {
        (ArrowType::Decimal32(_, arrow_scale), MssqlType::Decimal { precision, scale }) => {
            if decimal_scales_agree(arrow_scale, scale) {
                Some(
                    DecimalArrowToMssql::Decimal32 {
                        target_precision: precision,
                        target_scale: scale as u8,
                        arrow_scale,
                    },
                )
            } else {
                None
            }
        },
        (ArrowType::Decimal64(_, arrow_scale), MssqlType::Decimal { precision, scale }) => {
            if decimal_scales_agree(arrow_scale, scale) {
                Some(
                    DecimalArrowToMssql::Decimal64 {
                        target_precision: precision,
                        target_scale: scale as u8,
                        arrow_scale,
                    },
                )
            } else {
                None
            }
        },
        (ArrowType::Decimal128(_, arrow_scale), MssqlType::Decimal { precision, scale }) => {
            if decimal_scales_agree(arrow_scale, scale) {
                Some(
                    DecimalArrowToMssql::Decimal128 {
                        target_precision: precision,
                        target_scale: scale as u8,
                        arrow_scale,
                    },
                )
            } else {
                None
            }
        },
        (ArrowType::Decimal256(_, arrow_scale), MssqlType::Decimal { precision, scale }) => {
            if decimal_scales_agree(arrow_scale, scale) {
                Some(
                    DecimalArrowToMssql::Decimal256CheckedDowncast {
                        target_precision: precision,
                        target_scale: scale as u8,
                        arrow_scale,
                    },
                )
            } else {
                None
            }
        },
        _ => None,
    }
}

/// Whether values of an Arrow scale can be written at a planned scale.
fn scales_agree(arrow_scale: i8, target_scale: i8) -> (result: bool)
    ensures
        result == decimal_scales_agree(arrow_scale, target_scale),
{
    let expected: i8 = if arrow_scale < 0 {
        0
    } else {
        arrow_scale
    };
    target_scale >= 0 && target_scale <= MAX_DECIMAL_SCALE && target_scale == expected
}

impl DecimalArrowToMssql {
    /// Classifies a mapping as a decimal conversion.
    pub fn classify(mapping: &SchemaMapping) -> (class: Option<Self>)
        ensures
            class == decimal_class(mapping@),
    {
        let (precision, scale): (u8, i8) = match *mapping.mssql().ty() {
            MssqlType::Decimal { precision, scale } => (precision, scale),
            _ => {
                return None;
            },
        };
        match mapping.arrow().data_type() {
            ArrowType::Decimal32(_, arrow_scale) if scales_agree(*arrow_scale, scale) => Some(
                DecimalArrowToMssql::Decimal32 {
                    target_precision: precision,
                    target_scale: scale as u8,
                    arrow_scale: *arrow_scale,
                },
            ),
            ArrowType::Decimal64(_, arrow_scale) if scales_agree(*arrow_scale, scale) => Some(
                DecimalArrowToMssql::Decimal64 {
                    target_precision: precision,
                    target_scale: scale as u8,
                    arrow_scale: *arrow_scale,
                },
            ),
            ArrowType::Decimal128(_, arrow_scale) if scales_agree(*arrow_scale, scale) => Some(
                DecimalArrowToMssql::Decimal128 {
                    target_precision: precision,
                    target_scale: scale as u8,
                    arrow_scale: *arrow_scale,
                },
            ),
            ArrowType::Decimal256(_, arrow_scale) if scales_agree(*arrow_scale, scale) => Some(
                DecimalArrowToMssql::Decimal256CheckedDowncast {
                    target_precision: precision,
                    target_scale: scale as u8,
                    arrow_scale: *arrow_scale,
                },
            ),
            _ => None,
        }
    }
}

/// Variable-width conversion.
#[derive(Debug, Clone, Copy, PartialEq, Eq, Hash, Structural)]
pub enum VariableWidthArrowToMssql {
    /// Any string layout to `nvarchar`.
    StringToNVarChar {
        /// Declared length.
        length: MssqlTypeLength,
    },
    /// Any variable-width byte layout to `varbinary`.
    BytesToVarBinary {
        /// Declared length.
        length: MssqlTypeLength,
    },
}

impl VariableWidthArrowToMssql {
    /// The text of the conversion in a message.
    pub open spec fn text(self) -> Seq<char> {
        match self {
            VariableWidthArrowToMssql::StringToNVarChar { length } => "StringToNVarChar { length: "@
                + length_debug_text(length) + " }"@,
            VariableWidthArrowToMssql::BytesToVarBinary { length } => "BytesToVarBinary { length: "@
                + length_debug_text(length) + " }"@,
        }
    }

    /// Returns the text of the conversion in a message.
    pub fn to_text(self) -> (text: String)
        ensures
            text@ == self.text(),
    {
        let mut text: String;
        let declared: MssqlTypeLength;
        match self {
            VariableWidthArrowToMssql::StringToNVarChar { length } => {
                text = String::from_str("StringToNVarChar { length: ");
                declared = length;
            },
            VariableWidthArrowToMssql::BytesToVarBinary { length } => {
                text = String::from_str("BytesToVarBinary { length: ");
                declared = length;
            },
        }
        append_length_debug(&mut text, declared);
        text.append(" }");
        text
    }
}

/// Whether a type is one of the string layouts.
pub open spec fn is_string_family<S>(data_type: ArrowType<S>) -> bool {
    data_type is Utf8 || data_type is LargeUtf8 || data_type is Utf8View
}

/// Whether a type is one of the variable-width byte layouts.
pub open spec fn is_binary_family<S>(data_type: ArrowType<S>) -> bool {
    data_type is Binary || data_type is LargeBinary || data_type is BinaryView
}

/// The variable-width conversion of a mapping, if it has one.
pub open spec fn variable_width_class(mapping: SchemaMappingView) -> Option<
    VariableWidthArrowToMssql,
> {
    match mapping.mssql.ty {
        MssqlType::NVarChar(length) => if is_string_family(mapping.arrow.data_type) {
            Some(VariableWidthArrowToMssql::StringToNVarChar { length })
        } else {
            None
        },
        MssqlType::VarBinary(length) => if is_binary_family(mapping.arrow.data_type) {
            Some(VariableWidthArrowToMssql::BytesToVarBinary { length })
        } else {
            None
        },
        _ => None,
    }
}

/// Returns true when a mapping writes a string layout to `nvarchar`.
pub fn is_string_family_to_nvarchar(mapping: &SchemaMapping) -> (result: bool)
    ensures
        result == (mapping@.mssql.ty is NVarChar && is_string_family(mapping@.arrow.data_type)),
{
    matches!(*mapping.mssql().ty(), MssqlType::NVarChar(_)) && matches!(
        mapping.arrow().data_type(),
        ArrowType::Utf8 | ArrowType::LargeUtf8 | ArrowType::Utf8View
    )
}

/// Returns true when a mapping writes a variable-width byte layout to `varbinary`.
pub fn is_binary_family_to_varbinary(mapping: &SchemaMapping) -> (result: bool)
    ensures
        result == (mapping@.mssql.ty is VarBinary && is_binary_family(mapping@.arrow.data_type)),
{
    matches!(*mapping.mssql().ty(), MssqlType::VarBinary(_)) && matches!(
        mapping.arrow().data_type(),
        ArrowType::Binary | ArrowType::LargeBinary | ArrowType::BinaryView
    )
}

impl VariableWidthArrowToMssql {
    /// Classifies a mapping as a variable-width conversion.
    pub fn classify(mapping: &SchemaMapping) -> (class: Option<Self>)
        ensures
            class == variable_width_class(mapping@),
    {
        match *mapping.mssql().ty() {
            MssqlType::NVarChar(length) if is_string_family_to_nvarchar(mapping) => Some(
                VariableWidthArrowToMssql::StringToNVarChar { length },
            ),
            MssqlType::VarBinary(length) if is_binary_family_to_varbinary(mapping) => Some(
                VariableWidthArrowToMssql::BytesToVarBinary { length },
            ),
            _ => None,
        }
    }
}

/// Fixed-size binary conversion.
#[derive(Debug, Clone, Copy, PartialEq, Eq, Hash, Structural)]
pub enum FixedSizeBinaryArrowToMssql {
    /// Fixed-size binary to `binary` of the same length.
    FixedSizeBinaryToBinary {
        /// Length in bytes.
        length: usize,
    },
}

/// Largest length of a SQL Server `binary`.
pub const MAX_BINARY_LENGTH: i32 = 8000;

/// The fixed-size binary conversion of a mapping, if it has one.
pub open spec fn fixed_size_binary_class(mapping: SchemaMappingView) -> Option<
    FixedSizeBinaryArrowToMssql,
> {
    match (mapping.arrow.data_type, mapping.mssql.ty) {
        (ArrowType::FixedSizeBinary(size), MssqlType::Binary(length)) => if 0 < size
            <= MAX_BINARY_LENGTH && size == length {
            Some(FixedSizeBinaryArrowToMssql::FixedSizeBinaryToBinary { length })
        } else {
            None
        },
        _ => None,
    }
}

impl FixedSizeBinaryArrowToMssql {
    /// Classifies a mapping as a fixed-size binary conversion.
    pub fn classify(mapping: &SchemaMapping) -> (class: Option<Self>)
        ensures
            class == fixed_size_binary_class(mapping@),
    {
        match mapping.arrow().data_type() {
            ArrowType::FixedSizeBinary(size) => match *mapping.mssql().ty() {
                MssqlType::Binary(length) => if *size > 0 && *size <= MAX_BINARY_LENGTH
                    && *size as usize == length {
                    Some(FixedSizeBinaryArrowToMssql::FixedSizeBinaryToBinary { length })
                } else {
                    None
                },
                _ => None,
            },
            _ => None,
        }
    }
}

/// Date and time conversion.
#[derive(Debug, Clone, Copy, PartialEq, Eq, Hash, Structural)]
pub enum TemporalArrowToMssql {
    /// Days to `date`.
    Date32ToDate,
    /// Milliseconds to `datetime2(3)`.
    Date64ToDateTime2,
    /// Time of day in seconds to `time(0)`.
    Time32SecondToTime,
    /// Time of day in milliseconds to `time(3)`.
    Time32MillisecondToTime,
    /// Time of day in microseconds to `time(6)`.
    Time64MicrosecondToTime,
    /// Time of day in nanoseconds to `time(7)`.
    Time64NanosecondToTime,
    /// Second timestamp to `datetime`.
    TimestampSecondToDateTime,
    /// Millisecond timestamp to `datetime`.
    TimestampMillisecondToDateTime,
    /// Microsecond timestamp to `datetime`.
    TimestampMicrosecondToDateTime,
    /// Nanosecond timestamp to `datetime`.
    TimestampNanosecondToDateTime,
    /// Second timestamp to `datetime2`.
    TimestampSecondToDateTime2,
    /// Millisecond timestamp to `datetime2`.
    TimestampMillisecondToDateTime2,
    /// Microsecond timestamp to `datetime2`.
    TimestampMicrosecondToDateTime2,
    /// Nanosecond timestamp to `datetime2`.
    TimestampNanosecondToDateTime2,
    /// Second timestamp with a timezone to `datetime2` in UTC.
    TimestampSecondTzToDateTime2,
    /// Millisecond timestamp with a timezone to `datetime2` in UTC.
    TimestampMillisecondTzToDateTime2,
    /// Microsecond timestamp with a timezone to `datetime2` in UTC.
    TimestampMicrosecondTzToDateTime2,
    /// Nanosecond timestamp with a timezone to `datetime2` in UTC.
    TimestampNanosecondTzToDateTime2,
    /// Second timestamp with a timezone to `datetimeoffset(7)`.
    TimestampSecondTzToDateTimeOffset,
    /// Millisecond timestamp with a timezone to `datetimeoffset(7)`.
    TimestampMillisecondTzToDateTimeOffset,
    /// Microsecond timestamp with a timezone to `datetimeoffset(7)`.
    TimestampMicrosecondTzToDateTimeOffset,
    /// Nanosecond timestamp with a timezone to `datetimeoffset(7)`.
    TimestampNanosecondTzToDateTimeOffset,
}

/// The `time` conversion of a time of day, if it has one: each unit has one precision.
pub open spec fn time_class(wide: bool, unit: TimeUnit, precision: MssqlTimePrecision) -> Option<
    TemporalArrowToMssql,
> {
    match (wide, unit, precision) {
        (false, TimeUnit::Second, MssqlTimePrecision::Zero) => Some(
            TemporalArrowToMssql::Time32SecondToTime,
        ),
        (false, TimeUnit::Millisecond, MssqlTimePrecision::Three) => Some(
            TemporalArrowToMssql::Time32MillisecondToTime,
        ),
        (true, TimeUnit::Microsecond, MssqlTimePrecision::Six) => Some(
            TemporalArrowToMssql::Time64MicrosecondToTime,
        ),
        (true, TimeUnit::Nanosecond, MssqlTimePrecision::Seven) => Some(
            TemporalArrowToMssql::Time64NanosecondToTime,
        ),
        _ => None,
    }
}

/// The `datetime` conversion of a timestamp.
pub open spec fn datetime_class(unit: TimeUnit) -> TemporalArrowToMssql {
    match unit {
        TimeUnit::Second => TemporalArrowToMssql::TimestampSecondToDateTime,
        TimeUnit::Millisecond => TemporalArrowToMssql::TimestampMillisecondToDateTime,
        TimeUnit::Microsecond => TemporalArrowToMssql::TimestampMicrosecondToDateTime,
        TimeUnit::Nanosecond => TemporalArrowToMssql::TimestampNanosecondToDateTime,
    }
}

/// The `datetime2` conversion of a timestamp, by whether it has a timezone.
pub open spec fn datetime2_class(unit: TimeUnit, zoned: bool) -> TemporalArrowToMssql {
    match (unit, zoned) {
        (TimeUnit::Second, false) => TemporalArrowToMssql::TimestampSecondToDateTime2,
        (TimeUnit::Millisecond, false) => TemporalArrowToMssql::TimestampMillisecondToDateTime2,
        (TimeUnit::Microsecond, false) => TemporalArrowToMssql::TimestampMicrosecondToDateTime2,
        (TimeUnit::Nanosecond, false) => TemporalArrowToMssql::TimestampNanosecondToDateTime2,
        (TimeUnit::Second, true) => TemporalArrowToMssql::TimestampSecondTzToDateTime2,
        (TimeUnit::Millisecond, true) => TemporalArrowToMssql::TimestampMillisecondTzToDateTime2,
        (TimeUnit::Microsecond, true) => TemporalArrowToMssql::TimestampMicrosecondTzToDateTime2,
        (TimeUnit::Nanosecond, true) => TemporalArrowToMssql::TimestampNanosecondTzToDateTime2,
    }
}

/// The `datetimeoffset` conversion of a timestamp with a timezone.
pub open spec fn datetimeoffset_class(unit: TimeUnit) -> TemporalArrowToMssql {
    match unit {
        TimeUnit::Second => TemporalArrowToMssql::TimestampSecondTzToDateTimeOffset,
        TimeUnit::Millisecond => TemporalArrowToMssql::TimestampMillisecondTzToDateTimeOffset,
        TimeUnit::Microsecond => TemporalArrowToMssql::TimestampMicrosecondTzToDateTimeOffset,
        TimeUnit::Nanosecond => TemporalArrowToMssql::TimestampNanosecondTzToDateTimeOffset,
    }
}

/// Whether timezone metadata names a timezone.
pub open spec fn names_timezone(timezone: Option<Seq<char>>) -> bool {
    timezone is Some && timezone->0.len() > 0
}

/// The date and time conversion of a mapping, if it has one.
pub open spec fn temporal_class(mapping: SchemaMappingView) -> Option<TemporalArrowToMssql> {
    match (mapping.arrow.data_type, mapping.mssql.ty) {
        (ArrowType::Date32, MssqlType::Date) => Some(TemporalArrowToMssql::Date32ToDate),
        (ArrowType::Date64, MssqlType::DateTime2 { precision }) => if precision == 3 {
            Some(TemporalArrowToMssql::Date64ToDateTime2)
        } else {
            None
        },
        (ArrowType::Time32(unit), MssqlType::Time(precision)) => time_class(false, unit, precision),
        (ArrowType::Time64(unit), MssqlType::Time(precision)) => time_class(true, unit, precision),
        (ArrowType::Timestamp(unit, _), MssqlType::DateTime) => Some(datetime_class(unit)),
        (ArrowType::Timestamp(unit, timezone), MssqlType::DateTime2 { precision }) => if precision
            <= 7 {
            Some(datetime2_class(unit, names_timezone(timezone)))
        } else {
            None
        },
        (ArrowType::Timestamp(unit, Some(_)), MssqlType::DateTimeOffset { precision }) => {
            if precision == 7 {
                Some(datetimeoffset_class(unit))
            } else {
                None
            }
        },
        _ => None,
    }
}

/// Classifies a time of day.
fn classify_time(wide: bool, unit: TimeUnit, precision: MssqlTimePrecision) -> (class: Option<
    TemporalArrowToMssql,
>)
    ensures
        class == time_class(wide, unit, precision),
{
    match (wide, unit, precision) {
        (false, TimeUnit::Second, MssqlTimePrecision::Zero) => Some(
            TemporalArrowToMssql::Time32SecondToTime,
        ),
        (false, TimeUnit::Millisecond, MssqlTimePrecision::Three) => Some(
            TemporalArrowToMssql::Time32MillisecondToTime,
        ),
        (true, TimeUnit::Microsecond, MssqlTimePrecision::Six) => Some(
            TemporalArrowToMssql::Time64MicrosecondToTime,
        ),
        (true, TimeUnit::Nanosecond, MssqlTimePrecision::Seven) => Some(
            TemporalArrowToMssql::Time64NanosecondToTime,
        ),
        _ => None,
    }
}

/// Classifies a timestamp.
fn classify_timestamp(unit: TimeUnit, timezone: &Option<String>, ty: MssqlType) -> (class: Option<
    TemporalArrowToMssql,
>)
    ensures
        class == (match ty {
            MssqlType::DateTime => Some(datetime_class(unit)),
            MssqlType::DateTime2 { precision } => if precision <= 7 {
                Some(
                    datetime2_class(
                        unit,
                        match *timezone {
                            Some(timezone) => timezone@.len() > 0,
                            None => false,
                        },
                    ),
                )
            } else {
                None
            },
            MssqlType::DateTimeOffset { precision } => if precision == 7 && timezone is Some {
                Some(datetimeoffset_class(unit))
            } else {
                None
            },
            _ => None,
        }),
{
    match ty {
        MssqlType::DateTime => Some(
            match unit {
                TimeUnit::Second => TemporalArrowToMssql::TimestampSecondToDateTime,
                TimeUnit::Millisecond => TemporalArrowToMssql::TimestampMillisecondToDateTime,
                TimeUnit::Microsecond => TemporalArrowToMssql::TimestampMicrosecondToDateTime,
                TimeUnit::Nanosecond => TemporalArrowToMssql::TimestampNanosecondToDateTime,
            },
        ),
        MssqlType::DateTime2 { precision } if precision <= 7 => {
            let zoned: bool = match timezone {
                Some(timezone) => !timezone.as_str().is_empty(),
                None => false,
            };
            Some(
                match (unit, zoned) {
                    (TimeUnit::Second, false) => TemporalArrowToMssql::TimestampSecondToDateTime2,
                    (TimeUnit::Millisecond, false) => {
                        TemporalArrowToMssql::TimestampMillisecondToDateTime2
                    },
                    (TimeUnit::Microsecond, false) => {
                        TemporalArrowToMssql::TimestampMicrosecondToDateTime2
                    },
                    (TimeUnit::Nanosecond, false) => {
                        TemporalArrowToMssql::TimestampNanosecondToDateTime2
                    },
                    (TimeUnit::Second, true) => TemporalArrowToMssql::TimestampSecondTzToDateTime2,
                    (TimeUnit::Millisecond, true) => {
                        TemporalArrowToMssql::TimestampMillisecondTzToDateTime2
                    },
                    (TimeUnit::Microsecond, true) => {
                        TemporalArrowToMssql::TimestampMicrosecondTzToDateTime2
                    },
                    (TimeUnit::Nanosecond, true) => {
                        TemporalArrowToMssql::TimestampNanosecondTzToDateTime2
                    },
                },
            )
        },
        MssqlType::DateTimeOffset { precision } if precision == 7 && timezone.is_some() => Some(
            match unit {
                TimeUnit::Second => TemporalArrowToMssql::TimestampSecondTzToDateTimeOffset,
                TimeUnit::Millisecond => {
                    TemporalArrowToMssql::TimestampMillisecondTzToDateTimeOffset
                },
                TimeUnit::Microsecond => {
                    TemporalArrowToMssql::TimestampMicrosecondTzToDateTimeOffset
                },
                TimeUnit::Nanosecond => TemporalArrowToMssql::TimestampNanosecondTzToDateTimeOffset,
            },
        ),
        _ => None,
    }
}

impl TemporalArrowToMssql {
    /// Classifies a mapping as a date and time conversion.
    pub fn classify(mapping: &SchemaMapping) -> (class: Option<Self>)
        ensures
            class == temporal_class(mapping@),
    {
        let ty: MssqlType = *mapping.mssql().ty();
        match mapping.arrow().data_type() {
            ArrowType::Date32 if ty == MssqlType::Date => Some(TemporalArrowToMssql::Date32ToDate),
            ArrowType::Date64 if ty == (MssqlType::DateTime2 { precision: 3 }) => Some(
                TemporalArrowToMssql::Date64ToDateTime2,
            ),
            ArrowType::Time32(unit) => match ty {
                MssqlType::Time(precision) => classify_time(false, *unit, precision),
                _ => None,
            },
            ArrowType::Time64(unit) => match ty {
                MssqlType::Time(precision) => classify_time(true, *unit, precision),
                _ => None,
            },
            ArrowType::Timestamp(unit, timezone) => classify_timestamp(*unit, timezone, ty),
            _ => None,
        }
    }
}

} // verus!
