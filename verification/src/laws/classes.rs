//! Laws of the classes of mappings.

use vstd::prelude::*;

use crate::arrow_type::{ArrowType, DataTypeView, TimeUnit};
use crate::classify::{
    decimal_class, fixed_size_binary_class, primitive_class, temporal_class, uint64_class,
    variable_width_class, DecimalArrowToMssql, FixedSizeBinaryArrowToMssql, PrimitiveArrowToMssql,
    TemporalArrowToMssql, VariableWidthArrowToMssql,
};
use crate::direct::plan::{
    current_encoding, support_of, DirectColumnEncoding, DirectMappingSupportOf,
};
use crate::float::{float16_class, float32_class, float64_class};
use crate::laws::plans::is_encoded_as;
use crate::laws::values::{is_bytes_type, is_text_type};
use crate::mapping::SchemaMappingView;
use crate::message::NonFinite;
use crate::mssql_type::MssqlType;

verus! {

/// Whether a primitive class has the name of the types of a mapping.
pub open spec fn is_primitive_of(class: PrimitiveArrowToMssql, mapping: SchemaMappingView) -> bool {
    let data_type = mapping.arrow.data_type;
    let ty = mapping.mssql.ty;
    match class {
        PrimitiveArrowToMssql::BooleanToBit => data_type is Boolean && ty is Bit,
        PrimitiveArrowToMssql::UInt8ToTinyInt => data_type is UInt8 && ty is TinyInt,
        PrimitiveArrowToMssql::Int8ToSmallInt => data_type is Int8 && ty is SmallInt,
        PrimitiveArrowToMssql::Int16ToSmallInt => data_type is Int16 && ty is SmallInt,
        PrimitiveArrowToMssql::Int32ToInt => data_type is Int32 && ty is Int,
        PrimitiveArrowToMssql::UInt16ToInt => data_type is UInt16 && ty is Int,
        PrimitiveArrowToMssql::Int64ToBigInt => data_type is Int64 && ty is BigInt,
        PrimitiveArrowToMssql::UInt32ToBigInt => data_type is UInt32 && ty is BigInt,
        PrimitiveArrowToMssql::UInt64ToCheckedBigInt => data_type is UInt64 && ty is BigInt,
        PrimitiveArrowToMssql::Float16ToReal => data_type is Float16 && ty is Real,
        PrimitiveArrowToMssql::Float32ToReal => data_type is Float32 && ty is Real,
        PrimitiveArrowToMssql::Float64ToFloat => data_type is Float64 && ty is Float,
    }
}

/// Whether a decimal class has the name of the types of a mapping, and their scales and precision.
pub open spec fn is_decimal_class_of(
    class: DecimalArrowToMssql,
    mapping: SchemaMappingView,
) -> bool {
    match (class, mapping.arrow.data_type, mapping.mssql.ty) {
        (
            DecimalArrowToMssql::Decimal32 { target_precision, target_scale, arrow_scale },
            ArrowType::Decimal32(_, found),
            MssqlType::Decimal { precision, scale },
        ) => target_precision == precision && target_scale == scale && arrow_scale == found,
        (
            DecimalArrowToMssql::Decimal64 { target_precision, target_scale, arrow_scale },
            ArrowType::Decimal64(_, found),
            MssqlType::Decimal { precision, scale },
        ) => target_precision == precision && target_scale == scale && arrow_scale == found,
        (
            DecimalArrowToMssql::Decimal128 { target_precision, target_scale, arrow_scale },
            ArrowType::Decimal128(_, found),
            MssqlType::Decimal { precision, scale },
        ) => target_precision == precision && target_scale == scale && arrow_scale == found,
        (
            DecimalArrowToMssql::Decimal256CheckedDowncast {
                target_precision,
                target_scale,
                arrow_scale,
            },
            ArrowType::Decimal256(_, found),
            MssqlType::Decimal { precision, scale },
        ) => target_precision == precision && target_scale == scale && arrow_scale == found,
        _ => false,
    }
}

/// Whether a type is a timestamp of a unit, with a timezone of some characters or without.
pub open spec fn is_timestamp_type(data_type: DataTypeView, unit: TimeUnit, zoned: bool) -> bool {
    data_type matches ArrowType::Timestamp(found, timezone) && found == unit && zoned == (
    timezone matches Some(name) && name.len() > 0)
}

/// Whether a temporal class has the name of the types of a mapping.
pub open spec fn is_temporal_of(class: TemporalArrowToMssql, mapping: SchemaMappingView) -> bool {
    let data_type = mapping.arrow.data_type;
    let ty = mapping.mssql.ty;
    match class {
        TemporalArrowToMssql::Date32ToDate => data_type is Date32 && ty is Date,
        TemporalArrowToMssql::Date64ToDateTime2 => data_type is Date64 && ty is DateTime2,
        TemporalArrowToMssql::Time32SecondToTime => {
            data_type matches ArrowType::Time32(unit) && unit is Second && ty is Time
        },
        TemporalArrowToMssql::Time32MillisecondToTime => {
            data_type matches ArrowType::Time32(unit) && unit is Millisecond && ty is Time
        },
        TemporalArrowToMssql::Time64MicrosecondToTime => {
            data_type matches ArrowType::Time64(unit) && unit is Microsecond && ty is Time
        },
        TemporalArrowToMssql::Time64NanosecondToTime => {
            data_type matches ArrowType::Time64(unit) && unit is Nanosecond && ty is Time
        },
        TemporalArrowToMssql::TimestampSecondToDateTime => {
            data_type matches ArrowType::Timestamp(unit, _) && unit is Second && ty is DateTime
        },
        TemporalArrowToMssql::TimestampMillisecondToDateTime => {
            data_type matches ArrowType::Timestamp(unit, _) && unit is Millisecond && ty is DateTime
        },
        TemporalArrowToMssql::TimestampMicrosecondToDateTime => {
            data_type matches ArrowType::Timestamp(unit, _) && unit is Microsecond && ty is DateTime
        },
        TemporalArrowToMssql::TimestampNanosecondToDateTime => {
            data_type matches ArrowType::Timestamp(unit, _) && unit is Nanosecond && ty is DateTime
        },
        TemporalArrowToMssql::TimestampSecondToDateTime2 => is_timestamp_type(
            data_type,
            TimeUnit::Second,
            false,
        ) && ty is DateTime2,
        TemporalArrowToMssql::TimestampMillisecondToDateTime2 => is_timestamp_type(
            data_type,
            TimeUnit::Millisecond,
            false,
        ) && ty is DateTime2,
        TemporalArrowToMssql::TimestampMicrosecondToDateTime2 => is_timestamp_type(
            data_type,
            TimeUnit::Microsecond,
            false,
        ) && ty is DateTime2,
        TemporalArrowToMssql::TimestampNanosecondToDateTime2 => is_timestamp_type(
            data_type,
            TimeUnit::Nanosecond,
            false,
        ) && ty is DateTime2,
        TemporalArrowToMssql::TimestampSecondTzToDateTime2 => is_timestamp_type(
            data_type,
            TimeUnit::Second,
            true,
        ) && ty is DateTime2,
        TemporalArrowToMssql::TimestampMillisecondTzToDateTime2 => is_timestamp_type(
            data_type,
            TimeUnit::Millisecond,
            true,
        ) && ty is DateTime2,
        TemporalArrowToMssql::TimestampMicrosecondTzToDateTime2 => is_timestamp_type(
            data_type,
            TimeUnit::Microsecond,
            true,
        ) && ty is DateTime2,
        TemporalArrowToMssql::TimestampNanosecondTzToDateTime2 => is_timestamp_type(
            data_type,
            TimeUnit::Nanosecond,
            true,
        ) && ty is DateTime2,
        TemporalArrowToMssql::TimestampSecondTzToDateTimeOffset => {
            data_type matches ArrowType::Timestamp(unit, Some(_)) && unit is Second && ty
                is DateTimeOffset
        },
        TemporalArrowToMssql::TimestampMillisecondTzToDateTimeOffset => {
            data_type matches ArrowType::Timestamp(unit, Some(_)) && unit is Millisecond && ty
                is DateTimeOffset
        },
        TemporalArrowToMssql::TimestampMicrosecondTzToDateTimeOffset => {
            data_type matches ArrowType::Timestamp(unit, Some(_)) && unit is Microsecond && ty
                is DateTimeOffset
        },
        TemporalArrowToMssql::TimestampNanosecondTzToDateTimeOffset => {
            data_type matches ArrowType::Timestamp(unit, Some(_)) && unit is Nanosecond && ty
                is DateTimeOffset
        },
    }
}

/// Whether an encoding has the name of the types of a mapping, and their length.
pub open spec fn is_encoding_of(
    encoding: DirectColumnEncoding,
    mapping: SchemaMappingView,
) -> bool {
    let data_type = mapping.arrow.data_type;
    match encoding {
        DirectColumnEncoding::Primitive(class) => is_primitive_of(class, mapping),
        DirectColumnEncoding::UInt64Decimal20_0 => data_type is UInt64 && mapping.mssql.ty == (
        MssqlType::Decimal { precision: 20, scale: 0 }),
        DirectColumnEncoding::Decimal(class) => is_decimal_class_of(class, mapping),
        DirectColumnEncoding::VariableWidth(
            VariableWidthArrowToMssql::StringToNVarChar { length },
        ) => is_text_type(data_type) && mapping.mssql.ty == MssqlType::NVarChar(length),
        DirectColumnEncoding::VariableWidth(
            VariableWidthArrowToMssql::BytesToVarBinary { length },
        ) => is_bytes_type(data_type) && mapping.mssql.ty == MssqlType::VarBinary(length),
        DirectColumnEncoding::FixedSizeBinary(
            FixedSizeBinaryArrowToMssql::FixedSizeBinaryToBinary { length },
        ) => data_type is FixedSizeBinary && mapping.mssql.ty == MssqlType::Binary(length),
        DirectColumnEncoding::Temporal(class) => is_temporal_of(class, mapping),
    }
}

/// The encoding of a mapping has the name of its types, and a mapping is supported with it or not
/// at all.
pub proof fn law_encodings_name_their_types(mapping: SchemaMappingView)
    ensures
        current_encoding(mapping) matches Some(encoding) ==> is_encoding_of(encoding, mapping),
        support_of(mapping, current_encoding(mapping)) is Supported <==> is_encoded_as(mapping),
        support_of(mapping, current_encoding(mapping)) matches DirectMappingSupportOf::Supported {
            encoding,
        } ==> is_encoding_of(encoding, mapping),
{
}

/// Each family classifies the mappings that it encodes, under the name of their types, and no
/// other.
pub proof fn law_families_classify_their_mappings(mapping: SchemaMappingView)
    ensures
        ({
            let data_type = mapping.arrow.data_type;
            let ty = mapping.mssql.ty;
            let fits = is_encoded_as(mapping);
            &&& primitive_class(mapping) is Some <==> fits && !(data_type is UInt64) && (ty is Bit
                || ty is TinyInt || ty is SmallInt || ty is Int || ty is BigInt || ty is Real || ty
                is Float)
            &&& primitive_class(mapping) matches Some(class) ==> is_primitive_of(class, mapping)
            &&& uint64_class(mapping) is Some <==> fits && data_type is UInt64
            &&& uint64_class(mapping) matches Some(class) ==> (class is CheckedBigInt <==> ty
                is BigInt)
            &&& decimal_class(mapping) is Some <==> fits && !(data_type is UInt64) && ty is Decimal
            &&& decimal_class(mapping) matches Some(class) ==> is_decimal_class_of(class, mapping)
            &&& variable_width_class(mapping) is Some <==> fits && (ty is NVarChar || ty
                is VarBinary)
            &&& fixed_size_binary_class(mapping) is Some <==> fits && ty is Binary
            &&& temporal_class(mapping) is Some <==> fits && (ty is Date || ty is Time || ty
                is DateTime || ty is DateTime2 || ty is DateTimeOffset)
            &&& temporal_class(mapping) matches Some(class) ==> is_temporal_of(class, mapping)
        }),
{
}

/// Whether the kind of a float that is not finite follows from its sign and its fraction.
pub open spec fn is_kind(kind: NonFinite, negative: bool, fraction: int) -> bool {
    match kind {
        NonFinite::NaN => fraction != 0,
        NonFinite::Infinity => fraction == 0 && !negative,
        NonFinite::NegativeInfinity => fraction == 0 && negative,
    }
}

/// A float is not finite exactly when its exponent is all ones. It is then infinite, with its sign,
/// when its fraction is zero, and no number otherwise.
pub proof fn law_floats_are_finite_by_their_exponent(half: u16, single: u32, double: u64)
    ensures
        float16_class(half) is None <==> (half as int / 1024) % 32 != 31,
        float16_class(half) matches Some(kind) ==> is_kind(
            kind,
            half as int / 32768 == 1,
            half as int % 1024,
        ),
        float32_class(single) is None <==> (single as int / 8388608) % 256 != 255,
        float32_class(single) matches Some(kind) ==> is_kind(
            kind,
            single as int / 2147483648 == 1,
            single as int % 8388608,
        ),
        float64_class(double) is None <==> (double as int / 4503599627370496) % 2048 != 2047,
        float64_class(double) matches Some(kind) ==> is_kind(
            kind,
            double as int / 9223372036854775808 == 1,
            double as int % 4503599627370496,
        ),
{
}

} // verus!
