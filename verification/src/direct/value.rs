//! Conversion of Arrow cells to the cells of a direct TDS row payload.

use vstd::prelude::*;

use crate::arrow_type::{ArrowType, TimeUnit};
use crate::cell::{ArrowCell, ArrowCellOf, ArrowCellView, MssqlCellOf};
use crate::classify::{
    FixedSizeBinaryArrowToMssql, PrimitiveArrowToMssql, TemporalArrowToMssql,
    VariableWidthArrowToMssql,
};
use crate::context::{NanosecondPolicy, PlanOptions};
use crate::convert::{
    bigint_outcome, bit_outcome, borrow_timezone, date_value_outcome, datetime2_value_outcome,
    datetimeoffset_value_outcome, float_outcome, int_outcome, mssql_bigint_value, mssql_bit_value,
    mssql_date_value, mssql_datetime2_value, mssql_datetimeoffset_value, mssql_float_value,
    mssql_int_value, mssql_real_value, mssql_smallint_value, mssql_tinyint_value,
    mssql_varbinary_value, nvar_char_cell, nvarchar_cell_outcome, real_outcome, smallint_outcome,
    tinyint_outcome, var_binary_cell, varbinary_cell_outcome, varbinary_outcome,
    ArrowToMssqlRuntimeMapping,
};
use crate::decimal::{decimal_value_outcome, mssql_decimal_value};
use crate::diagnostic::{
    outcome, payload_error, DiagnosticCode, ErrorView, Result,
};
use crate::direct::cell::{
    cell_bytes, is_countable, law_bounded_cell_round_trip, law_unbounded_cell_round_trip,
    lemma_variable_cell_len, time_width, twos_complement_16, twos_complement_32,
    variable_cell_bytes, DirectCell, DirectCellOf, DirectCellView, UNBOUNDED_FRAME_LEN,
};
use crate::direct::decimal::{magnitude, magnitude_len};
use crate::direct::encoder::checked_add;
use crate::direct::plan::DirectColumnEncoding;
use crate::direct::wire::lemma_le_bytes_len;
use crate::float::{classify_float16, float16_class, float32_from_float16, widened_float16};
use crate::mapping::{SchemaMapping, SchemaMappingView};
use crate::message::{ExpectedPayload, Fault};
use crate::mssql_type::{MssqlType, MssqlTypeLength};
use crate::temporal::{
    datetime_outcome, mssql_datetime2_at_precision, mssql_datetime_from_arrow_timestamp,
    mssql_datetimeoffset_in_utc, mssql_time_from_arrow_time, rounded_datetime2_outcome,
    time_outcome, unit_name, unit_text, utc_datetimeoffset_outcome, TICK_SCALE,
};
use crate::timezone::{metadata_error, validate_timestamp_timezone_metadata};
use crate::utf16::{utf16_le, utf16_len, utf16_units};
use crate::value_error::{
    non_finite_float_error, payload_mismatch, payload_mismatch_error, row_fault, row_mapping_fault,
};

verus! {

/// Data lengths that a bounded variable-width cell cannot describe start here.
pub const BOUNDED_LEN_LIMIT: usize = 0xFFFF;


/// A direct cell result as contracts speak of it.
pub open spec fn direct_cell_view(result: Result<DirectCell<'_>>) -> core::result::Result<
    DirectCellView,
    ErrorView,
> {
    match result {
        Ok(cell) => Ok(cell@),
        Err(error) => Err(error@),
    }
}

/// A signed number of 64 bits in two's complement.
pub open spec fn twos_complement_64(value: i64) -> nat {
    if value < 0 {
        (value + 0x1_0000_0000_0000_0000) as nat
    } else {
        value as nat
    }
}

/// The null of a column with an encoding.
pub open spec fn null_form(encoding: DirectColumnEncoding) -> DirectCellView {
    match encoding {
        DirectColumnEncoding::VariableWidth(
            VariableWidthArrowToMssql::StringToNVarChar { length },
        ) => variable_null_form(length),
        DirectColumnEncoding::VariableWidth(
            VariableWidthArrowToMssql::BytesToVarBinary { length },
        ) => variable_null_form(length),
        DirectColumnEncoding::FixedSizeBinary(_) => DirectCellOf::NullShort,
        _ => DirectCellOf::NullByte,
    }
}

/// The null of a variable-width column.
pub open spec fn variable_null_form(length: MssqlTypeLength) -> DirectCellView {
    match length {
        MssqlTypeLength::Bounded(_) => DirectCellOf::NullShort,
        MssqlTypeLength::Max => DirectCellOf::NullLong,
    }
}

/// The little-endian cell of a number: a nullable column has a length byte before it.
pub open spec fn fixed_cell(
    mapping: SchemaMappingView,
    value: nat,
    width: usize,
) -> DirectCellView {
    DirectCellOf::Fixed { value: value as u64, width, prefixed: mapping.mssql.nullable }
}

/// The bit pattern of a cell for a `real`.
pub open spec fn float16_outcome(
    mapping: SchemaMappingView,
    row_index: usize,
    cell: ArrowCellView,
) -> core::result::Result<u32, ErrorView> {
    match cell {
        ArrowCellOf::Float16(bits) => match float16_class(bits) {
            None => Ok(widened_float16(bits)),
            Some(value) => Err(
                row_fault(
                    mapping,
                    row_index,
                    DiagnosticCode::NonFiniteFloat,
                    Fault::NonFiniteFloat { value },
                ),
            ),
        },
        _ => Err(payload_mismatch(mapping, row_index, ExpectedPayload::Float32, cell)),
    }
}

/// The cell of a primitive conversion.
pub open spec fn primitive_cell_outcome(
    class: PrimitiveArrowToMssql,
    mapping: SchemaMappingView,
    row_index: usize,
    cell: ArrowCellView,
) -> core::result::Result<DirectCellView, ErrorView> {
    match class {
        PrimitiveArrowToMssql::BooleanToBit => match bit_outcome(mapping, row_index, cell) {
            Ok(value) => Ok(
                fixed_cell(
                    mapping,
                    if value {
                        1
                    } else {
                        0
                    },
                    1,
                ),
            ),
            Err(error) => Err(error),
        },
        PrimitiveArrowToMssql::UInt8ToTinyInt => match tinyint_outcome(mapping, row_index, cell) {
            Ok(value) => Ok(fixed_cell(mapping, value as nat, 1)),
            Err(error) => Err(error),
        },
        PrimitiveArrowToMssql::Int8ToSmallInt
        | PrimitiveArrowToMssql::Int16ToSmallInt => match smallint_outcome(
            mapping,
            row_index,
            cell,
        ) {
            Ok(value) => Ok(fixed_cell(mapping, twos_complement_16(value), 2)),
            Err(error) => Err(error),
        },
        PrimitiveArrowToMssql::Int32ToInt | PrimitiveArrowToMssql::UInt16ToInt => match int_outcome(
            mapping,
            row_index,
            cell,
        ) {
            Ok(value) => Ok(fixed_cell(mapping, twos_complement_32(value), 4)),
            Err(error) => Err(error),
        },
        PrimitiveArrowToMssql::Int64ToBigInt
        | PrimitiveArrowToMssql::UInt32ToBigInt
        | PrimitiveArrowToMssql::UInt64ToCheckedBigInt => match bigint_outcome(
            mapping,
            row_index,
            cell,
        ) {
            Ok(value) => Ok(fixed_cell(mapping, twos_complement_64(value), 8)),
            Err(error) => Err(error),
        },
        PrimitiveArrowToMssql::Float16ToReal => match float16_outcome(mapping, row_index, cell) {
            Ok(bits) => Ok(fixed_cell(mapping, bits as nat, 4)),
            Err(error) => Err(error),
        },
        PrimitiveArrowToMssql::Float32ToReal => match real_outcome(mapping, row_index, cell) {
            Ok(bits) => Ok(fixed_cell(mapping, bits as nat, 4)),
            Err(error) => Err(error),
        },
        PrimitiveArrowToMssql::Float64ToFloat => match float_outcome(mapping, row_index, cell) {
            Ok(bits) => Ok(fixed_cell(mapping, bits as nat, 8)),
            Err(error) => Err(error),
        },
    }
}

/// The fault of data that the length of a variable-width cell cannot describe.
pub open spec fn data_len_error(
    mapping: SchemaMappingView,
    row_index: usize,
    length: MssqlTypeLength,
    data_len: nat,
    fault: Fault,
) -> Option<ErrorView> {
    let too_long = Some(row_fault(mapping, row_index, DiagnosticCode::ValueTooLong, fault));
    match length {
        MssqlTypeLength::Bounded(_) => if data_len >= BOUNDED_LEN_LIMIT {
            too_long
        } else {
            None
        },
        MssqlTypeLength::Max => if data_len > u32::MAX {
            too_long
        } else if data_len + UNBOUNDED_FRAME_LEN > usize::MAX {
            Some(payload_error(Fault::DirectLengthOverflow))
        } else {
            None
        },
    }
}

/// The cell of a string.
pub open spec fn text_cell_outcome(
    length: MssqlTypeLength,
    mapping: SchemaMappingView,
    row_index: usize,
    cell: ArrowCellView,
) -> core::result::Result<DirectCellView, ErrorView> {
    match nvarchar_cell_outcome(mapping, row_index, length, cell) {
        Ok(MssqlCellOf::NVarChar(Some(text))) => match data_len_error(
            mapping,
            row_index,
            length,
            2 * utf16_units(text).len(),
            Fault::StringTooLong {
                code_units: utf16_units(text).len() as usize,
                ty: mapping.mssql.ty,
            },
        ) {
            Some(error) => Err(error),
            None => Ok(DirectCellOf::NVarChar { text, unbounded: length is Max }),
        },
        Ok(_) => Err(payload_mismatch(mapping, row_index, ExpectedPayload::Utf8, cell)),
        Err(error) => Err(error),
    }
}

/// The cell of a byte string.
pub open spec fn bytes_cell_outcome(
    length: MssqlTypeLength,
    mapping: SchemaMappingView,
    row_index: usize,
    cell: ArrowCellView,
) -> core::result::Result<DirectCellView, ErrorView> {
    match varbinary_cell_outcome(mapping, row_index, length, cell) {
        Ok(MssqlCellOf::VarBinary(Some(bytes))) => match data_len_error(
            mapping,
            row_index,
            length,
            bytes.len(),
            Fault::BinaryTooLong { bytes: bytes.len() as usize, ty: mapping.mssql.ty },
        ) {
            Some(error) => Err(error),
            None => Ok(DirectCellOf::Binary { bytes, unbounded: length is Max }),
        },
        Ok(_) => Err(payload_mismatch(mapping, row_index, ExpectedPayload::Binary, cell)),
        Err(error) => Err(error),
    }
}

/// The cell of a byte string of a planned length.
pub open spec fn fixed_bytes_cell_outcome(
    length: usize,
    mapping: SchemaMappingView,
    row_index: usize,
    cell: ArrowCellView,
) -> core::result::Result<DirectCellView, ErrorView> {
    match varbinary_outcome(mapping, row_index, cell) {
        Ok(bytes) => if bytes.len() != length {
            Err(
                row_fault(
                    mapping,
                    row_index,
                    DiagnosticCode::ValueTypeMismatch,
                    Fault::BinaryLengthMismatch { bytes: bytes.len() as usize, length },
                ),
            )
        } else {
            match data_len_error(
                mapping,
                row_index,
                MssqlTypeLength::Bounded(length),
                bytes.len(),
                Fault::BinaryTooLong { bytes: length, ty: mapping.mssql.ty },
            ) {
                Some(error) => Err(error),
                None => Ok(DirectCellOf::Binary { bytes, unbounded: false }),
            }
        },
        Err(error) => Err(error),
    }
}

/// The unit and the value of a time of day.
pub open spec fn time_parts(cell: ArrowCellView) -> Option<(TimeUnit, i64)> {
    match cell {
        ArrowCellOf::Time32Second(value) => Some((TimeUnit::Second, value as i64)),
        ArrowCellOf::Time32Millisecond(value) => Some((TimeUnit::Millisecond, value as i64)),
        ArrowCellOf::Time64Microsecond(value) => Some((TimeUnit::Microsecond, value)),
        ArrowCellOf::Time64Nanosecond(value) => Some((TimeUnit::Nanosecond, value)),
        _ => None,
    }
}

/// The unit and the value of a timestamp.
pub open spec fn timestamp_parts(cell: ArrowCellView) -> Option<(TimeUnit, i64)> {
    match cell {
        ArrowCellOf::TimestampSecond(value) => Some((TimeUnit::Second, value)),
        ArrowCellOf::TimestampMillisecond(value) => Some((TimeUnit::Millisecond, value)),
        ArrowCellOf::TimestampMicrosecond(value) => Some((TimeUnit::Microsecond, value)),
        ArrowCellOf::TimestampNanosecond(value) => Some((TimeUnit::Nanosecond, value)),
        _ => None,
    }
}

/// The SQL Server type that a temporal conversion leads to.
#[derive(Debug, Clone, Copy, PartialEq, Eq, Structural)]
pub enum TemporalTarget {
    /// `date`.
    Date,
    /// `datetime2(3)` of an Arrow Date64.
    Date64,
    /// `time`.
    Time,
    /// `datetime`.
    DateTime,
    /// `datetime2`.
    DateTime2,
    /// `datetimeoffset`.
    DateTimeOffset,
}

/// The SQL Server type that a temporal conversion leads to.
pub open spec fn target_of(class: TemporalArrowToMssql) -> TemporalTarget {
    match class {
        TemporalArrowToMssql::Date32ToDate => TemporalTarget::Date,
        TemporalArrowToMssql::Date64ToDateTime2 => TemporalTarget::Date64,
        TemporalArrowToMssql::Time32SecondToTime
        | TemporalArrowToMssql::Time32MillisecondToTime
        | TemporalArrowToMssql::Time64MicrosecondToTime
        | TemporalArrowToMssql::Time64NanosecondToTime => TemporalTarget::Time,
        TemporalArrowToMssql::TimestampSecondToDateTime
        | TemporalArrowToMssql::TimestampMillisecondToDateTime
        | TemporalArrowToMssql::TimestampMicrosecondToDateTime
        | TemporalArrowToMssql::TimestampNanosecondToDateTime => TemporalTarget::DateTime,
        TemporalArrowToMssql::TimestampSecondToDateTime2
        | TemporalArrowToMssql::TimestampMillisecondToDateTime2
        | TemporalArrowToMssql::TimestampMicrosecondToDateTime2
        | TemporalArrowToMssql::TimestampNanosecondToDateTime2
        | TemporalArrowToMssql::TimestampSecondTzToDateTime2
        | TemporalArrowToMssql::TimestampMillisecondTzToDateTime2
        | TemporalArrowToMssql::TimestampMicrosecondTzToDateTime2
        | TemporalArrowToMssql::TimestampNanosecondTzToDateTime2 => TemporalTarget::DateTime2,
        TemporalArrowToMssql::TimestampSecondTzToDateTimeOffset
        | TemporalArrowToMssql::TimestampMillisecondTzToDateTimeOffset
        | TemporalArrowToMssql::TimestampMicrosecondTzToDateTimeOffset
        | TemporalArrowToMssql::TimestampNanosecondTzToDateTimeOffset => {
            TemporalTarget::DateTimeOffset
        },
    }
}

/// Returns the SQL Server type that a temporal conversion leads to.
pub fn temporal_target(class: TemporalArrowToMssql) -> (target: TemporalTarget)
    ensures
        target == target_of(class),
{
    match class {
        TemporalArrowToMssql::Date32ToDate => TemporalTarget::Date,
        TemporalArrowToMssql::Date64ToDateTime2 => TemporalTarget::Date64,
        TemporalArrowToMssql::Time32SecondToTime
        | TemporalArrowToMssql::Time32MillisecondToTime
        | TemporalArrowToMssql::Time64MicrosecondToTime
        | TemporalArrowToMssql::Time64NanosecondToTime => TemporalTarget::Time,
        TemporalArrowToMssql::TimestampSecondToDateTime
        | TemporalArrowToMssql::TimestampMillisecondToDateTime
        | TemporalArrowToMssql::TimestampMicrosecondToDateTime
        | TemporalArrowToMssql::TimestampNanosecondToDateTime => TemporalTarget::DateTime,
        TemporalArrowToMssql::TimestampSecondToDateTime2
        | TemporalArrowToMssql::TimestampMillisecondToDateTime2
        | TemporalArrowToMssql::TimestampMicrosecondToDateTime2
        | TemporalArrowToMssql::TimestampNanosecondToDateTime2
        | TemporalArrowToMssql::TimestampSecondTzToDateTime2
        | TemporalArrowToMssql::TimestampMillisecondTzToDateTime2
        | TemporalArrowToMssql::TimestampMicrosecondTzToDateTime2
        | TemporalArrowToMssql::TimestampNanosecondTzToDateTime2 => TemporalTarget::DateTime2,
        TemporalArrowToMssql::TimestampSecondTzToDateTimeOffset
        | TemporalArrowToMssql::TimestampMillisecondTzToDateTimeOffset
        | TemporalArrowToMssql::TimestampMicrosecondTzToDateTimeOffset
        | TemporalArrowToMssql::TimestampNanosecondTzToDateTimeOffset => {
            TemporalTarget::DateTimeOffset
        },
    }
}

/// Whether a target takes timestamps, whose timezone metadata has to be valid.
pub open spec fn takes_timestamps(target: TemporalTarget) -> bool {
    target is DateTime || target is DateTime2 || target is DateTimeOffset
}

/// The cell of a date or time.
pub open spec fn temporal_cell_outcome(
    target: TemporalTarget,
    mapping: SchemaMappingView,
    policy: NanosecondPolicy,
    row_index: usize,
    cell: ArrowCellView,
) -> core::result::Result<DirectCellView, ErrorView> {
    match target {
        TemporalTarget::Date => match date_value_outcome(mapping, row_index, cell) {
            Ok(date) => Ok(DirectCellOf::Date(date)),
            Err(error) => Err(error),
        },
        TemporalTarget::Date64 => match datetime2_value_outcome(mapping, policy, row_index, cell) {
            Ok(datetime2) => Ok(DirectCellOf::DateTime2(datetime2)),
            Err(error) => Err(error),
        },
        TemporalTarget::Time => match time_parts(cell) {
            Some((unit, value)) => match time_outcome(mapping, row_index, unit, value, policy) {
                Ok(time) => Ok(DirectCellOf::Time(time)),
                Err(error) => Err(error),
            },
            None => Err(payload_mismatch(mapping, row_index, ExpectedPayload::Time, cell)),
        },
        TemporalTarget::DateTime => match timestamp_parts(cell) {
            Some((unit, value)) => match datetime_outcome(
                mapping,
                row_index,
                unit,
                value,
                policy,
            ) {
                Ok(datetime) => Ok(DirectCellOf::DateTime(datetime)),
                Err(error) => Err(error),
            },
            None => Err(payload_mismatch(mapping, row_index, ExpectedPayload::DateTime, cell)),
        },
        TemporalTarget::DateTime2 => match (timestamp_parts(cell), mapping.mssql.ty) {
            (Some((unit, value)), MssqlType::DateTime2 { precision }) => if precision
                <= TICK_SCALE {
                match rounded_datetime2_outcome(
                    mapping,
                    row_index,
                    unit,
                    value,
                    policy,
                    precision,
                ) {
                    Ok(datetime2) => Ok(DirectCellOf::DateTime2(datetime2)),
                    Err(error) => Err(error),
                }
            } else {
                Err(payload_mismatch(mapping, row_index, ExpectedPayload::DateTime2, cell))
            },
            _ => Err(payload_mismatch(mapping, row_index, ExpectedPayload::DateTime2, cell)),
        },
        TemporalTarget::DateTimeOffset => match timestamp_parts(cell) {
            Some((unit, value)) => match datetimeoffset_value_outcome(
                mapping,
                policy,
                row_index,
                cell,
            ) {
                Ok(local) => match utc_datetimeoffset_outcome(
                    mapping,
                    row_index,
                    local,
                    unit_text(unit),
                    value,
                ) {
                    Ok(datetimeoffset) => Ok(DirectCellOf::DateTimeOffset(datetimeoffset)),
                    Err(error) => Err(error),
                },
                Err(error) => Err(error),
            },
            None => Err(
                payload_mismatch(mapping, row_index, ExpectedPayload::DateTimeOffset, cell),
            ),
        },
    }
}

/// The cell of a value with an encoding.
pub open spec fn value_cell_outcome(
    encoding: DirectColumnEncoding,
    mapping: SchemaMappingView,
    policy: NanosecondPolicy,
    row_index: usize,
    cell: ArrowCellView,
) -> core::result::Result<DirectCellView, ErrorView> {
    match encoding {
        DirectColumnEncoding::Primitive(class) => primitive_cell_outcome(
            class,
            mapping,
            row_index,
            cell,
        ),
        DirectColumnEncoding::UInt64Decimal20_0
        | DirectColumnEncoding::Decimal(_) => match decimal_value_outcome(
            mapping,
            row_index,
            cell,
        ) {
            Ok(decimal) => Ok(DirectCellOf::Decimal { unscaled: decimal.unscaled }),
            Err(error) => Err(error),
        },
        DirectColumnEncoding::VariableWidth(
            VariableWidthArrowToMssql::StringToNVarChar { length },
        ) => text_cell_outcome(length, mapping, row_index, cell),
        DirectColumnEncoding::VariableWidth(
            VariableWidthArrowToMssql::BytesToVarBinary { length },
        ) => bytes_cell_outcome(length, mapping, row_index, cell),
        DirectColumnEncoding::FixedSizeBinary(
            FixedSizeBinaryArrowToMssql::FixedSizeBinaryToBinary { length },
        ) => fixed_bytes_cell_outcome(length, mapping, row_index, cell),
        DirectColumnEncoding::Temporal(class) => temporal_cell_outcome(
            target_of(class),
            mapping,
            policy,
            row_index,
            cell,
        ),
    }
}

/// The error of the timezone metadata of a timestamp column.
pub open spec fn column_timezone_error(
    encoding: DirectColumnEncoding,
    mapping: SchemaMappingView,
    row_index: usize,
) -> Option<ErrorView> {
    match (encoding, mapping.arrow.data_type) {
        (DirectColumnEncoding::Temporal(class), ArrowType::Timestamp(_, timezone)) => {
            if takes_timestamps(target_of(class)) {
                metadata_error(mapping, row_index, timezone)
            } else {
                None
            }
        },
        _ => None,
    }
}

/// The cell of a value or a null with an encoding: timezone metadata is checked first, for nulls
/// too.
pub open spec fn direct_cell_outcome(
    encoding: DirectColumnEncoding,
    mapping: SchemaMappingView,
    policy: NanosecondPolicy,
    row_index: usize,
    cell: ArrowCellView,
) -> core::result::Result<DirectCellView, ErrorView> {
    match column_timezone_error(encoding, mapping, row_index) {
        Some(error) => Err(error),
        None => if cell is Null {
            if mapping.mssql.nullable {
                Ok(null_form(encoding))
            } else {
                Err(
                    row_fault(
                        mapping,
                        row_index,
                        DiagnosticCode::NullInNonNullableColumn,
                        Fault::NullInDirectColumn,
                    ),
                )
            }
        } else {
            value_cell_outcome(encoding, mapping, policy, row_index, cell)
        },
    }
}

/// Returns the null of a column with an encoding.
pub fn null_direct_cell<'a>(encoding: DirectColumnEncoding) -> (cell: DirectCell<'a>)
    ensures
        cell@ == null_form(encoding),
        is_countable(cell@),
{
    match encoding {
        DirectColumnEncoding::VariableWidth(class) => {
            let length = match class {
                VariableWidthArrowToMssql::StringToNVarChar { length } => length,
                VariableWidthArrowToMssql::BytesToVarBinary { length } => length,
            };
            match length {
                MssqlTypeLength::Bounded(_) => DirectCellOf::NullShort,
                MssqlTypeLength::Max => DirectCellOf::NullLong,
            }
        },
        DirectColumnEncoding::FixedSizeBinary(_) => DirectCellOf::NullShort,
        _ => DirectCellOf::NullByte,
    }
}

/// Creates the little-endian cell of a number.
fn fixed_direct_cell<'a>(mapping: &SchemaMapping, value: u64, width: usize) -> (cell: DirectCell<'a>)
    requires
        width <= 8,
    ensures
        cell@ == fixed_cell(mapping@, value as nat, width),
        is_countable(cell@),
{
    proof {
        lemma_le_bytes_len(value as nat, width as nat);
    }
    DirectCellOf::Fixed { value, width, prefixed: mapping.mssql().nullable() }
}

/// Returns the two's complement of a signed number.
pub(crate) fn bit_pattern(value: i64, bits: u32) -> (pattern: u64)
    requires
        bits == 16 || bits == 32 || bits == 64,
        bits == 16 ==> i16::MIN <= value <= i16::MAX,
        bits == 32 ==> i32::MIN <= value <= i32::MAX,
    ensures
        bits == 16 ==> pattern == twos_complement_16(value as i16),
        bits == 32 ==> pattern == twos_complement_32(value as i32),
        bits == 64 ==> pattern == twos_complement_64(value),
{
    if value >= 0 {
        value as u64
    } else if bits == 16 {
        (value + 0x1_0000) as u64
    } else if bits == 32 {
        (value + 0x1_0000_0000) as u64
    } else {
        (value as i128 + 0x1_0000_0000_0000_0000) as u64
    }
}

/// Widens a half-precision cell to the bit pattern of a `real`.
fn real_from_float16(mapping: &SchemaMapping, row_index: usize, cell: ArrowCell<'_>) -> (result:
    Result<u32>)
    ensures
        outcome(result) == float16_outcome(mapping@, row_index, cell@),
{
    match cell {
        ArrowCellOf::Float16(bits) => match classify_float16(bits) {
            None => Ok(float32_from_float16(bits)),
            Some(value) => Err(non_finite_float_error(mapping, row_index, value)),
        },
        _ => Err(payload_mismatch_error(mapping, row_index, ExpectedPayload::Float32, cell)),
    }
}

/// Converts a cell of a primitive column.
pub fn primitive_direct_cell<'a>(
    class: PrimitiveArrowToMssql,
    mapping: &SchemaMapping,
    row_index: usize,
    cell: ArrowCell<'a>,
) -> (result: Result<DirectCell<'a>>)
    ensures
        direct_cell_view(result) == primitive_cell_outcome(class, mapping@, row_index, cell@),
        result is Ok ==> is_countable(result->Ok_0@),
{
    match class {
        PrimitiveArrowToMssql::BooleanToBit => match mssql_bit_value(mapping, row_index, cell) {
            Ok(value) => Ok(
                fixed_direct_cell(
                    mapping,
                    if value {
                        1
                    } else {
                        0
                    },
                    1,
                ),
            ),
            Err(error) => Err(error),
        },
        PrimitiveArrowToMssql::UInt8ToTinyInt => match mssql_tinyint_value(
            mapping,
            row_index,
            cell,
        ) {
            Ok(value) => Ok(fixed_direct_cell(mapping, value as u64, 1)),
            Err(error) => Err(error),
        },
        PrimitiveArrowToMssql::Int8ToSmallInt
        | PrimitiveArrowToMssql::Int16ToSmallInt => match mssql_smallint_value(
            mapping,
            row_index,
            cell,
        ) {
            Ok(value) => Ok(fixed_direct_cell(mapping, bit_pattern(value as i64, 16), 2)),
            Err(error) => Err(error),
        },
        PrimitiveArrowToMssql::Int32ToInt
        | PrimitiveArrowToMssql::UInt16ToInt => match mssql_int_value(mapping, row_index, cell) {
            Ok(value) => Ok(fixed_direct_cell(mapping, bit_pattern(value as i64, 32), 4)),
            Err(error) => Err(error),
        },
        PrimitiveArrowToMssql::Int64ToBigInt
        | PrimitiveArrowToMssql::UInt32ToBigInt
        | PrimitiveArrowToMssql::UInt64ToCheckedBigInt => match mssql_bigint_value(
            mapping,
            row_index,
            cell,
        ) {
            Ok(value) => Ok(fixed_direct_cell(mapping, bit_pattern(value, 64), 8)),
            Err(error) => Err(error),
        },
        PrimitiveArrowToMssql::Float16ToReal => match real_from_float16(mapping, row_index, cell) {
            Ok(bits) => Ok(fixed_direct_cell(mapping, bits as u64, 4)),
            Err(error) => Err(error),
        },
        PrimitiveArrowToMssql::Float32ToReal => match mssql_real_value(mapping, row_index, cell) {
            Ok(bits) => Ok(fixed_direct_cell(mapping, bits as u64, 4)),
            Err(error) => Err(error),
        },
        PrimitiveArrowToMssql::Float64ToFloat => match mssql_float_value(mapping, row_index, cell) {
            Ok(bits) => Ok(fixed_direct_cell(mapping, bits, 8)),
            Err(error) => Err(error),
        },
    }
}

/// Checks that the length of a variable-width cell can describe its data.
fn check_data_len(
    mapping: &SchemaMapping,
    row_index: usize,
    length: MssqlTypeLength,
    data_len: Option<usize>,
    fault: Fault,
    Ghost(data): Ghost<Seq<u8>>,
) -> (result: Result<()>)
    requires
        data_len matches Some(data_len) ==> data_len == data.len(),
        data_len is None ==> data.len() > usize::MAX,
    ensures
        outcome(result) == (match data_len_error(
            mapping@,
            row_index,
            length,
            data.len(),
            fault,
        ) {
            Some(error) => Err(error),
            None => Ok(()),
        }),
        result is Ok ==> variable_cell_bytes(data, length is Max).len() <= usize::MAX,
{
    proof {
        lemma_variable_cell_len(data, length is Max);
    }
    match length {
        MssqlTypeLength::Bounded(_) => match data_len {
            Some(data_len) => if data_len < BOUNDED_LEN_LIMIT {
                return Ok(());
            },
            None => {},
        },
        MssqlTypeLength::Max => match data_len {
            Some(data_len) => if data_len as u64 <= u32::MAX as u64 {
                return match checked_add(data_len, UNBOUNDED_FRAME_LEN) {
                    Ok(_) => Ok(()),
                    Err(error) => Err(error),
                };
            },
            None => {},
        },
    }
    Err(row_mapping_fault(mapping, row_index, DiagnosticCode::ValueTooLong, fault))
}

/// Converts a cell of a string column.
pub fn text_direct_cell<'a>(
    length: MssqlTypeLength,
    mapping: &SchemaMapping,
    row_index: usize,
    cell: ArrowCell<'a>,
) -> (result: Result<DirectCell<'a>>)
    ensures
        direct_cell_view(result) == text_cell_outcome(length, mapping@, row_index, cell@),
        result is Ok ==> is_countable(result->Ok_0@),
{
    match nvar_char_cell(mapping, row_index, length, cell) {
        Ok(MssqlCellOf::NVarChar(Some(text))) => {
            let code_units: usize = utf16_len(text);
            match check_data_len(
                mapping,
                row_index,
                length,
                code_units.checked_mul(2),
                Fault::StringTooLong { code_units, ty: *mapping.mssql().ty() },
                Ghost(utf16_le(text@)),
            ) {
                Ok(()) => Ok(
                    DirectCellOf::NVarChar {
                        text,
                        unbounded: match length {
                            MssqlTypeLength::Max => true,
                            MssqlTypeLength::Bounded(_) => false,
                        },
                    },
                ),
                Err(error) => Err(error),
            }
        },
        Ok(_) => Err(payload_mismatch_error(mapping, row_index, ExpectedPayload::Utf8, cell)),
        Err(error) => Err(error),
    }
}

/// Converts a cell of a byte string column.
pub fn bytes_direct_cell<'a>(
    length: MssqlTypeLength,
    mapping: &SchemaMapping,
    row_index: usize,
    cell: ArrowCell<'a>,
) -> (result: Result<DirectCell<'a>>)
    ensures
        direct_cell_view(result) == bytes_cell_outcome(length, mapping@, row_index, cell@),
        result is Ok ==> is_countable(result->Ok_0@),
{
    match var_binary_cell(mapping, row_index, length, cell) {
        Ok(MssqlCellOf::VarBinary(Some(bytes))) => {
            let data_len: usize = bytes.len();
            match check_data_len(
                mapping,
                row_index,
                length,
                Some(data_len),
                Fault::BinaryTooLong { bytes: data_len, ty: *mapping.mssql().ty() },
                Ghost(bytes@),
            ) {
                Ok(()) => Ok(
                    DirectCellOf::Binary {
                        bytes,
                        unbounded: match length {
                            MssqlTypeLength::Max => true,
                            MssqlTypeLength::Bounded(_) => false,
                        },
                    },
                ),
                Err(error) => Err(error),
            }
        },
        Ok(_) => Err(payload_mismatch_error(mapping, row_index, ExpectedPayload::Binary, cell)),
        Err(error) => Err(error),
    }
}

/// Converts a cell of a fixed-size binary column.
pub fn fixed_bytes_direct_cell<'a>(
    length: usize,
    mapping: &SchemaMapping,
    row_index: usize,
    cell: ArrowCell<'a>,
) -> (result: Result<DirectCell<'a>>)
    ensures
        direct_cell_view(result) == fixed_bytes_cell_outcome(length, mapping@, row_index, cell@),
        result is Ok ==> is_countable(result->Ok_0@),
{
    let bytes = match mssql_varbinary_value(mapping, row_index, cell) {
        Ok(bytes) => bytes,
        Err(error) => {
            return Err(error);
        },
    };
    let data_len: usize = bytes.len();
    if data_len != length {
        return Err(
            row_mapping_fault(
                mapping,
                row_index,
                DiagnosticCode::ValueTypeMismatch,
                Fault::BinaryLengthMismatch { bytes: data_len, length },
            ),
        );
    }
    match check_data_len(
        mapping,
        row_index,
        MssqlTypeLength::Bounded(length),
        Some(data_len),
        Fault::BinaryTooLong { bytes: length, ty: *mapping.mssql().ty() },
        Ghost(bytes@),
    ) {
        Ok(()) => Ok(DirectCellOf::Binary { bytes, unbounded: false }),
        Err(error) => Err(error),
    }
}

/// Splits a time of day into its unit and its value.
fn split_time(cell: ArrowCell<'_>) -> (parts: Option<(TimeUnit, i64)>)
    ensures
        parts == time_parts(cell@),
{
    match cell {
        ArrowCellOf::Time32Second(value) => Some((TimeUnit::Second, value as i64)),
        ArrowCellOf::Time32Millisecond(value) => Some((TimeUnit::Millisecond, value as i64)),
        ArrowCellOf::Time64Microsecond(value) => Some((TimeUnit::Microsecond, value)),
        ArrowCellOf::Time64Nanosecond(value) => Some((TimeUnit::Nanosecond, value)),
        _ => None,
    }
}

/// Splits a timestamp into its unit and its value.
fn split_timestamp(cell: ArrowCell<'_>) -> (parts: Option<(TimeUnit, i64)>)
    ensures
        parts == timestamp_parts(cell@),
{
    match cell {
        ArrowCellOf::TimestampSecond(value) => Some((TimeUnit::Second, value)),
        ArrowCellOf::TimestampMillisecond(value) => Some((TimeUnit::Millisecond, value)),
        ArrowCellOf::TimestampMicrosecond(value) => Some((TimeUnit::Microsecond, value)),
        ArrowCellOf::TimestampNanosecond(value) => Some((TimeUnit::Nanosecond, value)),
        _ => None,
    }
}

/// Every date or time has a cell whose bytes can be counted.
proof fn lemma_temporal_cell_is_countable(cell: DirectCellView)
    requires
        cell is Date || cell is Time || cell is DateTime || cell is DateTime2
            || cell is DateTimeOffset,
    ensures
        is_countable(cell),
{
    match cell {
        DirectCellOf::Date(date) => {
            lemma_le_bytes_len(date.days as nat, 3);
        },
        DirectCellOf::Time(time) => {
            lemma_le_bytes_len(time.increments as nat, time_width(time.scale));
        },
        DirectCellOf::DateTime(datetime) => {
            lemma_le_bytes_len(twos_complement_32(datetime.days), 4);
            lemma_le_bytes_len(datetime.seconds_fragments as nat, 4);
        },
        DirectCellOf::DateTime2(datetime2) => {
            lemma_le_bytes_len(datetime2.time.increments as nat, time_width(datetime2.time.scale));
            lemma_le_bytes_len(datetime2.date.days as nat, 3);
        },
        DirectCellOf::DateTimeOffset(datetimeoffset) => {
            let datetime2 = datetimeoffset.datetime2;
            lemma_le_bytes_len(datetime2.time.increments as nat, time_width(datetime2.time.scale));
            lemma_le_bytes_len(datetime2.date.days as nat, 3);
            lemma_le_bytes_len(twos_complement_16(datetimeoffset.offset_minutes), 2);
        },
        _ => {},
    }
}

/// Converts a cell of a date or time column.
pub fn temporal_direct_cell<'a>(
    target: TemporalTarget,
    mapping: &SchemaMapping,
    policy: NanosecondPolicy,
    row_index: usize,
    cell: ArrowCell<'a>,
) -> (result: Result<DirectCell<'a>>)
    ensures
        direct_cell_view(result) == temporal_cell_outcome(
            target,
            mapping@,
            policy,
            row_index,
            cell@,
        ),
        result is Ok ==> is_countable(result->Ok_0@),
{
    let options = PlanOptions { nanosecond_policy: policy };
    let runtime_mapping = ArrowToMssqlRuntimeMapping::new(mapping, &options);
    let result: Result<DirectCell<'a>> = match target {
        TemporalTarget::Date => match mssql_date_value(mapping, row_index, cell) {
            Ok(date) => Ok(DirectCellOf::Date(date)),
            Err(error) => Err(error),
        },
        TemporalTarget::Date64 => match mssql_datetime2_value(runtime_mapping, row_index, cell) {
            Ok(datetime2) => Ok(DirectCellOf::DateTime2(datetime2)),
            Err(error) => Err(error),
        },
        TemporalTarget::Time => match split_time(cell) {
            Some((unit, value)) => match mssql_time_from_arrow_time(
                mapping,
                row_index,
                unit,
                value,
                policy,
            ) {
                Ok(time) => Ok(DirectCellOf::Time(time)),
                Err(error) => Err(error),
            },
            None => Err(payload_mismatch_error(mapping, row_index, ExpectedPayload::Time, cell)),
        },
        TemporalTarget::DateTime => match split_timestamp(cell) {
            Some((unit, value)) => match mssql_datetime_from_arrow_timestamp(
                mapping,
                row_index,
                unit,
                value,
                policy,
            ) {
                Ok(datetime) => Ok(DirectCellOf::DateTime(datetime)),
                Err(error) => Err(error),
            },
            None => Err(
                payload_mismatch_error(mapping, row_index, ExpectedPayload::DateTime, cell),
            ),
        },
        TemporalTarget::DateTime2 => match (split_timestamp(cell), *mapping.mssql().ty()) {
            (Some((unit, value)), MssqlType::DateTime2 { precision }) => if precision
                <= TICK_SCALE {
                match mssql_datetime2_at_precision(
                    mapping,
                    row_index,
                    unit,
                    value,
                    policy,
                    precision,
                ) {
                    Ok(datetime2) => Ok(DirectCellOf::DateTime2(datetime2)),
                    Err(error) => Err(error),
                }
            } else {
                Err(payload_mismatch_error(mapping, row_index, ExpectedPayload::DateTime2, cell))
            },
            _ => Err(payload_mismatch_error(mapping, row_index, ExpectedPayload::DateTime2, cell)),
        },
        TemporalTarget::DateTimeOffset => match split_timestamp(cell) {
            Some((unit, value)) => match mssql_datetimeoffset_value(
                runtime_mapping,
                row_index,
                cell,
            ) {
                Ok(local) => match mssql_datetimeoffset_in_utc(
                    mapping,
                    row_index,
                    local,
                    unit_name(unit),
                    value,
                ) {
                    Ok(datetimeoffset) => Ok(DirectCellOf::DateTimeOffset(datetimeoffset)),
                    Err(error) => Err(error),
                },
                Err(error) => Err(error),
            },
            None => Err(
                payload_mismatch_error(mapping, row_index, ExpectedPayload::DateTimeOffset, cell),
            ),
        },
    };
    proof {
        if let Ok(found) = result {
            lemma_temporal_cell_is_countable(found@);
        }
    }
    result
}

/// Converts a cell of a column with an encoding.
pub fn value_direct_cell<'a>(
    encoding: DirectColumnEncoding,
    mapping: &SchemaMapping,
    policy: NanosecondPolicy,
    row_index: usize,
    cell: ArrowCell<'a>,
) -> (result: Result<DirectCell<'a>>)
    ensures
        direct_cell_view(result) == value_cell_outcome(
            encoding,
            mapping@,
            policy,
            row_index,
            cell@,
        ),
        result is Ok ==> is_countable(result->Ok_0@),
{
    match encoding {
        DirectColumnEncoding::Primitive(class) => primitive_direct_cell(
            class,
            mapping,
            row_index,
            cell,
        ),
        DirectColumnEncoding::UInt64Decimal20_0
        | DirectColumnEncoding::Decimal(_) => match mssql_decimal_value(mapping, row_index, cell) {
            Ok(decimal) => {
                proof {
                    let magnitude = magnitude(decimal.unscaled);
                    lemma_le_bytes_len(magnitude, magnitude_len(magnitude));
                }
                Ok(DirectCellOf::Decimal { unscaled: decimal.unscaled() })
            },
            Err(error) => Err(error),
        },
        DirectColumnEncoding::VariableWidth(
            VariableWidthArrowToMssql::StringToNVarChar { length },
        ) => text_direct_cell(length, mapping, row_index, cell),
        DirectColumnEncoding::VariableWidth(
            VariableWidthArrowToMssql::BytesToVarBinary { length },
        ) => bytes_direct_cell(length, mapping, row_index, cell),
        DirectColumnEncoding::FixedSizeBinary(
            FixedSizeBinaryArrowToMssql::FixedSizeBinaryToBinary { length },
        ) => fixed_bytes_direct_cell(length, mapping, row_index, cell),
        DirectColumnEncoding::Temporal(class) => temporal_direct_cell(
            temporal_target(class),
            mapping,
            policy,
            row_index,
            cell,
        ),
    }
}

/// Checks the timezone metadata of a timestamp column.
fn check_column_timezone(
    encoding: DirectColumnEncoding,
    mapping: &SchemaMapping,
    row_index: usize,
) -> (result: Result<()>)
    ensures
        outcome(result) == (match column_timezone_error(
            encoding,
            mapping@,
            row_index,
        ) {
            Some(error) => Err(error),
            None => Ok(()),
        }),
{
    match (encoding, mapping.arrow().data_type()) {
        (DirectColumnEncoding::Temporal(class), ArrowType::Timestamp(_, timezone)) => {
            match temporal_target(class) {
                TemporalTarget::DateTime
                | TemporalTarget::DateTime2
                | TemporalTarget::DateTimeOffset => validate_timestamp_timezone_metadata(
                    mapping,
                    row_index,
                    borrow_timezone(timezone),
                ),
                _ => Ok(()),
            }
        },
        _ => Ok(()),
    }
}

/// Converts a cell, null or not, of a column with an encoding.
pub fn direct_cell<'a>(
    encoding: DirectColumnEncoding,
    mapping: &SchemaMapping,
    policy: NanosecondPolicy,
    row_index: usize,
    cell: ArrowCell<'a>,
) -> (result: Result<DirectCell<'a>>)
    ensures
        direct_cell_view(result) == direct_cell_outcome(
            encoding,
            mapping@,
            policy,
            row_index,
            cell@,
        ),
        result is Ok ==> is_countable(result->Ok_0@),
{
    match check_column_timezone(encoding, mapping, row_index) {
        Ok(()) => {},
        Err(error) => {
            return Err(error);
        },
    }
    match cell {
        ArrowCellOf::Null => if mapping.mssql().nullable() {
            Ok(null_direct_cell(encoding))
        } else {
            Err(
                row_mapping_fault(
                    mapping,
                    row_index,
                    DiagnosticCode::NullInNonNullableColumn,
                    Fault::NullInDirectColumn,
                ),
            )
        },
        _ => value_direct_cell(encoding, mapping, policy, row_index, cell),
    }
}

/// The bytes of every cell that a value is converted to can be counted.
pub proof fn lemma_direct_cell_is_countable(
    encoding: DirectColumnEncoding,
    mapping: SchemaMappingView,
    policy: NanosecondPolicy,
    row_index: usize,
    cell: ArrowCellView,
)
    ensures
        direct_cell_outcome(encoding, mapping, policy, row_index, cell) matches Ok(found)
            ==> is_countable(found),
{
    if let Ok(found) = direct_cell_outcome(encoding, mapping, policy, row_index, cell) {
        match found {
            DirectCellOf::NullByte | DirectCellOf::NullShort | DirectCellOf::NullLong => {},
            DirectCellOf::Fixed { value, width, .. } => {
                lemma_le_bytes_len(value as nat, width as nat);
            },
            DirectCellOf::Decimal { unscaled } => {
                let magnitude = magnitude(unscaled);
                lemma_le_bytes_len(magnitude, magnitude_len(magnitude));
            },
            DirectCellOf::NVarChar { text, unbounded } => {
                lemma_variable_cell_len(utf16_le(text), unbounded);
            },
            DirectCellOf::Binary { bytes, unbounded } => {
                lemma_variable_cell_len(bytes, unbounded);
            },
            _ => {
                lemma_temporal_cell_is_countable(found);
            },
        }
    }
}

/// No value of a nullable column is written as a null is.
pub proof fn law_null_is_no_value(
    encoding: DirectColumnEncoding,
    mapping: SchemaMappingView,
    policy: NanosecondPolicy,
    row_index: usize,
    cell: ArrowCellView,
)
    requires
        mapping.mssql.nullable,
    ensures
        value_cell_outcome(encoding, mapping, policy, row_index, cell) matches Ok(found)
            ==> cell_bytes(found) != cell_bytes(null_form(encoding)),
{
    if let Ok(found) = value_cell_outcome(encoding, mapping, policy, row_index, cell) {
        match found {
            DirectCellOf::NullByte | DirectCellOf::NullShort | DirectCellOf::NullLong => {},
            DirectCellOf::Fixed { value, width, .. } => {
                lemma_le_bytes_len(value as nat, width as nat);
                assert(cell_bytes(found).len() != cell_bytes(null_form(encoding)).len());
            },
            DirectCellOf::Decimal { unscaled } => {
                let magnitude = magnitude(unscaled);
                lemma_le_bytes_len(magnitude, magnitude_len(magnitude));
                assert(cell_bytes(found).len() != cell_bytes(null_form(encoding)).len());
            },
            DirectCellOf::NVarChar { text, unbounded } => {
                if unbounded {
                    law_unbounded_cell_round_trip(utf16_le(text));
                } else {
                    law_bounded_cell_round_trip(utf16_le(text));
                }
            },
            DirectCellOf::Binary { bytes, unbounded } => {
                if unbounded {
                    law_unbounded_cell_round_trip(bytes);
                } else {
                    law_bounded_cell_round_trip(bytes);
                }
            },
            DirectCellOf::Date(date) => {
                lemma_le_bytes_len(date.days as nat, 3);
                assert(cell_bytes(found).len() != cell_bytes(null_form(encoding)).len());
            },
            DirectCellOf::Time(time) => {
                lemma_le_bytes_len(time.increments as nat, time_width(time.scale));
                assert(cell_bytes(found).len() != cell_bytes(null_form(encoding)).len());
            },
            DirectCellOf::DateTime(datetime) => {
                lemma_le_bytes_len(twos_complement_32(datetime.days), 4);
                assert(cell_bytes(found).len() != cell_bytes(null_form(encoding)).len());
            },
            DirectCellOf::DateTime2(datetime2) => {
                lemma_le_bytes_len(datetime2.date.days as nat, 3);
                assert(cell_bytes(found).len() != cell_bytes(null_form(encoding)).len());
            },
            DirectCellOf::DateTimeOffset(datetimeoffset) => {
                lemma_le_bytes_len(datetimeoffset.datetime2.date.days as nat, 3);
                assert(cell_bytes(found).len() != cell_bytes(null_form(encoding)).len());
            },
        }
    }
}

} // verus!
