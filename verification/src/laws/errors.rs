//! Laws of values that are refused.

use vstd::prelude::*;

use crate::arrow_type::{ArrowType, TimeUnit};
use crate::cell::{ArrowCellOf, ArrowCellView};
use crate::context::{datetime_rounding_at, NanosecondPolicy};
use crate::convert::{
    datetime2_value_outcome, datetimeoffset_value_outcome, mssql_cell_outcome,
    zoned_timestamp_outcome,
};
use crate::diagnostic::{DiagnosticCode, ErrorView};
use crate::direct::plan::{current_encoding, DirectColumnEncoding};
use crate::direct::value::{
    direct_cell_outcome, target_of, temporal_cell_outcome, TemporalTarget,
};
use crate::laws::timezone::is_row_error;
use crate::mapping::SchemaMappingView;
use crate::message::ExpectedPayload;
use crate::mssql_type::{MssqlType, MssqlTypeLength};
use crate::temporal::nanosecond_ticks_outcome;
use crate::timezone::{
    is_arrow_timezone, metadata_error, offset_outcome, resolution_outcome,
};
use crate::value_error::payload_mismatch;

verus! {

/// Whether an error is one diagnostic that names a row and the field of a mapping.
pub open spec fn names_cell(error: ErrorView, mapping: SchemaMappingView, row: usize) -> bool {
    &&& error matches ErrorView::ValueConversion(diagnostics) && diagnostics.len() == 1
        && diagnostics[0].row == Some(row) && diagnostics[0].field == Some(
        (mapping.arrow.index, mapping.arrow.name),
    )
}

/// A value that conversion refuses is reported at its row and its field.
pub proof fn law_conversion_errors_name_the_cell(
    mapping: SchemaMappingView,
    policy: NanosecondPolicy,
    row: usize,
    cell: ArrowCellView,
)
    ensures
        mssql_cell_outcome(mapping, policy, row, cell) matches Err(error) ==> names_cell(
            error,
            mapping,
            row,
        ),
{
    match mapping.mssql.ty {
        MssqlType::DateTime2 { .. } => {
            lemma_datetime2_error(mapping, policy, row, cell);
        },
        MssqlType::DateTimeOffset { .. } => {
            lemma_datetimeoffset_error(mapping, policy, row, cell);
        },
        _ => {},
    }
}

/// A value that encoding refuses is reported at its row and its field, but for one of more bytes
/// than the machine can count.
pub proof fn law_encoding_errors_name_the_cell(
    mapping: SchemaMappingView,
    policy: NanosecondPolicy,
    row: usize,
    cell: ArrowCellView,
)
    requires
        current_encoding(mapping) is Some,
    ensures
        direct_cell_outcome(current_encoding(mapping)->0, mapping, policy, row, cell) matches Err(
            error,
        ) ==> names_cell(error, mapping, row) || is_beyond_memory(mapping.mssql.ty),
{
    match current_encoding(mapping)->0 {
        DirectColumnEncoding::Temporal(class) => {
            lemma_temporal_error(target_of(class), mapping, policy, row, cell);
        },
        DirectColumnEncoding::Primitive(_) => {},
        DirectColumnEncoding::UInt64Decimal20_0 | DirectColumnEncoding::Decimal(_) => {},
        DirectColumnEncoding::VariableWidth(_) => {},
        DirectColumnEncoding::FixedSizeBinary(_) => {},
    }
}

/// The error of a timezone names its cell.
proof fn lemma_zoned_error(
    mapping: SchemaMappingView,
    row: usize,
    timezone: Seq<char>,
    seconds: i64,
    nanoseconds: u32,
    ticks: core::result::Result<i128, ErrorView>,
    unit: Seq<char>,
    value: i64,
)
    requires
        ticks matches Err(error) ==> names_cell(error, mapping, row),
    ensures
        zoned_timestamp_outcome(
            mapping,
            row,
            timezone,
            seconds,
            nanoseconds,
            ticks,
            unit,
            value,
        ) matches Err(error) ==> names_cell(error, mapping, row),
{
    match resolution_outcome(mapping, row, timezone, is_arrow_timezone(timezone)) {
        Ok(resolution) => {
            match offset_outcome(resolution, mapping, row, seconds, nanoseconds) {
                Ok(_) => {},
                Err(error) => {
                    assert(names_cell(error, mapping, row));
                },
            }
        },
        Err(error) => {
            assert(names_cell(error, mapping, row));
        },
    }
}

/// The error of a `datetimeoffset` names its cell.
proof fn lemma_datetimeoffset_error(
    mapping: SchemaMappingView,
    policy: NanosecondPolicy,
    row: usize,
    cell: ArrowCellView,
)
    ensures
        datetimeoffset_value_outcome(mapping, policy, row, cell) matches Err(error) ==> names_cell(
            error,
            mapping,
            row,
        ),
{
    let mismatch = payload_mismatch(mapping, row, ExpectedPayload::DateTimeOffset, cell);
    assert(names_cell(mismatch, mapping, row));
    match (cell, mapping.arrow.data_type) {
        (
            ArrowCellOf::TimestampSecond(value),
            ArrowType::Timestamp(TimeUnit::Second, Some(timezone)),
        ) => {
            lemma_zoned_error(
                mapping,
                row,
                timezone,
                value,
                0,
                Ok((value * 10_000_000) as i128),
                "second"@,
                value,
            );
        },
        (
            ArrowCellOf::TimestampMillisecond(value),
            ArrowType::Timestamp(TimeUnit::Millisecond, Some(timezone)),
        ) => {
            lemma_zoned_error(
                mapping,
                row,
                timezone,
                (value as int / 1_000) as i64,
                (value as int % 1_000 * 1_000_000) as u32,
                Ok((value * 10_000) as i128),
                "millisecond"@,
                value,
            );
        },
        (
            ArrowCellOf::TimestampMicrosecond(value),
            ArrowType::Timestamp(TimeUnit::Microsecond, Some(timezone)),
        ) => {
            lemma_zoned_error(
                mapping,
                row,
                timezone,
                (value as int / 1_000_000) as i64,
                (value as int % 1_000_000 * 1_000) as u32,
                Ok((value * 10) as i128),
                "microsecond"@,
                value,
            );
        },
        (
            ArrowCellOf::TimestampNanosecond(value),
            ArrowType::Timestamp(TimeUnit::Nanosecond, Some(timezone)),
        ) => {
            lemma_zoned_error(
                mapping,
                row,
                timezone,
                (value as int / 1_000_000_000) as i64,
                (value as int % 1_000_000_000) as u32,
                nanosecond_ticks_outcome(mapping, row, value, policy),
                "nanosecond"@,
                value,
            );
        },
        _ => {},
    }
}

/// The error of a `datetime2` names its cell.
proof fn lemma_datetime2_error(
    mapping: SchemaMappingView,
    policy: NanosecondPolicy,
    row: usize,
    cell: ArrowCellView,
)
    ensures
        datetime2_value_outcome(mapping, policy, row, cell) matches Err(error) ==> names_cell(
            error,
            mapping,
            row,
        ),
{
    if let ArrowType::Timestamp(_, timezone) = mapping.arrow.data_type {
        if let Some(error) = metadata_error(mapping, row, timezone) {
            assert(names_cell(error, mapping, row));
        }
    }
}

/// The error of a date or time names its cell.
proof fn lemma_temporal_error(
    target: TemporalTarget,
    mapping: SchemaMappingView,
    policy: NanosecondPolicy,
    row: usize,
    cell: ArrowCellView,
)
    ensures
        temporal_cell_outcome(target, mapping, policy, row, cell) matches Err(error) ==> names_cell(
            error,
            mapping,
            row,
        ),
{
    match target {
        TemporalTarget::Date64 => {
            lemma_datetime2_error(mapping, policy, row, cell);
        },
        TemporalTarget::DateTimeOffset => {
            lemma_datetimeoffset_error(mapping, policy, row, cell);
        },
        _ => {},
    }
}

/// Whether a type can describe more bytes than the machine can count.
pub open spec fn is_beyond_memory(ty: MssqlType) -> bool {
    &&& (usize::MAX as int) < 0x1_0000_0010
    &&& ty == MssqlType::NVarChar(MssqlTypeLength::Max) || ty == MssqlType::VarBinary(
        MssqlTypeLength::Max,
    )
}

/// Whether a timestamp has the unit of its type.
pub open spec fn is_timestamp_of(cell: ArrowCellView, unit: TimeUnit) -> bool {
    match unit {
        TimeUnit::Second => cell is TimestampSecond,
        TimeUnit::Millisecond => cell is TimestampMillisecond,
        TimeUnit::Microsecond => cell is TimestampMicrosecond,
        TimeUnit::Nanosecond => cell is TimestampNanosecond,
    }
}

/// Whether a value is of a kind that is converted under a mapping.
pub open spec fn is_taken(mapping: SchemaMappingView, cell: ArrowCellView) -> bool {
    let data_type = mapping.arrow.data_type;
    match mapping.mssql.ty {
        MssqlType::Bit => cell is Boolean,
        MssqlType::TinyInt => cell is UInt8,
        MssqlType::SmallInt => cell is Int8 || cell is Int16,
        MssqlType::Int => cell is Int32 || cell is UInt16,
        MssqlType::BigInt => cell is Int64 || cell is UInt32 || cell is UInt64,
        MssqlType::Real => cell is Float32,
        MssqlType::Float { .. } => cell is Float64,
        MssqlType::Date => cell is Date32 && data_type is Date32,
        MssqlType::DateTime2 { precision } => match data_type {
            ArrowType::Date64 => cell is Date64 && precision == 3,
            ArrowType::Timestamp(unit, _) => is_timestamp_of(cell, unit) && precision == 7,
            _ => false,
        },
        MssqlType::DateTimeOffset { precision } => match data_type {
            ArrowType::Timestamp(unit, Some(_)) => is_timestamp_of(cell, unit) && precision == 7,
            _ => false,
        },
        MssqlType::NVarChar(_) => cell is Utf8,
        MssqlType::VarBinary(_) => cell is Binary,
        _ => false,
    }
}

/// A value of another kind than its mapping converts is refused as such, and a type that values
/// are not converted to takes none.
pub proof fn law_other_values_are_refused(
    mapping: SchemaMappingView,
    policy: NanosecondPolicy,
    row: usize,
    cell: ArrowCellView,
)
    requires
        !(cell is Null),
    ensures
        ({
            let found = mssql_cell_outcome(mapping, policy, row, cell);
            let ty = mapping.mssql.ty;
            &&& ty is Time || ty is DateTime || ty is Binary ==> (found matches Err(error)
                && is_row_error(error, mapping, row, DiagnosticCode::ValueConversionUnsupported))
            &&& !(ty is Time || ty is DateTime || ty is Binary || ty is Decimal) && !is_taken(
                mapping,
                cell,
            ) ==> (found matches Err(error) && is_row_error(
                error,
                mapping,
                row,
                DiagnosticCode::ValueTypeMismatch,
            ))
            &&& is_taken(mapping, cell) ==> !(found matches Err(error) && is_row_error(
                error,
                mapping,
                row,
                DiagnosticCode::ValueTypeMismatch,
            ))
        }),
{
}

/// The rounding of `datetime` changes once, at compatibility level 130.
pub proof fn law_datetime_rounding_changes_once(level: u16)
    ensures
        (datetime_rounding_at(level) is LegacyPre130) <==> (level as int) < 130,
        (datetime_rounding_at(level) is Compat130Plus) <==> level >= 130,
{
}

} // verus!
