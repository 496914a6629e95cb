//! Runtime record batch conversion to semantic SQL Server cells.

use vstd::prelude::*;

use crate::arrow_type::{same_type, ArrowType, DataTypeView, TimeUnit};
use crate::batch::{ColumnArray, RecordBatch};
use crate::cell::{
    ArrowCell, ArrowCellOf, ArrowCellView, MssqlCell, MssqlCellOf, MssqlCellView, MssqlDate,
    MssqlDateTime2, MssqlDateTimeOffset,
};
use crate::context::{NanosecondPolicy, PlanOptions};
use crate::decimal::{decimal_value_outcome, mssql_decimal_value};
use crate::diagnostic::{
    conversion_error, outcome, value_conversion_error, Diagnostic, DiagnosticCode, DiagnosticView,
    ErrorView, Result,
};
use crate::float::{classify_float32, classify_float64, float32_class, float64_class};
use crate::mapping::{mapping_views, SchemaMapping, SchemaMappingView};
use crate::message::{ExpectedPayload, Fault, MessageOf};
use crate::mssql_type::{MssqlType, MssqlTypeLength};
use crate::temporal::{
    date64_outcome, date_outcome, datetime2_outcome, datetimeoffset_outcome,
    epoch_parts_from_microseconds, epoch_parts_from_milliseconds, epoch_parts_from_nanoseconds,
    mssql_date_from_arrow_date32, mssql_datetime2_from_arrow_date64,
    mssql_datetime2_from_arrow_timestamp_microsecond,
    mssql_datetime2_from_arrow_timestamp_millisecond,
    mssql_datetime2_from_arrow_timestamp_nanosecond, mssql_datetime2_from_arrow_timestamp_second,
    mssql_datetimeoffset_from_utc_100ns_ticks, nanosecond_datetime2_outcome,
    nanosecond_ticks_outcome, nanoseconds_to_100ns_ticks, DATE64_SCALE, TICKS_PER_MICROSECOND,
    TICKS_PER_MILLISECOND, TICKS_PER_SECOND, TICK_SCALE,
};
use crate::timezone::{
    is_arrow_timezone, metadata_error, offset_outcome, resolution_outcome,
    timezone_resolution_from_metadata, validate_timestamp_timezone_metadata,
};
use crate::utf16::{utf16_len, utf16_units};
use crate::value_error::{
    mapping_diagnostic, mapping_error, non_finite_float_error, payload_mismatch,
    payload_mismatch_error, row_error, row_fault, row_mapping_diagnostic, row_mapping_fault,
    unsupported_value_conversion, value_too_long_error,
};

verus! {

/// Direction-specific runtime context for Arrow-to-MSSQL value conversion.
#[derive(Debug, Clone, Copy)]
pub struct ArrowToMssqlRuntimeMapping<'a> {
    mapping: &'a SchemaMapping,
    nanosecond_policy: NanosecondPolicy,
}

impl<'a> ArrowToMssqlRuntimeMapping<'a> {
    /// The structural mapping.
    pub closed spec fn mapping_spec(self) -> SchemaMappingView {
        self.mapping@
    }

    /// The nanosecond policy.
    pub closed spec fn policy_spec(self) -> NanosecondPolicy {
        self.nanosecond_policy
    }

    /// Creates runtime conversion context from structural mapping and write options.
    pub fn new(mapping: &'a SchemaMapping, options: &PlanOptions) -> (context: Self)
        ensures
            context.mapping_spec() == mapping@,
            context.policy_spec() == options.nanosecond_policy,
    {
        ArrowToMssqlRuntimeMapping { mapping, nanosecond_policy: options.nanosecond_policy }
    }

    /// Returns the structural Arrow/MSSQL mapping.
    pub fn mapping(self) -> (mapping: &'a SchemaMapping)
        ensures
            mapping@ == self.mapping_spec(),
    {
        self.mapping
    }

    /// Returns the nanosecond timestamp policy selected for write conversion.
    pub fn nanosecond_policy(self) -> (policy: NanosecondPolicy)
        ensures
            policy == self.policy_spec(),
    {
        self.nanosecond_policy
    }
}

/// An Arrow cell result as contracts speak of it.
pub open spec fn arrow_cell_view(result: Result<ArrowCell<'_>>) -> core::result::Result<
    ArrowCellView,
    ErrorView,
> {
    match result {
        Ok(cell) => Ok(cell@),
        Err(error) => Err(error@),
    }
}

/// A SQL Server cell result as contracts speak of it.
pub open spec fn mssql_cell_view(result: Result<MssqlCell<'_>>) -> core::result::Result<
    MssqlCellView,
    ErrorView,
> {
    match result {
        Ok(cell) => Ok(cell@),
        Err(error) => Err(error@),
    }
}

/// Whether values of a planned type are extracted.
pub open spec fn is_extracted_type(data_type: DataTypeView) -> bool {
    match data_type {
        ArrowType::Boolean => true,
        ArrowType::Int8 => true,
        ArrowType::Int16 => true,
        ArrowType::Int32 => true,
        ArrowType::Int64 => true,
        ArrowType::UInt8 => true,
        ArrowType::UInt16 => true,
        ArrowType::UInt32 => true,
        ArrowType::UInt64 => true,
        ArrowType::Date32 => true,
        ArrowType::Date64 => true,
        ArrowType::Float32 => true,
        ArrowType::Float64 => true,
        ArrowType::Utf8 => true,
        ArrowType::LargeUtf8 => true,
        ArrowType::Binary => true,
        ArrowType::LargeBinary => true,
        ArrowType::Decimal32(_, _) => true,
        ArrowType::Decimal64(_, _) => true,
        ArrowType::Decimal128(_, _) => true,
        ArrowType::Decimal256(_, _) => true,
        ArrowType::Timestamp(_, _) => true,
        _ => false,
    }
}

/// Whether an array has the layout of a planned type: its parameters other than the unit of a
/// timestamp do not count.
pub open spec fn same_layout(planned: DataTypeView, runtime: DataTypeView) -> bool {
    match (planned, runtime) {
        (ArrowType::Boolean, ArrowType::Boolean) => true,
        (ArrowType::Int8, ArrowType::Int8) => true,
        (ArrowType::Int16, ArrowType::Int16) => true,
        (ArrowType::Int32, ArrowType::Int32) => true,
        (ArrowType::Int64, ArrowType::Int64) => true,
        (ArrowType::UInt8, ArrowType::UInt8) => true,
        (ArrowType::UInt16, ArrowType::UInt16) => true,
        (ArrowType::UInt32, ArrowType::UInt32) => true,
        (ArrowType::UInt64, ArrowType::UInt64) => true,
        (ArrowType::Date32, ArrowType::Date32) => true,
        (ArrowType::Date64, ArrowType::Date64) => true,
        (ArrowType::Float32, ArrowType::Float32) => true,
        (ArrowType::Float64, ArrowType::Float64) => true,
        (ArrowType::Utf8, ArrowType::Utf8) => true,
        (ArrowType::LargeUtf8, ArrowType::LargeUtf8) => true,
        (ArrowType::Binary, ArrowType::Binary) => true,
        (ArrowType::LargeBinary, ArrowType::LargeBinary) => true,
        (ArrowType::Decimal32(_, _), ArrowType::Decimal32(_, _)) => true,
        (ArrowType::Decimal64(_, _), ArrowType::Decimal64(_, _)) => true,
        (ArrowType::Decimal128(_, _), ArrowType::Decimal128(_, _)) => true,
        (ArrowType::Decimal256(_, _), ArrowType::Decimal256(_, _)) => true,
        (ArrowType::Timestamp(unit, _), ArrowType::Timestamp(runtime_unit, _)) => unit
            == runtime_unit,
        _ => false,
    }
}

/// The cell that is extracted from an array under a planned mapping.
pub open spec fn extract_outcome(
    array: ColumnArray,
    mapping: SchemaMappingView,
    row_index: usize,
) -> core::result::Result<ArrowCellView, ErrorView> {
    if array.cell_at(row_index as int) is Null {
        Ok(ArrowCellOf::Null)
    } else if !is_extracted_type(mapping.arrow.data_type) {
        Err(
            row_error(
                mapping,
                row_index,
                DiagnosticCode::ValueConversionUnsupported,
                MessageOf::ExtractionUnsupported { data_type: mapping.arrow.data_type },
            ),
        )
    } else if same_layout(mapping.arrow.data_type, array.type_view()) {
        Ok(array.cell_at(row_index as int))
    } else {
        Err(
            row_error(
                mapping,
                row_index,
                DiagnosticCode::ValueTypeMismatch,
                MessageOf::ArrayTypeMismatch {
                    runtime: array.type_view(),
                    planned: mapping.arrow.data_type,
                },
            ),
        )
    }
}

/// Creates the error of an array of another layout than planned.
fn array_mismatch(array: &ColumnArray, mapping: &SchemaMapping, row_index: usize) -> (error:
    crate::diagnostic::Error)
    ensures
        error@ == row_error(
            mapping@,
            row_index,
            DiagnosticCode::ValueTypeMismatch,
            MessageOf::ArrayTypeMismatch {
                runtime: array.type_view(),
                planned: mapping@.arrow.data_type,
            },
        ),
{
    value_conversion_error(
        row_mapping_diagnostic(
            mapping,
            row_index,
            DiagnosticCode::ValueTypeMismatch,
            MessageOf::ArrayTypeMismatch {
                runtime: array.data_type(),
                planned: mapping.arrow().data_type().clone(),
            },
        ),
    )
}

/// Extracts one cell of an array under a planned mapping.
///
/// A null is extracted whatever the planned type; any other value only where the array has the
/// planned layout.
pub fn extract_arrow_cell<'a>(
    array: &'a ColumnArray,
    mapping: &SchemaMapping,
    row_index: usize,
) -> (result: Result<ArrowCell<'a>>)
    requires
        row_index < array.row_count(),
    ensures
        arrow_cell_view(result) == extract_outcome(*array, mapping@, row_index),
{
    if array.is_null(row_index) {
        return Ok(ArrowCellOf::Null);
    }
    match mapping.arrow().data_type() {
        ArrowType::Boolean => match array {
            ColumnArray::Boolean(values) => match values[row_index] {
                Some(value) => Ok(ArrowCellOf::Boolean(value)),
                None => Ok(ArrowCellOf::Null),
            },
            _ => Err(array_mismatch(array, mapping, row_index)),
        },
        ArrowType::Int8 => match array {
            ColumnArray::Int8(values) => match values[row_index] {
                Some(value) => Ok(ArrowCellOf::Int8(value)),
                None => Ok(ArrowCellOf::Null),
            },
            _ => Err(array_mismatch(array, mapping, row_index)),
        },
        ArrowType::Int16 => match array {
            ColumnArray::Int16(values) => match values[row_index] {
                Some(value) => Ok(ArrowCellOf::Int16(value)),
                None => Ok(ArrowCellOf::Null),
            },
            _ => Err(array_mismatch(array, mapping, row_index)),
        },
        ArrowType::Int32 => match array {
            ColumnArray::Int32(values) => match values[row_index] {
                Some(value) => Ok(ArrowCellOf::Int32(value)),
                None => Ok(ArrowCellOf::Null),
            },
            _ => Err(array_mismatch(array, mapping, row_index)),
        },
        ArrowType::Int64 => match array {
            ColumnArray::Int64(values) => match values[row_index] {
                Some(value) => Ok(ArrowCellOf::Int64(value)),
                None => Ok(ArrowCellOf::Null),
            },
            _ => Err(array_mismatch(array, mapping, row_index)),
        },
        ArrowType::UInt8 => match array {
            ColumnArray::UInt8(values) => match values[row_index] {
                Some(value) => Ok(ArrowCellOf::UInt8(value)),
                None => Ok(ArrowCellOf::Null),
            },
            _ => Err(array_mismatch(array, mapping, row_index)),
        },
        ArrowType::UInt16 => match array {
            ColumnArray::UInt16(values) => match values[row_index] {
                Some(value) => Ok(ArrowCellOf::UInt16(value)),
                None => Ok(ArrowCellOf::Null),
            },
            _ => Err(array_mismatch(array, mapping, row_index)),
        },
        ArrowType::UInt32 => match array {
            ColumnArray::UInt32(values) => match values[row_index] {
                Some(value) => Ok(ArrowCellOf::UInt32(value)),
                None => Ok(ArrowCellOf::Null),
            },
            _ => Err(array_mismatch(array, mapping, row_index)),
        },
        ArrowType::UInt64 => match array {
            ColumnArray::UInt64(values) => match values[row_index] {
                Some(value) => Ok(ArrowCellOf::UInt64(value)),
                None => Ok(ArrowCellOf::Null),
            },
            _ => Err(array_mismatch(array, mapping, row_index)),
        },
        ArrowType::Decimal32(_, _) => match array {
            ColumnArray::Decimal32 { values, .. } => match values[row_index] {
                Some(value) => Ok(ArrowCellOf::Decimal32(value)),
                None => Ok(ArrowCellOf::Null),
            },
            _ => Err(array_mismatch(array, mapping, row_index)),
        },
        ArrowType::Decimal64(_, _) => match array {
            ColumnArray::Decimal64 { values, .. } => match values[row_index] {
                Some(value) => Ok(ArrowCellOf::Decimal64(value)),
                None => Ok(ArrowCellOf::Null),
            },
            _ => Err(array_mismatch(array, mapping, row_index)),
        },
        ArrowType::Decimal128(_, _) => match array {
            ColumnArray::Decimal128 { values, .. } => match values[row_index] {
                Some(value) => Ok(ArrowCellOf::Decimal128(value)),
                None => Ok(ArrowCellOf::Null),
            },
            _ => Err(array_mismatch(array, mapping, row_index)),
        },
        ArrowType::Decimal256(_, _) => match array {
            ColumnArray::Decimal256 { values, .. } => match values[row_index] {
                Some(value) => Ok(ArrowCellOf::Decimal256(value)),
                None => Ok(ArrowCellOf::Null),
            },
            _ => Err(array_mismatch(array, mapping, row_index)),
        },
        ArrowType::Date32 => match array {
            ColumnArray::Date32(values) => match values[row_index] {
                Some(value) => Ok(ArrowCellOf::Date32(value)),
                None => Ok(ArrowCellOf::Null),
            },
            _ => Err(array_mismatch(array, mapping, row_index)),
        },
        ArrowType::Date64 => match array {
            ColumnArray::Date64(values) => match values[row_index] {
                Some(value) => Ok(ArrowCellOf::Date64(value)),
                None => Ok(ArrowCellOf::Null),
            },
            _ => Err(array_mismatch(array, mapping, row_index)),
        },
        ArrowType::Timestamp(planned_unit, _) => match array {
            ColumnArray::Timestamp { unit, values, .. } if *unit == *planned_unit => {
                match values[row_index] {
                    Some(value) => Ok(timestamp_arrow_cell(*unit, value)),
                    None => Ok(ArrowCellOf::Null),
                }
            },
            _ => Err(array_mismatch(array, mapping, row_index)),
        },
        ArrowType::Float32 => match array {
            ColumnArray::Float32(values) => match values[row_index] {
                Some(value) => Ok(ArrowCellOf::Float32(value)),
                None => Ok(ArrowCellOf::Null),
            },
            _ => Err(array_mismatch(array, mapping, row_index)),
        },
        ArrowType::Float64 => match array {
            ColumnArray::Float64(values) => match values[row_index] {
                Some(value) => Ok(ArrowCellOf::Float64(value)),
                None => Ok(ArrowCellOf::Null),
            },
            _ => Err(array_mismatch(array, mapping, row_index)),
        },
        ArrowType::Utf8 => match array {
            ColumnArray::Utf8(values) => match &values[row_index] {
                Some(value) => Ok(ArrowCellOf::Utf8(value.as_str())),
                None => Ok(ArrowCellOf::Null),
            },
            _ => Err(array_mismatch(array, mapping, row_index)),
        },
        ArrowType::LargeUtf8 => match array {
            ColumnArray::LargeUtf8(values) => match &values[row_index] {
                Some(value) => Ok(ArrowCellOf::Utf8(value.as_str())),
                None => Ok(ArrowCellOf::Null),
            },
            _ => Err(array_mismatch(array, mapping, row_index)),
        },
        ArrowType::Binary => match array {
            ColumnArray::Binary(values) => match &values[row_index] {
                Some(value) => Ok(ArrowCellOf::Binary(value.as_slice())),
                None => Ok(ArrowCellOf::Null),
            },
            _ => Err(array_mismatch(array, mapping, row_index)),
        },
        ArrowType::LargeBinary => match array {
            ColumnArray::LargeBinary(values) => match &values[row_index] {
                Some(value) => Ok(ArrowCellOf::Binary(value.as_slice())),
                None => Ok(ArrowCellOf::Null),
            },
            _ => Err(array_mismatch(array, mapping, row_index)),
        },
        other => Err(
            unsupported_value_conversion(
                mapping,
                row_index,
                MessageOf::ExtractionUnsupported { data_type: other.clone() },
            ),
        ),
    }
}

/// Creates the cell of a timestamp.
fn timestamp_arrow_cell<'a>(unit: TimeUnit, value: i64) -> (cell: ArrowCell<'a>)
    ensures
        cell@ == crate::batch::timestamp_cell(unit, value),
{
    match unit {
        TimeUnit::Second => ArrowCellOf::TimestampSecond(value),
        TimeUnit::Millisecond => ArrowCellOf::TimestampMillisecond(value),
        TimeUnit::Microsecond => ArrowCellOf::TimestampMicrosecond(value),
        TimeUnit::Nanosecond => ArrowCellOf::TimestampNanosecond(value),
    }
}

/// The value of a cell for a `bit`.
pub open spec fn bit_outcome(
    mapping: SchemaMappingView,
    row_index: usize,
    cell: ArrowCellView,
) -> core::result::Result<bool, ErrorView> {
    match cell {
        ArrowCellOf::Boolean(value) => Ok(value),
        _ => Err(payload_mismatch(mapping, row_index, ExpectedPayload::Boolean, cell)),
    }
}

/// Converts a cell to a `bit` value.
pub fn mssql_bit_value(mapping: &SchemaMapping, row_index: usize, cell: ArrowCell<'_>) -> (result:
    Result<bool>)
    ensures
        outcome(result) == bit_outcome(mapping@, row_index, cell@),
{
    match cell {
        ArrowCellOf::Boolean(value) => Ok(value),
        _ => Err(payload_mismatch_error(mapping, row_index, ExpectedPayload::Boolean, cell)),
    }
}

/// The value of a cell for a `tinyint`.
pub open spec fn tinyint_outcome(
    mapping: SchemaMappingView,
    row_index: usize,
    cell: ArrowCellView,
) -> core::result::Result<u8, ErrorView> {
    match cell {
        ArrowCellOf::UInt8(value) => Ok(value),
        _ => Err(payload_mismatch(mapping, row_index, ExpectedPayload::UInt8, cell)),
    }
}

/// Converts a cell to a `tinyint` value.
pub fn mssql_tinyint_value(
    mapping: &SchemaMapping,
    row_index: usize,
    cell: ArrowCell<'_>,
) -> (result: Result<u8>)
    ensures
        outcome(result) == tinyint_outcome(mapping@, row_index, cell@),
{
    match cell {
        ArrowCellOf::UInt8(value) => Ok(value),
        _ => Err(payload_mismatch_error(mapping, row_index, ExpectedPayload::UInt8, cell)),
    }
}

/// The value of a cell for a `smallint`.
pub open spec fn smallint_outcome(
    mapping: SchemaMappingView,
    row_index: usize,
    cell: ArrowCellView,
) -> core::result::Result<i16, ErrorView> {
    match cell {
        ArrowCellOf::Int8(value) => Ok(value as i16),
        ArrowCellOf::Int16(value) => Ok(value),
        _ => Err(payload_mismatch(mapping, row_index, ExpectedPayload::SmallInt, cell)),
    }
}

/// Converts a cell to a `smallint` value.
pub fn mssql_smallint_value(
    mapping: &SchemaMapping,
    row_index: usize,
    cell: ArrowCell<'_>,
) -> (result: Result<i16>)
    ensures
        outcome(result) == smallint_outcome(mapping@, row_index, cell@),
{
    match cell {
        ArrowCellOf::Int8(value) => Ok(value as i16),
        ArrowCellOf::Int16(value) => Ok(value),
        _ => Err(payload_mismatch_error(mapping, row_index, ExpectedPayload::SmallInt, cell)),
    }
}

/// The value of a cell for a `int`.
pub open spec fn int_outcome(
    mapping: SchemaMappingView,
    row_index: usize,
    cell: ArrowCellView,
) -> core::result::Result<i32, ErrorView> {
    match cell {
        ArrowCellOf::Int32(value) => Ok(value),
        ArrowCellOf::UInt16(value) => Ok(value as i32),
        _ => Err(payload_mismatch(mapping, row_index, ExpectedPayload::Int, cell)),
    }
}

/// Converts a cell to a `int` value.
pub fn mssql_int_value(mapping: &SchemaMapping, row_index: usize, cell: ArrowCell<'_>) -> (result:
    Result<i32>)
    ensures
        outcome(result) == int_outcome(mapping@, row_index, cell@),
{
    match cell {
        ArrowCellOf::Int32(value) => Ok(value),
        ArrowCellOf::UInt16(value) => Ok(value as i32),
        _ => Err(payload_mismatch_error(mapping, row_index, ExpectedPayload::Int, cell)),
    }
}

/// The value of a cell for a `bigint`.
pub open spec fn bigint_outcome(
    mapping: SchemaMappingView,
    row_index: usize,
    cell: ArrowCellView,
) -> core::result::Result<i64, ErrorView> {
    match cell {
        ArrowCellOf::Int64(value) => Ok(value),
        ArrowCellOf::UInt32(value) => Ok(value as i64),
        ArrowCellOf::UInt64(value) => if value <= i64::MAX {
            Ok(value as i64)
        } else {
            Err(
                row_fault(
                    mapping,
                    row_index,
                    DiagnosticCode::IntegerOutOfRange,
                    Fault::BigIntOverflow { value },
                ),
            )
        },
        _ => Err(payload_mismatch(mapping, row_index, ExpectedPayload::BigInt, cell)),
    }
}

/// Converts a cell to a `bigint` value.
pub fn mssql_bigint_value(
    mapping: &SchemaMapping,
    row_index: usize,
    cell: ArrowCell<'_>,
) -> (result: Result<i64>)
    ensures
        outcome(result) == bigint_outcome(mapping@, row_index, cell@),
{
    match cell {
        ArrowCellOf::Int64(value) => Ok(value),
        ArrowCellOf::UInt32(value) => Ok(value as i64),
        ArrowCellOf::UInt64(value) => if value <= i64::MAX as u64 {
            Ok(value as i64)
        } else {
            Err(
                row_mapping_fault(
                    mapping,
                    row_index,
                    DiagnosticCode::IntegerOutOfRange,
                    Fault::BigIntOverflow { value },
                ),
            )
        },
        _ => Err(payload_mismatch_error(mapping, row_index, ExpectedPayload::BigInt, cell)),
    }
}

/// The value of a cell for a `real`.
pub open spec fn real_outcome(
    mapping: SchemaMappingView,
    row_index: usize,
    cell: ArrowCellView,
) -> core::result::Result<u32, ErrorView> {
    match cell {
        ArrowCellOf::Float32(value) => match float32_class(value) {
            None => Ok(value),
            Some(value) => Err(
                row_fault(
                    mapping,
                    row_index,
                    DiagnosticCode::NonFiniteFloat,
                    Fault::NonFiniteFloat { value },
                ),
            ),
        },
        _ => Err(payload_mismatch(mapping, row_index, ExpectedPayload::Float32, cell)),
    }
}

/// Converts a cell to a `real` value.
pub fn mssql_real_value(mapping: &SchemaMapping, row_index: usize, cell: ArrowCell<'_>) -> (result:
    Result<u32>)
    ensures
        outcome(result) == real_outcome(mapping@, row_index, cell@),
{
    match cell {
        ArrowCellOf::Float32(value) => match classify_float32(value) {
            None => Ok(value),
            Some(value) => Err(non_finite_float_error(mapping, row_index, value)),
        },
        _ => Err(payload_mismatch_error(mapping, row_index, ExpectedPayload::Float32, cell)),
    }
}

/// The value of a cell for a `float`.
pub open spec fn float_outcome(
    mapping: SchemaMappingView,
    row_index: usize,
    cell: ArrowCellView,
) -> core::result::Result<u64, ErrorView> {
    match cell {
        ArrowCellOf::Float64(value) => match float64_class(value) {
            None => Ok(value),
            Some(value) => Err(
                row_fault(
                    mapping,
                    row_index,
                    DiagnosticCode::NonFiniteFloat,
                    Fault::NonFiniteFloat { value },
                ),
            ),
        },
        _ => Err(payload_mismatch(mapping, row_index, ExpectedPayload::Float64, cell)),
    }
}

/// Converts a cell to a `float` value.
pub fn mssql_float_value(mapping: &SchemaMapping, row_index: usize, cell: ArrowCell<'_>) -> (result:
    Result<u64>)
    ensures
        outcome(result) == float_outcome(mapping@, row_index, cell@),
{
    match cell {
        ArrowCellOf::Float64(value) => match classify_float64(value) {
            None => Ok(value),
            Some(value) => Err(non_finite_float_error(mapping, row_index, value)),
        },
        _ => Err(payload_mismatch_error(mapping, row_index, ExpectedPayload::Float64, cell)),
    }
}

/// The value of a cell for a `date`.
pub open spec fn date_value_outcome(
    mapping: SchemaMappingView,
    row_index: usize,
    cell: ArrowCellView,
) -> core::result::Result<MssqlDate, ErrorView> {
    match (cell, mapping.arrow.data_type) {
        (ArrowCellOf::Date32(value), ArrowType::Date32) => date_outcome(mapping, row_index, value),
        _ => Err(payload_mismatch(mapping, row_index, ExpectedPayload::Date32, cell)),
    }
}

/// Converts a cell to a `date` value.
pub fn mssql_date_value(mapping: &SchemaMapping, row_index: usize, cell: ArrowCell<'_>) -> (result:
    Result<MssqlDate>)
    ensures
        outcome(result) == date_value_outcome(mapping@, row_index, cell@),
{
    match (cell, mapping.arrow().data_type()) {
        (ArrowCellOf::Date32(value), ArrowType::Date32) => mssql_date_from_arrow_date32(
            mapping,
            row_index,
            value,
        ),
        _ => Err(payload_mismatch_error(mapping, row_index, ExpectedPayload::Date32, cell)),
    }
}

/// The value of a timestamp cell for a `datetime2(7)`, once its timezone metadata is valid.
pub open spec fn checked_timestamp_outcome(
    mapping: SchemaMappingView,
    row_index: usize,
    timezone: Option<Seq<char>>,
    converted: core::result::Result<MssqlDateTime2, ErrorView>,
) -> core::result::Result<MssqlDateTime2, ErrorView> {
    match metadata_error(mapping, row_index, timezone) {
        Some(error) => Err(error),
        None => converted,
    }
}

/// The value of a cell for a `datetime2`: a Date64 at precision 3, a timestamp at precision 7.
pub open spec fn datetime2_value_outcome(
    mapping: SchemaMappingView,
    policy: NanosecondPolicy,
    row_index: usize,
    cell: ArrowCellView,
) -> core::result::Result<MssqlDateTime2, ErrorView> {
    let mismatch = Err(payload_mismatch(mapping, row_index, ExpectedPayload::DateTime2, cell));
    match (cell, mapping.arrow.data_type) {
        (ArrowCellOf::Date64(value), ArrowType::Date64) => if mapping.mssql.ty == (
        MssqlType::DateTime2 { precision: DATE64_SCALE }) {
            date64_outcome(mapping, row_index, value)
        } else {
            mismatch
        },
        (ArrowCellOf::TimestampSecond(value), ArrowType::Timestamp(TimeUnit::Second, timezone)) => {
            if mapping.mssql.ty == (MssqlType::DateTime2 { precision: TICK_SCALE }) {
                checked_timestamp_outcome(
                    mapping,
                    row_index,
                    timezone,
                    datetime2_outcome(
                        mapping,
                        row_index,
                        (value * TICKS_PER_SECOND) as i128,
                        "second"@,
                        value,
                    ),
                )
            } else {
                mismatch
            }
        },
        (
            ArrowCellOf::TimestampMillisecond(value),
            ArrowType::Timestamp(TimeUnit::Millisecond, timezone),
        ) => if mapping.mssql.ty == (MssqlType::DateTime2 { precision: TICK_SCALE }) {
            checked_timestamp_outcome(
                mapping,
                row_index,
                timezone,
                datetime2_outcome(
                    mapping,
                    row_index,
                    (value * TICKS_PER_MILLISECOND) as i128,
                    "millisecond"@,
                    value,
                ),
            )
        } else {
            mismatch
        },
        (
            ArrowCellOf::TimestampMicrosecond(value),
            ArrowType::Timestamp(TimeUnit::Microsecond, timezone),
        ) => if mapping.mssql.ty == (MssqlType::DateTime2 { precision: TICK_SCALE }) {
            checked_timestamp_outcome(
                mapping,
                row_index,
                timezone,
                datetime2_outcome(
                    mapping,
                    row_index,
                    (value * TICKS_PER_MICROSECOND) as i128,
                    "microsecond"@,
                    value,
                ),
            )
        } else {
            mismatch
        },
        (
            ArrowCellOf::TimestampNanosecond(value),
            ArrowType::Timestamp(TimeUnit::Nanosecond, timezone),
        ) => if mapping.mssql.ty == (MssqlType::DateTime2 { precision: TICK_SCALE }) {
            checked_timestamp_outcome(
                mapping,
                row_index,
                timezone,
                nanosecond_datetime2_outcome(mapping, row_index, value, policy),
            )
        } else {
            mismatch
        },
        _ => mismatch,
    }
}

/// The characters of timezone metadata.
pub open spec fn timezone_view(timezone: Option<String>) -> Option<Seq<char>> {
    match timezone {
        Some(timezone) => Some(timezone@),
        None => None,
    }
}

/// Borrows timezone metadata.
pub(crate) fn borrow_timezone(timezone: &Option<String>) -> (result: Option<&str>)
    ensures
        crate::cell::optional_text(result) == timezone_view(*timezone),
{
    match timezone {
        Some(timezone) => Some(timezone.as_str()),
        None => None,
    }
}

/// Converts a cell to a `datetime2` value.
pub fn mssql_datetime2_value(
    runtime_mapping: ArrowToMssqlRuntimeMapping<'_>,
    row_index: usize,
    cell: ArrowCell<'_>,
) -> (result: Result<MssqlDateTime2>)
    ensures
        outcome(result) == datetime2_value_outcome(
            runtime_mapping.mapping_spec(),
            runtime_mapping.policy_spec(),
            row_index,
            cell@,
        ),
{
    let mapping = runtime_mapping.mapping();
    let ty: MssqlType = *mapping.mssql().ty();
    match (cell, mapping.arrow().data_type()) {
        (ArrowCellOf::Date64(value), ArrowType::Date64) if ty == (MssqlType::DateTime2 {
            precision: DATE64_SCALE,
        }) => mssql_datetime2_from_arrow_date64(mapping, row_index, value),
        (
            ArrowCellOf::TimestampSecond(value),
            ArrowType::Timestamp(TimeUnit::Second, timezone),
        ) if ty == (MssqlType::DateTime2 { precision: TICK_SCALE }) => {
            match validate_timestamp_timezone_metadata(
                mapping,
                row_index,
                borrow_timezone(timezone),
            ) {
                Ok(()) => mssql_datetime2_from_arrow_timestamp_second(
                    mapping,
                    row_index,
                    value,
                ),
                Err(error) => Err(error),
            }
        },
        (
            ArrowCellOf::TimestampMillisecond(value),
            ArrowType::Timestamp(TimeUnit::Millisecond, timezone),
        ) if ty == (MssqlType::DateTime2 { precision: TICK_SCALE }) => {
            match validate_timestamp_timezone_metadata(
                mapping,
                row_index,
                borrow_timezone(timezone),
            ) {
                Ok(()) => mssql_datetime2_from_arrow_timestamp_millisecond(
                    mapping,
                    row_index,
                    value,
                ),
                Err(error) => Err(error),
            }
        },
        (
            ArrowCellOf::TimestampMicrosecond(value),
            ArrowType::Timestamp(TimeUnit::Microsecond, timezone),
        ) if ty == (MssqlType::DateTime2 { precision: TICK_SCALE }) => {
            match validate_timestamp_timezone_metadata(
                mapping,
                row_index,
                borrow_timezone(timezone),
            ) {
                Ok(()) => mssql_datetime2_from_arrow_timestamp_microsecond(
                    mapping,
                    row_index,
                    value,
                ),
                Err(error) => Err(error),
            }
        },
        (
            ArrowCellOf::TimestampNanosecond(value),
            ArrowType::Timestamp(TimeUnit::Nanosecond, timezone),
        ) if ty == (MssqlType::DateTime2 { precision: TICK_SCALE }) => {
            match validate_timestamp_timezone_metadata(
                mapping,
                row_index,
                borrow_timezone(timezone),
            ) {
                Ok(()) => mssql_datetime2_from_arrow_timestamp_nanosecond(
                    mapping,
                    row_index,
                    value,
                    runtime_mapping.nanosecond_policy(),
                ),
                Err(error) => Err(error),
            }
        },
        _ => Err(payload_mismatch_error(mapping, row_index, ExpectedPayload::DateTime2, cell)),
    }
}

/// The `datetimeoffset(7)` of an instant in a timezone: the offset is resolved before the ticks.
pub open spec fn zoned_timestamp_outcome(
    mapping: SchemaMappingView,
    row_index: usize,
    timezone: Seq<char>,
    seconds: i64,
    nanoseconds: u32,
    ticks: core::result::Result<i128, ErrorView>,
    unit: Seq<char>,
    value: i64,
) -> core::result::Result<MssqlDateTimeOffset, ErrorView> {
    match resolution_outcome(mapping, row_index, timezone, is_arrow_timezone(timezone)) {
        Ok(resolution) => match offset_outcome(
            resolution,
            mapping,
            row_index,
            seconds,
            nanoseconds,
        ) {
            Ok(offset_minutes) => match ticks {
                Ok(ticks) => datetimeoffset_outcome(
                    mapping,
                    row_index,
                    ticks,
                    offset_minutes,
                    unit,
                    value,
                ),
                Err(error) => Err(error),
            },
            Err(error) => Err(error),
        },
        Err(error) => Err(error),
    }
}

/// The value of a cell for a `datetimeoffset(7)`.
pub open spec fn datetimeoffset_value_outcome(
    mapping: SchemaMappingView,
    policy: NanosecondPolicy,
    row_index: usize,
    cell: ArrowCellView,
) -> core::result::Result<MssqlDateTimeOffset, ErrorView> {
    let mismatch = Err(payload_mismatch(mapping, row_index, ExpectedPayload::DateTimeOffset, cell));
    if mapping.mssql.ty != (MssqlType::DateTimeOffset { precision: TICK_SCALE }) {
        mismatch
    } else {
        match (cell, mapping.arrow.data_type) {
            (
                ArrowCellOf::TimestampSecond(value),
                ArrowType::Timestamp(TimeUnit::Second, Some(timezone)),
            ) => zoned_timestamp_outcome(
                mapping,
                row_index,
                timezone,
                value,
                0,
                Ok((value * TICKS_PER_SECOND) as i128),
                "second"@,
                value,
            ),
            (
                ArrowCellOf::TimestampMillisecond(value),
                ArrowType::Timestamp(TimeUnit::Millisecond, Some(timezone)),
            ) => zoned_timestamp_outcome(
                mapping,
                row_index,
                timezone,
                (value as int / 1_000) as i64,
                (value as int % 1_000 * 1_000_000) as u32,
                Ok((value * TICKS_PER_MILLISECOND) as i128),
                "millisecond"@,
                value,
            ),
            (
                ArrowCellOf::TimestampMicrosecond(value),
                ArrowType::Timestamp(TimeUnit::Microsecond, Some(timezone)),
            ) => zoned_timestamp_outcome(
                mapping,
                row_index,
                timezone,
                (value as int / 1_000_000) as i64,
                (value as int % 1_000_000 * 1_000) as u32,
                Ok((value * TICKS_PER_MICROSECOND) as i128),
                "microsecond"@,
                value,
            ),
            (
                ArrowCellOf::TimestampNanosecond(value),
                ArrowType::Timestamp(TimeUnit::Nanosecond, Some(timezone)),
            ) => zoned_timestamp_outcome(
                mapping,
                row_index,
                timezone,
                (value as int / 1_000_000_000) as i64,
                (value as int % 1_000_000_000) as u32,
                nanosecond_ticks_outcome(mapping, row_index, value, policy),
                "nanosecond"@,
                value,
            ),
            _ => mismatch,
        }
    }
}

/// Resolves the offset of a timezone at an instant.
fn zoned_offset(
    mapping: &SchemaMapping,
    row_index: usize,
    timezone: &str,
    seconds: i64,
    nanoseconds: u32,
) -> (result: Result<i16>)
    ensures
        outcome(result) == (match resolution_outcome(
            mapping@,
            row_index,
            timezone@,
            is_arrow_timezone(timezone@),
        ) {
            Ok(resolution) => offset_outcome(
                resolution,
                mapping@,
                row_index,
                seconds,
                nanoseconds,
            ),
            Err(error) => Err(error),
        }),
{
    match timezone_resolution_from_metadata(mapping, row_index, timezone) {
        Ok(resolution) => resolution.offset_for_instant(mapping, row_index, seconds, nanoseconds),
        Err(error) => Err(error),
    }
}

/// Converts a cell to a `datetimeoffset` value of its local date and time.
pub fn mssql_datetimeoffset_value(
    runtime_mapping: ArrowToMssqlRuntimeMapping<'_>,
    row_index: usize,
    cell: ArrowCell<'_>,
) -> (result: Result<MssqlDateTimeOffset>)
    ensures
        outcome(result) == datetimeoffset_value_outcome(
            runtime_mapping.mapping_spec(),
            runtime_mapping.policy_spec(),
            row_index,
            cell@,
        ),
{
    let mapping = runtime_mapping.mapping();
    if *mapping.mssql().ty() != (MssqlType::DateTimeOffset { precision: TICK_SCALE }) {
        return Err(
            payload_mismatch_error(mapping, row_index, ExpectedPayload::DateTimeOffset, cell),
        );
    }
    match (cell, mapping.arrow().data_type()) {
        (
            ArrowCellOf::TimestampSecond(value),
            ArrowType::Timestamp(TimeUnit::Second, Some(timezone)),
        ) => {
            let offset_minutes: i16 = match zoned_offset(
                mapping,
                row_index,
                timezone.as_str(),
                value,
                0,
            ) {
                Ok(offset_minutes) => offset_minutes,
                Err(error) => {
                    return Err(error);
                },
            };
            let utc_ticks: i128 = value as i128 * TICKS_PER_SECOND;
            mssql_datetimeoffset_from_utc_100ns_ticks(
                mapping,
                row_index,
                utc_ticks,
                offset_minutes,
                "second",
                value,
            )
        },
        (
            ArrowCellOf::TimestampMillisecond(value),
            ArrowType::Timestamp(TimeUnit::Millisecond, Some(timezone)),
        ) => {
            let (seconds, nanoseconds): (i64, u32) = match epoch_parts_from_milliseconds(
                mapping,
                row_index,
                value,
            ) {
                Ok(parts) => parts,
                Err(error) => {
                    return Err(error);
                },
            };
            let offset_minutes: i16 = match zoned_offset(
                mapping,
                row_index,
                timezone.as_str(),
                seconds,
                nanoseconds,
            ) {
                Ok(offset_minutes) => offset_minutes,
                Err(error) => {
                    return Err(error);
                },
            };
            let utc_ticks: i128 = value as i128 * TICKS_PER_MILLISECOND;
            mssql_datetimeoffset_from_utc_100ns_ticks(
                mapping,
                row_index,
                utc_ticks,
                offset_minutes,
                "millisecond",
                value,
            )
        },
        (
            ArrowCellOf::TimestampMicrosecond(value),
            ArrowType::Timestamp(TimeUnit::Microsecond, Some(timezone)),
        ) => {
            let (seconds, nanoseconds): (i64, u32) = match epoch_parts_from_microseconds(
                mapping,
                row_index,
                value,
            ) {
                Ok(parts) => parts,
                Err(error) => {
                    return Err(error);
                },
            };
            let offset_minutes: i16 = match zoned_offset(
                mapping,
                row_index,
                timezone.as_str(),
                seconds,
                nanoseconds,
            ) {
                Ok(offset_minutes) => offset_minutes,
                Err(error) => {
                    return Err(error);
                },
            };
            let utc_ticks: i128 = value as i128 * TICKS_PER_MICROSECOND;
            mssql_datetimeoffset_from_utc_100ns_ticks(
                mapping,
                row_index,
                utc_ticks,
                offset_minutes,
                "microsecond",
                value,
            )
        },
        (
            ArrowCellOf::TimestampNanosecond(value),
            ArrowType::Timestamp(TimeUnit::Nanosecond, Some(timezone)),
        ) => {
            let (seconds, nanoseconds): (i64, u32) = match epoch_parts_from_nanoseconds(
                mapping,
                row_index,
                value,
            ) {
                Ok(parts) => parts,
                Err(error) => {
                    return Err(error);
                },
            };
            let offset_minutes: i16 = match zoned_offset(
                mapping,
                row_index,
                timezone.as_str(),
                seconds,
                nanoseconds,
            ) {
                Ok(offset_minutes) => offset_minutes,
                Err(error) => {
                    return Err(error);
                },
            };
            let utc_ticks: i128 = match nanoseconds_to_100ns_ticks(
                mapping,
                row_index,
                value,
                runtime_mapping.nanosecond_policy(),
            ) {
                Ok(utc_ticks) => utc_ticks,
                Err(error) => {
                    return Err(error);
                },
            };
            mssql_datetimeoffset_from_utc_100ns_ticks(
                mapping,
                row_index,
                utc_ticks,
                offset_minutes,
                "nanosecond",
                value,
            )
        },
        _ => Err(payload_mismatch_error(mapping, row_index, ExpectedPayload::DateTimeOffset, cell)),
    }
}

/// A string result as contracts speak of it.
pub open spec fn text_view(result: Result<&str>) -> core::result::Result<Seq<char>, ErrorView> {
    match result {
        Ok(text) => Ok(text@),
        Err(error) => Err(error@),
    }
}

/// A byte result as contracts speak of it.
pub open spec fn bytes_view(result: Result<&[u8]>) -> core::result::Result<Seq<u8>, ErrorView> {
    match result {
        Ok(bytes) => Ok(bytes@),
        Err(error) => Err(error@),
    }
}

/// The value of a cell for an `nvarchar`.
pub open spec fn nvarchar_outcome(
    mapping: SchemaMappingView,
    row_index: usize,
    cell: ArrowCellView,
) -> core::result::Result<Seq<char>, ErrorView> {
    match cell {
        ArrowCellOf::Utf8(value) => Ok(value),
        _ => Err(payload_mismatch(mapping, row_index, ExpectedPayload::Utf8, cell)),
    }
}

/// Converts a cell to an `nvarchar` value.
pub fn mssql_nvarchar_value<'a>(
    mapping: &SchemaMapping,
    row_index: usize,
    cell: ArrowCell<'a>,
) -> (result: Result<&'a str>)
    ensures
        text_view(result) == nvarchar_outcome(mapping@, row_index, cell@),
{
    match cell {
        ArrowCellOf::Utf8(value) => Ok(value),
        _ => Err(payload_mismatch_error(mapping, row_index, ExpectedPayload::Utf8, cell)),
    }
}

/// The value of a cell for a `varbinary`.
pub open spec fn varbinary_outcome(
    mapping: SchemaMappingView,
    row_index: usize,
    cell: ArrowCellView,
) -> core::result::Result<Seq<u8>, ErrorView> {
    match cell {
        ArrowCellOf::Binary(value) => Ok(value),
        _ => Err(payload_mismatch(mapping, row_index, ExpectedPayload::Binary, cell)),
    }
}

/// Converts a cell to a `varbinary` value.
pub fn mssql_varbinary_value<'a>(
    mapping: &SchemaMapping,
    row_index: usize,
    cell: ArrowCell<'a>,
) -> (result: Result<&'a [u8]>)
    ensures
        bytes_view(result) == varbinary_outcome(mapping@, row_index, cell@),
{
    match cell {
        ArrowCellOf::Binary(value) => Ok(value),
        _ => Err(payload_mismatch_error(mapping, row_index, ExpectedPayload::Binary, cell)),
    }
}

/// Whether a length is above a declared one.
pub open spec fn is_above_length(length: MssqlTypeLength, actual: nat) -> bool {
    match length {
        MssqlTypeLength::Bounded(limit) => actual > limit,
        MssqlTypeLength::Max => false,
    }
}

/// Returns true when a length is above a declared one.
pub fn exceeds_length(length: MssqlTypeLength, actual: usize) -> (result: bool)
    ensures
        result == is_above_length(length, actual as nat),
{
    match length {
        MssqlTypeLength::Bounded(limit) => actual > limit,
        MssqlTypeLength::Max => false,
    }
}

/// The `nvarchar` cell of an Arrow cell: its length counts UTF-16 code units.
pub open spec fn nvarchar_cell_outcome(
    mapping: SchemaMappingView,
    row_index: usize,
    length: MssqlTypeLength,
    cell: ArrowCellView,
) -> core::result::Result<MssqlCellView, ErrorView> {
    match nvarchar_outcome(mapping, row_index, cell) {
        Ok(value) => if is_above_length(length, utf16_units(value).len()) {
            Err(
                row_fault(
                    mapping,
                    row_index,
                    DiagnosticCode::ValueTooLong,
                    Fault::StringTooLong {
                        code_units: utf16_units(value).len() as usize,
                        ty: mapping.mssql.ty,
                    },
                ),
            )
        } else {
            Ok(MssqlCellOf::NVarChar(Some(value)))
        },
        Err(error) => Err(error),
    }
}

/// Converts a cell to an `nvarchar` cell within the declared length.
pub fn nvar_char_cell<'a>(
    mapping: &SchemaMapping,
    row_index: usize,
    length: MssqlTypeLength,
    cell: ArrowCell<'a>,
) -> (result: Result<MssqlCell<'a>>)
    ensures
        mssql_cell_view(result) == nvarchar_cell_outcome(mapping@, row_index, length, cell@),
{
    let value = match mssql_nvarchar_value(mapping, row_index, cell) {
        Ok(value) => value,
        Err(error) => {
            return Err(error);
        },
    };
    let code_units: usize = utf16_len(value);
    if exceeds_length(length, code_units) {
        return Err(
            value_too_long_error(
                mapping,
                row_index,
                MessageOf::Fault(Fault::StringTooLong { code_units, ty: *mapping.mssql().ty() }),
            ),
        );
    }
    Ok(MssqlCellOf::NVarChar(Some(value)))
}

/// The `varbinary` cell of an Arrow cell: its length counts bytes.
pub open spec fn varbinary_cell_outcome(
    mapping: SchemaMappingView,
    row_index: usize,
    length: MssqlTypeLength,
    cell: ArrowCellView,
) -> core::result::Result<MssqlCellView, ErrorView> {
    match varbinary_outcome(mapping, row_index, cell) {
        Ok(value) => if is_above_length(length, value.len()) {
            Err(
                row_fault(
                    mapping,
                    row_index,
                    DiagnosticCode::ValueTooLong,
                    Fault::BinaryTooLong { bytes: value.len() as usize, ty: mapping.mssql.ty },
                ),
            )
        } else {
            Ok(MssqlCellOf::VarBinary(Some(value)))
        },
        Err(error) => Err(error),
    }
}

/// Converts a cell to a `varbinary` cell within the declared length.
pub fn var_binary_cell<'a>(
    mapping: &SchemaMapping,
    row_index: usize,
    length: MssqlTypeLength,
    cell: ArrowCell<'a>,
) -> (result: Result<MssqlCell<'a>>)
    ensures
        mssql_cell_view(result) == varbinary_cell_outcome(mapping@, row_index, length, cell@),
{
    let value = match mssql_varbinary_value(mapping, row_index, cell) {
        Ok(value) => value,
        Err(error) => {
            return Err(error);
        },
    };
    let bytes: usize = value.len();
    if exceeds_length(length, bytes) {
        return Err(
            value_too_long_error(
                mapping,
                row_index,
                MessageOf::Fault(Fault::BinaryTooLong { bytes, ty: *mapping.mssql().ty() }),
            ),
        );
    }
    Ok(MssqlCellOf::VarBinary(Some(value)))
}

/// Whether a null has a `decimal` cell.
pub open spec fn null_decimal_supported(mapping: SchemaMappingView) -> bool {
    mapping.mssql.ty is Decimal && (mapping.arrow.data_type is UInt64
        || mapping.arrow.data_type is Decimal32 || mapping.arrow.data_type is Decimal64
        || mapping.arrow.data_type is Decimal128 || mapping.arrow.data_type is Decimal256)
}

/// Returns true when a null has a `decimal` cell.
pub fn supports_null_decimal_cell(mapping: &SchemaMapping) -> (result: bool)
    ensures
        result == null_decimal_supported(mapping@),
{
    matches!(
        mapping.arrow().data_type(),
        ArrowType::UInt64
        | ArrowType::Decimal32(_, _)
        | ArrowType::Decimal64(_, _)
        | ArrowType::Decimal128(_, _)
        | ArrowType::Decimal256(_, _)
    ) && matches!(*mapping.mssql().ty(), MssqlType::Decimal { .. })
}

/// Whether a null has a `datetime2` cell.
pub open spec fn null_datetime2_supported(mapping: SchemaMappingView) -> bool {
    match mapping.arrow.data_type {
        ArrowType::Date64 => mapping.mssql.ty == (MssqlType::DateTime2 {
            precision: DATE64_SCALE,
        }),
        ArrowType::Timestamp(_, _) => mapping.mssql.ty == (MssqlType::DateTime2 {
            precision: TICK_SCALE,
        }),
        _ => false,
    }
}

/// Returns true when a null has a `datetime2` cell.
pub fn supports_null_datetime2_cell(mapping: &SchemaMapping) -> (result: bool)
    ensures
        result == null_datetime2_supported(mapping@),
{
    let ty: MssqlType = *mapping.mssql().ty();
    match mapping.arrow().data_type() {
        ArrowType::Date64 => ty == (MssqlType::DateTime2 { precision: DATE64_SCALE }),
        ArrowType::Timestamp(_, _) => ty == (MssqlType::DateTime2 { precision: TICK_SCALE }),
        _ => false,
    }
}

/// Whether a null has a `datetimeoffset` cell.
pub open spec fn null_datetimeoffset_supported(mapping: SchemaMappingView) -> bool {
    match mapping.arrow.data_type {
        ArrowType::Timestamp(_, Some(_)) => mapping.mssql.ty == (MssqlType::DateTimeOffset {
            precision: TICK_SCALE,
        }),
        _ => false,
    }
}

/// Returns true when a null has a `datetimeoffset` cell.
pub fn supports_null_datetimeoffset_cell(mapping: &SchemaMapping) -> (result: bool)
    ensures
        result == null_datetimeoffset_supported(mapping@),
{
    match mapping.arrow().data_type() {
        ArrowType::Timestamp(_, Some(_)) => *mapping.mssql().ty() == (MssqlType::DateTimeOffset {
            precision: TICK_SCALE,
        }),
        _ => false,
    }
}

/// The error of a SQL Server type without a conversion.
pub open spec fn target_unsupported(mapping: SchemaMappingView, row_index: usize) -> ErrorView {
    row_fault(
        mapping,
        row_index,
        DiagnosticCode::ValueConversionUnsupported,
        Fault::TargetUnsupported { ty: mapping.mssql.ty },
    )
}

/// Creates the error of a SQL Server type without a conversion.
fn target_unsupported_error(mapping: &SchemaMapping, row_index: usize) -> (error:
    crate::diagnostic::Error)
    ensures
        error@ == target_unsupported(mapping@, row_index),
{
    unsupported_value_conversion(
        mapping,
        row_index,
        MessageOf::Fault(Fault::TargetUnsupported { ty: *mapping.mssql().ty() }),
    )
}

/// The cell of a null.
pub open spec fn null_cell_outcome(
    mapping: SchemaMappingView,
    row_index: usize,
) -> core::result::Result<MssqlCellView, ErrorView> {
    match mapping.mssql.ty {
        MssqlType::Bit => Ok(MssqlCellOf::Bit(None)),
        MssqlType::TinyInt => Ok(MssqlCellOf::TinyInt(None)),
        MssqlType::SmallInt => Ok(MssqlCellOf::SmallInt(None)),
        MssqlType::Int => Ok(MssqlCellOf::Int(None)),
        MssqlType::BigInt => Ok(MssqlCellOf::BigInt(None)),
        MssqlType::Decimal { .. } => if null_decimal_supported(mapping) {
            Ok(MssqlCellOf::Decimal(None))
        } else {
            Err(target_unsupported(mapping, row_index))
        },
        MssqlType::Date => Ok(MssqlCellOf::Date(None)),
        MssqlType::DateTime2 { .. } => if null_datetime2_supported(mapping) {
            Ok(MssqlCellOf::DateTime2(None))
        } else {
            Err(target_unsupported(mapping, row_index))
        },
        MssqlType::DateTimeOffset { .. } => if null_datetimeoffset_supported(mapping) {
            Ok(MssqlCellOf::DateTimeOffset(None))
        } else {
            Err(target_unsupported(mapping, row_index))
        },
        MssqlType::Real => Ok(MssqlCellOf::Real(None)),
        MssqlType::Float { .. } => Ok(MssqlCellOf::Float(None)),
        MssqlType::NVarChar(_) => Ok(MssqlCellOf::NVarChar(None)),
        MssqlType::VarBinary(_) => Ok(MssqlCellOf::VarBinary(None)),
        _ => Err(target_unsupported(mapping, row_index)),
    }
}

/// Creates the cell of a null.
pub fn null_mssql_cell<'a>(mapping: &SchemaMapping, row_index: usize) -> (result: Result<
    MssqlCell<'a>,
>)
    ensures
        mssql_cell_view(result) == null_cell_outcome(mapping@, row_index),
{
    match *mapping.mssql().ty() {
        MssqlType::Bit => Ok(MssqlCellOf::Bit(None)),
        MssqlType::TinyInt => Ok(MssqlCellOf::TinyInt(None)),
        MssqlType::SmallInt => Ok(MssqlCellOf::SmallInt(None)),
        MssqlType::Int => Ok(MssqlCellOf::Int(None)),
        MssqlType::BigInt => Ok(MssqlCellOf::BigInt(None)),
        MssqlType::Decimal { .. } if supports_null_decimal_cell(mapping) => Ok(
            MssqlCellOf::Decimal(None),
        ),
        MssqlType::Date => Ok(MssqlCellOf::Date(None)),
        MssqlType::DateTime2 { .. } if supports_null_datetime2_cell(mapping) => Ok(
            MssqlCellOf::DateTime2(None),
        ),
        MssqlType::DateTimeOffset { .. } if supports_null_datetimeoffset_cell(mapping) => Ok(
            MssqlCellOf::DateTimeOffset(None),
        ),
        MssqlType::Real => Ok(MssqlCellOf::Real(None)),
        MssqlType::Float { .. } => Ok(MssqlCellOf::Float(None)),
        MssqlType::NVarChar(_) => Ok(MssqlCellOf::NVarChar(None)),
        MssqlType::VarBinary(_) => Ok(MssqlCellOf::VarBinary(None)),
        _ => Err(target_unsupported_error(mapping, row_index)),
    }
}

/// The SQL Server cell of an Arrow cell under a planned mapping.
pub open spec fn mssql_cell_outcome(
    mapping: SchemaMappingView,
    policy: NanosecondPolicy,
    row_index: usize,
    cell: ArrowCellView,
) -> core::result::Result<MssqlCellView, ErrorView> {
    if cell is Null {
        if mapping.mssql.nullable {
            null_cell_outcome(mapping, row_index)
        } else {
            Err(
                row_fault(
                    mapping,
                    row_index,
                    DiagnosticCode::NullInNonNullableColumn,
                    Fault::NullInPlannedColumn,
                ),
            )
        }
    } else {
        match mapping.mssql.ty {
            MssqlType::Bit => match bit_outcome(mapping, row_index, cell) {
                Ok(value) => Ok(MssqlCellOf::Bit(Some(value))),
                Err(error) => Err(error),
            },
            MssqlType::TinyInt => match tinyint_outcome(mapping, row_index, cell) {
                Ok(value) => Ok(MssqlCellOf::TinyInt(Some(value))),
                Err(error) => Err(error),
            },
            MssqlType::SmallInt => match smallint_outcome(mapping, row_index, cell) {
                Ok(value) => Ok(MssqlCellOf::SmallInt(Some(value))),
                Err(error) => Err(error),
            },
            MssqlType::Int => match int_outcome(mapping, row_index, cell) {
                Ok(value) => Ok(MssqlCellOf::Int(Some(value))),
                Err(error) => Err(error),
            },
            MssqlType::BigInt => match bigint_outcome(mapping, row_index, cell) {
                Ok(value) => Ok(MssqlCellOf::BigInt(Some(value))),
                Err(error) => Err(error),
            },
            MssqlType::Decimal { .. } => match decimal_value_outcome(mapping, row_index, cell) {
                Ok(value) => Ok(MssqlCellOf::Decimal(Some(value))),
                Err(error) => Err(error),
            },
            MssqlType::Date => match date_value_outcome(mapping, row_index, cell) {
                Ok(value) => Ok(MssqlCellOf::Date(Some(value))),
                Err(error) => Err(error),
            },
            MssqlType::DateTime2 { .. } => match datetime2_value_outcome(mapping, policy, row_index, cell) {
                Ok(value) => Ok(MssqlCellOf::DateTime2(Some(value))),
                Err(error) => Err(error),
            },
            MssqlType::DateTimeOffset { .. } => match datetimeoffset_value_outcome(mapping, policy, row_index, cell) {
                Ok(value) => Ok(MssqlCellOf::DateTimeOffset(Some(value))),
                Err(error) => Err(error),
            },
            MssqlType::Real => match real_outcome(mapping, row_index, cell) {
                Ok(value) => Ok(MssqlCellOf::Real(Some(value))),
                Err(error) => Err(error),
            },
            MssqlType::Float { .. } => match float_outcome(mapping, row_index, cell) {
                Ok(value) => Ok(MssqlCellOf::Float(Some(value))),
                Err(error) => Err(error),
            },
            MssqlType::NVarChar(length) => nvarchar_cell_outcome(mapping, row_index, length, cell),
            MssqlType::VarBinary(length) => varbinary_cell_outcome(
                mapping,
                row_index,
                length,
                cell,
            ),
            _ => Err(target_unsupported(mapping, row_index)),
        }
    }
}

/// Converts an Arrow cell to the planned SQL Server cell.
pub fn mssql_cell_from_arrow_cell<'a>(
    runtime_mapping: ArrowToMssqlRuntimeMapping<'_>,
    cell: ArrowCell<'a>,
    row_index: usize,
) -> (result: Result<MssqlCell<'a>>)
    ensures
        mssql_cell_view(result) == mssql_cell_outcome(
            runtime_mapping.mapping_spec(),
            runtime_mapping.policy_spec(),
            row_index,
            cell@,
        ),
{
    let mapping = runtime_mapping.mapping();
    if matches!(cell, ArrowCellOf::Null) {
        if !mapping.mssql().nullable() {
            return Err(
                row_mapping_fault(
                    mapping,
                    row_index,
                    DiagnosticCode::NullInNonNullableColumn,
                    Fault::NullInPlannedColumn,
                ),
            );
        }
        return null_mssql_cell(mapping, row_index);
    }
    match *mapping.mssql().ty() {
        MssqlType::Bit => match mssql_bit_value(mapping, row_index, cell) {
            Ok(value) => Ok(MssqlCellOf::Bit(Some(value))),
            Err(error) => Err(error),
        },
        MssqlType::TinyInt => match mssql_tinyint_value(mapping, row_index, cell) {
            Ok(value) => Ok(MssqlCellOf::TinyInt(Some(value))),
            Err(error) => Err(error),
        },
        MssqlType::SmallInt => match mssql_smallint_value(mapping, row_index, cell) {
            Ok(value) => Ok(MssqlCellOf::SmallInt(Some(value))),
            Err(error) => Err(error),
        },
        MssqlType::Int => match mssql_int_value(mapping, row_index, cell) {
            Ok(value) => Ok(MssqlCellOf::Int(Some(value))),
            Err(error) => Err(error),
        },
        MssqlType::BigInt => match mssql_bigint_value(mapping, row_index, cell) {
            Ok(value) => Ok(MssqlCellOf::BigInt(Some(value))),
            Err(error) => Err(error),
        },
        MssqlType::Decimal { .. } => match mssql_decimal_value(mapping, row_index, cell) {
            Ok(value) => Ok(MssqlCellOf::Decimal(Some(value))),
            Err(error) => Err(error),
        },
        MssqlType::Date => match mssql_date_value(mapping, row_index, cell) {
            Ok(value) => Ok(MssqlCellOf::Date(Some(value))),
            Err(error) => Err(error),
        },
        MssqlType::DateTime2 { .. } => match mssql_datetime2_value(runtime_mapping, row_index, cell) {
            Ok(value) => Ok(MssqlCellOf::DateTime2(Some(value))),
            Err(error) => Err(error),
        },
        MssqlType::DateTimeOffset { .. } => match mssql_datetimeoffset_value(runtime_mapping, row_index, cell) {
            Ok(value) => Ok(MssqlCellOf::DateTimeOffset(Some(value))),
            Err(error) => Err(error),
        },
        MssqlType::Real => match mssql_real_value(mapping, row_index, cell) {
            Ok(value) => Ok(MssqlCellOf::Real(Some(value))),
            Err(error) => Err(error),
        },
        MssqlType::Float { .. } => match mssql_float_value(mapping, row_index, cell) {
            Ok(value) => Ok(MssqlCellOf::Float(Some(value))),
            Err(error) => Err(error),
        },
        MssqlType::NVarChar(length) => nvar_char_cell(mapping, row_index, length, cell),
        MssqlType::VarBinary(length) => var_binary_cell(mapping, row_index, length, cell),
        _ => Err(target_unsupported_error(mapping, row_index)),
    }
}

/// The error of a column of another type than planned.
pub open spec fn column_type_error(
    array: ColumnArray,
    mapping: SchemaMappingView,
) -> Option<ErrorView> {
    if same_type(array.type_view(), mapping.arrow.data_type) {
        None
    } else {
        Some(
            mapping_error(
                mapping,
                DiagnosticCode::SchemaMismatch,
                MessageOf::ArrayTypeMismatch {
                    runtime: array.type_view(),
                    planned: mapping.arrow.data_type,
                },
            ),
        )
    }
}

/// Checks that a column has the planned type.
pub fn validate_runtime_column(array: &ColumnArray, mapping: &SchemaMapping) -> (result: Result<()>)
    ensures
        outcome(result) == (match column_type_error(*array, mapping@) {
            Some(error) => Err(error),
            None => Ok(()),
        }),
{
    let runtime = array.data_type();
    if !runtime.same_as(mapping.arrow().data_type()) {
        return Err(
            value_conversion_error(
                mapping_diagnostic(
                    mapping,
                    DiagnosticCode::SchemaMismatch,
                    MessageOf::ArrayTypeMismatch {
                        runtime,
                        planned: mapping.arrow().data_type().clone(),
                    },
                ),
            ),
        );
    }
    Ok(())
}

/// The error of a mapping that is not at the position of its field, or whose field has another
/// name.
pub open spec fn field_error(
    batch: RecordBatch,
    mapping: SchemaMappingView,
    position: usize,
) -> Option<ErrorView> {
    if mapping.arrow.index != position {
        Some(
            mapping_error(
                mapping,
                DiagnosticCode::SchemaMismatch,
                MessageOf::Fault(
                    Fault::MappingPosition { position, index: mapping.arrow.index },
                ),
            ),
        )
    } else if batch.names()[position as int] != mapping.arrow.name {
        Some(
            mapping_error(
                mapping,
                DiagnosticCode::SchemaMismatch,
                MessageOf::FieldName {
                    runtime: batch.names()[position as int],
                    planned: mapping.arrow.name,
                },
            ),
        )
    } else {
        None
    }
}

/// The error of a batch column under its mapping.
pub open spec fn runtime_column_error(
    batch: RecordBatch,
    mapping: SchemaMappingView,
    position: usize,
) -> Option<ErrorView> {
    match field_error(batch, mapping, position) {
        Some(error) => Some(error),
        None => column_type_error(batch.arrays()[position as int], mapping),
    }
}

/// The error of the first batch column, from a position on, that does not match its mapping.
pub open spec fn first_column_error(
    batch: RecordBatch,
    mappings: Seq<SchemaMappingView>,
    position: int,
) -> Option<ErrorView>
    decreases mappings.len() - position,
{
    if position < 0 || position >= mappings.len() {
        None
    } else {
        match runtime_column_error(batch, mappings[position], position as usize) {
            Some(error) => Some(error),
            None => first_column_error(batch, mappings, position + 1),
        }
    }
}

/// The error of a batch with another number of columns than there are mappings.
pub open spec fn column_count_error(
    batch: RecordBatch,
    mappings: Seq<SchemaMappingView>,
) -> Option<ErrorView> {
    if batch.arrays().len() < mappings.len() {
        let mapping = mappings[batch.arrays().len() as int];
        Some(
            mapping_error(
                mapping,
                DiagnosticCode::SchemaMismatch,
                MessageOf::Fault(
                    Fault::MissingColumn {
                        index: mapping.arrow.index,
                        column_count: batch.arrays().len() as usize,
                    },
                ),
            ),
        )
    } else if batch.arrays().len() > mappings.len() {
        Some(
            conversion_error(
                DiagnosticView {
                    code: DiagnosticCode::SchemaMismatch,
                    message: MessageOf::Fault(
                        Fault::ExtraColumns {
                            column_count: batch.arrays().len() as usize,
                            mapping_count: mappings.len() as usize,
                        },
                    ),
                    field: None,
                    row: None,
                },
            ),
        )
    } else {
        None
    }
}

/// The error of a batch that does not match the mappings.
pub open spec fn runtime_columns_error(
    batch: RecordBatch,
    mappings: Seq<SchemaMappingView>,
) -> Option<ErrorView> {
    match column_count_error(batch, mappings) {
        Some(error) => Some(error),
        None => first_column_error(batch, mappings, 0),
    }
}

/// Checks that a batch has as many columns as there are mappings.
pub fn validate_column_count(batch: &RecordBatch, mappings: &[SchemaMapping]) -> (result: Result<
    (),
>)
    ensures
        outcome(result) == (match column_count_error(*batch, mapping_views(mappings@)) {
            Some(error) => Err(error),
            None => Ok(()),
        }),
{
    let column_count: usize = batch.num_columns();
    if column_count < mappings.len() {
        let mapping = &mappings[column_count];
        return Err(
            value_conversion_error(
                mapping_diagnostic(
                    mapping,
                    DiagnosticCode::SchemaMismatch,
                    MessageOf::Fault(
                        Fault::MissingColumn { index: mapping.arrow().index(), column_count },
                    ),
                ),
            ),
        );
    }
    if column_count > mappings.len() {
        return Err(
            value_conversion_error(
                Diagnostic::error(
                    DiagnosticCode::SchemaMismatch,
                    MessageOf::Fault(
                        Fault::ExtraColumns { column_count, mapping_count: mappings.len() },
                    ),
                ),
            ),
        );
    }
    Ok(())
}

/// Checks that a mapping is at the position of its field, and that the names agree.
pub fn validate_field(batch: &RecordBatch, mapping: &SchemaMapping, position: usize) -> (result:
    Result<()>)
    requires
        position < batch.arrays().len(),
    ensures
        outcome(result) == (match field_error(*batch, mapping@, position) {
            Some(error) => Err(error),
            None => Ok(()),
        }),
{
    if mapping.arrow().index() != position {
        return Err(
            value_conversion_error(
                mapping_diagnostic(
                    mapping,
                    DiagnosticCode::SchemaMismatch,
                    MessageOf::Fault(
                        Fault::MappingPosition { position, index: mapping.arrow().index() },
                    ),
                ),
            ),
        );
    }
    let runtime: String = batch.name(position).to_owned();
    let planned: String = mapping.arrow().name().to_owned();
    if runtime != planned {
        return Err(
            value_conversion_error(
                mapping_diagnostic(
                    mapping,
                    DiagnosticCode::SchemaMismatch,
                    MessageOf::FieldName { runtime, planned },
                ),
            ),
        );
    }
    Ok(())
}

/// Checks that the columns of a batch match the mappings in number, position, name and type.
pub fn validate_runtime_columns(batch: &RecordBatch, mappings: &[SchemaMapping]) -> (result: Result<
    (),
>)
    ensures
        outcome(result) == (match runtime_columns_error(*batch, mapping_views(mappings@)) {
            Some(error) => Err(error),
            None => Ok(()),
        }),
{
    match validate_column_count(batch, mappings) {
        Ok(()) => {},
        Err(error) => {
            return Err(error);
        },
    }
    let mut position: usize = 0;
    while position < mappings.len()
        invariant
            position <= mappings.len(),
            batch.arrays().len() == mappings@.len(),
            column_count_error(*batch, mapping_views(mappings@)) is None,
            first_column_error(*batch, mapping_views(mappings@), 0) == first_column_error(
                *batch,
                mapping_views(mappings@),
                position as int,
            ),
        decreases mappings.len() - position,
    {
        let mapping = &mappings[position];
        match validate_field(batch, mapping, position) {
            Ok(()) => {},
            Err(error) => {
                return Err(error);
            },
        }
        match validate_runtime_column(&batch.columns()[position], mapping) {
            Ok(()) => {},
            Err(error) => {
                return Err(error);
            },
        }
        position += 1;
    }
    Ok(())
}

/// Borrowed conversion view over one Arrow record batch and schema mappings.
#[derive(Debug)]
pub struct RecordBatchView<'a> {
    batch: &'a RecordBatch,
    mappings: &'a [SchemaMapping],
    plan_options: PlanOptions,
}

/// The error of a row index outside a batch.
pub open spec fn row_index_error(row_index: usize, row_count: usize) -> ErrorView {
    conversion_error(
        DiagnosticView {
            code: DiagnosticCode::RowIndexOutOfBounds,
            message: MessageOf::Fault(Fault::RowOutsideBatch { row_index, row_count }),
            field: None,
            row: Some(row_index),
        },
    )
}

/// The Arrow cell of a batch at a row, under a planned mapping.
pub open spec fn batch_arrow_cell(
    batch: RecordBatch,
    mapping: SchemaMappingView,
    row_index: usize,
) -> core::result::Result<ArrowCellView, ErrorView> {
    if row_index >= batch.rows() {
        Err(row_index_error(row_index, batch.rows()))
    } else if mapping.arrow.index >= batch.arrays().len() {
        Err(
            row_fault(
                mapping,
                row_index,
                DiagnosticCode::ValueTypeMismatch,
                Fault::ColumnOutsideBatch,
            ),
        )
    } else {
        extract_outcome(batch.arrays()[mapping.arrow.index as int], mapping, row_index)
    }
}

/// The SQL Server cell of a batch at a row, under a planned mapping.
pub open spec fn batch_mssql_cell(
    batch: RecordBatch,
    policy: NanosecondPolicy,
    mapping: SchemaMappingView,
    row_index: usize,
) -> core::result::Result<MssqlCellView, ErrorView> {
    match batch_arrow_cell(batch, mapping, row_index) {
        Ok(cell) => mssql_cell_outcome(mapping, policy, row_index, cell),
        Err(error) => Err(error),
    }
}

/// The first `count` SQL Server cells of a row, or the error of the first that does not convert.
pub open spec fn batch_row_prefix(
    batch: RecordBatch,
    policy: NanosecondPolicy,
    mappings: Seq<SchemaMapping>,
    row_index: usize,
    count: nat,
) -> core::result::Result<Seq<MssqlCellView>, ErrorView>
    decreases count,
{
    if count == 0 {
        Ok(Seq::empty())
    } else {
        match batch_row_prefix(batch, policy, mappings, row_index, (count - 1) as nat) {
            Ok(cells) => match batch_mssql_cell(
                batch,
                policy,
                mappings[count - 1]@,
                row_index,
            ) {
                Ok(cell) => Ok(cells.push(cell)),
                Err(error) => Err(error),
            },
            Err(error) => Err(error),
        }
    }
}

/// The SQL Server cells of a row in mapping order.
pub open spec fn batch_row(
    batch: RecordBatch,
    policy: NanosecondPolicy,
    mappings: Seq<SchemaMapping>,
    row_index: usize,
) -> core::result::Result<Seq<MssqlCellView>, ErrorView> {
    if row_index >= batch.rows() {
        Err(row_index_error(row_index, batch.rows()))
    } else {
        batch_row_prefix(batch, policy, mappings, row_index, mappings.len())
    }
}

/// The cells of a row as contracts speak of them.
pub open spec fn cell_views(cells: Seq<MssqlCell<'_>>) -> Seq<MssqlCellView> {
    Seq::new(cells.len(), |i: int| cells[i]@)
}

/// A row result as contracts speak of it.
pub open spec fn row_view(result: Result<Vec<MssqlCell<'_>>>) -> core::result::Result<
    Seq<MssqlCellView>,
    ErrorView,
> {
    match result {
        Ok(cells) => Ok(cell_views(cells@)),
        Err(error) => Err(error@),
    }
}

impl<'a> RecordBatchView<'a> {
    /// The batch.
    pub closed spec fn batch_spec(self) -> RecordBatch {
        *self.batch
    }

    /// The mappings.
    pub closed spec fn mappings_spec(self) -> Seq<SchemaMapping> {
        self.mappings@
    }

    /// The write conversion policies.
    pub closed spec fn options_spec(self) -> PlanOptions {
        self.plan_options
    }

    /// The batch matches the mappings.
    #[verifier::type_invariant]
    pub open spec fn matches(self) -> bool {
        runtime_columns_error(self.batch_spec(), mapping_views(self.mappings_spec())) is None
    }

    /// Creates a conversion view after validating batch columns against mappings.
    pub fn new(batch: &'a RecordBatch, mappings: &'a [SchemaMapping]) -> (result: Result<Self>)
        ensures
            match runtime_columns_error(*batch, mapping_views(mappings@)) {
                Some(error) => result matches Err(found) && found@ == error,
                None => result matches Ok(view) && view.batch_spec() == *batch
                    && view.mappings_spec() == mappings@
                    && view.options_spec().nanosecond_policy == NanosecondPolicy::RejectNon100ns,
            },
    {
        Self::new_with_options(batch, mappings, &PlanOptions::default())
    }

    /// Creates a conversion view with explicit write conversion policies.
    pub fn new_with_options(
        batch: &'a RecordBatch,
        mappings: &'a [SchemaMapping],
        plan_options: &PlanOptions,
    ) -> (result: Result<Self>)
        ensures
            match runtime_columns_error(*batch, mapping_views(mappings@)) {
                Some(error) => result matches Err(found) && found@ == error,
                None => result matches Ok(view) && view.batch_spec() == *batch
                    && view.mappings_spec() == mappings@ && view.options_spec() == *plan_options,
            },
    {
        match validate_runtime_columns(batch, mappings) {
            Ok(()) => Ok(RecordBatchView { batch, mappings, plan_options: *plan_options }),
            Err(error) => Err(error),
        }
    }

    /// Returns the number of rows in the runtime batch.
    pub fn row_count(&self) -> (count: usize)
        ensures
            count == self.batch_spec().rows(),
    {
        self.batch.num_rows()
    }

    /// Returns the planned mappings in conversion order.
    pub fn mappings(&self) -> (mappings: &'a [SchemaMapping])
        ensures
            mappings@ == self.mappings_spec(),
    {
        self.mappings
    }

    /// Checks that a row index is inside the runtime batch.
    pub fn check_row_index(&self, row_index: usize) -> (result: Result<()>)
        ensures
            outcome(result) == (if row_index < self.batch_spec().rows() {
                Ok(())
            } else {
                Err(row_index_error(row_index, self.batch_spec().rows()))
            }),
    {
        if row_index < self.row_count() {
            return Ok(());
        }
        Err(
            value_conversion_error(
                Diagnostic::error(
                    DiagnosticCode::RowIndexOutOfBounds,
                    MessageOf::Fault(
                        Fault::RowOutsideBatch { row_index, row_count: self.row_count() },
                    ),
                ).with_row(row_index),
            ),
        )
    }

    /// Extracts one borrowed Arrow cell from a planned mapping and row index.
    pub fn arrow_cell(&self, mapping: &SchemaMapping, row_index: usize) -> (result: Result<
        ArrowCell<'a>,
    >)
        ensures
            arrow_cell_view(result) == batch_arrow_cell(self.batch_spec(), mapping@, row_index),
    {
        match self.check_row_index(row_index) {
            Ok(()) => {},
            Err(error) => {
                return Err(error);
            },
        }
        let index: usize = mapping.arrow().index();
        let columns = self.batch.columns();
        if index >= columns.len() {
            return Err(
                row_mapping_fault(
                    mapping,
                    row_index,
                    DiagnosticCode::ValueTypeMismatch,
                    Fault::ColumnOutsideBatch,
                ),
            );
        }
        proof {
            use_type_invariant(self.batch);
        }
        extract_arrow_cell(&columns[index], mapping, row_index)
    }

    /// Converts one planned cell into a semantic SQL Server cell.
    pub fn mssql_cell(&self, mapping: &SchemaMapping, row_index: usize) -> (result: Result<
        MssqlCell<'a>,
    >)
        ensures
            mssql_cell_view(result) == batch_mssql_cell(
                self.batch_spec(),
                self.options_spec().nanosecond_policy,
                mapping@,
                row_index,
            ),
    {
        let cell = match self.arrow_cell(mapping, row_index) {
            Ok(cell) => cell,
            Err(error) => {
                return Err(error);
            },
        };
        let runtime_mapping = ArrowToMssqlRuntimeMapping::new(mapping, &self.plan_options);
        mssql_cell_from_arrow_cell(runtime_mapping, cell, row_index)
    }

    /// Converts one runtime row into semantic SQL Server cells in mapping order.
    pub fn mssql_row(&self, row_index: usize) -> (result: Result<Vec<MssqlCell<'a>>>)
        ensures
            row_view(result) == batch_row(
                self.batch_spec(),
                self.options_spec().nanosecond_policy,
                self.mappings_spec(),
                row_index,
            ),
    {
        match self.check_row_index(row_index) {
            Ok(()) => {},
            Err(error) => {
                return Err(error);
            },
        }
        let ghost policy = self.options_spec().nanosecond_policy;
        let mut cells: Vec<MssqlCell<'a>> = Vec::with_capacity(self.mappings.len());
        let mut index: usize = 0;
        assert(cell_views(cells@) =~= Seq::<MssqlCellView>::empty());
        while index < self.mappings.len()
            invariant
                index <= self.mappings.len(),
                row_index < self.batch_spec().rows(),
                self.mappings_spec() == self.mappings@,
                policy == self.options_spec().nanosecond_policy,
                cells@.len() == index,
                batch_row_prefix(
                    self.batch_spec(),
                    policy,
                    self.mappings_spec(),
                    row_index,
                    index as nat,
                ) == Ok::<_, ErrorView>(cell_views(cells@)),
            decreases self.mappings.len() - index,
        {
            let ghost before = cells@;
            match self.mssql_cell(&self.mappings[index], row_index) {
                Ok(cell) => {
                    cells.push(cell);
                    assert(cell_views(cells@) =~= cell_views(before).push(cell@));
                },
                Err(error) => {
                    proof {
                        lemma_row_prefix_error(
                            self.batch_spec(),
                            policy,
                            self.mappings_spec(),
                            row_index,
                            (index + 1) as nat,
                            self.mappings_spec().len(),
                        );
                    }
                    return Err(error);
                },
            }
            index += 1;
        }
        Ok(cells)
    }
}

/// The error of a prefix of a row is the error of the row.
proof fn lemma_row_prefix_error(
    batch: RecordBatch,
    policy: NanosecondPolicy,
    mappings: Seq<SchemaMapping>,
    row_index: usize,
    count: nat,
    total: nat,
)
    requires
        count <= total,
        batch_row_prefix(batch, policy, mappings, row_index, count) is Err,
    ensures
        batch_row_prefix(batch, policy, mappings, row_index, total) == batch_row_prefix(
            batch,
            policy,
            mappings,
            row_index,
            count,
        ),
    decreases total,
{
    if count < total {
        lemma_row_prefix_error(batch, policy, mappings, row_index, count, (total - 1) as nat);
    }
}

} // verus!
