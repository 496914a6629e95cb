//! Diagnostics of value conversions.

use vstd::prelude::*;

use crate::arrow_type::{arrow_type_debug, data_type_debug_text};
use crate::cell::{cell_text, ArrowCell, ArrowCellView};
use crate::diagnostic::{
    conversion_error, value_conversion_error, Diagnostic, DiagnosticCode, DiagnosticView, Error,
    ErrorView, FieldRef,
};
use crate::mapping::{SchemaMapping, SchemaMappingView};
use crate::message::{ExpectedPayload, Fault, Message, MessageOf, MessageView, NonFinite};
use crate::mssql_type::mssql_type_debug_text;

verus! {

/// The diagnostic of a planned mapping.
pub open spec fn mapping_view(
    mapping: SchemaMappingView,
    code: DiagnosticCode,
    message: MessageView,
) -> DiagnosticView {
    DiagnosticView {
        code,
        message,
        field: Some((mapping.arrow.index, mapping.arrow.name)),
        row: None,
    }
}

/// The error of a planned mapping.
pub open spec fn mapping_error(
    mapping: SchemaMappingView,
    code: DiagnosticCode,
    message: MessageView,
) -> ErrorView {
    conversion_error(mapping_view(mapping, code, message))
}

/// The diagnostic of a planned mapping at a row.
pub open spec fn row_mapping_view(
    mapping: SchemaMappingView,
    row_index: usize,
    code: DiagnosticCode,
    message: MessageView,
) -> DiagnosticView {
    DiagnosticView { row: Some(row_index), ..mapping_view(mapping, code, message) }
}

/// The error of a planned mapping at a row.
pub open spec fn row_error(
    mapping: SchemaMappingView,
    row_index: usize,
    code: DiagnosticCode,
    message: MessageView,
) -> ErrorView {
    conversion_error(row_mapping_view(mapping, row_index, code, message))
}

/// The error of a planned mapping at a row, with a message without text of its own.
pub open spec fn row_fault(
    mapping: SchemaMappingView,
    row_index: usize,
    code: DiagnosticCode,
    fault: Fault,
) -> ErrorView {
    row_error(mapping, row_index, code, MessageOf::Fault(fault))
}

/// Creates the diagnostic of a planned mapping.
pub fn mapping_diagnostic(mapping: &SchemaMapping, code: DiagnosticCode, message: Message) -> (
    diagnostic: Diagnostic)
    ensures
        diagnostic@ == mapping_view(mapping@, code, message@),
{
    Diagnostic::error(code, message).with_field(
        FieldRef::new(mapping.arrow().index(), mapping.arrow().name()),
    )
}

/// Creates the diagnostic of a planned mapping at a row.
pub fn row_mapping_diagnostic(
    mapping: &SchemaMapping,
    row_index: usize,
    code: DiagnosticCode,
    message: Message,
) -> (diagnostic: Diagnostic)
    ensures
        diagnostic@ == row_mapping_view(mapping@, row_index, code, message@),
{
    mapping_diagnostic(mapping, code, message).with_row(row_index)
}

/// Creates the error of a planned mapping at a row, with a message without text of its own.
pub fn row_mapping_fault(
    mapping: &SchemaMapping,
    row_index: usize,
    code: DiagnosticCode,
    fault: Fault,
) -> (error: Error)
    ensures
        error@ == row_fault(mapping@, row_index, code, fault),
{
    value_conversion_error(
        row_mapping_diagnostic(mapping, row_index, code, MessageOf::Fault(fault)),
    )
}

/// What the message of a mismatch shows: the cell, with the planned types that the conversion also
/// looked at.
pub open spec fn mismatch_text(
    mapping: SchemaMappingView,
    expected: ExpectedPayload,
    cell: ArrowCellView,
) -> Seq<char> {
    match expected {
        ExpectedPayload::Decimal | ExpectedPayload::Date32 => "("@ + cell_text(cell) + ", "@
            + data_type_debug_text(mapping.arrow.data_type) + ")"@,
        ExpectedPayload::DateTime2 | ExpectedPayload::DateTimeOffset => "("@ + cell_text(cell)
            + ", "@ + data_type_debug_text(mapping.arrow.data_type) + ", "@
            + mssql_type_debug_text(mapping.mssql.ty) + ")"@,
        _ => cell_text(cell),
    }
}

/// Returns what the message of a mismatch shows.
fn mismatch_message(
    mapping: &SchemaMapping,
    expected: ExpectedPayload,
    cell: ArrowCell<'_>,
) -> (text: String)
    ensures
        text@ == mismatch_text(mapping@, expected, cell@),
{
    let with_target: bool = match expected {
        ExpectedPayload::Decimal | ExpectedPayload::Date32 => false,
        ExpectedPayload::DateTime2 | ExpectedPayload::DateTimeOffset => true,
        _ => {
            return cell.to_text();
        },
    };
    let mut text: String = String::from_str("(");
    text.append(cell.to_text().as_str());
    text.append(", ");
    text.append(arrow_type_debug(mapping.arrow().data_type()).as_str());
    if with_target {
        text.append(", ");
        text.append(mapping.mssql().ty().to_debug_text().as_str());
    }
    text.append(")");
    text
}

/// The error of a cell of another kind than a SQL Server type accepts.
pub open spec fn payload_mismatch(
    mapping: SchemaMappingView,
    row_index: usize,
    expected: ExpectedPayload,
    cell: ArrowCellView,
) -> ErrorView {
    row_error(
        mapping,
        row_index,
        DiagnosticCode::ValueTypeMismatch,
        MessageOf::PayloadMismatch { expected, got: mismatch_text(mapping, expected, cell) },
    )
}

/// Creates the error of a cell of another kind than a SQL Server type accepts.
pub(crate) fn payload_mismatch_error(
    mapping: &SchemaMapping,
    row_index: usize,
    expected: ExpectedPayload,
    cell: ArrowCell<'_>,
) -> (error: Error)
    ensures
        error@ == payload_mismatch(mapping@, row_index, expected, cell@),
{
    value_conversion_error(
        row_mapping_diagnostic(
            mapping,
            row_index,
            DiagnosticCode::ValueTypeMismatch,
            MessageOf::PayloadMismatch { expected, got: mismatch_message(mapping, expected, cell) },
        ),
    )
}

/// The error of timezone metadata that names no timezone.
pub open spec fn timezone_error(
    mapping: SchemaMappingView,
    row_index: usize,
    timezone: Seq<char>,
) -> ErrorView {
    row_error(
        mapping,
        row_index,
        DiagnosticCode::TimezoneUnsupported,
        MessageOf::TimezoneUnsupported { timezone },
    )
}

/// Creates the error of timezone metadata that names no timezone.
pub fn unsupported_timezone_error(mapping: &SchemaMapping, row_index: usize, timezone: &str) -> (
    error: Error)
    ensures
        error@ == timezone_error(mapping@, row_index, timezone@),
{
    value_conversion_error(
        row_mapping_diagnostic(
            mapping,
            row_index,
            DiagnosticCode::TimezoneUnsupported,
            MessageOf::TimezoneUnsupported { timezone: timezone.to_owned() },
        ),
    )
}

/// Creates the error of an instant that the planned timezone cannot represent.
pub fn timezone_instant_error(
    mapping: &SchemaMapping,
    row_index: usize,
    seconds_from_unix_epoch: i64,
) -> (error: Error)
    ensures
        error@ == row_fault(
            mapping@,
            row_index,
            DiagnosticCode::TimestampOutOfRange,
            (Fault::InstantUnrepresentable { seconds: seconds_from_unix_epoch }),
        ),
{
    row_mapping_fault(
        mapping,
        row_index,
        DiagnosticCode::TimestampOutOfRange,
        Fault::InstantUnrepresentable { seconds: seconds_from_unix_epoch },
    )
}

/// Creates the error of a timezone offset that `datetimeoffset` cannot represent.
pub fn unsupported_timezone_offset_error(
    mapping: &SchemaMapping,
    row_index: usize,
    offset_seconds: i32,
) -> (error: Error)
    ensures
        error@ == row_fault(
            mapping@,
            row_index,
            DiagnosticCode::TimezoneUnsupported,
            (Fault::OffsetUnrepresentable { seconds: offset_seconds }),
        ),
{
    row_mapping_fault(
        mapping,
        row_index,
        DiagnosticCode::TimezoneUnsupported,
        Fault::OffsetUnrepresentable { seconds: offset_seconds },
    )
}

/// Creates the error of a value without a conversion.
pub fn unsupported_value_conversion(
    mapping: &SchemaMapping,
    row_index: usize,
    message: Message,
) -> (error: Error)
    ensures
        error@ == row_error(
            mapping@,
            row_index,
            DiagnosticCode::ValueConversionUnsupported,
            message@,
        ),
{
    value_conversion_error(
        row_mapping_diagnostic(
            mapping,
            row_index,
            DiagnosticCode::ValueConversionUnsupported,
            message,
        ),
    )
}

/// Creates the error of a floating point value that is not finite.
pub fn non_finite_float_error(mapping: &SchemaMapping, row_index: usize, value: NonFinite) -> (
    error: Error)
    ensures
        error@ == row_fault(
            mapping@,
            row_index,
            DiagnosticCode::NonFiniteFloat,
            (Fault::NonFiniteFloat { value }),
        ),
{
    row_mapping_fault(
        mapping,
        row_index,
        DiagnosticCode::NonFiniteFloat,
        Fault::NonFiniteFloat { value },
    )
}

/// Creates the error of a value that is longer than planned.
pub fn value_too_long_error(mapping: &SchemaMapping, row_index: usize, message: Message) -> (error:
    Error)
    ensures
        error@ == row_error(mapping@, row_index, DiagnosticCode::ValueTooLong, message@),
{
    value_conversion_error(
        row_mapping_diagnostic(mapping, row_index, DiagnosticCode::ValueTooLong, message),
    )
}

} // verus!
