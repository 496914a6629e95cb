//! Laws of what errors report.

use vstd::prelude::*;

use crate::arrow_type::{data_type_text, ArrowType};
use crate::batch::RecordBatch;
use crate::cell::{ArrowCellOf, ArrowCellView};
use crate::context::NanosecondPolicy;
use crate::convert::{
    column_count_error, datetime2_value_outcome, mssql_cell_outcome, row_index_error,
    runtime_column_error,
};
use crate::diagnostic::{DiagnosticCode, ErrorView};
use crate::direct::plan::{current_encoding, DirectColumnEncoding};
use crate::direct::value::{
    direct_cell_outcome, target_of, temporal_cell_outcome, TemporalTarget,
};
use crate::laws::batches::is_schema_error;
use crate::laws::errors::is_taken;
use crate::laws::messages::{has_at, law_messages_show_their_parts, message_parts, shows};
use crate::laws::reading::{lemma_unit_count, unit_count};
use crate::mapping::SchemaMappingView;
use crate::message::message_text;
use crate::mssql_type::{mssql_type_text, MssqlType};
use crate::text::{decimal_text, int_text, quoted_text};
use crate::timezone::{metadata_error, resolution_outcome};

verus! {

/// Whether a text holds a part.
pub open spec fn holds_text(text: Seq<char>, part: Seq<char>) -> bool {
    exists|at: int| #[trigger] has_at(text, part, at)
}

/// The text of the message of an error of one diagnostic.
pub open spec fn reported(error: ErrorView) -> Seq<char> {
    message_text(error->ValueConversion_0[0].message)
}

/// The code of an error of one diagnostic.
pub open spec fn reported_code(error: ErrorView) -> DiagnosticCode {
    error->ValueConversion_0[0].code
}

/// A text that shows parts holds each of them.
proof fn lemma_holds(text: Seq<char>, parts: Seq<Seq<char>>, index: int)
    requires
        shows(text, parts),
        0 <= index < parts.len(),
    ensures
        holds_text(text, parts[index]),
    decreases parts.len(),
{
    let at = choose|at: int| #[trigger]
        has_at(text, parts[0], at) && shows(text.skip(at + parts[0].len()), parts.drop_first());
    if index > 0 {
        let start = at + parts[0].len();
        lemma_holds(text.skip(start), parts.drop_first(), index - 1);
        let part = parts[index];
        assert(parts.drop_first()[index - 1] == part);
        let found = choose|found: int| #[trigger] has_at(text.skip(start), part, found);
        assert(text.subrange(start + found, start + found + part.len()) =~= text.skip(
            start,
        ).subrange(found, found + part.len()));
        assert(has_at(text, part, start + found));
    }
}

/// The message of an error holds its parts.
proof fn lemma_reported(error: ErrorView)
    ensures
        ({
            let parts = message_parts(error->ValueConversion_0[0].message);
            forall|i: int|
                0 <= i < parts.len() ==> holds_text(reported(error), #[trigger] parts[i])
        }),
{
    let message = error->ValueConversion_0[0].message;
    law_messages_show_their_parts(message);
    assert forall|i: int| 0 <= i < message_parts(message).len() implies holds_text(
        reported(error),
        #[trigger] message_parts(message)[i],
    ) by {
        lemma_holds(message_text(message), message_parts(message), i);
    }
}

/// The number of an integer, a date, a time or a timestamp.
pub open spec fn value_of(cell: ArrowCellView) -> int {
    match cell {
        ArrowCellOf::UInt64(value) => value as int,
        ArrowCellOf::Date32(value) => value as int,
        ArrowCellOf::Date64(value) => value as int,
        ArrowCellOf::Time32Second(value) => value as int,
        ArrowCellOf::Time32Millisecond(value) => value as int,
        ArrowCellOf::Time64Microsecond(value) => value as int,
        ArrowCellOf::Time64Nanosecond(value) => value as int,
        ArrowCellOf::TimestampSecond(value) => value as int,
        ArrowCellOf::TimestampMillisecond(value) => value as int,
        ArrowCellOf::TimestampMicrosecond(value) => value as int,
        ArrowCellOf::TimestampNanosecond(value) => value as int,
        _ => 0,
    }
}

/// Whether an error code speaks of the number of a value.
pub open spec fn is_of_number(code: DiagnosticCode) -> bool {
    code is IntegerOutOfRange || code is TimestampOutOfRange || code
        is LossyConversionRequiresPolicy
}

/// An integer, a date or a timestamp that conversion refuses for its number is reported with that
/// number.
pub proof fn law_refused_numbers_are_reported(
    mapping: SchemaMappingView,
    policy: NanosecondPolicy,
    row: usize,
    cell: ArrowCellView,
)
    requires
        is_taken(mapping, cell),
        mapping.mssql.ty is BigInt || mapping.mssql.ty is Date || mapping.mssql.ty is DateTime2,
    ensures
        mssql_cell_outcome(mapping, policy, row, cell) matches Err(error) ==> (is_of_number(
            reported_code(error),
        ) ==> holds_text(reported(error), int_text(value_of(cell)))),
{
    if let Err(error) = mssql_cell_outcome(mapping, policy, row, cell) {
        if is_of_number(reported_code(error)) {
            lemma_reported(error);
            let parts = message_parts(error->ValueConversion_0[0].message);
            assert(parts.len() > 0);
            assert(parts[0] == int_text(value_of(cell)) || parts.len() > 1 && parts[1] == int_text(
                value_of(cell),
            ));
        }
    }
}

/// A date, a time or a timestamp that encoding refuses for its number is reported with that number.
pub proof fn law_refused_times_are_reported(
    mapping: SchemaMappingView,
    policy: NanosecondPolicy,
    row: usize,
    cell: ArrowCellView,
)
    requires
        current_encoding(mapping) is Some,
        mapping.mssql.ty is Date || mapping.mssql.ty is Time || mapping.mssql.ty is DateTime
            || mapping.mssql.ty is DateTime2,
    ensures
        direct_cell_outcome(current_encoding(mapping)->0, mapping, policy, row, cell) matches Err(
            error,
        ) ==> (is_of_number(reported_code(error)) ==> holds_text(
            reported(error),
            int_text(value_of(cell)),
        )),
{
    if let DirectColumnEncoding::Temporal(class) = current_encoding(mapping)->0 {
        lemma_time_is_reported(target_of(class), mapping, policy, row, cell);
        if let ArrowType::Timestamp(_, timezone) = mapping.arrow.data_type {
            if let Some(error) = metadata_error(mapping, row, timezone) {
                assert(!is_of_number(reported_code(error)));
            }
        }
    }
}

/// Whether an error of the number of a value shows that number.
spec fn shows_number(error: ErrorView, cell: ArrowCellView) -> bool {
    let parts = message_parts(error->ValueConversion_0[0].message);
    is_of_number(reported_code(error)) ==> parts.len() > 0 && parts[0] == int_text(value_of(cell))
        || parts.len() > 1 && parts[1] == int_text(value_of(cell))
}

/// The error of a date or time shows its number.
proof fn lemma_time_is_reported(
    target: TemporalTarget,
    mapping: SchemaMappingView,
    policy: NanosecondPolicy,
    row: usize,
    cell: ArrowCellView,
)
    requires
        !(target is DateTimeOffset),
    ensures
        temporal_cell_outcome(target, mapping, policy, row, cell) matches Err(error) ==> (
        is_of_number(reported_code(error)) ==> holds_text(
            reported(error),
            int_text(value_of(cell)),
        )),
{
    match target {
        TemporalTarget::Date64 => {
            lemma_datetime2_shows_number(mapping, policy, row, cell);
        },
        TemporalTarget::DateTime2 => {
            lemma_rounded_shows_number(mapping, policy, row, cell);
        },
        _ => {},
    }
    if let Err(error) = temporal_cell_outcome(target, mapping, policy, row, cell) {
        assert(shows_number(error, cell));
        lemma_reported(error);
    }
}

/// The error of a `datetime2(7)` shows its number.
proof fn lemma_datetime2_shows_number(
    mapping: SchemaMappingView,
    policy: NanosecondPolicy,
    row: usize,
    cell: ArrowCellView,
)
    ensures
        datetime2_value_outcome(mapping, policy, row, cell) matches Err(error) ==> shows_number(
            error,
            cell,
        ),
{
    if let ArrowType::Timestamp(_, timezone) = mapping.arrow.data_type {
        if let Some(error) = metadata_error(mapping, row, timezone) {
            assert(!is_of_number(reported_code(error)));
        }
    }
}

/// The error of a `datetime2` shows its number.
proof fn lemma_rounded_shows_number(
    mapping: SchemaMappingView,
    policy: NanosecondPolicy,
    row: usize,
    cell: ArrowCellView,
)
    ensures
        temporal_cell_outcome(TemporalTarget::DateTime2, mapping, policy, row, cell) matches Err(
            error,
        ) ==> shows_number(error, cell),
{
}

/// A text or byte string that is too long is reported with its length and the planned type.
pub proof fn law_long_values_are_reported(
    mapping: SchemaMappingView,
    policy: NanosecondPolicy,
    row: usize,
    cell: ArrowCellView,
)
    requires
        mapping.mssql.ty is NVarChar || mapping.mssql.ty is VarBinary,
        cell matches ArrowCellOf::Utf8(text) ==> unit_count(text) <= usize::MAX,
        cell matches ArrowCellOf::Binary(bytes) ==> bytes.len() <= usize::MAX,
    ensures
        mssql_cell_outcome(mapping, policy, row, cell) matches Err(error) ==> (reported_code(error)
            is ValueTooLong ==> holds_text(reported(error), mssql_type_text(mapping.mssql.ty))
            && holds_text(
            reported(error),
            decimal_text(
                match cell {
                    ArrowCellOf::Utf8(text) => unit_count(text),
                    ArrowCellOf::Binary(bytes) => bytes.len(),
                    _ => 0,
                },
            ),
        )),
{
    if let ArrowCellOf::Utf8(text) = cell {
        lemma_unit_count(text);
    }
    if let Err(error) = mssql_cell_outcome(mapping, policy, row, cell) {
        if reported_code(error) is ValueTooLong {
            lemma_reported(error);
            let parts = message_parts(error->ValueConversion_0[0].message);
            assert(parts.len() == 2);
            assert(holds_text(reported(error), parts[0]));
            assert(holds_text(reported(error), parts[1]));
        }
    }
}

/// Timezone metadata that is refused is reported by its name.
pub proof fn law_refused_timezones_are_reported(
    mapping: SchemaMappingView,
    row: usize,
    timezone: Seq<char>,
    known: bool,
)
    ensures
        resolution_outcome(mapping, row, timezone, known) matches Err(error) ==> holds_text(
            reported(error),
            quoted_text(timezone),
        ),
{
    if let Err(error) = resolution_outcome(mapping, row, timezone, known) {
        lemma_reported(error);
        let parts = message_parts(error->ValueConversion_0[0].message);
        assert(parts[0] == quoted_text(timezone));
    }
}

/// The unscaled number and the scale of a decimal.
pub open spec fn decimal_parts(mapping: SchemaMappingView, cell: ArrowCellView) -> Option<
    (int, i8),
> {
    match (cell, mapping.arrow.data_type) {
        (ArrowCellOf::UInt64(value), ArrowType::UInt64) => Some((value as int, 0)),
        (ArrowCellOf::Decimal32(value), ArrowType::Decimal32(_, scale)) => Some(
            (value as int, scale),
        ),
        (ArrowCellOf::Decimal64(value), ArrowType::Decimal64(_, scale)) => Some(
            (value as int, scale),
        ),
        (ArrowCellOf::Decimal128(value), ArrowType::Decimal128(_, scale)) => Some(
            (value as int, scale),
        ),
        _ => None,
    }
}

/// A decimal that is refused for its digits is reported with its number and the planned precision,
/// where its scale is not negative.
pub proof fn law_wide_decimals_are_reported(
    mapping: SchemaMappingView,
    policy: NanosecondPolicy,
    row: usize,
    cell: ArrowCellView,
    value: int,
    arrow_scale: i8,
)
    requires
        decimal_parts(mapping, cell) == Some((value, arrow_scale)),
        arrow_scale >= 0,
    ensures
        mapping.mssql.ty matches MssqlType::Decimal { precision, scale } ==> (mssql_cell_outcome(
            mapping,
            policy,
            row,
            cell,
        ) matches Err(error) ==> (reported_code(error) is DecimalOutOfRange && 0 <= scale <= 37
            ==> holds_text(reported(error), int_text(value))
            && holds_text(reported(error), decimal_text(precision as nat)))),
{
    if let Err(error) = mssql_cell_outcome(mapping, policy, row, cell) {
        if reported_code(error) is DecimalOutOfRange {
            lemma_reported(error);
            let parts = message_parts(error->ValueConversion_0[0].message);
            if parts.len() == 2 {
                assert(holds_text(reported(error), parts[0]));
                assert(holds_text(reported(error), parts[1]));
            }
        }
    }
}

/// A column that does not match its mapping is reported with the positions, the names or the types
/// that differ, whichever differs first.
pub proof fn law_schema_differences_are_reported(
    batch: RecordBatch,
    mapping: SchemaMappingView,
    position: usize,
)
    requires
        position < batch.arrays().len(),
    ensures
        runtime_column_error(batch, mapping, position) matches Some(error) ==> {
            let text = reported(error);
            let runtime = batch.arrays()[position as int].type_view();
            if mapping.arrow.index != position {
                holds_text(text, decimal_text(position as nat)) && holds_text(
                    text,
                    decimal_text(mapping.arrow.index as nat),
                )
            } else if batch.names()[position as int] != mapping.arrow.name {
                holds_text(text, batch.names()[position as int]) && holds_text(
                    text,
                    mapping.arrow.name,
                )
            } else {
                holds_text(text, data_type_text(runtime)) && holds_text(
                    text,
                    data_type_text(mapping.arrow.data_type),
                )
            }
        },
{
    if let Some(error) = runtime_column_error(batch, mapping, position) {
        lemma_reported(error);
        let parts = message_parts(error->ValueConversion_0[0].message);
        assert(parts.len() == 2);
        assert(holds_text(reported(error), parts[0]));
        assert(holds_text(reported(error), parts[1]));
    }
}

/// A batch of too few columns is reported at the first mapping without one, and a batch of too many
/// with both numbers.
pub proof fn law_column_counts_are_reported(
    batch: RecordBatch,
    mappings: Seq<SchemaMappingView>,
)
    requires
        batch.arrays().len() <= usize::MAX,
        mappings.len() <= usize::MAX,
    ensures
        ({
            let columns = batch.arrays().len();
            let found = column_count_error(batch, mappings);
            &&& found is None <==> columns == mappings.len()
            &&& columns < mappings.len() ==> (found matches Some(error) && is_schema_error(
                error,
                mappings[columns as int],
            ) && holds_text(reported(error), decimal_text(columns)))
            &&& columns > mappings.len() ==> (found matches Some(error) && reported_code(error)
                is SchemaMismatch && holds_text(reported(error), decimal_text(columns))
                && holds_text(reported(error), decimal_text(mappings.len())))
        }),
{
    if let Some(error) = column_count_error(batch, mappings) {
        lemma_reported(error);
        let parts = message_parts(error->ValueConversion_0[0].message);
        assert(parts.len() == 2);
        assert(holds_text(reported(error), parts[0]));
        assert(holds_text(reported(error), parts[1]));
    }
}

/// A row outside a batch is reported with its index and the number of rows.
pub proof fn law_row_indexes_are_reported(row: usize, rows: usize)
    ensures
        holds_text(reported(row_index_error(row, rows)), decimal_text(row as nat)),
        holds_text(reported(row_index_error(row, rows)), decimal_text(rows as nat)),
{
    let error = row_index_error(row, rows);
    lemma_reported(error);
    let parts = message_parts(error->ValueConversion_0[0].message);
    assert(holds_text(reported(error), parts[0]));
    assert(holds_text(reported(error), parts[1]));
}

} // verus!
