//! Laws of results as contracts speak of them.

use vstd::prelude::*;

use crate::cell::{ArrowCell, MssqlCell};
use crate::convert::{arrow_cell_view, bytes_view, mssql_cell_view, row_view, text_view};
use crate::diagnostic::{outcome, ErrorView, Result};
use crate::direct::assemble::is_payload;
use crate::direct::bound::error_of;
use crate::direct::cell::DirectCell;
use crate::direct::encoder::{is_encoder, DirectEncoder, EncoderView};
use crate::direct::fixed_width::is_optional_payload;
use crate::direct::layout::{RowLayout, RowLayoutView};
use crate::direct::payload::{EncodedRowsPayload, PayloadView};
use crate::direct::rows::layout_result;
use crate::direct::value::direct_cell_view;
use crate::timezone::{fixed_offset_view, resolution_view, TimezoneResolution};
use crate::token_row::{held_datetimeoffset, held_numeric};

verus! {

/// A result is seen as the value or the error that it holds.
pub proof fn law_outcomes_are_results<T>(result: Result<T>)
    ensures
        result matches Ok(value) ==> outcome(result) == Ok::<T, ErrorView>(value),
        result matches Err(error) ==> outcome(result) == Err::<T, ErrorView>(error@),
{
}

/// A result without a value is seen as its error.
pub proof fn law_errors_are_seen(result: Result<()>)
    ensures
        result is Ok <==> error_of(result) is None,
        result matches Err(error) ==> error_of(result) == Some(error@),
{
}

/// The results of reading and converting cells are seen as the cells or the errors they hold.
pub proof fn law_cells_are_seen(
    read: Result<ArrowCell<'_>>,
    converted: Result<MssqlCell<'_>>,
    encoded: Result<DirectCell<'_>>,
)
    ensures
        match read {
            Ok(cell) => arrow_cell_view(read) == Ok::<_, ErrorView>(cell@),
            Err(error) => arrow_cell_view(read) matches Err(seen) && seen == error@,
        },
        match converted {
            Ok(cell) => mssql_cell_view(converted) == Ok::<_, ErrorView>(cell@),
            Err(error) => mssql_cell_view(converted) matches Err(seen) && seen == error@,
        },
        match encoded {
            Ok(cell) => direct_cell_view(encoded) == Ok::<_, ErrorView>(cell@),
            Err(error) => direct_cell_view(encoded) matches Err(seen) && seen == error@,
        },
{
}

/// The result of converting texts, bytes and rows is seen as what it holds.
pub proof fn law_texts_and_rows_are_seen(
    text: Result<&str>,
    bytes: Result<&[u8]>,
    row: Result<Vec<MssqlCell<'_>>>,
)
    ensures
        match text {
            Ok(text_found) => text_view(text) == Ok::<_, ErrorView>(text_found@),
            Err(error) => text_view(text) matches Err(seen) && seen == error@,
        },
        match bytes {
            Ok(bytes_found) => bytes_view(bytes) == Ok::<_, ErrorView>(bytes_found@),
            Err(error) => bytes_view(bytes) matches Err(seen) && seen == error@,
        },
        match row {
            Ok(cells) => row_view(row) matches Ok(seen) && seen.len() == cells@.len() && forall|
                i: int,
            |
                0 <= i < cells@.len() ==> #[trigger] seen[i] == cells@[i]@,
            Err(error) => row_view(row) matches Err(seen) && seen == error@,
        },
{
}

/// The results of timezone metadata are seen as what they hold.
pub proof fn law_timezones_are_seen(
    resolved: Result<TimezoneResolution>,
    parsed: Option<Result<i16>>,
)
    ensures
        match resolved {
            Ok(resolution) => resolution_view(resolved) == Ok::<_, ErrorView>(resolution@),
            Err(error) => resolution_view(resolved) matches Err(seen) && seen == error@,
        },
        match parsed {
            None => fixed_offset_view(parsed) is None,
            Some(Ok(offset)) => fixed_offset_view(parsed) matches Some(Ok(seen)) && seen == offset,
            Some(Err(error)) => fixed_offset_view(parsed) matches Some(Err(seen)) && seen
                == error@,
        },
{
}

/// A payload, a layout or an encoder is the expected one, or the error is.
pub proof fn law_results_are_the_expected_ones(
    payload: Result<EncodedRowsPayload>,
    optional: Result<Option<EncodedRowsPayload>>,
    layout: Result<RowLayout>,
    encoder: Result<DirectEncoder>,
    expected_payload: core::result::Result<PayloadView, ErrorView>,
    expected_optional: core::result::Result<Option<PayloadView>, ErrorView>,
    expected_layout: core::result::Result<RowLayoutView, ErrorView>,
    expected_encoder: core::result::Result<EncoderView, ErrorView>,
)
    ensures
        is_payload(payload, expected_payload) <==> match (payload, expected_payload) {
            (Ok(found), Ok(expected)) => found@ == expected,
            (Err(found), Err(expected)) => found@ == expected,
            _ => false,
        },
        is_optional_payload(optional, expected_optional) <==> match (optional, expected_optional) {
            (Ok(Some(found)), Ok(Some(expected))) => found@ == expected,
            (Ok(None), Ok(None)) => true,
            (Err(found), Err(expected)) => found@ == expected,
            _ => false,
        },
        layout_result(layout, expected_layout) <==> match (layout, expected_layout) {
            (Ok(found), Ok(expected)) => found@ == expected,
            (Err(found), Err(expected)) => found@ == expected,
            _ => false,
        },
        is_encoder(encoder, expected_encoder) <==> match (encoder, expected_encoder) {
            (Ok(found), Ok(expected)) => found@ == expected,
            (Err(found), Err(expected)) => found@ == expected,
            _ => false,
        },
{
}

/// A client decimal, and a client date and time with an offset, are read by all their parts.
pub proof fn law_client_values_are_read_whole(
    numeric: tiberius::numeric::Numeric,
    datetimeoffset: tiberius::time::DateTimeOffset,
)
    ensures
        held_numeric(numeric).unscaled == crate::token_row::numeric_value(numeric),
        held_numeric(numeric).scale == crate::token_row::numeric_scale(numeric),
        ({
            let held = held_datetimeoffset(datetimeoffset);
            let datetime2 = crate::token_row::offset_datetime2(datetimeoffset);
            let date = crate::token_row::datetime2_date(datetime2);
            let time = crate::token_row::datetime2_time(datetime2);
            &&& held.offset_minutes == crate::token_row::offset_minutes(datetimeoffset)
            &&& held.datetime2.date.days == crate::token_row::date_days(date)
            &&& held.datetime2.time.increments == crate::token_row::time_increments(time)
            &&& held.datetime2.time.scale == crate::token_row::time_scale(time)
        }),
{
}

} // verus!
