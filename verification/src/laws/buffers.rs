//! Laws of buffers, slices and defaults.

use vstd::prelude::*;

use crate::batch::{is_slice, ColumnArray, RecordBatch};
use crate::cell::{ArrowCellOf, ArrowCellView};
use crate::context::{datetime_rounding_at, PlanOptions};
use crate::diagnostic::{DiagnosticCode, ErrorView, Result};
use crate::direct::encoder::{default_context, default_options};
use crate::direct::plan::DirectColumnView;
use crate::direct::primitive::{
    column_values_error, first_non_finite_error, first_null_row, is_appended, is_cell_written,
    primitive_cell_bytes, primitive_error, primitive_measure_outcome,
};
use crate::direct::primitive_rows::{
    cells_fit, fixed_fill_from, nullable_widths, value_cell_bytes,
};
use crate::direct::temporal::is_written;
use crate::direct::wire::splice;
use crate::laws::primitives::{
    is_finite, is_primitive_value, law_primitive_cells, law_writing_changes_the_place,
    primitive_size,
};
use crate::message::Fault;

verus! {

/// A slice holds the rows of the batch from its start on, under the same names and types.
pub proof fn law_slices_hold_their_rows(
    batch: RecordBatch,
    start: usize,
    len: usize,
    slice: RecordBatch,
    column: int,
    row: int,
)
    requires
        is_slice(batch, start, len, slice),
        0 <= column < batch.arrays().len(),
        0 <= row < len,
    ensures
        slice.rows() == len,
        slice.names() == batch.names(),
        slice.arrays().len() == batch.arrays().len(),
        slice.arrays()[column].row_count() == len,
        slice.arrays()[column].type_view() == batch.arrays()[column].type_view(),
        slice.arrays()[column].cell_at(row) == batch.arrays()[column].cell_at(start + row),
{
}

/// An encoder that is given no policy refuses nanoseconds that a tick cannot hold, and one that is
/// given no profile rounds as a database below compatibility level 130.
pub proof fn law_defaults_refuse_lossy_values(options: PlanOptions)
    ensures
        default_options().nanosecond_policy is RejectNon100ns,
        default_context(options).plan_options == options,
        datetime_rounding_at(default_context(options).profile.compatibility_level) is LegacyPre130,
{
}

/// A refused write leaves the buffer alone; another changes the place of the cell only.
pub proof fn law_refused_writes_change_nothing(
    result: Result<()>,
    before: Seq<u8>,
    after: Seq<u8>,
    fault: Option<Fault>,
    offset: usize,
    part: Seq<u8>,
)
    requires
        is_cell_written(result, before, after, fault, offset, part),
        fault is None ==> offset + part.len() <= before.len(),
    ensures
        after.len() == before.len(),
        result is Ok <==> fault is None,
        result is Err ==> after == before,
        result is Ok ==> after.subrange(offset as int, offset + part.len()) == part,
        forall|i: int|
            0 <= i < before.len() && !(offset <= i < offset + part.len()) ==> #[trigger] after[i]
                == before[i],
        result matches Err(error) ==> is_payload_error(error@),
{
    if fault is None {
        law_writing_changes_the_place(before, offset as int, part);
    }
}

/// Whether an error is one diagnostic of a payload that is inconsistent.
pub open spec fn is_payload_error(error: ErrorView) -> bool {
    &&& error matches ErrorView::DirectEncoding(diagnostics) && diagnostics.len() == 1
        && diagnostics[0].code == DiagnosticCode::DirectEncodingInvalidPayload
        && diagnostics[0].row is None && diagnostics[0].field is None
}

/// A refused cell leaves the row buffer alone; another stands behind what was there.
pub proof fn law_refused_cells_are_not_appended(
    result: Result<()>,
    before: Seq<u8>,
    after: Seq<u8>,
    error: Option<ErrorView>,
    part: Seq<u8>,
)
    requires
        is_appended(result, before, after, error, part),
    ensures
        result is Ok <==> error is None,
        result is Err ==> after == before,
        result is Ok ==> after.len() == before.len() + part.len() && after.take(before.len() as int)
            == before && after.skip(before.len() as int) == part,
{
    assert((before + part).take(before.len() as int) =~= before);
    assert((before + part).skip(before.len() as int) =~= part);
}

/// A refused date or time leaves the buffer alone; another fills it.
pub proof fn law_refused_times_change_nothing(
    result: Result<()>,
    before: Seq<u8>,
    after: Seq<u8>,
    fault: Option<Fault>,
    bytes: Seq<u8>,
)
    requires
        is_written(result, before, after, fault, bytes),
    ensures
        result is Ok <==> fault is None,
        result is Err ==> after == before,
        result is Ok ==> after == bytes,
        result matches Err(error) ==> is_payload_error(error@),
{
}

/// A value that is given as bytes stands behind its length where the column allows nulls, and a
/// null is a zero length.
pub proof fn law_given_bytes_are_kept(nullable: bool, value: Option<Seq<u8>>)
    requires
        value matches Some(bytes) ==> bytes.len() <= 255,
    ensures
        ({
            let cell = value_cell_bytes(nullable, value);
            match value {
                None => cell == seq![0u8],
                Some(bytes) => {
                    &&& nullable ==> cell[0] == bytes.len() && cell.skip(1) == bytes
                    &&& !nullable ==> cell == bytes
                },
            }
        }),
{
    if let Some(bytes) = value {
        assert((seq![bytes.len() as u8] + bytes).skip(1) =~= bytes);
    }
}

/// The cells of a column that allows nulls take one byte, and the value behind it.
pub proof fn law_nullable_cells_have_a_length_byte(
    array: ColumnArray,
    value_len: usize,
    count: nat,
    row: int,
)
    requires
        0 <= row < count,
    ensures
        nullable_widths(array, value_len, count).len() == count,
        nullable_widths(array, value_len, count)[row] == if array.cell_at(row) is Null {
            1
        } else {
            1 + value_len
        },
{
}

/// Whether a primitive column takes a value.
pub open spec fn is_accepted(column: DirectColumnView, cell: ArrowCellView) -> bool {
    &&& cell is Null ==> column.nullable
    &&& cell matches ArrowCellOf::Float64(bits) ==> is_finite(bits)
}

/// The bytes of a primitive cell.
pub open spec fn primitive_len(column: DirectColumnView, cell: ArrowCellView) -> nat {
    if cell is Null {
        1
    } else if column.nullable {
        1 + primitive_size(cell)
    } else {
        primitive_size(cell)
    }
}

/// Whether a byte is in the cell of a row.
pub open spec fn is_in_cell(
    column: DirectColumnView,
    cells: Seq<ArrowCellView>,
    offsets: Seq<usize>,
    row: int,
    index: int,
) -> bool {
    offsets[row] <= index < offsets[row] + primitive_len(column, cells[row])
}

/// Whether the cells of the rows from one on do not overlap.
pub open spec fn are_disjoint(
    column: DirectColumnView,
    cells: Seq<ArrowCellView>,
    offsets: Seq<usize>,
    row: int,
) -> bool {
    forall|one: int, other: int, index: int|
        #![trigger is_in_cell(column, cells, offsets, one, index),
            is_in_cell(column, cells, offsets, other, index)]
        row <= one < other < cells.len() ==> !(is_in_cell(column, cells, offsets, one, index)
            && is_in_cell(column, cells, offsets, other, index))
}

/// Filling a fixed-width column stops at the first value that the column refuses. Otherwise every
/// row's offset moves behind its cell, no byte outside the cells changes, and cells that do not
/// overlap hold their values.
pub proof fn law_fixed_width_filling_writes_the_cells(
    column: DirectColumnView,
    cells: Seq<ArrowCellView>,
    offsets: Seq<usize>,
    bytes: Seq<u8>,
    row: int,
)
    requires
        0 <= row <= cells.len(),
        cells.len() <= usize::MAX,
        bytes.len() <= usize::MAX,
        cells_fit(column, cells, offsets, bytes.len(), row),
        forall|r: int|
            0 <= r < cells.len() ==> is_primitive_value(#[trigger] cells[r]) || cells[r] is Null,
    ensures
        ({
            let (moved, filled, error) = fixed_fill_from(column, cells, offsets, bytes, row);
            &&& moved.len() == offsets.len()
            &&& filled.len() == bytes.len()
            &&& error is None <==> forall|r: int|
                row <= r < cells.len() ==> is_accepted(column, #[trigger] cells[r])
            &&& forall|r: int|
                0 <= r < offsets.len() && !(row <= r < cells.len()) ==> #[trigger] moved[r]
                    == offsets[r]
            &&& error is None ==> forall|r: int|
                row <= r < cells.len() ==> #[trigger] moved[r] == offsets[r] + primitive_len(
                    column,
                    cells[r],
                )
            &&& forall|i: int|
                #![trigger filled[i]]
                0 <= i < bytes.len() && (forall|r: int|
                    row <= r < cells.len() ==> !(#[trigger] is_in_cell(
                        column,
                        cells,
                        offsets,
                        r,
                        i,
                    ))) ==> filled[i] == bytes[i]
            &&& error is None && are_disjoint(column, cells, offsets, row) ==> forall|r: int|
                row <= r < cells.len() ==> filled.subrange(
                    offsets[r] as int,
                    offsets[r] + primitive_len(column, cells[r]),
                ) == primitive_cell_bytes(column.nullable, #[trigger] cells[r])
        }),
    decreases cells.len() - row,
{
    if row < cells.len() {
        law_primitive_cells(column, row as usize, cells[row]);
        let part = primitive_cell_bytes(column.nullable, cells[row]);
        assert(part.len() == primitive_len(column, cells[row]));
        assert(offsets[row] + part.len() <= bytes.len());
        if primitive_error(column, row as usize, cells[row]) is None {
            let next = splice(bytes, offsets[row] as int, part);
            let at = offsets.update(row, (offsets[row] + part.len()) as usize);
            law_writing_changes_the_place(bytes, offsets[row] as int, part);
            assert(cells_fit(column, cells, at, next.len(), row + 1));
            law_fixed_width_filling_writes_the_cells(column, cells, at, next, row + 1);
            let (moved, filled, error) = fixed_fill_from(column, cells, at, next, row + 1);
            assert forall|i: int|
                #![trigger filled[i]]
                0 <= i < bytes.len() && (forall|r: int|
                    row <= r < cells.len() ==> !(#[trigger] is_in_cell(
                        column,
                        cells,
                        offsets,
                        r,
                        i,
                    ))) implies filled[i] == bytes[i] by {
                assert(!is_in_cell(column, cells, offsets, row, i));
                assert forall|r: int| row + 1 <= r < cells.len() implies !(#[trigger] is_in_cell(
                    column,
                    cells,
                    at,
                    r,
                    i,
                )) by {
                    assert(!is_in_cell(column, cells, offsets, r, i));
                }
                assert(filled[i] == next[i]);
            }
            if error is None && are_disjoint(column, cells, offsets, row) {
                assert forall|one: int, other: int, index: int|
                    #![trigger is_in_cell(column, cells, at, one, index),
                        is_in_cell(column, cells, at, other, index)]
                    row + 1 <= one < other < cells.len() implies !(is_in_cell(
                    column,
                    cells,
                    at,
                    one,
                    index,
                ) && is_in_cell(column, cells, at, other, index)) by {
                    assert(!(is_in_cell(column, cells, offsets, one, index) && is_in_cell(
                        column,
                        cells,
                        offsets,
                        other,
                        index,
                    )));
                }
                let start = offsets[row] as int;
                assert forall|i: int| start <= i < start + part.len() implies filled[i]
                    == next[i] by {
                    assert(is_in_cell(column, cells, offsets, row, i));
                    assert forall|r: int| row + 1 <= r < cells.len() implies !(
                    #[trigger] is_in_cell(column, cells, at, r, i)) by {
                        assert(!is_in_cell(column, cells, offsets, r, i));
                    }
                }
                assert(filled.subrange(start, start + part.len()) =~= next.subrange(
                    start,
                    start + part.len(),
                ));
            }
        } else {
            assert(!is_accepted(column, cells[row]));
        }
    }
}

/// Whether floats are all finite.
pub open spec fn are_finite(array: ColumnArray) -> bool {
    array matches ColumnArray::Float64(values) && forall|row: int|
        0 <= row < values@.len() ==> (#[trigger] values@[row] matches Some(bits) ==> is_finite(
            bits,
        ))
}

/// The values of a primitive column are refused exactly when it is of floats, and one is not
/// finite. It is measured exactly when no value is refused, and no null where it allows none.
pub proof fn law_primitive_columns_are_measured(column: DirectColumnView, array: ColumnArray)
    requires
        array.row_count() <= usize::MAX,
    ensures
        is_float_column(column) ==> (column_values_error(column, array) is None <==> are_finite(
            array,
        )),
        !is_float_column(column) ==> column_values_error(column, array) is None,
        crate::direct::primitive::encoding_width(column.encoding) is Some ==> (
        primitive_measure_outcome(column, array).1 is None <==> (is_float_column(column)
            ==> are_finite(array)) && (column.nullable || !has_null(array))),
        primitive_measure_outcome(column, array).1 is None ==> primitive_measure_outcome(
            column,
            array,
        ).0 == array.row_count(),
{
    if let ColumnArray::Float64(values) = array {
        lemma_first_non_finite(column, values@, 0);
    }
    lemma_first_null(array, 0);
}

/// Whether a column is planned for floats of 64 bits.
pub open spec fn is_float_column(column: DirectColumnView) -> bool {
    column.encoding == crate::direct::plan::DirectColumnEncoding::Primitive(
        crate::classify::PrimitiveArrowToMssql::Float64ToFloat,
    )
}

/// Whether an array has a null.
pub open spec fn has_null(array: ColumnArray) -> bool {
    exists|row: int| 0 <= row < array.row_count() && #[trigger] array.cell_at(row) is Null
}

/// The first null of an array.
proof fn lemma_first_null(array: ColumnArray, row: int)
    requires
        0 <= row <= array.row_count(),
    ensures
        row <= first_null_row(array, row) <= array.row_count(),
        first_null_row(array, row) < array.row_count() <==> exists|r: int|
            row <= r < array.row_count() && #[trigger] array.cell_at(r) is Null,
    decreases array.row_count() - row,
{
    if row < array.row_count() {
        lemma_first_null(array, row + 1);
        if array.cell_at(row) is Null {
            assert(first_null_row(array, row) == row);
        }
    }
}

/// The first float that is not finite.
proof fn lemma_first_non_finite(column: DirectColumnView, values: Seq<Option<u64>>, row: int)
    requires
        0 <= row <= values.len(),
    ensures
        first_non_finite_error(column, values, row) is None <==> forall|r: int|
            row <= r < values.len() ==> (#[trigger] values[r] matches Some(bits) ==> is_finite(
                bits,
            )),
    decreases values.len() - row,
{
    if row < values.len() {
        lemma_first_non_finite(column, values, row + 1);
        if let Some(bits) = values[row] {
            assert(first_non_finite_error(column, values, row) is None ==> is_finite(bits));
        }
    }
}

} // verus!
