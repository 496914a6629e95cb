//! Encoding of rows whose columns have fixed widths.

use vstd::prelude::*;

use crate::diagnostic::{invalid_payload, payload_error, ErrorView, Result};
use crate::direct::assemble::{
    cell_lengths_of, encode_with_layout, holds_cell, is_encodable, is_row_major, keeps_agreement,
    layout_outcome, lemma_holding_all_is_payload,
};
use crate::direct::bound::{bound_views, BoundDirectBatch};
use crate::direct::cell::cell_bytes;
use crate::direct::image::{
    cell_start, law_encoded_payload_is_accepted, law_first_error_is_column_major,
    law_payload_holds_cells, law_rows_bytes_prefix, lemma_bad_column, lemma_bad_row,
    lemma_cells_bytes_prefix, row_start, BoundBatchView,
};
use crate::direct::layout::{CellPosition, RowLayout, RowLayoutView};
use crate::direct::payload::{EncodedRowsPayload, PayloadView, TDS_ROW_TOKEN};
use crate::direct::plan::DirectColumnEncoding;
use crate::direct::rows::{
    cell_index, cells_len, checked_add, lemma_cell_end, lemma_cell_index, row_len, row_major_cell,
    row_major_layout, rows_len, write_row_tokens, zeros, ROW_TOKEN_LEN,
};
use crate::direct::wire::{splice, write_bytes};
use crate::message::Fault;

verus! {

/// Whether every value of a column with an encoding takes the same number of bytes.
pub open spec fn is_fixed_width(encoding: DirectColumnEncoding) -> bool {
    encoding is Primitive || encoding is FixedSizeBinary || encoding is Temporal
}

/// Whether every column of a batch has a fixed width.
pub open spec fn has_fixed_width(batch: BoundBatchView) -> bool {
    forall|column: int|
        0 <= column < batch.columns.len() ==> is_fixed_width(
            (#[trigger] batch.columns[column]).plan.encoding,
        )
}

/// Whether a payload, the absence of one, or the error in its place is as expected.
pub open spec fn is_optional_payload(
    result: Result<Option<EncodedRowsPayload>>,
    expected: core::result::Result<Option<PayloadView>, ErrorView>,
) -> bool {
    match expected {
        Ok(Some(view)) => result matches Ok(Some(payload)) && payload@ == view,
        Ok(None) => result matches Ok(None),
        Err(view) => result matches Err(error) && error@ == view,
    }
}

/// The outcome of encoding a batch without a layout, where its columns have fixed widths.
pub open spec fn fixed_width_outcome(batch: BoundBatchView) -> core::result::Result<
    Option<PayloadView>,
    ErrorView,
> {
    if !has_fixed_width(batch) {
        Ok(None)
    } else {
        match batch.payload_outcome() {
            Ok(payload) => Ok(Some(payload)),
            Err(error) => Err(error),
        }
    }
}

/// The outcome of encoding a batch by a layout, where its columns have fixed widths.
pub open spec fn fixed_width_layout_outcome(
    batch: BoundBatchView,
    layout: RowLayoutView,
) -> core::result::Result<Option<PayloadView>, ErrorView> {
    if !has_fixed_width(batch) {
        Ok(None)
    } else if !is_row_major(layout, batch.row_count as int, batch.column_count()) {
        Err(payload_error(Fault::LayoutShape))
    } else {
        match layout_outcome(batch, layout) {
            Ok(payload) => Ok(Some(payload)),
            Err(error) => Err(error),
        }
    }
}

/// Returns true when every column of a batch has a fixed width.
pub fn columns_have_fixed_width(bound: &BoundDirectBatch<'_>) -> (result: bool)
    ensures
        result == has_fixed_width(bound@),
{
    let columns = bound.columns();
    let mut index: usize = 0;
    while index < columns.len()
        invariant
            index <= columns.len(),
            bound_views(columns@) == bound@.columns,
            forall|i: int|
                0 <= i < index ==> is_fixed_width((#[trigger] bound@.columns[i]).plan.encoding),
        decreases columns.len() - index,
    {
        let column = &columns[index];
        assert(bound@.columns[index as int] == column@);
        match column.encoding() {
            DirectColumnEncoding::Primitive(_)
            | DirectColumnEncoding::FixedSizeBinary(_)
            | DirectColumnEncoding::Temporal(_) => {},
            _ => {
                return false;
            },
        }
        index += 1;
    }
    true
}

/// Returns true when a layout tiles a number of rows cell by cell, in row-major order.
pub fn tiles_row_major(layout: &RowLayout, row_count: usize, column_count: usize) -> (result: bool)
    ensures
        result == is_row_major(layout@, row_count as int, column_count as int),
{
    let ghost view = layout@;
    let ghost rows = row_count as int;
    let ghost columns = column_count as int;
    let ghost lengths = cell_lengths_of(view);
    let ghost expected = row_major_layout(lengths, columns, 0, rows);
    let cells: &[CellPosition] = layout.cell_positions();
    let offsets: &[usize] = layout.row_token_offsets();
    let row_lengths: &[usize] = layout.row_lengths();
    if offsets.len() != row_count || row_lengths.len() != row_count {
        return false;
    }
    let cell_count: usize = match row_count.checked_mul(column_count) {
        Some(cell_count) => cell_count,
        None => {
            assert(expected.cell_positions.len() > usize::MAX);
            let found: usize = cells.len();
            assert(found != expected.cell_positions.len());
            return false;
        },
    };
    proof {
        assert(0 <= rows * columns);
    }
    if cells.len() != cell_count {
        return false;
    }
    let mut offset: usize = 0;
    let mut row: usize = 0;
    while row < row_count
        invariant
            row <= row_count,
            view == layout@,
            rows == row_count,
            columns == column_count,
            lengths == cell_lengths_of(view),
            expected == row_major_layout(lengths, columns, 0, rows),
            cells@ == view.cell_positions,
            offsets@ == view.row_token_offsets,
            row_lengths@ == view.row_lengths,
            offsets@.len() == row_count,
            row_lengths@.len() == row_count,
            cells@.len() == cell_count,
            cell_count == row_count * column_count,
            offset == rows_len(lengths, columns, 0, row as int),
            forall|r: int|
                0 <= r < row ==> (#[trigger] offsets@[r]) == expected.row_token_offsets[r],
            forall|r: int|
                0 <= r < row ==> (#[trigger] row_lengths@[r]) == expected.row_lengths[r],
            forall|k: int|
                0 <= k < row * columns ==> #[trigger] cells@[k] == expected.cell_positions[k],
        decreases row_count - row,
    {
        let start: usize = offset;
        proof {
            lemma_cell_end(lengths, columns, 0, rows, row as int, 0);
            assert(expected.row_token_offsets[row as int] == start);
        }
        if offsets[row] != start {
            return false;
        }
        offset = match offset.checked_add(ROW_TOKEN_LEN) {
            Some(offset) => offset,
            None => {
                return false;
            },
        };
        let mut column: usize = 0;
        proof {
            assert(row * columns >= 0) by (nonlinear_arith)
                requires
                    row >= 0,
                    columns >= 0,
            ;
        }
        while column < column_count
            invariant
                column <= column_count,
                row < row_count,
                view == layout@,
                rows == row_count,
                columns == column_count,
                lengths == cell_lengths_of(view),
                expected == row_major_layout(lengths, columns, 0, rows),
                cells@ == view.cell_positions,
                cells@.len() == cell_count,
                cell_count == row_count * column_count,
                row * columns >= 0,
                offset == rows_len(lengths, columns, 0, row as int) + ROW_TOKEN_LEN + cells_len(
                    lengths,
                    columns,
                    row as int,
                    column as int,
                ),
                forall|k: int|
                    0 <= k < row * columns + column ==> #[trigger] cells@[k]
                        == expected.cell_positions[k],
            decreases column_count - column,
        {
            proof {
                lemma_cell_index(columns, rows, row as int, column as int);
                lemma_cell_end(lengths, columns, 0, rows, row as int, column + 1);
            }
            let cell: CellPosition = cells[row * column_count + column];
            proof {
                let index = cell_index(columns, row as int, column as int);
                assert(expected.cell_positions[index] == row_major_cell(
                    lengths,
                    columns,
                    0,
                    row as int,
                    column as int,
                ));
                assert(lengths[index] == cell.len);
            }
            if cell != CellPosition::new(row, column, offset, cell.len()) {
                return false;
            }
            offset = match offset.checked_add(cell.len()) {
                Some(offset) => offset,
                None => {
                    return false;
                },
            };
            column += 1;
        }
        proof {
            lemma_cell_end(lengths, columns, 0, rows, row as int, columns);
            assert((row + 1) * columns == row * columns + columns) by (nonlinear_arith);
            assert(expected.row_lengths[row as int] == row_len(lengths, columns, row as int));
        }
        if row_lengths[row] != offset - start {
            return false;
        }
        row += 1;
    }
    proof {
        assert(view.row_token_offsets =~= expected.row_token_offsets);
        assert(view.row_lengths =~= expected.row_lengths);
        assert(view.cell_positions =~= expected.cell_positions);
    }
    layout.payload_len() == offset
}

/// Encodes a batch of fixed-width columns by a layout measured before.
///
/// Returns `Ok(None)` when a column needs the general path.
pub fn try_encode_fixed_width_rows_with_layout(bound: &BoundDirectBatch<'_>, layout: &RowLayout)
    -> (result: Result<Option<EncodedRowsPayload>>)
    ensures
        is_optional_payload(result, fixed_width_layout_outcome(bound@, layout@)),
{
    if !columns_have_fixed_width(bound) {
        return Ok(None);
    }
    let row_count: usize = bound.row_count();
    let column_count: usize = bound.columns().len();
    assert(bound@.column_count() == column_count);
    if !tiles_row_major(layout, row_count, column_count) {
        return Err(invalid_payload(Fault::LayoutShape));
    }
    let cell_count: usize = layout.cell_positions().len();
    proof {
        assert(0 <= row_count * column_count) by (nonlinear_arith)
            requires
                0 <= row_count,
                0 <= column_count,
        ;
        assert(cell_count == row_count * column_count);
    }
    match encode_with_layout(bound, layout) {
        Ok(payload) => Ok(Some(payload)),
        Err(error) => Err(error),
    }
}

/// Row offsets of fixed-width rows, and where the next cell of every row goes.
struct FixedWidthRowsLayout {
    row_token_offsets: Vec<usize>,
    current_offsets: Vec<usize>,
    payload_len: usize,
}

/// Whether row lengths count the token and the first cells of every row: one cell more of the
/// rows before a row.
spec fn row_lengths_at(
    batch: BoundBatchView,
    row_lengths: Seq<usize>,
    column: int,
    row: int,
) -> bool {
    &&& row_lengths.len() == batch.row_count
    &&& forall|r: int|
        0 <= r < batch.row_count ==> #[trigger] row_lengths[r] == ROW_TOKEN_LEN
            + batch.cells_bytes(
            r,
            if r < row {
                column + 1
            } else {
                column
            },
        ).len()
}

/// Whether some row is too long to be counted.
spec fn has_overlong_row(batch: BoundBatchView) -> bool {
    exists|r: int|
        0 <= r < batch.row_count && (#[trigger] batch.row_bytes(r)).len() > usize::MAX
}

/// A row that cannot be counted makes the payload one that cannot be counted.
proof fn lemma_overlong_row(batch: BoundBatchView)
    requires
        has_overlong_row(batch),
    ensures
        batch.rows_bytes(batch.row_count as int).len() > usize::MAX,
{
    let row = choose|r: int|
        0 <= r < batch.row_count && (#[trigger] batch.row_bytes(r)).len() > usize::MAX;
    law_rows_bytes_prefix(batch, row + 1, batch.row_count as int);
}

/// Adds the cell lengths of every column to the row lengths, column by column.
///
/// Returns `None` when some row is too long to be counted.
fn measure_row_lengths(bound: &BoundDirectBatch<'_>) -> (result: Result<Option<Vec<usize>>>)
    ensures
        match bound@.error() {
            Some(view) => result matches Err(error) && error@ == view,
            None => match result {
                Ok(Some(row_lengths)) => row_lengths_at(
                    bound@,
                    row_lengths@,
                    bound@.column_count(),
                    0,
                ),
                Ok(None) => has_overlong_row(bound@),
                Err(_) => false,
            },
        },
{
    let ghost batch = bound@;
    proof {
        use_type_invariant(bound);
        lemma_bad_column(batch, 0);
    }
    let columns = bound.columns();
    let row_count: usize = bound.row_count();
    let mut row_lengths: Vec<usize> = vec![ROW_TOKEN_LEN; row_count];
    let mut overlong: bool = false;
    let mut column_index: usize = 0;
    while column_index < columns.len()
        invariant
            column_index <= columns@.len(),
            batch == bound@,
            batch.well_formed(),
            bound_views(columns@) == batch.columns,
            row_count == batch.row_count,
            row_lengths@.len() == row_count,
            batch.bad_column(0) == batch.bad_column(column_index as int),
            !overlong ==> row_lengths_at(batch, row_lengths@, column_index as int, 0),
            overlong ==> has_overlong_row(batch),
        decreases columns.len() - column_index,
    {
        let column = &columns[column_index];
        proof {
            assert(batch.columns[column_index as int] == column@);
            lemma_bad_row(column@, 0);
        }
        let mut row_index: usize = 0;
        while row_index < row_count
            invariant
                row_index <= row_count,
                column_index < columns@.len(),
                batch == bound@,
                batch.well_formed(),
                batch.columns[column_index as int] == column@,
                columns@.len() == batch.columns.len(),
                row_count == batch.row_count,
                column@.cells.len() == row_count,
                row_lengths@.len() == row_count,
                column@.bad_row(0) == column@.bad_row(row_index as int),
                batch.bad_column(0) == batch.bad_column(column_index as int),
                !overlong ==> row_lengths_at(
                    batch,
                    row_lengths@,
                    column_index as int,
                    row_index as int,
                ),
                overlong ==> has_overlong_row(batch),
            decreases row_count - row_index,
        {
            let cell = match column.cell(row_index) {
                Ok(cell) => cell,
                Err(error) => {
                    return Err(error);
                },
            };
            if !overlong {
                let ghost before = row_lengths@;
                proof {
                    assert(batch.bytes_at(row_index as int, column_index as int) == cell_bytes(
                        cell@,
                    ));
                    assert(before[row_index as int] == ROW_TOKEN_LEN + batch.cells_bytes(
                        row_index as int,
                        column_index as int,
                    ).len());
                }
                match row_lengths[row_index].checked_add(cell.len()) {
                    Some(sum) => {
                        row_lengths.set(row_index, sum);
                        proof {
                            assert forall|r: int| 0 <= r < batch.row_count implies #[trigger]
                            row_lengths@[r] == ROW_TOKEN_LEN + batch.cells_bytes(
                                r,
                                if r < row_index + 1 {
                                    column_index + 1
                                } else {
                                    column_index as int
                                },
                            ).len() by {
                                if r != row_index {
                                    assert(row_lengths@[r] == before[r]);
                                }
                            }
                        }
                    },
                    None => {
                        proof {
                            lemma_cells_bytes_prefix(
                                batch,
                                row_index as int,
                                column_index + 1,
                                batch.column_count(),
                            );
                            assert(batch.row_bytes(row_index as int).len() > usize::MAX);
                        }
                        overlong = true;
                    },
                }
            }
            row_index += 1;
        }
        proof {
            if !overlong {
                assert forall|r: int| 0 <= r < batch.row_count implies #[trigger] row_lengths@[r]
                    == ROW_TOKEN_LEN + batch.cells_bytes(r, column_index + 1).len() by {}
            }
        }
        column_index += 1;
    }
    if overlong {
        Ok(None)
    } else {
        Ok(Some(row_lengths))
    }
}

/// Turns row lengths into row offsets.
fn measure_fixed_width_rows(bound: &BoundDirectBatch<'_>) -> (result: Result<FixedWidthRowsLayout>)
    ensures
        match bound@.error() {
            Some(view) => result matches Err(error) && error@ == view,
            None => if bound@.rows_bytes(bound@.row_count as int).len() > usize::MAX {
                result matches Err(error) && error@ == payload_error(Fault::PrimitiveLengthOverflow)
            } else {
                result matches Ok(layout) && layout.payload_len == bound@.rows_bytes(
                    bound@.row_count as int,
                ).len() && layout.row_token_offsets@ == bound@.payload().row_token_offsets
                    && layout.current_offsets@.len() == bound@.row_count && forall|r: int|
                    0 <= r < bound@.row_count ==> #[trigger] layout.current_offsets@[r]
                        == cell_start(bound@, r, 0)
            },
        },
{
    let ghost batch = bound@;
    let row_lengths: Vec<usize> = match measure_row_lengths(bound) {
        Ok(Some(row_lengths)) => row_lengths,
        Ok(None) => {
            proof {
                lemma_overlong_row(batch);
            }
            return Err(invalid_payload(Fault::PrimitiveLengthOverflow));
        },
        Err(error) => {
            return Err(error);
        },
    };
    let row_count: usize = row_lengths.len();
    let mut row_token_offsets: Vec<usize> = Vec::with_capacity(row_count);
    let mut current_offsets: Vec<usize> = Vec::with_capacity(row_count);
    let mut payload_len: usize = 0;
    let mut row_index: usize = 0;
    while row_index < row_count
        invariant
            row_index <= row_count,
            batch == bound@,
            batch.error() is None,
            row_count == batch.row_count,
            row_lengths_at(batch, row_lengths@, batch.column_count(), 0),
            payload_len == batch.rows_bytes(row_index as int).len(),
            row_token_offsets@.len() == row_index,
            current_offsets@.len() == row_index,
            forall|r: int|
                0 <= r < row_index ==> #[trigger] row_token_offsets@[r] == row_start(batch, r),
            forall|r: int|
                0 <= r < row_index ==> #[trigger] current_offsets@[r] == cell_start(batch, r, 0),
        decreases row_count - row_index,
    {
        proof {
            law_rows_bytes_prefix(batch, row_index + 1, row_count as int);
            assert(row_lengths@[row_index as int] == batch.row_bytes(row_index as int).len());
        }
        row_token_offsets.push(payload_len);
        let current: usize = match checked_add(payload_len, ROW_TOKEN_LEN) {
            Ok(current) => current,
            Err(error) => {
                return Err(error);
            },
        };
        current_offsets.push(current);
        payload_len =
        match checked_add(payload_len, row_lengths[row_index]) {
            Ok(payload_len) => payload_len,
            Err(error) => {
                return Err(error);
            },
        };
        row_index += 1;
    }
    assert(row_token_offsets@ =~= batch.payload().row_token_offsets);
    Ok(FixedWidthRowsLayout { row_token_offsets, current_offsets, payload_len })
}

/// Writing a cell to its place keeps what agrees with the payload and adds the cell.
pub proof fn lemma_written_cell(batch: BoundBatchView, bytes: Seq<u8>, row: int, column: int)
    requires
        bytes.len() == batch.payload().bytes.len(),
        0 <= row < batch.row_count,
        0 <= column < batch.column_count(),
    ensures
        ({
            let after = splice(
                bytes,
                cell_start(batch, row, column),
                batch.bytes_at(row, column),
            );
            &&& keeps_agreement(bytes, after, batch.payload().bytes)
            &&& holds_cell(batch, after, row, column)
        }),
{
    let target = batch.payload().bytes;
    law_payload_holds_cells(batch, row, column);
    let start = cell_start(batch, row, column);
    let part = batch.bytes_at(row, column);
    let after = splice(bytes, start, part);
    assert forall|i: int| start <= i < start + part.len() implies #[trigger] after[i]
        == target[i] by {
        assert(target.subrange(start, start + part.len())[i - start] == part[i - start]);
    }
}

/// Whether a buffer holds every ROW token.
pub open spec fn holds_tokens(batch: BoundBatchView, bytes: Seq<u8>) -> bool {
    forall|row: int|
        0 <= row < batch.row_count ==> bytes[#[trigger] row_start(batch, row)] == TDS_ROW_TOKEN
}

/// Whether a buffer holds the cells of the columns before a column, and of the column itself
/// those of the rows before a row.
pub open spec fn holds_cells(batch: BoundBatchView, bytes: Seq<u8>, column: int, row: int) -> bool {
    forall|r: int, c: int|
        0 <= r < batch.row_count && 0 <= c && (c < column || c == column && r < row)
            ==> #[trigger] holds_cell(batch, bytes, r, c)
}

/// What agrees with the payload before a write does so after it.
pub proof fn lemma_agreement_kept(
    batch: BoundBatchView,
    before: Seq<u8>,
    after: Seq<u8>,
    column: int,
    row: int,
)
    requires
        keeps_agreement(before, after, batch.payload().bytes),
        0 <= column <= batch.column_count(),
        column < batch.column_count() || row <= 0,
        holds_tokens(batch, before),
        holds_cells(batch, before, column, row),
    ensures
        holds_tokens(batch, after),
        holds_cells(batch, after, column, row),
{
    assert forall|r: int| 0 <= r < batch.row_count implies after[#[trigger] row_start(batch, r)]
        == TDS_ROW_TOKEN by {
        law_payload_holds_cells(batch, r, 0);
    }
    assert forall|r: int, c: int|
        0 <= r < batch.row_count && 0 <= c && (c < column || c == column && r
            < row) implies #[trigger] holds_cell(batch, after, r, c) by {
        assert(holds_cell(batch, before, r, c));
        law_payload_holds_cells(batch, r, c);
    }
}

/// A row-token offset of a payload is where a row starts.
proof fn lemma_payload_offset(batch: BoundBatchView, row: int)
    requires
        0 <= row < batch.row_count,
        batch.rows_bytes(batch.row_count as int).len() <= usize::MAX,
    ensures
        batch.payload().row_token_offsets[row] == row_start(batch, row),
        row_start(batch, row) < batch.payload().bytes.len(),
{
    law_payload_holds_cells(batch, row, 0);
}

/// Encodes a batch of fixed-width columns without a layout of its cells.
///
/// Returns `Ok(None)` when a column needs the general path.
pub fn try_encode_fixed_width_rows(bound: &BoundDirectBatch<'_>) -> (result: Result<
    Option<EncodedRowsPayload>,
>)
    ensures
        is_optional_payload(result, fixed_width_outcome(bound@)),
{
    if !columns_have_fixed_width(bound) {
        return Ok(None);
    }
    let ghost batch = bound@;
    proof {
        use_type_invariant(bound);
        law_first_error_is_column_major(batch);
    }
    let columns = bound.columns();
    let row_count: usize = bound.row_count();
    match row_count.checked_mul(columns.len()) {
        Some(_) => {},
        None => {
            return Err(invalid_payload(Fault::CellCountOverflow));
        },
    }
    let layout = match measure_fixed_width_rows(bound) {
        Ok(layout) => layout,
        Err(error) => {
            return Err(error);
        },
    };
    let FixedWidthRowsLayout { row_token_offsets, mut current_offsets, payload_len } = layout;
    let mut bytes: Vec<u8> = zeros(payload_len);
    proof {
        assert forall|row: int| 0 <= row < batch.row_count implies (
        #[trigger] row_token_offsets@[row]) < payload_len by {
            lemma_payload_offset(batch, row);
        }
    }
    write_row_tokens(&mut bytes, row_token_offsets.as_slice());
    proof {
        assert forall|row: int| 0 <= row < batch.row_count implies bytes@[#[trigger] row_start(
            batch,
            row,
        )] == TDS_ROW_TOKEN by {
            lemma_payload_offset(batch, row);
            assert(row_token_offsets@[row] == row_start(batch, row));
        }
    }
    let mut column_index: usize = 0;
    while column_index < columns.len()
        invariant
            column_index <= columns@.len(),
            batch == bound@,
            is_encodable(batch),
            bound_views(columns@) == batch.columns,
            row_count == batch.row_count,
            bytes@.len() == batch.payload().bytes.len(),
            current_offsets@.len() == row_count,
            forall|r: int|
                0 <= r < row_count ==> #[trigger] current_offsets@[r] == cell_start(
                    batch,
                    r,
                    column_index as int,
                ),
            holds_tokens(batch, bytes@),
            holds_cells(batch, bytes@, column_index as int, 0),
        decreases columns.len() - column_index,
    {
        let column = &columns[column_index];
        assert(batch.columns[column_index as int] == column@);
        let mut row_index: usize = 0;
        while row_index < row_count
            invariant
                row_index <= row_count,
                column_index < columns@.len(),
                batch == bound@,
                is_encodable(batch),
                columns@.len() == batch.columns.len(),
                batch.columns[column_index as int] == column@,
                row_count == batch.row_count,
                bytes@.len() == batch.payload().bytes.len(),
                current_offsets@.len() == row_count,
                forall|r: int|
                    0 <= r < row_count ==> #[trigger] current_offsets@[r] == cell_start(
                        batch,
                        r,
                        if r < row_index {
                            column_index + 1
                        } else {
                            column_index as int
                        },
                    ),
                holds_tokens(batch, bytes@),
                holds_cells(batch, bytes@, column_index as int, row_index as int),
            decreases row_count - row_index,
        {
            let ghost before = bytes@;
            let ghost offsets_before = current_offsets@;
            assert(batch.columns[column_index as int].outcome(row_index as int) is Ok);
            let cell = match column.cell(row_index) {
                Ok(cell) => cell,
                Err(error) => {
                    return Err(error);
                },
            };
            let offset: usize = current_offsets[row_index];
            let len: usize = cell.len();
            let mut part: Vec<u8> = Vec::with_capacity(len);
            cell.append(&mut part);
            proof {
                assert(part@ =~= batch.bytes_at(row_index as int, column_index as int));
                law_payload_holds_cells(batch, row_index as int, column_index as int);
            }
            write_bytes(bytes.as_mut_slice(), offset, part.as_slice());
            current_offsets.set(row_index, offset + len);
            proof {
                lemma_written_cell(batch, before, row_index as int, column_index as int);
                lemma_agreement_kept(
                    batch,
                    before,
                    bytes@,
                    column_index as int,
                    row_index as int,
                );
                assert forall|r: int| 0 <= r < row_count implies #[trigger] current_offsets@[r]
                    == cell_start(
                    batch,
                    r,
                    if r < row_index + 1 {
                        column_index + 1
                    } else {
                        column_index as int
                    },
                ) by {
                    if r != row_index {
                        assert(current_offsets@[r] == offsets_before[r]);
                    }
                }
            }
            row_index += 1;
        }
        column_index += 1;
    }
    proof {
        lemma_holding_all_is_payload(batch, bytes@);
        law_encoded_payload_is_accepted(batch);
    }
    match EncodedRowsPayload::new(bytes, row_token_offsets) {
        Ok(payload) => Ok(Some(payload)),
        Err(error) => Err(error),
    }
}

} // verus!
