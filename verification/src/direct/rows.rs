//! Row-major lengths, offsets and buffers of direct encoded rows.

use vstd::arithmetic::div_mod::lemma_fundamental_div_mod_converse;
use vstd::prelude::*;

use crate::diagnostic::{invalid_payload, outcome, payload_error, ErrorView, Result};
use crate::direct::layout::{
    cells_inside, law_cells_accepted_iff_inside, law_rows_accepted_iff_tiling, layout_fault,
    rows_tile, CellPosition, RowLayout, RowLayoutView,
};
use crate::direct::payload::TDS_ROW_TOKEN;
use crate::message::Fault;

verus! {

/// Length of the token that starts a row.
pub const ROW_TOKEN_LEN: usize = 1;

/// Index of a cell in row-major order.
pub open spec fn cell_index(column_count: int, row: int, column: int) -> int {
    row * column_count + column
}

/// Bytes of the first cells of a row.
pub open spec fn cells_len(lengths: Seq<usize>, column_count: int, row: int, count: int) -> int
    decreases count,
{
    if count <= 0 {
        0
    } else {
        cells_len(lengths, column_count, row, count - 1) + lengths[cell_index(
            column_count,
            row,
            count - 1,
        )]
    }
}

/// Bytes of a row: its token and its cells.
pub open spec fn row_len(lengths: Seq<usize>, column_count: int, row: int) -> int {
    ROW_TOKEN_LEN + cells_len(lengths, column_count, row, column_count)
}

/// Bytes of consecutive rows.
pub open spec fn rows_len(lengths: Seq<usize>, column_count: int, start: int, count: int) -> int
    decreases count,
{
    if count <= 0 {
        0
    } else {
        rows_len(lengths, column_count, start, count - 1) + row_len(
            lengths,
            column_count,
            start + count - 1,
        )
    }
}

/// Where a cell stands in a payload of consecutive rows.
pub open spec fn row_major_cell(
    lengths: Seq<usize>,
    column_count: int,
    start: int,
    row: int,
    column: int,
) -> CellPosition {
    CellPosition {
        row_index: row as usize,
        column_index: column as usize,
        offset: (rows_len(lengths, column_count, start, row) + ROW_TOKEN_LEN + cells_len(
            lengths,
            column_count,
            start + row,
            column,
        )) as usize,
        len: lengths[cell_index(column_count, start + row, column)],
    }
}

/// The layout of consecutive rows, cells in row-major order.
pub open spec fn row_major_layout(
    lengths: Seq<usize>,
    column_count: int,
    start: int,
    count: int,
) -> RowLayoutView {
    RowLayoutView {
        row_token_offsets: Seq::new(
            count as nat,
            |row: int| rows_len(lengths, column_count, start, row) as usize,
        ),
        row_lengths: Seq::new(
            count as nat,
            |row: int| row_len(lengths, column_count, start + row) as usize,
        ),
        cell_positions: Seq::new(
            (count * column_count) as nat,
            |index: int|
                row_major_cell(
                    lengths,
                    column_count,
                    start,
                    index / column_count,
                    index % column_count,
                ),
        ),
        payload_len: rows_len(lengths, column_count, start, count) as usize,
    }
}

/// The outcome of laying out consecutive rows.
pub open spec fn range_layout_outcome(
    lengths: Seq<usize>,
    column_count: usize,
    start: usize,
    count: usize,
) -> core::result::Result<RowLayoutView, ErrorView> {
    if start + count > usize::MAX {
        Err(payload_error(Fault::RangeEndOverflow))
    } else if rows_len(lengths, column_count as int, start as int, count as int) > usize::MAX {
        Err(payload_error(Fault::PrimitiveLengthOverflow))
    } else {
        Ok(row_major_layout(lengths, column_count as int, start as int, count as int))
    }
}

/// Cells only add to a row.
pub proof fn lemma_cells_len_monotone(
    lengths: Seq<usize>,
    column_count: int,
    row: int,
    low: int,
    high: int,
)
    requires
        low <= high,
    ensures
        0 <= cells_len(lengths, column_count, row, low) <= cells_len(
            lengths,
            column_count,
            row,
            high,
        ),
    decreases high,
{
    if high > 0 {
        if low < high {
            lemma_cells_len_monotone(lengths, column_count, row, low, high - 1);
        } else {
            lemma_cells_len_monotone(lengths, column_count, row, low - 1, high - 1);
        }
    }
}

/// Rows only add to a payload.
pub proof fn lemma_rows_len_monotone(
    lengths: Seq<usize>,
    column_count: int,
    start: int,
    low: int,
    high: int,
)
    requires
        low <= high,
    ensures
        0 <= rows_len(lengths, column_count, start, low) <= rows_len(
            lengths,
            column_count,
            start,
            high,
        ),
    decreases high,
{
    if high > 0 {
        lemma_cells_len_monotone(
            lengths,
            column_count,
            start + high - 1,
            column_count,
            column_count,
        );
        if low < high {
            lemma_rows_len_monotone(lengths, column_count, start, low, high - 1);
        } else {
            lemma_rows_len_monotone(lengths, column_count, start, low - 1, high - 1);
        }
    }
}

/// A row's cells start after its token and end before the next row.
pub proof fn lemma_cell_end(
    lengths: Seq<usize>,
    column_count: int,
    start: int,
    count: int,
    row: int,
    column: int,
)
    requires
        0 <= row < count,
        0 <= column <= column_count,
    ensures
        0 <= rows_len(lengths, column_count, start, row),
        0 <= cells_len(lengths, column_count, start + row, column),
        rows_len(lengths, column_count, start, row) + ROW_TOKEN_LEN + cells_len(
            lengths,
            column_count,
            start + row,
            column,
        ) <= rows_len(lengths, column_count, start, row + 1) <= rows_len(
            lengths,
            column_count,
            start,
            count,
        ),
{
    lemma_rows_len_monotone(lengths, column_count, start, 0, row);
    lemma_rows_len_monotone(lengths, column_count, start, row + 1, count);
    lemma_cells_len_monotone(lengths, column_count, start + row, 0, column);
    lemma_cells_len_monotone(lengths, column_count, start + row, column, column_count);
}

/// Cells of earlier rows, and of earlier columns, come first in row-major order.
pub proof fn lemma_cell_index(column_count: int, row_count: int, row: int, column: int)
    requires
        0 <= row < row_count,
        0 <= column < column_count,
    ensures
        0 <= row * column_count,
        0 <= cell_index(column_count, row, column) < row_count * column_count,
        (row + 1) * column_count == row * column_count + column_count,
        (row + 1) * column_count <= row_count * column_count,
        cell_index(column_count, row, column) / column_count == row,
        cell_index(column_count, row, column) % column_count == column,
{
    assert(0 <= row * column_count) by (nonlinear_arith)
        requires
            0 <= row,
            0 <= column_count,
    ;
    assert((row + 1) * column_count == row * column_count + column_count) by (nonlinear_arith);
    assert((row + 1) * column_count <= row_count * column_count) by (nonlinear_arith)
        requires
            row + 1 <= row_count,
            0 <= column_count,
    ;
    lemma_fundamental_div_mod_converse(
        cell_index(column_count, row, column),
        column_count,
        row,
        column,
    );
}

/// The row and the column of a row-major index.
pub proof fn lemma_cell_of_index(column_count: int, row_count: int, index: int)
    requires
        0 <= index < row_count * column_count,
        0 <= column_count,
    ensures
        0 < column_count,
        0 <= index / column_count < row_count,
        0 <= index % column_count < column_count,
        index == cell_index(column_count, index / column_count, index % column_count),
{
    assert(0 < column_count) by (nonlinear_arith)
        requires
            0 < row_count * column_count,
            0 <= column_count,
    ;
    assert(0 <= index / column_count < row_count && 0 <= index % column_count < column_count
        && index == (index / column_count) * column_count + index % column_count)
        by (nonlinear_arith)
        requires
            0 <= index < row_count * column_count,
            0 < column_count,
    ;
}

/// Rows laid out one after another tile their payload, and their cells lie inside it.
pub proof fn law_row_major_layout_is_accepted(
    lengths: Seq<usize>,
    column_count: usize,
    start: int,
    count: usize,
)
    requires
        rows_len(lengths, column_count as int, start, count as int) <= usize::MAX,
    ensures
        layout_fault(row_major_layout(lengths, column_count as int, start, count as int)) is None,
{
    let columns = column_count as int;
    let rows = count as int;
    let layout = row_major_layout(lengths, columns, start, rows);
    let offsets = layout.row_token_offsets;
    assert forall|i: int| 0 <= i < rows implies #[trigger] offsets[i] == rows_len(
        lengths,
        columns,
        start,
        i,
    ) && layout.row_lengths[i] == row_len(lengths, columns, start + i) && offsets[i]
        + layout.row_lengths[i] == rows_len(lengths, columns, start, i + 1) && rows_len(
        lengths,
        columns,
        start,
        i + 1,
    ) <= layout.payload_len by {
        lemma_cell_end(lengths, columns, start, rows, i, columns);
    }
    assert(rows_tile(offsets, layout.row_lengths, layout.payload_len)) by {
        assert forall|i: int|
            #![trigger offsets[i]]
            0 <= i < rows - 1 implies offsets[i] + layout.row_lengths[i] == offsets[i + 1] by {}
        assert forall|i: int|
            #![trigger layout.row_lengths[i]]
            0 <= i < rows implies offsets[i] + layout.row_lengths[i] <= layout.payload_len by {}
        lemma_rows_len_monotone(lengths, columns, start, 0, rows);
    }
    law_rows_accepted_iff_tiling(offsets, layout.row_lengths, layout.payload_len);
    assert(cells_inside(layout.cell_positions, count, layout.payload_len)) by {
        assert forall|i: int| 0 <= i < layout.cell_positions.len() implies (
        #[trigger] layout.cell_positions[i]).row_index < count && layout.cell_positions[i].offset
            + layout.cell_positions[i].len <= layout.payload_len by {
            lemma_cell_of_index(columns, rows, i);
            lemma_cell_end(lengths, columns, start, rows, i / columns, i % columns);
            lemma_cell_end(lengths, columns, start, rows, i / columns, i % columns + 1);
        }
    }
    law_cells_accepted_iff_inside(layout.cell_positions, count, layout.payload_len);
}

/// Adds two lengths.
pub fn checked_add(lhs: usize, rhs: usize) -> (result: Result<usize>)
    ensures
        outcome(result) == (if lhs + rhs > usize::MAX {
            Err(payload_error(Fault::PrimitiveLengthOverflow))
        } else {
            Ok((lhs + rhs) as usize)
        }),
{
    match lhs.checked_add(rhs) {
        Some(sum) => Ok(sum),
        None => Err(invalid_payload(Fault::PrimitiveLengthOverflow)),
    }
}

/// Lays out all rows from a row-major matrix of cell lengths.
pub fn build_fixed_width_row_layout(row_count: usize, column_count: usize, cell_lengths: &[usize])
    -> (result: Result<RowLayout>)
    requires
        row_count * column_count <= cell_lengths@.len(),
    ensures
        layout_result(
            result,
            range_layout_outcome(cell_lengths@, column_count, 0, row_count),
        ),
{
    build_fixed_width_row_range_layout(0, row_count, column_count, cell_lengths)
}

/// Whether a layout, or the error in its place, is as expected.
pub open spec fn layout_result(
    result: Result<RowLayout>,
    expected: core::result::Result<RowLayoutView, ErrorView>,
) -> bool {
    match expected {
        Ok(layout) => result matches Ok(found) && found@ == layout,
        Err(view) => result matches Err(error) && error@ == view,
    }
}

/// Lays out consecutive rows from a row-major matrix of cell lengths.
#[verifier::rlimit(30)]
pub fn build_fixed_width_row_range_layout(
    start_row: usize,
    row_count: usize,
    column_count: usize,
    cell_lengths: &[usize],
) -> (result: Result<RowLayout>)
    requires
        start_row + row_count <= usize::MAX ==> (start_row + row_count) * column_count
            <= cell_lengths@.len(),
    ensures
        layout_result(
            result,
            range_layout_outcome(cell_lengths@, column_count, start_row, row_count),
        ),
{
    let end_row: usize = match start_row.checked_add(row_count) {
        Some(end_row) => end_row,
        None => {
            return Err(invalid_payload(Fault::RangeEndOverflow));
        },
    };
    let ghost columns = column_count as int;
    let ghost start = start_row as int;
    let ghost rows = row_count as int;
    let ghost lengths = cell_lengths@;
    let matrix_len: usize = cell_lengths.len();
    let mut row_token_offsets: Vec<usize> = Vec::new();
    let mut row_lengths: Vec<usize> = Vec::new();
    let mut cell_positions: Vec<CellPosition> = Vec::new();
    let mut offset: usize = 0;
    let mut row_index: usize = start_row;
    while row_index < end_row
        invariant
            start_row <= row_index <= end_row,
            end_row == start_row + row_count,
            columns == column_count,
            start == start_row,
            rows == row_count,
            lengths == cell_lengths@,
            end_row * column_count <= matrix_len,
            matrix_len == lengths.len(),
            offset == rows_len(lengths, columns, start, row_index - start),
            row_token_offsets@ == row_major_layout(
                lengths,
                columns,
                start,
                row_index - start,
            ).row_token_offsets,
            row_lengths@ == row_major_layout(
                lengths,
                columns,
                start,
                row_index - start,
            ).row_lengths,
            cell_positions@ == row_major_layout(
                lengths,
                columns,
                start,
                row_index - start,
            ).cell_positions,
        decreases end_row - row_index,
    {
        let ghost row = row_index - start;
        let row_offset: usize = offset;
        row_token_offsets.push(row_offset);
        proof {
            lemma_cell_end(lengths, columns, start, rows, row, 0);
            assert(start + row == row_index);
        }
        offset = match checked_add(offset, ROW_TOKEN_LEN) {
            Ok(offset) => offset,
            Err(error) => {
                return Err(error);
            },
        };
        let mut column_index: usize = 0;
        proof {
            assert(row * columns >= 0) by (nonlinear_arith)
                requires
                    row >= 0,
                    columns >= 0,
            ;
        }
        while column_index < column_count
            invariant
                column_index <= column_count,
                start_row <= row_index < end_row,
                end_row == start_row + row_count,
                columns == column_count,
                start == start_row,
                rows == row_count,
                row == row_index - start,
                lengths == cell_lengths@,
                end_row * column_count <= matrix_len,
                matrix_len == lengths.len(),
                offset == rows_len(lengths, columns, start, row) + ROW_TOKEN_LEN + cells_len(
                    lengths,
                    columns,
                    start + row,
                    column_index as int,
                ),
                cell_positions@.len() == row * columns + column_index,
                row * columns >= 0,
                forall|k: int|
                    0 <= k < cell_positions@.len() ==> #[trigger] cell_positions@[k]
                        == row_major_cell(lengths, columns, start, k / columns, k % columns),
            decreases column_count - column_index,
        {
            proof {
                lemma_cell_index(columns, end_row as int, row_index as int, column_index as int);
                lemma_cell_index(columns, rows, row, column_index as int);
                lemma_cell_end(lengths, columns, start, rows, row, column_index + 1);
            }
            let cell_len: usize = cell_lengths[row_index * column_count + column_index];
            cell_positions.push(
                CellPosition::new(row_index - start_row, column_index, offset, cell_len),
            );
            offset = match checked_add(offset, cell_len) {
                Ok(offset) => offset,
                Err(error) => {
                    return Err(error);
                },
            };
            column_index += 1;
        }
        proof {
            lemma_cell_end(lengths, columns, start, rows, row, columns);
            assert((row + 1) * columns == row * columns + columns) by (nonlinear_arith);
        }
        row_lengths.push(offset - row_offset);
        row_index += 1;
        proof {
            let next = row_major_layout(lengths, columns, start, row + 1);
            assert(row_token_offsets@ =~= next.row_token_offsets);
            assert(row_lengths@ =~= next.row_lengths);
            assert(cell_positions@ =~= next.cell_positions);
        }
    }
    proof {
        law_row_major_layout_is_accepted(lengths, column_count, start, row_count);
        assert(row_index - start == rows);
    }
    RowLayout::new(row_token_offsets, row_lengths, cell_positions, offset)
}

/// A zero-filled payload with a ROW token at every offset.
pub open spec fn rows_with_tokens(layout: RowLayoutView) -> Seq<u8> {
    Seq::new(
        layout.payload_len as nat,
        |index: int|
            if layout.row_token_offsets.contains(index as usize) {
                TDS_ROW_TOKEN
            } else {
                0
            },
    )
}

/// Allocates a complete payload buffer and writes every row token.
///
/// The measured layout already knows where each row starts inside the payload. Later fill steps
/// write encoded cell bytes into the remaining positions.
pub fn allocate_rows_payload_with_tokens(layout: &RowLayout) -> (bytes: Vec<u8>)
    requires
        forall|row: int|
            0 <= row < layout@.row_token_offsets.len() ==> #[trigger] layout@.row_token_offsets[row]
                < layout@.payload_len,
    ensures
        bytes@ == rows_with_tokens(layout@),
{
    let payload_len: usize = layout.payload_len();
    let mut bytes: Vec<u8> = zeros(payload_len);
    let offsets: &[usize] = layout.row_token_offsets();
    let mut row: usize = 0;
    while row < offsets.len()
        invariant
            row <= offsets@.len(),
            payload_len == layout@.payload_len,
            offsets@ == layout@.row_token_offsets,
            bytes@.len() == payload_len,
            forall|i: int|
                0 <= i < layout@.row_token_offsets.len() ==> #[trigger]
                layout@.row_token_offsets[i] < payload_len,
            forall|i: int|
                0 <= i < payload_len ==> #[trigger] bytes@[i] == (if offsets@.take(
                    row as int,
                ).contains(i as usize) {
                    TDS_ROW_TOKEN
                } else {
                    0
                }),
        decreases offsets.len() - row,
    {
        let ghost before = bytes@;
        let offset: usize = offsets[row];
        proof {
            assert(layout@.row_token_offsets[row as int] == offset);
        }
        bytes.set(offset, TDS_ROW_TOKEN);
        proof {
            let earlier = offsets@.take(row as int);
            let later = offsets@.take(row + 1);
            assert(later =~= earlier.push(offset));
            assert forall|i: int| 0 <= i < payload_len implies #[trigger] bytes@[i] == (
            if later.contains(i as usize) {
                TDS_ROW_TOKEN
            } else {
                0
            }) by {
                if i == offset {
                    assert(later[row as int] == i as usize);
                } else {
                    assert(bytes@[i] == before[i]);
                    if earlier.contains(i as usize) {
                        let k = choose|k: int|
                            0 <= k < earlier.len() && earlier[k] == i as usize;
                        assert(later[k] == i as usize);
                    }
                    if later.contains(i as usize) {
                        let k = choose|k: int| 0 <= k < later.len() && later[k] == i as usize;
                        assert(earlier[k] == i as usize);
                    }
                }
            }
        }
        row += 1;
    }
    assert(offsets@.take(offsets@.len() as int) =~= offsets@);
    assert(bytes@ =~= rows_with_tokens(layout@));
    bytes
}

/// Writes a ROW token at every row offset.
pub fn write_row_tokens(bytes: &mut Vec<u8>, row_token_offsets: &[usize])
    requires
        forall|row: int|
            0 <= row < row_token_offsets@.len() ==> #[trigger] row_token_offsets@[row]
                < old(bytes)@.len(),
    ensures
        final(bytes)@.len() == old(bytes)@.len(),
        forall|row: int|
            0 <= row < row_token_offsets@.len()
                ==> final(bytes)@[#[trigger] row_token_offsets@[row] as int] == TDS_ROW_TOKEN,
{
    let mut row: usize = 0;
    while row < row_token_offsets.len()
        invariant
            row <= row_token_offsets@.len(),
            bytes@.len() == old(bytes)@.len(),
            forall|r: int|
                0 <= r < row_token_offsets@.len() ==> #[trigger] row_token_offsets@[r]
                    < bytes@.len(),
            forall|r: int|
                0 <= r < row ==> bytes@[#[trigger] row_token_offsets@[r] as int] == TDS_ROW_TOKEN,
        decreases row_token_offsets.len() - row,
    {
        bytes.set(row_token_offsets[row], TDS_ROW_TOKEN);
        row += 1;
    }
}

/// Allocates a zero-filled buffer.
pub fn zeros(len: usize) -> (bytes: Vec<u8>)
    ensures
        bytes@ == Seq::new(len as nat, |i: int| 0u8),
{
    let mut bytes: Vec<u8> = Vec::with_capacity(len);
    let mut count: usize = 0;
    while count < len
        invariant
            count <= len,
            bytes@ == Seq::new(count as nat, |i: int| 0u8),
        decreases len - count,
    {
        bytes.push(0);
        count += 1;
        assert(bytes@ =~= Seq::new(count as nat, |i: int| 0u8));
    }
    bytes
}

/// The outcome of finding a cell of a layout by row and column.
pub open spec fn cell_position_outcome(
    cells: Seq<CellPosition>,
    row: usize,
    column: usize,
    column_count: usize,
) -> core::result::Result<CellPosition, ErrorView> {
    let index = cell_index(column_count as int, row as int, column as int);
    if index > usize::MAX {
        Err(payload_error(Fault::CellIndexOverflow))
    } else if index >= cells.len() {
        Err(payload_error(Fault::CellMissing))
    } else {
        Ok(cells[index])
    }
}

/// Finds a cell of a layout by row and column.
pub fn cell_position(
    layout: &RowLayout,
    row_index: usize,
    column_index: usize,
    column_count: usize,
) -> (result: Result<CellPosition>)
    ensures
        outcome(result) == cell_position_outcome(
            layout@.cell_positions,
            row_index,
            column_index,
            column_count,
        ),
{
    let base: usize = match row_index.checked_mul(column_count) {
        Some(base) => base,
        None => {
            return Err(invalid_payload(Fault::CellIndexOverflow));
        },
    };
    let index: usize = match base.checked_add(column_index) {
        Some(index) => index,
        None => {
            return Err(invalid_payload(Fault::CellIndexOverflow));
        },
    };
    let cells: &[CellPosition] = layout.cell_positions();
    if index >= cells.len() {
        return Err(invalid_payload(Fault::CellMissing));
    }
    Ok(cells[index])
}

} // verus!
