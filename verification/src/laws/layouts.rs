//! Laws of measurements, layouts and payloads.

use vstd::prelude::*;

use crate::direct::layout::{
    law_cells_accepted_iff_inside, law_rows_accepted_iff_tiling, layout_fault, rows_fault,
    CellPosition, RowLayoutView,
};
use crate::direct::measure::{
    is_row_partition, law_measured_iff_payload_fits, measurement_fault, range_fault,
    range_is_full, MeasuredRowRange, MeasuredView,
};
use crate::direct::payload::{
    law_payload_accepted_iff_tokens_in_place, payload_fault, PayloadView,
};
use crate::direct::rows::{
    cell_position_outcome, cells_len, range_layout_outcome, row_len, rows_len, rows_with_tokens,
};

verus! {

/// The sum of some of a sequence of lengths.
pub open spec fn sum(lengths: Seq<usize>, from: int, to: int) -> int
    decreases to - from,
{
    if to <= from {
        0
    } else {
        sum(lengths, from, to - 1) + lengths[to - 1]
    }
}

/// Sums of adjacent parts add up.
proof fn lemma_sum(lengths: Seq<usize>, from: int, middle: int, to: int)
    requires
        from <= middle <= to,
    ensures
        sum(lengths, from, to) == sum(lengths, from, middle) + sum(lengths, middle, to),
    decreases to - middle,
{
    if middle < to {
        lemma_sum(lengths, from, middle, to - 1);
    }
}

/// The bytes of the first cells of a row.
proof fn lemma_cells(lengths: Seq<usize>, columns: int, row: int, count: int)
    requires
        0 <= count,
    ensures
        cells_len(lengths, columns, row, count) == sum(
            lengths,
            row * columns,
            row * columns + count,
        ),
    decreases count,
{
    if count > 0 {
        lemma_cells(lengths, columns, row, count - 1);
    }
}

/// The bytes of some rows are one token each and the lengths of their cells.
pub proof fn law_rows_take_their_cells_and_tokens(
    lengths: Seq<usize>,
    columns: int,
    start: int,
    count: int,
)
    requires
        0 <= columns,
        0 <= count,
    ensures
        rows_len(lengths, columns, start, count) == count + sum(
            lengths,
            start * columns,
            (start + count) * columns,
        ),
    decreases count,
{
    if count > 0 {
        law_rows_take_their_cells_and_tokens(lengths, columns, start, count - 1);
        let last = start + count - 1;
        lemma_cells(lengths, columns, last, columns);
        assert(start * columns <= last * columns && last * columns + columns == (start + count)
            * columns) by (nonlinear_arith)
            requires
                0 <= columns,
                0 < count,
                last == start + count - 1,
        ;
        lemma_sum(lengths, start * columns, last * columns, (start + count) * columns);
    } else {
        assert((start + 0) * columns == start * columns);
    }
}

/// The bytes of some rows of a measurement.
pub open spec fn measured_bytes(batch: MeasuredView, start: int, count: int) -> int {
    count + sum(
        batch.cell_lengths,
        start * batch.column_count,
        (start + count) * batch.column_count,
    )
}

/// A measurement counts one token per row and the lengths of the cells.
pub proof fn law_measurements_count_cells_and_tokens(batch: MeasuredView, start: int, count: int)
    requires
        0 <= count,
    ensures
        batch.range_len(start, count) == measured_bytes(batch, start, count),
        batch.total_len() == measured_bytes(batch, 0, batch.row_count as int),
{
    law_rows_take_their_cells_and_tokens(
        batch.cell_lengths,
        batch.column_count as int,
        start,
        count,
    );
    law_rows_take_their_cells_and_tokens(
        batch.cell_lengths,
        batch.column_count as int,
        0,
        batch.row_count as int,
    );
}

/// A matrix of cell lengths is a measurement exactly when it has one length per cell and memory
/// can hold the bytes of all rows.
pub proof fn law_measurements_have_one_length_per_cell(batch: MeasuredView)
    ensures
        measurement_fault(batch) is None <==> batch.row_count * batch.column_count <= usize::MAX
            && batch.cell_lengths.len() == batch.row_count * batch.column_count && measured_bytes(
            batch,
            0,
            batch.row_count as int,
        ) <= usize::MAX,
{
    law_measurements_count_cells_and_tokens(batch, 0, batch.row_count as int);
    if batch.row_count * batch.column_count <= usize::MAX && batch.cell_lengths.len()
        == batch.row_count * batch.column_count {
        law_measured_iff_payload_fits(batch);
    }
}

/// Some rows are measured exactly when they are rows of the measurement.
pub proof fn law_measured_rows_lie_inside(batch: MeasuredView, start: usize, count: usize)
    ensures
        range_fault(batch, start, count) is None <==> start + count <= batch.row_count,
{
}

/// Row ranges split the rows in order and without a gap. Each holds a row at least; it stays within
/// the limit unless it is a single row; and the row behind it would not have fitted.
pub proof fn law_row_ranges_split_the_rows(
    batch: MeasuredView,
    limit: usize,
    ranges: Seq<MeasuredRowRange>,
)
    requires
        is_row_partition(batch, limit, ranges),
    ensures
        batch.row_count == 0 <==> ranges.len() == 0,
        ranges.len() > 0 ==> ranges[0].start == 0,
        ranges.len() > 0 ==> ranges[ranges.len() - 1].start + ranges[ranges.len() - 1].len
            == batch.row_count,
        forall|i: int|
            #![trigger ranges[i]]
            0 <= i < ranges.len() ==> {
                &&& ranges[i].len > 0
                &&& ranges[i].len > 1 ==> measured_bytes(
                    batch,
                    ranges[i].start as int,
                    ranges[i].len as int,
                ) <= limit
                &&& i + 1 < ranges.len() ==> ranges[i + 1].start == ranges[i].start + ranges[i].len
                &&& i + 1 < ranges.len() ==> measured_bytes(
                    batch,
                    ranges[i].start as int,
                    ranges[i].len + 1,
                ) > limit
            },
{
    assert forall|i: int|
        #![trigger ranges[i]]
        0 <= i < ranges.len() implies {
        &&& ranges[i].len > 0
        &&& ranges[i].len > 1 ==> measured_bytes(
            batch,
            ranges[i].start as int,
            ranges[i].len as int,
        ) <= limit
        &&& i + 1 < ranges.len() ==> ranges[i + 1].start == ranges[i].start + ranges[i].len
        &&& i + 1 < ranges.len() ==> measured_bytes(
            batch,
            ranges[i].start as int,
            ranges[i].len + 1,
        ) > limit
    } by {
        assert(range_is_full(batch, limit, ranges, i));
        law_measurements_count_cells_and_tokens(
            batch,
            ranges[i].start as int,
            ranges[i].len as int,
        );
        law_measurements_count_cells_and_tokens(batch, ranges[i].start as int, ranges[i].len + 1);
    }
}

/// The bytes of some rows: a token each, and the lengths of their cells.
pub open spec fn bytes_of_rows(lengths: Seq<usize>, columns: int, start: int, count: int) -> int {
    count + sum(lengths, start * columns, (start + count) * columns)
}

/// The layout of some rows: each starts behind the rows before it, and each of its cells behind its
/// token and the cells before it, with the measured length.
pub proof fn law_layouts_place_rows_and_cells(
    lengths: Seq<usize>,
    columns: usize,
    start: usize,
    count: usize,
)
    requires
        start + count <= usize::MAX,
        count * columns <= usize::MAX,
    ensures
        ({
            let found = range_layout_outcome(lengths, columns, start, count);
            &&& found is Ok <==> bytes_of_rows(lengths, columns as int, start as int, count as int)
                <= usize::MAX
            &&& found matches Ok(layout) ==> {
                &&& layout.payload_len == bytes_of_rows(
                    lengths,
                    columns as int,
                    start as int,
                    count as int,
                )
                &&& layout.row_token_offsets.len() == count
                &&& layout.row_lengths.len() == count
                &&& layout.cell_positions.len() == count * columns
                &&& forall|row: int|
                    #![trigger layout.row_token_offsets[row]]
                    0 <= row < count ==> layout.row_token_offsets[row] == bytes_of_rows(
                        lengths,
                        columns as int,
                        start as int,
                        row,
                    )
                        && layout.row_lengths[row] == 1 + sum(
                        lengths,
                        (start + row) * columns,
                        (start + row + 1) * columns,
                    )
                &&& forall|row: int, column: int|
                    0 <= row < count && 0 <= column < columns ==> #[trigger] is_placed(
                        layout.cell_positions[row * columns + column],
                        lengths,
                        columns as int,
                        start as int,
                        row,
                        column,
                    )
            }
        }),
{
    let c = columns as int;
    let s = start as int;
    let n = count as int;
    law_rows_take_their_cells_and_tokens(lengths, c, s, n);
    crate::direct::rows::lemma_rows_len_monotone(lengths, c, s, 0, n);
    assert(0 <= n * c) by (nonlinear_arith)
        requires
            0 <= n,
            0 <= c,
    ;
    if let Ok(layout) = range_layout_outcome(lengths, columns, start, count) {
        assert forall|row: int|
            #![trigger layout.row_token_offsets[row]]
            0 <= row < count implies layout.row_token_offsets[row] == row + sum(
            lengths,
            s * c,
            (s + row) * c,
        ) && layout.row_lengths[row] == 1 + sum(
            lengths,
            (s + row) * c,
            (s + row + 1) * c,
        ) by {
            lemma_row_inside(lengths, c, s, n, row, c);
        }
        assert forall|row: int, column: int|
            0 <= row < count && 0 <= column < columns implies #[trigger] is_placed(
            layout.cell_positions[row * columns + column],
            lengths,
            columns as int,
            start as int,
            row,
            column,
        ) by {
            lemma_row_inside(lengths, c, s, n, row, column);
            crate::direct::rows::lemma_cell_index(c, n, row, column);
            vstd::arithmetic::div_mod::lemma_fundamental_div_mod_converse(
                row * c + column,
                c,
                row,
                column,
            );
            assert((s + row) * c == s * c + row * c) by (nonlinear_arith);
        }
    }
}

/// Whether a cell stands where its row and column put it.
pub open spec fn is_placed(
    cell: CellPosition,
    lengths: Seq<usize>,
    columns: int,
    start: int,
    row: int,
    column: int,
) -> bool {
    &&& cell.row_index == row
    &&& cell.column_index == column
    &&& cell.len == lengths[(start + row) * columns + column]
    &&& cell.offset == row + sum(lengths, start * columns, (start + row) * columns) + 1 + sum(
        lengths,
        (start + row) * columns,
        (start + row) * columns + column,
    )
}

/// The places of a row and of its cells, none of them past the end.
proof fn lemma_row_inside(
    lengths: Seq<usize>,
    columns: int,
    start: int,
    count: int,
    row: int,
    column: int,
)
    requires
        0 <= row < count,
        0 <= column <= columns,
        rows_len(lengths, columns, start, count) <= usize::MAX,
    ensures
        rows_len(lengths, columns, start, row) == row + sum(
            lengths,
            start * columns,
            (start + row) * columns,
        ),
        row_len(lengths, columns, start + row) == 1 + sum(
            lengths,
            (start + row) * columns,
            (start + row + 1) * columns,
        ),
        cells_len(lengths, columns, start + row, column) == sum(
            lengths,
            (start + row) * columns,
            (start + row) * columns + column,
        ),
        0 <= rows_len(lengths, columns, start, row),
        0 <= cells_len(lengths, columns, start + row, column),
        row_len(lengths, columns, start + row) <= usize::MAX,
        rows_len(lengths, columns, start, row) + 1 + cells_len(
            lengths,
            columns,
            start + row,
            column,
        ) <= usize::MAX,
{
    law_rows_take_their_cells_and_tokens(lengths, columns, start, row);
    lemma_cells(lengths, columns, start + row, columns);
    lemma_cells(lengths, columns, start + row, column);
    assert((start + row + 1) * columns == (start + row) * columns + columns) by (nonlinear_arith);
    crate::direct::rows::lemma_rows_len_monotone(lengths, columns, start, row + 1, count);
    crate::direct::rows::lemma_rows_len_monotone(lengths, columns, start, 0, row);
    crate::direct::rows::lemma_cells_len_monotone(lengths, columns, start + row, column, columns);
    crate::direct::rows::lemma_cells_len_monotone(lengths, columns, start + row, 0, column);
}

/// A cell is found by its row and column, where the layout has it.
pub proof fn law_cells_are_found_by_row_and_column(
    cells: Seq<CellPosition>,
    row: usize,
    column: usize,
    columns: usize,
)
    ensures
        ({
            let index = row * columns + column;
            let found = cell_position_outcome(cells, row, column, columns);
            &&& found is Ok <==> index < cells.len() && index <= usize::MAX
            &&& found matches Ok(cell) ==> cell == cells[index]
        }),
{
}

/// A layout is accepted exactly when its rows follow each other from the start of the payload to
/// its end, and each cell belongs to a row and lies inside the payload.
pub proof fn law_layouts_tile_the_payload(layout: RowLayoutView)
    requires
        layout.row_token_offsets.len() <= usize::MAX,
    ensures
        layout_fault(layout) is None <==> {
            let offsets = layout.row_token_offsets;
            let lengths = layout.row_lengths;
            &&& offsets.len() == lengths.len()
            &&& offsets.len() == 0 ==> layout.payload_len == 0
            &&& offsets.len() > 0 ==> offsets[0] == 0
            &&& forall|i: int|
                #![trigger lengths[i]]
                0 <= i < offsets.len() ==> offsets[i] + lengths[i] == if i + 1 < offsets.len() {
                    offsets[i + 1]
                } else {
                    layout.payload_len
                }
            &&& forall|i: int|
                #![trigger lengths[i]]
                0 <= i < offsets.len() ==> offsets[i] + lengths[i] <= layout.payload_len
            &&& forall|i: int|
                #![trigger layout.cell_positions[i]]
                0 <= i < layout.cell_positions.len() ==> layout.cell_positions[i].row_index
                    < offsets.len() && layout.cell_positions[i].offset
                    + layout.cell_positions[i].len <= layout.payload_len
        },
{
    let offsets = layout.row_token_offsets;
    let lengths = layout.row_lengths;
    law_rows_accepted_iff_tiling(offsets, lengths, layout.payload_len);
    law_cells_accepted_iff_inside(
        layout.cell_positions,
        offsets.len() as usize,
        layout.payload_len,
    );
    if rows_fault(offsets, lengths, layout.payload_len) is None {
        assert forall|i: int|
            #![trigger lengths[i]]
            0 <= i < offsets.len() implies offsets[i] + lengths[i] == if i + 1 < offsets.len() {
            offsets[i + 1]
        } else {
            layout.payload_len
        } by {
            assert(offsets[i] >= 0);
        }
    }
    if forall|i: int|
        #![trigger lengths[i]]
        0 <= i < offsets.len() ==> offsets[i] + lengths[i] == if i + 1 < offsets.len() {
            offsets[i + 1]
        } else {
            layout.payload_len
        } {
        assert forall|i: int|
            #![trigger offsets[i]]
            0 <= i < offsets.len() - 1 implies offsets[i] + lengths[i] == offsets[i + 1] by {
            assert(lengths[i] >= 0);
        }
        if offsets.len() > 0 {
            assert(lengths[lengths.len() - 1] >= 0);
        }
    }
}

/// A payload is accepted exactly when its offsets rise and each points at a token, and no bytes
/// stand without a row.
pub proof fn law_payloads_start_rows_with_tokens(payload: PayloadView)
    ensures
        payload_fault(payload) is None <==> {
            let offsets = payload.row_token_offsets;
            &&& offsets.len() == 0 ==> payload.bytes.len() == 0
            &&& forall|i: int|
                #![trigger offsets[i]]
                0 <= i < offsets.len() ==> offsets[i] < payload.bytes.len()
                    && payload.bytes[offsets[i] as int] == 0xD1
            &&& forall|i: int, j: int|
                0 <= i < j < offsets.len() ==> (#[trigger] offsets[i]) < (#[trigger] offsets[j])
        },
{
    law_payload_accepted_iff_tokens_in_place(payload);
}

/// A fresh payload is all zero but for the tokens.
pub proof fn law_fresh_payloads_hold_tokens(layout: RowLayoutView, index: int)
    requires
        0 <= index < layout.payload_len,
    ensures
        rows_with_tokens(layout).len() == layout.payload_len,
        rows_with_tokens(layout)[index] == 0xD1 || rows_with_tokens(layout)[index] == 0,
        rows_with_tokens(layout)[index] == 0xD1 <==> exists|row: int|
            0 <= row < layout.row_token_offsets.len() && (
            #[trigger] layout.row_token_offsets[row]) == index,
{
    let offsets = layout.row_token_offsets;
    if offsets.contains(index as usize) {
        let row = choose|row: int| 0 <= row < offsets.len() && offsets[row] == index as usize;
        assert(offsets[row] == index);
    }
    if exists|row: int| 0 <= row < offsets.len() && (#[trigger] offsets[row]) == index {
        let row = choose|row: int| 0 <= row < offsets.len() && (#[trigger] offsets[row]) == index;
        assert(offsets[row] == index as usize);
    }
}

} // verus!
