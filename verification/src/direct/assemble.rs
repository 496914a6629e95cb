//! Assembly of row payloads from bound batches.

use vstd::prelude::*;

use crate::diagnostic::{ErrorView, Result};
use crate::direct::binding::BoundColumnView;
use crate::direct::bound::{
    fill_column_from, fill_columns_from, fill_step, BoundDirectBatch,
};
use crate::direct::image::{
    cell_start, law_encoded_payload_is_accepted, law_measured_length_is_encoded_length,
    law_payload_holds_cells, lemma_covered_is_payload, lemma_layout_places, lemma_layout_rows,
    lemma_length_at, row_start, BoundBatchView,
};
use crate::direct::layout::{CellPosition, RowLayout, RowLayoutView};
use crate::direct::payload::{EncodedRowsPayload, PayloadView, TDS_ROW_TOKEN};
use crate::direct::rows::{
    allocate_rows_payload_with_tokens, cell_index, cells_len, lemma_cell_end, lemma_cell_index,
    lemma_cell_of_index, row_major_cell, row_major_layout, rows_len, rows_with_tokens,
};
use crate::direct::wire::splice;

verus! {

/// Whether a buffer agrees with another between two indices.
pub open spec fn agrees_in(bytes: Seq<u8>, target: Seq<u8>, start: int, end: int) -> bool {
    forall|i: int| start <= i < end ==> #[trigger] bytes[i] == target[i]
}

/// Whether a buffer keeps every byte in which another agrees with a target.
pub open spec fn keeps_agreement(before: Seq<u8>, after: Seq<u8>, target: Seq<u8>) -> bool {
    &&& before.len() == target.len()
    &&& after.len() == target.len()
    &&& forall|i: int|
        0 <= i < target.len() && before[i] == target[i] ==> #[trigger] after[i] == target[i]
}

/// Whether a buffer holds a cell as the payload does.
pub open spec fn holds_cell(batch: BoundBatchView, bytes: Seq<u8>, row: int, column: int) -> bool {
    agrees_in(
        bytes,
        batch.payload().bytes,
        cell_start(batch, row, column),
        cell_start(batch, row, column) + batch.bytes_at(row, column).len(),
    )
}

/// Whether a batch can be encoded: every value has a cell, and bytes and cells can be counted.
pub open spec fn is_encodable(batch: BoundBatchView) -> bool {
    &&& batch.well_formed()
    &&& batch.is_convertible()
    &&& batch.row_count * batch.column_count() <= usize::MAX
    &&& batch.rows_bytes(batch.row_count as int).len() <= usize::MAX
}

/// The layout of a batch by its own lengths.
pub open spec fn own_layout(batch: BoundBatchView) -> RowLayoutView {
    row_major_layout(batch.lengths(), batch.column_count(), 0, batch.row_count as int)
}

/// One step of filling a batch by its own layout writes a cell to its place.
proof fn lemma_own_fill_step(batch: BoundBatchView, buffer_len: nat, row: int, column: int)
    requires
        is_encodable(batch),
        buffer_len == batch.payload().bytes.len(),
        0 <= row < batch.row_count,
        0 <= column < batch.column_count(),
    ensures
        fill_step(
            batch.columns[column],
            column as usize,
            batch.columns.len() as usize,
            own_layout(batch),
            buffer_len,
            row,
        ) == Ok::<_, ErrorView>((cell_start(batch, row, column), batch.bytes_at(row, column))),
{
    let columns = batch.column_count();
    let index = cell_index(columns, row, column);
    lemma_cell_index(columns, batch.row_count as int, row, column);
    lemma_layout_places(batch, row, column);
    assert(own_layout(batch).cell_positions[index] == row_major_cell(
        batch.lengths(),
        columns,
        0,
        row,
        column,
    ));
    assert(batch.columns[column].outcome(row) is Ok);
}

/// Filling the rest of a column by the batch's own layout keeps what agrees with the payload and
/// adds the cells.
proof fn lemma_fill_column(batch: BoundBatchView, bytes: Seq<u8>, column: int, row: int)
    requires
        is_encodable(batch),
        bytes.len() == batch.payload().bytes.len(),
        0 <= column < batch.column_count(),
        0 <= row <= batch.row_count,
    ensures
        ({
            let (filled, error) = fill_column_from(
                batch.columns[column],
                column as usize,
                batch.columns.len() as usize,
                own_layout(batch),
                bytes,
                row,
            );
            &&& error is None
            &&& keeps_agreement(bytes, filled, batch.payload().bytes)
            &&& forall|r: int|
                row <= r < batch.row_count ==> #[trigger] holds_cell(batch, filled, r, column)
        }),
    decreases batch.row_count - row,
{
    let target = batch.payload().bytes;
    if row < batch.row_count {
        lemma_own_fill_step(batch, bytes.len(), row, column);
        law_payload_holds_cells(batch, row, column);
        let start = cell_start(batch, row, column);
        let part = batch.bytes_at(row, column);
        let next = splice(bytes, start, part);
        assert forall|i: int| start <= i < start + part.len() implies #[trigger] next[i]
            == target[i] by {
            assert(target.subrange(start, start + part.len())[i - start] == part[i - start]);
        }
        lemma_fill_column(batch, next, column, row + 1);
        let filled = fill_column_from(
            batch.columns[column],
            column as usize,
            batch.columns.len() as usize,
            own_layout(batch),
            next,
            row + 1,
        ).0;
        assert(holds_cell(batch, filled, row, column));
    }
}

/// Filling the columns from a column on keeps what agrees with the payload and adds the cells.
proof fn lemma_fill_columns(batch: BoundBatchView, bytes: Seq<u8>, column: int)
    requires
        is_encodable(batch),
        bytes.len() == batch.payload().bytes.len(),
        0 <= column <= batch.column_count(),
    ensures
        ({
            let (filled, error) = fill_columns_from(batch, own_layout(batch), bytes, column);
            &&& error is None
            &&& keeps_agreement(bytes, filled, batch.payload().bytes)
            &&& forall|r: int, c: int|
                0 <= r < batch.row_count && column <= c < batch.column_count()
                    ==> #[trigger] holds_cell(batch, filled, r, c)
        }),
    decreases batch.column_count() - column,
{
    if column < batch.column_count() {
        lemma_fill_column(batch, bytes, column, 0);
        let next = fill_column_from(
            batch.columns[column],
            column as usize,
            batch.columns.len() as usize,
            own_layout(batch),
            bytes,
            0,
        ).0;
        lemma_fill_columns(batch, next, column + 1);
        let filled = fill_columns_from(batch, own_layout(batch), next, column + 1).0;
        assert forall|r: int, c: int|
            0 <= r < batch.row_count && column <= c < batch.column_count() implies #[trigger]
        holds_cell(batch, filled, r, c) by {
            if c == column {
                assert(holds_cell(batch, next, r, c));
                law_payload_holds_cells(batch, r, c);
            }
        }
    }
}

/// A buffer that holds every token and every cell is the payload.
pub proof fn lemma_holding_all_is_payload(batch: BoundBatchView, bytes: Seq<u8>)
    requires
        bytes.len() == batch.payload().bytes.len(),
        forall|row: int|
            0 <= row < batch.row_count ==> bytes[#[trigger] row_start(batch, row)]
                == TDS_ROW_TOKEN,
        forall|row: int, column: int|
            0 <= row < batch.row_count && 0 <= column < batch.column_count()
                ==> #[trigger] holds_cell(batch, bytes, row, column),
    ensures
        bytes == batch.payload().bytes,
{
    assert forall|row: int, column: int|
        0 <= row < batch.row_count && 0 <= column < batch.column_count() implies bytes.subrange(
        #[trigger] cell_start(batch, row, column),
        cell_start(batch, row, column) + batch.bytes_at(row, column).len(),
    ) == batch.bytes_at(row, column) by {
        let start = cell_start(batch, row, column);
        let part = batch.bytes_at(row, column);
        law_payload_holds_cells(batch, row, column);
        assert(holds_cell(batch, bytes, row, column));
        assert(bytes.subrange(start, start + part.len()) =~= batch.payload().bytes.subrange(
            start,
            start + part.len(),
        ));
    }
    lemma_covered_is_payload(batch, bytes);
}

/// A buffer with ROW tokens in place holds the tokens of the payload.
pub proof fn lemma_tokens_hold(batch: BoundBatchView, bytes: Seq<u8>)
    requires
        is_encodable(batch),
        bytes == rows_with_tokens(own_layout(batch)),
    ensures
        bytes.len() == batch.payload().bytes.len(),
        forall|row: int|
            0 <= row < batch.row_count ==> bytes[#[trigger] row_start(batch, row)]
                == TDS_ROW_TOKEN,
{
    lemma_layout_rows(batch);
    let offsets = own_layout(batch).row_token_offsets;
    assert forall|row: int| 0 <= row < batch.row_count implies bytes[#[trigger] row_start(
        batch,
        row,
    )] == TDS_ROW_TOKEN by {
        law_payload_holds_cells(batch, row, 0);
        assert(offsets[row] == row_start(batch, row));
        assert(offsets.contains(row_start(batch, row) as usize));
    }
}

/// Filling a batch by its own layout gives its payload.
pub proof fn law_filling_gives_payload(batch: BoundBatchView)
    requires
        is_encodable(batch),
    ensures
        fill_columns_from(batch, own_layout(batch), rows_with_tokens(own_layout(batch)), 0) == (
            batch.payload().bytes,
            None::<ErrorView>,
        ),
{
    let bytes = rows_with_tokens(own_layout(batch));
    lemma_tokens_hold(batch, bytes);
    lemma_fill_columns(batch, bytes, 0);
    let filled = fill_columns_from(batch, own_layout(batch), bytes, 0).0;
    assert forall|row: int| 0 <= row < batch.row_count implies filled[#[trigger] row_start(
        batch,
        row,
    )] == TDS_ROW_TOKEN by {
        law_payload_holds_cells(batch, row, 0);
        assert(bytes[row_start(batch, row)] == TDS_ROW_TOKEN);
    }
    lemma_holding_all_is_payload(batch, filled);
}

/// The lengths of the cells of a layout.
pub open spec fn cell_lengths_of(layout: RowLayoutView) -> Seq<usize> {
    layout.cell_positions.map_values(|cell: CellPosition| cell.len)
}

/// Whether a layout tiles a number of rows cell by cell, in row-major order.
pub open spec fn is_row_major(layout: RowLayoutView, row_count: int, column_count: int) -> bool {
    let lengths = cell_lengths_of(layout);
    &&& layout == row_major_layout(lengths, column_count, 0, row_count)
    &&& rows_len(lengths, column_count, 0, row_count) <= usize::MAX
}

/// Whether two matrices of cell lengths agree, the first from a row on.
pub open spec fn lengths_agree(
    first: Seq<usize>,
    second: Seq<usize>,
    column_count: int,
    start: int,
    row_count: int,
) -> bool {
    forall|row: int, column: int|
        #![trigger second[cell_index(column_count, row, column)]]
        0 <= row < row_count && 0 <= column < column_count ==> first[cell_index(
            column_count,
            start + row,
            column,
        )] == second[cell_index(column_count, row, column)]
}

/// Cells of equal lengths take equal numbers of bytes.
proof fn lemma_cells_len_agree(
    first: Seq<usize>,
    second: Seq<usize>,
    column_count: int,
    start: int,
    row_count: int,
    row: int,
    count: int,
)
    requires
        lengths_agree(first, second, column_count, start, row_count),
        0 <= row < row_count,
        count <= column_count,
    ensures
        cells_len(first, column_count, start + row, count) == cells_len(
            second,
            column_count,
            row,
            count,
        ),
    decreases count,
{
    if count > 0 {
        lemma_cells_len_agree(first, second, column_count, start, row_count, row, count - 1);
        assert(second[cell_index(column_count, row, count - 1)] == first[cell_index(
            column_count,
            start + row,
            count - 1,
        )]);
    }
}

/// Rows of equal lengths take equal numbers of bytes.
proof fn lemma_rows_len_agree(
    first: Seq<usize>,
    second: Seq<usize>,
    column_count: int,
    start: int,
    row_count: int,
    count: int,
)
    requires
        lengths_agree(first, second, column_count, start, row_count),
        count <= row_count,
    ensures
        rows_len(first, column_count, start, count) == rows_len(second, column_count, 0, count),
    decreases count,
{
    if count > 0 {
        lemma_rows_len_agree(first, second, column_count, start, row_count, count - 1);
        lemma_cells_len_agree(
            first,
            second,
            column_count,
            start,
            row_count,
            count - 1,
            column_count,
        );
    }
}

/// Rows of equal lengths have equal layouts.
pub proof fn lemma_layouts_agree(
    first: Seq<usize>,
    second: Seq<usize>,
    column_count: int,
    start: int,
    row_count: int,
)
    requires
        lengths_agree(first, second, column_count, start, row_count),
        0 <= row_count,
        0 <= column_count,
    ensures
        rows_len(first, column_count, start, row_count) == rows_len(
            second,
            column_count,
            0,
            row_count,
        ),
        row_major_layout(first, column_count, start, row_count) == row_major_layout(
            second,
            column_count,
            0,
            row_count,
        ),
{
    let one = row_major_layout(first, column_count, start, row_count);
    let other = row_major_layout(second, column_count, 0, row_count);
    lemma_rows_len_agree(first, second, column_count, start, row_count, row_count);
    assert forall|row: int| 0 <= row < row_count implies #[trigger] one.row_token_offsets[row]
        == other.row_token_offsets[row] && one.row_lengths[row] == other.row_lengths[row] by {
        lemma_rows_len_agree(first, second, column_count, start, row_count, row);
        lemma_cells_len_agree(
            first,
            second,
            column_count,
            start,
            row_count,
            row,
            column_count,
        );
    }
    assert(one.row_token_offsets =~= other.row_token_offsets);
    assert forall|row: int| 0 <= row < row_count implies #[trigger] one.row_lengths[row]
        == other.row_lengths[row] by {
        assert(one.row_token_offsets[row] == other.row_token_offsets[row]);
    }
    assert(one.row_lengths =~= other.row_lengths);
    assert forall|index: int| 0 <= index < one.cell_positions.len() implies #[trigger]
    one.cell_positions[index] == other.cell_positions[index] by {
        lemma_cell_of_index(column_count, row_count, index);
        let row = index / column_count;
        let column = index % column_count;
        lemma_rows_len_agree(first, second, column_count, start, row_count, row);
        lemma_cells_len_agree(first, second, column_count, start, row_count, row, column);
        assert(second[cell_index(column_count, row, column)] == first[cell_index(
            column_count,
            start + row,
            column,
        )]);
    }
    assert(one.cell_positions =~= other.cell_positions);
}

/// The layout of a row range tiles its rows cell by cell.
pub proof fn lemma_range_layout_is_row_major(
    lengths: Seq<usize>,
    column_count: int,
    start: int,
    row_count: int,
)
    requires
        0 <= column_count,
        0 <= row_count,
        rows_len(lengths, column_count, start, row_count) <= usize::MAX,
    ensures
        is_row_major(
            row_major_layout(lengths, column_count, start, row_count),
            row_count,
            column_count,
        ),
{
    let layout = row_major_layout(lengths, column_count, start, row_count);
    let own = cell_lengths_of(layout);
    assert forall|row: int, column: int|
        #![trigger own[cell_index(column_count, row, column)]]
        0 <= row < row_count && 0 <= column < column_count implies lengths[cell_index(
        column_count,
        start + row,
        column,
    )] == own[cell_index(column_count, row, column)] by {
        lemma_cell_index(column_count, row_count, row, column);
    }
    lemma_layouts_agree(lengths, own, column_count, start, row_count);
}

/// Where filling the rest of a column meets no error, every step does.
proof fn lemma_filled_column_steps(
    column: BoundColumnView,
    column_index: usize,
    column_count: usize,
    layout: RowLayoutView,
    bytes: Seq<u8>,
    row: int,
)
    requires
        0 <= row <= column.cells.len(),
        fill_column_from(column, column_index, column_count, layout, bytes, row).1 is None,
    ensures
        fill_column_from(column, column_index, column_count, layout, bytes, row).0.len()
            == bytes.len(),
        forall|r: int|
            row <= r < column.cells.len() ==> (#[trigger] fill_step(
                column,
                column_index,
                column_count,
                layout,
                bytes.len(),
                r,
            )) is Ok,
    decreases column.cells.len() - row,
{
    if row < column.cells.len() {
        let (offset, part) = fill_step(
            column,
            column_index,
            column_count,
            layout,
            bytes.len(),
            row,
        )->Ok_0;
        let next = splice(bytes, offset, part);
        assert(next.len() == bytes.len());
        lemma_filled_column_steps(column, column_index, column_count, layout, next, row + 1);
    }
}

/// Where filling the rest of the columns meets no error, every step does.
proof fn lemma_filled_columns_steps(
    batch: BoundBatchView,
    layout: RowLayoutView,
    bytes: Seq<u8>,
    column: int,
)
    requires
        batch.well_formed(),
        0 <= column <= batch.column_count(),
        fill_columns_from(batch, layout, bytes, column).1 is None,
    ensures
        forall|r: int, c: int|
            0 <= r < batch.row_count && column <= c < batch.column_count() ==> (
            #[trigger] fill_step(
                batch.columns[c],
                c as usize,
                batch.columns.len() as usize,
                layout,
                bytes.len(),
                r,
            )) is Ok,
    decreases batch.column_count() - column,
{
    if column < batch.column_count() {
        let count = batch.columns.len() as usize;
        lemma_filled_column_steps(
            batch.columns[column],
            column as usize,
            count,
            layout,
            bytes,
            0,
        );
        let next = fill_column_from(
            batch.columns[column],
            column as usize,
            count,
            layout,
            bytes,
            0,
        ).0;
        lemma_filled_columns_steps(batch, layout, next, column + 1);
    }
}

/// A row-major layout by which a batch can be filled is the batch's own.
pub proof fn law_only_own_layout_fills(batch: BoundBatchView, layout: RowLayoutView)
    requires
        batch.well_formed(),
        is_row_major(layout, batch.row_count as int, batch.column_count()),
        fill_columns_from(batch, layout, rows_with_tokens(layout), 0).1 is None,
        batch.row_count * batch.column_count() <= usize::MAX,
    ensures
        is_encodable(batch),
        layout == own_layout(batch),
{
    let rows = batch.row_count as int;
    let columns = batch.column_count();
    let lengths = cell_lengths_of(layout);
    let buffer = rows_with_tokens(layout);
    lemma_filled_columns_steps(batch, layout, buffer, 0);
    assert forall|row: int, column: int|
        0 <= row < batch.row_count && 0 <= column < batch.column_count() implies (
    #[trigger] batch.columns[column].outcome(row)) is Ok by {
        assert(fill_step(
            batch.columns[column],
            column as usize,
            batch.columns.len() as usize,
            layout,
            buffer.len(),
            row,
        ) is Ok);
    }
    assert forall|row: int, column: int|
        #![trigger batch.lengths()[cell_index(columns, row, column)]]
        0 <= row < rows && 0 <= column < columns implies lengths[cell_index(columns, row, column)]
        == batch.lengths()[cell_index(columns, row, column)] by {
        lemma_cell_index(columns, rows, row, column);
        lemma_length_at(batch, row, column);
        assert(fill_step(
            batch.columns[column],
            column as usize,
            batch.columns.len() as usize,
            layout,
            buffer.len(),
            row,
        ) is Ok);
    }
    lemma_layouts_agree(lengths, batch.lengths(), columns, 0, rows);
    law_measured_length_is_encoded_length(batch, rows);
}

/// The outcome of encoding a batch by a row-major layout.
pub open spec fn layout_outcome(batch: BoundBatchView, layout: RowLayoutView) -> core::result::Result<
    PayloadView,
    ErrorView,
> {
    match fill_columns_from(batch, layout, rows_with_tokens(layout), 0).1 {
        Some(error) => Err(error),
        None => Ok(batch.payload()),
    }
}

/// Whether a payload, or the error in its place, is as expected.
pub open spec fn is_payload(
    result: Result<EncodedRowsPayload>,
    expected: core::result::Result<PayloadView, ErrorView>,
) -> bool {
    match expected {
        Ok(view) => result matches Ok(payload) && payload@ == view,
        Err(view) => result matches Err(error) && error@ == view,
    }
}

/// Encodes a batch by a row-major layout of its rows.
pub fn encode_with_layout(bound: &BoundDirectBatch<'_>, layout: &RowLayout) -> (result: Result<
    EncodedRowsPayload,
>)
    requires
        is_row_major(layout@, bound@.row_count as int, bound@.column_count()),
        bound@.row_count * bound@.column_count() <= usize::MAX,
    ensures
        is_payload(result, layout_outcome(bound@, layout@)),
{
    let ghost batch = bound@;
    proof {
        use_type_invariant(bound);
        lemma_row_major_offsets(layout@, batch.row_count as int, batch.column_count());
    }
    let mut bytes: Vec<u8> = allocate_rows_payload_with_tokens(layout);
    match bound.fill_columns(layout, bytes.as_mut_slice()) {
        Ok(()) => {},
        Err(error) => {
            return Err(error);
        },
    }
    proof {
        law_only_own_layout_fills(batch, layout@);
        law_filling_gives_payload(batch);
        lemma_layout_rows(batch);
        law_encoded_payload_is_accepted(batch);
    }
    let row_token_offsets: Vec<usize> = vstd::slice::slice_to_vec(layout.row_token_offsets());
    EncodedRowsPayload::new(bytes, row_token_offsets)
}

/// Every row of a row-major layout starts inside the payload.
proof fn lemma_row_major_offsets(layout: RowLayoutView, row_count: int, column_count: int)
    requires
        is_row_major(layout, row_count, column_count),
        0 <= row_count,
        0 <= column_count,
    ensures
        forall|row: int|
            0 <= row < layout.row_token_offsets.len() ==> #[trigger] layout.row_token_offsets[row]
                < layout.payload_len,
{
    let lengths = cell_lengths_of(layout);
    assert forall|row: int| 0 <= row < layout.row_token_offsets.len() implies #[trigger]
    layout.row_token_offsets[row] < layout.payload_len by {
        lemma_cell_end(lengths, column_count, 0, row_count, row, 0);
    }
}

} // verus!
