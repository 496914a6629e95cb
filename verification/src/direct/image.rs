//! The bytes of bound rows.

use vstd::prelude::*;

use crate::diagnostic::{payload_error, ErrorView};
use crate::direct::binding::BoundColumnView;
use crate::direct::cell::{cell_bytes, DirectCellView};
use crate::direct::payload::{
    law_payload_accepted_iff_tokens_in_place, payload_fault, tokens_in_place, PayloadView,
    TDS_ROW_TOKEN,
};
use crate::direct::rows::{
    cell_index, cells_len, lemma_cell_index, row_major_cell, row_major_layout, rows_len,
    ROW_TOKEN_LEN,
};
use crate::direct::value::lemma_direct_cell_is_countable;
use crate::message::Fault;

verus! {

/// What contracts know of a batch whose columns are bound.
#[verifier::ext_equal]
pub struct BoundBatchView {
    /// Columns in mapping order.
    pub columns: Seq<BoundColumnView>,
    /// Number of rows.
    pub row_count: usize,
}

impl BoundColumnView {
    /// The first row, from a row on, whose value has no cell; the number of rows where there is
    /// none.
    pub open spec fn bad_row(self, row: int) -> int
        decreases self.cells.len() - row,
    {
        if row < 0 || row >= self.cells.len() {
            self.cells.len() as int
        } else if self.outcome(row) is Err {
            row
        } else {
            self.bad_row(row + 1)
        }
    }
}

impl BoundBatchView {
    /// Whether every column has the batch's number of rows.
    pub open spec fn well_formed(self) -> bool {
        &&& self.columns.len() <= usize::MAX
        &&& forall|column: int|
            0 <= column < self.columns.len() ==> (#[trigger] self.columns[column]).cells.len()
                == self.row_count
    }

    /// The number of columns.
    pub open spec fn column_count(self) -> int {
        self.columns.len() as int
    }

    /// The first column, from a column on, with a value that has no cell; the number of columns
    /// where there is none.
    pub open spec fn bad_column(self, column: int) -> int
        decreases self.columns.len() - column,
    {
        if column < 0 || column >= self.columns.len() {
            self.column_count()
        } else if self.columns[column].bad_row(0) < self.row_count {
            column
        } else {
            self.bad_column(column + 1)
        }
    }

    /// The first error in column-major order.
    pub open spec fn error(self) -> Option<ErrorView> {
        let column = self.bad_column(0);
        if column < self.column_count() {
            Some(self.columns[column].outcome(self.columns[column].bad_row(0))->Err_0)
        } else {
            None
        }
    }

    /// Whether every value has a cell.
    pub open spec fn is_convertible(self) -> bool {
        forall|row: int, column: int|
            0 <= row < self.row_count && 0 <= column < self.column_count() ==> (
            #[trigger] self.columns[column].outcome(row)) is Ok
    }

    /// The cell at a row and column.
    pub open spec fn cell(self, row: int, column: int) -> DirectCellView {
        self.columns[column].outcome(row)->Ok_0
    }

    /// The bytes of a cell.
    pub open spec fn bytes_at(self, row: int, column: int) -> Seq<u8> {
        cell_bytes(self.cell(row, column))
    }

    /// The bytes of the first cells of a row.
    pub open spec fn cells_bytes(self, row: int, count: int) -> Seq<u8>
        decreases count,
    {
        if count <= 0 {
            Seq::empty()
        } else {
            self.cells_bytes(row, count - 1) + self.bytes_at(row, count - 1)
        }
    }

    /// The bytes of a row: the ROW token and its cells.
    pub open spec fn row_bytes(self, row: int) -> Seq<u8> {
        seq![TDS_ROW_TOKEN] + self.cells_bytes(row, self.column_count())
    }

    /// The bytes of the first rows.
    pub open spec fn rows_bytes(self, count: int) -> Seq<u8>
        decreases count,
    {
        if count <= 0 {
            Seq::empty()
        } else {
            self.rows_bytes(count - 1) + self.row_bytes(count - 1)
        }
    }

    /// The length of every cell, in row-major order.
    pub open spec fn lengths(self) -> Seq<usize> {
        Seq::new(
            (self.row_count * self.column_count()) as nat,
            |index: int|
                self.bytes_at(
                    index / self.column_count(),
                    index % self.column_count(),
                ).len() as usize,
        )
    }

    /// The payload of all rows.
    pub open spec fn payload(self) -> PayloadView {
        PayloadView {
            bytes: self.rows_bytes(self.row_count as int),
            row_token_offsets: Seq::new(
                self.row_count as nat,
                |row: int| self.rows_bytes(row).len() as usize,
            ),
        }
    }

    /// The outcome of measuring every cell.
    pub open spec fn lengths_outcome(self) -> core::result::Result<Seq<usize>, ErrorView> {
        if self.row_count * self.column_count() > usize::MAX {
            Err(payload_error(Fault::CellCountOverflow))
        } else {
            match self.error() {
                Some(error) => Err(error),
                None => Ok(self.lengths()),
            }
        }
    }

    /// The outcome of encoding all rows.
    pub open spec fn payload_outcome(self) -> core::result::Result<PayloadView, ErrorView> {
        match self.lengths_outcome() {
            Ok(lengths) => if self.rows_bytes(self.row_count as int).len() > usize::MAX {
                Err(payload_error(Fault::PrimitiveLengthOverflow))
            } else {
                Ok(self.payload())
            },
            Err(error) => Err(error),
        }
    }
}

/// The first bad row of a column.
pub proof fn lemma_bad_row(column: BoundColumnView, row: int)
    requires
        0 <= row <= column.cells.len(),
    ensures
        row <= column.bad_row(row) <= column.cells.len(),
        column.bad_row(row) < column.cells.len() ==> column.outcome(column.bad_row(row)) is Err,
        forall|i: int|
            row <= i < column.bad_row(row) ==> (#[trigger] column.outcome(i)) is Ok,
    decreases column.cells.len() - row,
{
    if row < column.cells.len() && column.outcome(row) is Ok {
        lemma_bad_row(column, row + 1);
    }
}

/// The first bad column of a batch.
pub proof fn lemma_bad_column(batch: BoundBatchView, column: int)
    requires
        batch.well_formed(),
        0 <= column <= batch.column_count(),
    ensures
        column <= batch.bad_column(column) <= batch.column_count(),
        batch.bad_column(column) < batch.column_count()
            ==> batch.columns[batch.bad_column(column)].bad_row(0) < batch.row_count,
        forall|i: int|
            column <= i < batch.bad_column(column) ==> (#[trigger] batch.columns[i]).bad_row(0)
                == batch.row_count,
    decreases batch.column_count() - column,
{
    if column < batch.column_count() {
        lemma_bad_row(batch.columns[column], 0);
        if batch.columns[column].bad_row(0) == batch.row_count {
            lemma_bad_column(batch, column + 1);
        }
    }
}

/// A batch has an error exactly when some value has no cell, and the error is that of the first
/// such value in column-major order.
pub proof fn law_first_error_is_column_major(batch: BoundBatchView)
    requires
        batch.well_formed(),
    ensures
        batch.error() is None <==> batch.is_convertible(),
        batch.error() matches Some(error) ==> exists|row: int, column: int|
            {
                &&& 0 <= row < batch.row_count
                &&& 0 <= column < batch.column_count()
                &&& #[trigger] batch.columns[column].outcome(row) == Err::<DirectCellView, _>(error)
                &&& forall|r: int, c: int|
                    0 <= r < batch.row_count && (0 <= c < column || c == column && r < row) ==> (
                    #[trigger] batch.columns[c].outcome(r)) is Ok
            },
{
    lemma_bad_column(batch, 0);
    let column = batch.bad_column(0);
    assert forall|r: int, c: int| 0 <= r < batch.row_count && 0 <= c < column implies (
    #[trigger] batch.columns[c].outcome(r)) is Ok by {
        assert(batch.columns[c].bad_row(0) == batch.row_count);
        lemma_bad_row(batch.columns[c], 0);
    }
    if column < batch.column_count() {
        lemma_bad_row(batch.columns[column], 0);
        let row = batch.columns[column].bad_row(0);
        assert(batch.columns[column].outcome(row) == Err::<DirectCellView, _>(
            batch.error()->Some_0,
        ));
    }
}

/// Every cell of a convertible batch can be counted.
pub proof fn lemma_cells_are_countable(batch: BoundBatchView, row: int, column: int)
    requires
        batch.is_convertible(),
        0 <= row < batch.row_count,
        0 <= column < batch.column_count(),
    ensures
        batch.columns[column].outcome(row) is Ok,
        batch.bytes_at(row, column).len() <= usize::MAX,
{
    let bound = batch.columns[column];
    assert(bound.outcome(row) is Ok);
    reveal(BoundColumnView::outcome);
    lemma_direct_cell_is_countable(
        bound.plan.encoding,
        bound.mapping,
        bound.policy,
        row as usize,
        bound.cells[row],
    );
}

/// The measured length of a cell is the number of its bytes.
pub proof fn lemma_length_at(batch: BoundBatchView, row: int, column: int)
    requires
        batch.is_convertible(),
        0 <= row < batch.row_count,
        0 <= column < batch.column_count(),
    ensures
        0 <= cell_index(batch.column_count(), row, column) < batch.lengths().len(),
        batch.lengths()[cell_index(batch.column_count(), row, column)] == batch.bytes_at(
            row,
            column,
        ).len(),
{
    lemma_cell_index(batch.column_count(), batch.row_count as int, row, column);
    lemma_cells_are_countable(batch, row, column);
}

/// The measured lengths of the first cells of a row add up to the number of their bytes.
pub proof fn lemma_cells_bytes_len(batch: BoundBatchView, row: int, count: int)
    requires
        batch.is_convertible(),
        0 <= row < batch.row_count,
        0 <= count <= batch.column_count(),
    ensures
        batch.cells_bytes(row, count).len() == cells_len(
            batch.lengths(),
            batch.column_count(),
            row,
            count,
        ),
    decreases count,
{
    if count > 0 {
        lemma_cells_bytes_len(batch, row, count - 1);
        lemma_length_at(batch, row, count - 1);
    }
}

/// The measured length of rows is the number of bytes that they are encoded to.
pub proof fn law_measured_length_is_encoded_length(batch: BoundBatchView, count: int)
    requires
        batch.is_convertible(),
        0 <= count <= batch.row_count,
    ensures
        batch.rows_bytes(count).len() == rows_len(
            batch.lengths(),
            batch.column_count(),
            0,
            count,
        ),
    decreases count,
{
    if count > 0 {
        law_measured_length_is_encoded_length(batch, count - 1);
        lemma_cells_bytes_len(batch, count - 1, batch.column_count());
    }
}

/// The bytes of the first cells of a row are a prefix of the bytes of more of them.
pub proof fn lemma_cells_bytes_prefix(batch: BoundBatchView, row: int, low: int, high: int)
    requires
        low <= high,
    ensures
        batch.cells_bytes(row, low).len() <= batch.cells_bytes(row, high).len(),
        batch.cells_bytes(row, low) == batch.cells_bytes(row, high).take(
            batch.cells_bytes(row, low).len() as int,
        ),
    decreases high,
{
    if high <= 0 || low == high {
        assert(batch.cells_bytes(row, low) =~= batch.cells_bytes(row, high).take(
            batch.cells_bytes(row, low).len() as int,
        ));
    } else {
        lemma_cells_bytes_prefix(batch, row, low, high - 1);
        assert(batch.cells_bytes(row, low) =~= batch.cells_bytes(row, high).take(
            batch.cells_bytes(row, low).len() as int,
        ));
    }
}

/// The bytes of the first rows are a prefix of the bytes of more of them.
pub proof fn law_rows_bytes_prefix(batch: BoundBatchView, low: int, high: int)
    requires
        low <= high,
    ensures
        batch.rows_bytes(low).len() <= batch.rows_bytes(high).len(),
        batch.rows_bytes(low) == batch.rows_bytes(high).take(batch.rows_bytes(low).len() as int),
    decreases high,
{
    if high <= 0 || low == high {
        assert(batch.rows_bytes(low) =~= batch.rows_bytes(high).take(
            batch.rows_bytes(low).len() as int,
        ));
    } else {
        law_rows_bytes_prefix(batch, low, high - 1);
        assert(batch.rows_bytes(low) =~= batch.rows_bytes(high).take(
            batch.rows_bytes(low).len() as int,
        ));
    }
}

/// Where a row starts in the payload.
pub open spec fn row_start(batch: BoundBatchView, row: int) -> int {
    batch.rows_bytes(row).len() as int
}

/// Where a cell starts in the payload.
pub open spec fn cell_start(batch: BoundBatchView, row: int, column: int) -> int {
    row_start(batch, row) + ROW_TOKEN_LEN + batch.cells_bytes(row, column).len()
}

/// A row starts with a ROW token, and each of its cells stands at its place in the payload.
pub proof fn law_payload_holds_cells(batch: BoundBatchView, row: int, column: int)
    requires
        0 <= row < batch.row_count,
        0 <= column <= batch.column_count(),
    ensures
        ({
            let bytes = batch.payload().bytes;
            let start = cell_start(batch, row, column);
            &&& row_start(batch, row) < bytes.len()
            &&& bytes[row_start(batch, row)] == TDS_ROW_TOKEN
            &&& start <= row_start(batch, row + 1) <= bytes.len()
            &&& column < batch.column_count() ==> {
                let end = cell_start(batch, row, column + 1);
                &&& end == start + batch.bytes_at(row, column).len()
                &&& end <= bytes.len()
                &&& bytes.subrange(start, end) == batch.bytes_at(row, column)
            }
        }),
{
    let bytes = batch.payload().bytes;
    let count = batch.row_count as int;
    let columns = batch.column_count();
    law_rows_bytes_prefix(batch, row + 1, count);
    let through = batch.rows_bytes(row + 1);
    assert(through == batch.rows_bytes(row) + batch.row_bytes(row));
    assert(bytes[row_start(batch, row)] == through[row_start(batch, row)]);
    lemma_cells_bytes_prefix(batch, row, column, columns);
    if column < columns {
        let start = cell_start(batch, row, column);
        let end = cell_start(batch, row, column + 1);
        lemma_cells_bytes_prefix(batch, row, column + 1, columns);
        assert(end == start + batch.bytes_at(row, column).len());
        assert forall|i: int| 0 <= i < end - start implies #[trigger] bytes.subrange(
            start,
            end,
        )[i] == batch.bytes_at(row, column)[i] by {
            let within = batch.cells_bytes(row, column).len() + i;
            assert(bytes[start + i] == through[start + i]);
            assert(through[start + i] == batch.row_bytes(row)[1 + within]);
            assert(batch.row_bytes(row)[1 + within] == batch.cells_bytes(row, columns)[within]);
            assert(batch.cells_bytes(row, columns)[within] == batch.cells_bytes(row, column + 1)[
                within
            ]);
        }
        assert(bytes.subrange(start, end) =~= batch.bytes_at(row, column));
    }
}

/// The layout of the measured lengths places rows and cells where the payload holds them.
pub proof fn lemma_layout_places(batch: BoundBatchView, row: int, column: int)
    requires
        batch.is_convertible(),
        batch.rows_bytes(batch.row_count as int).len() <= usize::MAX,
        0 <= row < batch.row_count,
        0 <= column < batch.column_count(),
    ensures
        ({
            let position = row_major_cell(batch.lengths(), batch.column_count(), 0, row, column);
            &&& position.offset == cell_start(batch, row, column)
            &&& position.len == batch.bytes_at(row, column).len()
            &&& position.offset + position.len <= batch.rows_bytes(batch.row_count as int).len()
        }),
{
    law_measured_length_is_encoded_length(batch, row);
    lemma_cells_bytes_len(batch, row, column);
    lemma_length_at(batch, row, column);
    law_payload_holds_cells(batch, row, column);
}

/// The row-token offsets of the layout of the measured lengths are those of the payload.
pub proof fn lemma_layout_rows(batch: BoundBatchView)
    requires
        batch.is_convertible(),
        batch.rows_bytes(batch.row_count as int).len() <= usize::MAX,
    ensures
        ({
            let layout = row_major_layout(
                batch.lengths(),
                batch.column_count(),
                0,
                batch.row_count as int,
            );
            &&& layout.row_token_offsets == batch.payload().row_token_offsets
            &&& layout.payload_len == batch.payload().bytes.len()
            &&& forall|row: int|
                0 <= row < batch.row_count ==> (#[trigger] layout.row_token_offsets[row])
                    < layout.payload_len
        }),
{
    let layout = row_major_layout(
        batch.lengths(),
        batch.column_count(),
        0,
        batch.row_count as int,
    );
    law_measured_length_is_encoded_length(batch, batch.row_count as int);
    assert forall|row: int| 0 <= row < batch.row_count implies #[trigger]
    layout.row_token_offsets[row] == batch.payload().row_token_offsets[row]
        && layout.row_token_offsets[row] < layout.payload_len by {
        law_measured_length_is_encoded_length(batch, row);
        law_payload_holds_cells(batch, row, 0);
    }
    assert(layout.row_token_offsets =~= batch.payload().row_token_offsets);
}

/// Every byte of a payload is a ROW token or belongs to a cell.
pub open spec fn is_token_or_cell(batch: BoundBatchView, index: int, row: int, column: int) -> bool {
    &&& 0 <= row < batch.row_count
    &&& {
        ||| index == row_start(batch, row)
        ||| 0 <= column < batch.column_count() && cell_start(batch, row, column) <= index
            < cell_start(batch, row, column + 1)
    }
}

/// Finds the row and the column of a byte.
pub proof fn lemma_locate(batch: BoundBatchView, count: int, index: int) -> (place: (int, int))
    requires
        0 <= count <= batch.row_count,
        0 <= index < batch.rows_bytes(count).len(),
    ensures
        is_token_or_cell(batch, index, place.0, place.1),
    decreases count,
{
    if count <= 0 {
        (0, 0)
    } else if index < batch.rows_bytes(count - 1).len() {
        lemma_locate(batch, count - 1, index)
    } else if index == row_start(batch, count - 1) {
        (count - 1, 0)
    } else {
        let within = index - row_start(batch, count - 1) - 1;
        let column = lemma_locate_cell(batch, count - 1, batch.column_count(), within);
        (count - 1, column)
    }
}

/// Finds the column of a byte among the cells of a row.
proof fn lemma_locate_cell(batch: BoundBatchView, row: int, count: int, within: int) -> (column:
    int)
    requires
        0 <= count <= batch.column_count(),
        0 <= within < batch.cells_bytes(row, count).len(),
    ensures
        0 <= column < count,
        batch.cells_bytes(row, column).len() <= within < batch.cells_bytes(row, column + 1).len(),
    decreases count,
{
    if within < batch.cells_bytes(row, count - 1).len() {
        lemma_locate_cell(batch, row, count - 1, within)
    } else {
        count - 1
    }
}

/// A buffer that agrees with the payload at every token and in every cell is the payload.
pub proof fn lemma_covered_is_payload(batch: BoundBatchView, bytes: Seq<u8>)
    requires
        bytes.len() == batch.payload().bytes.len(),
        forall|row: int|
            0 <= row < batch.row_count ==> bytes[#[trigger] row_start(batch, row)]
                == TDS_ROW_TOKEN,
        forall|row: int, column: int|
            0 <= row < batch.row_count && 0 <= column < batch.column_count() ==> bytes.subrange(
                #[trigger] cell_start(batch, row, column),
                cell_start(batch, row, column) + batch.bytes_at(row, column).len(),
            ) == batch.bytes_at(row, column),
    ensures
        bytes == batch.payload().bytes,
{
    let target = batch.payload().bytes;
    assert forall|index: int| 0 <= index < bytes.len() implies #[trigger] bytes[index]
        == target[index] by {
        let (row, column) = lemma_locate(batch, batch.row_count as int, index);
        law_payload_holds_cells(batch, row, 0);
        if index != row_start(batch, row) {
            law_payload_holds_cells(batch, row, column);
            let start = cell_start(batch, row, column);
            let part = batch.bytes_at(row, column);
            assert(bytes.subrange(start, start + part.len())[index - start] == part[index
                - start]);
            assert(target.subrange(start, start + part.len())[index - start] == part[index
                - start]);
        }
    }
    assert(bytes =~= target);
}

/// The payload of a convertible batch is accepted: its row-token offsets increase and point at
/// ROW tokens.
pub proof fn law_encoded_payload_is_accepted(batch: BoundBatchView)
    requires
        batch.rows_bytes(batch.row_count as int).len() <= usize::MAX,
    ensures
        payload_fault(batch.payload()) is None,
{
    let payload = batch.payload();
    let offsets = payload.row_token_offsets;
    assert(tokens_in_place(payload)) by {
        assert forall|i: int| 0 <= i < offsets.len() implies (#[trigger] offsets[i])
            < payload.bytes.len() && payload.bytes[offsets[i] as int] == TDS_ROW_TOKEN by {
            law_payload_holds_cells(batch, i, 0);
        }
        assert forall|i: int, j: int| 0 <= i < j < offsets.len() implies (#[trigger] offsets[i]) < (
        #[trigger] offsets[j]) by {
            law_payload_holds_cells(batch, i, 0);
            law_payload_holds_cells(batch, j, 0);
            law_rows_bytes_prefix(batch, i + 1, j);
        }
    }
    law_payload_accepted_iff_tokens_in_place(payload);
}

} // verus!
