//! Row-major payload layout for direct raw TDS encoding.

use vstd::prelude::*;

use crate::diagnostic::{invalid_payload, outcome, payload_error, Error, Result};
use crate::message::Fault;

verus! {

/// Byte position for one encoded cell inside an encoded rows payload.
#[derive(Debug, Clone, Copy, PartialEq, Eq, Hash, Structural)]
pub struct CellPosition {
    /// Row of the cell.
    pub row_index: usize,
    /// Column of the cell.
    pub column_index: usize,
    /// First byte of the cell.
    pub offset: usize,
    /// Number of bytes of the cell.
    pub len: usize,
}

impl CellPosition {
    /// Creates a cell byte position.
    pub fn new(row_index: usize, column_index: usize, offset: usize, len: usize) -> (cell: Self)
        ensures
            cell == (CellPosition { row_index, column_index, offset, len }),
    {
        CellPosition { row_index, column_index, offset, len }
    }

    /// Returns the row index.
    pub fn row_index(&self) -> (row_index: usize)
        ensures
            row_index == self.row_index,
    {
        self.row_index
    }

    /// Returns the column index.
    pub fn column_index(&self) -> (column_index: usize)
        ensures
            column_index == self.column_index,
    {
        self.column_index
    }

    /// Returns the byte offset.
    pub fn offset(&self) -> (offset: usize)
        ensures
            offset == self.offset,
    {
        self.offset
    }

    /// Returns the encoded byte length.
    pub fn len(&self) -> (len: usize)
        ensures
            len == self.len,
    {
        self.len
    }

    /// Returns true when the position has no encoded bytes.
    pub fn is_empty(&self) -> (result: bool)
        ensures
            result == (self.len == 0),
    {
        self.len == 0
    }
}

/// Row-major layout metadata for one direct encoded rows payload.
#[derive(Debug, PartialEq, Eq)]
pub struct RowLayout {
    row_token_offsets: Vec<usize>,
    row_lengths: Vec<usize>,
    cell_positions: Vec<CellPosition>,
    payload_len: usize,
}

/// What contracts know of a [`RowLayout`].
#[verifier::ext_equal]
pub struct RowLayoutView {
    /// First byte of every row.
    pub row_token_offsets: Seq<usize>,
    /// Number of bytes of every row.
    pub row_lengths: Seq<usize>,
    /// Cells of the rows.
    pub cell_positions: Seq<CellPosition>,
    /// Number of bytes of the payload.
    pub payload_len: usize,
}

impl View for RowLayout {
    type V = RowLayoutView;

    closed spec fn view(&self) -> RowLayoutView {
        RowLayoutView {
            row_token_offsets: self.row_token_offsets@,
            row_lengths: self.row_lengths@,
            cell_positions: self.cell_positions@,
            payload_len: self.payload_len,
        }
    }
}

/// The fault of one row: it ends past the payload, or the next row does not follow it.
pub open spec fn row_placement_fault(
    row_token_offsets: Seq<usize>,
    row_lengths: Seq<usize>,
    payload_len: usize,
    index: int,
) -> Option<Fault> {
    let offset = row_token_offsets[index];
    let len = row_lengths[index];
    let end = offset + len;
    if end > usize::MAX {
        Some(Fault::RowOverflow { index: index as usize, offset, len })
    } else if end > payload_len {
        Some(Fault::RowOutsidePayload { index: index as usize, end: end as usize, payload_len })
    } else if index + 1 < row_token_offsets.len() && row_token_offsets[index + 1] != end {
        Some(
            Fault::RowGap {
                index: index as usize,
                end: end as usize,
                next_offset: row_token_offsets[index + 1],
            },
        )
    } else {
        None
    }
}

/// The fault of the first row, from an index on, that is not placed well.
pub open spec fn first_row_fault(
    row_token_offsets: Seq<usize>,
    row_lengths: Seq<usize>,
    payload_len: usize,
    index: int,
) -> Option<Fault>
    decreases row_token_offsets.len() - index,
{
    if index < 0 || index >= row_token_offsets.len() {
        None
    } else {
        match row_placement_fault(row_token_offsets, row_lengths, payload_len, index) {
            Some(fault) => Some(fault),
            None => first_row_fault(row_token_offsets, row_lengths, payload_len, index + 1),
        }
    }
}

/// The fault of rows that do not tile the payload.
pub open spec fn rows_fault(
    row_token_offsets: Seq<usize>,
    row_lengths: Seq<usize>,
    payload_len: usize,
) -> Option<Fault> {
    if row_token_offsets.len() != row_lengths.len() {
        Some(
            Fault::RowCountMismatch {
                offset_count: row_token_offsets.len() as usize,
                length_count: row_lengths.len() as usize,
            },
        )
    } else if row_token_offsets.len() == 0 {
        if payload_len == 0 {
            None
        } else {
            Some(Fault::EmptyLayoutPayload { payload_len })
        }
    } else if row_token_offsets[0] != 0 {
        Some(Fault::FirstRowOffset { offset: row_token_offsets[0] })
    } else {
        match first_row_fault(row_token_offsets, row_lengths, payload_len, 0) {
            Some(fault) => Some(fault),
            None => if row_token_offsets.last() + row_lengths.last() != payload_len {
                Some(
                    Fault::LastRowEnd {
                        end: (row_token_offsets.last() + row_lengths.last()) as usize,
                        payload_len,
                    },
                )
            } else {
                None
            },
        }
    }
}

/// Whether rows tile a payload: the first starts it, each is followed by the next, and the last
/// ends it.
pub open spec fn rows_tile(
    row_token_offsets: Seq<usize>,
    row_lengths: Seq<usize>,
    payload_len: usize,
) -> bool {
    &&& row_token_offsets.len() == row_lengths.len()
    &&& row_token_offsets.len() == 0 ==> payload_len == 0
    &&& row_token_offsets.len() > 0 ==> row_token_offsets[0] == 0
        && row_token_offsets.last() + row_lengths.last() == payload_len
    &&& forall|i: int|
        #![trigger row_token_offsets[i]]
        0 <= i < row_token_offsets.len() - 1 ==> row_token_offsets[i] + row_lengths[i]
            == row_token_offsets[i + 1]
    &&& forall|i: int|
        #![trigger row_lengths[i]]
        0 <= i < row_token_offsets.len() ==> row_token_offsets[i] + row_lengths[i] <= payload_len
}

/// The fault of one cell: its row does not exist, or it ends past the payload.
pub open spec fn cell_placement_fault(
    cell: CellPosition,
    row_count: usize,
    payload_len: usize,
) -> Option<Fault> {
    if cell.row_index >= row_count {
        Some(Fault::CellRow { row_index: cell.row_index, row_count })
    } else if cell.offset + cell.len > usize::MAX {
        Some(Fault::CellOverflow { offset: cell.offset, len: cell.len })
    } else if cell.offset + cell.len > payload_len {
        Some(
            Fault::CellOutsidePayload {
                row_index: cell.row_index,
                column_index: cell.column_index,
                end: (cell.offset + cell.len) as usize,
                payload_len,
            },
        )
    } else {
        None
    }
}

/// The fault of the first cell, from an index on, that is not placed well.
pub open spec fn first_cell_fault(
    cell_positions: Seq<CellPosition>,
    row_count: usize,
    payload_len: usize,
    index: int,
) -> Option<Fault>
    decreases cell_positions.len() - index,
{
    if index < 0 || index >= cell_positions.len() {
        None
    } else {
        match cell_placement_fault(cell_positions[index], row_count, payload_len) {
            Some(fault) => Some(fault),
            None => first_cell_fault(cell_positions, row_count, payload_len, index + 1),
        }
    }
}

/// Whether every cell belongs to a row and lies inside the payload.
pub open spec fn cells_inside(
    cell_positions: Seq<CellPosition>,
    row_count: usize,
    payload_len: usize,
) -> bool {
    forall|i: int|
        0 <= i < cell_positions.len() ==> (#[trigger] cell_positions[i]).row_index < row_count
            && cell_positions[i].offset + cell_positions[i].len <= payload_len
}

/// The fault of a layout.
pub open spec fn layout_fault(layout: RowLayoutView) -> Option<Fault> {
    match rows_fault(layout.row_token_offsets, layout.row_lengths, layout.payload_len) {
        Some(fault) => Some(fault),
        None => first_cell_fault(
            layout.cell_positions,
            layout.row_token_offsets.len() as usize,
            layout.payload_len,
            0,
        ),
    }
}

/// A first-fault result as contracts speak of it.
pub open spec fn fault_outcome(fault: Option<Fault>) -> core::result::Result<
    (),
    crate::diagnostic::ErrorView,
> {
    match fault {
        Some(fault) => Err(payload_error(fault)),
        None => Ok(()),
    }
}

impl RowLayout {
    /// The rows tile the payload and the cells lie inside it.
    #[verifier::type_invariant]
    pub open spec fn well_formed(self) -> bool {
        &&& layout_fault(self@) is None
        &&& self@.row_token_offsets.len() <= usize::MAX
    }

    /// Creates row-major layout metadata.
    pub fn new(
        row_token_offsets: Vec<usize>,
        row_lengths: Vec<usize>,
        cell_positions: Vec<CellPosition>,
        payload_len: usize,
    ) -> (result: Result<Self>)
        ensures
            ({
                let layout = RowLayoutView {
                    row_token_offsets: row_token_offsets@,
                    row_lengths: row_lengths@,
                    cell_positions: cell_positions@,
                    payload_len,
                };
                match layout_fault(layout) {
                    Some(fault) => result matches Err(error) && error@ == payload_error(fault),
                    None => result matches Ok(found) && found@ == layout,
                }
            }),
    {
        match validate_rows(row_token_offsets.as_slice(), row_lengths.as_slice(), payload_len) {
            Ok(()) => {},
            Err(error) => {
                return Err(error);
            },
        }
        match validate_cells(cell_positions.as_slice(), row_token_offsets.len(), payload_len) {
            Ok(()) => {},
            Err(error) => {
                return Err(error);
            },
        }
        Ok(RowLayout { row_token_offsets, row_lengths, cell_positions, payload_len })
    }

    /// Returns the number of encoded rows.
    pub fn row_count(&self) -> (count: usize)
        ensures
            count == self@.row_token_offsets.len(),
    {
        self.row_token_offsets.len()
    }

    /// Returns the row-token offsets.
    pub fn row_token_offsets(&self) -> (offsets: &[usize])
        ensures
            offsets@ == self@.row_token_offsets,
    {
        self.row_token_offsets.as_slice()
    }

    /// Returns row lengths in bytes.
    pub fn row_lengths(&self) -> (lengths: &[usize])
        ensures
            lengths@ == self@.row_lengths,
    {
        self.row_lengths.as_slice()
    }

    /// Returns cell byte positions.
    pub fn cell_positions(&self) -> (cells: &[CellPosition])
        ensures
            cells@ == self@.cell_positions,
    {
        self.cell_positions.as_slice()
    }

    /// Returns the total payload length in bytes.
    pub fn payload_len(&self) -> (len: usize)
        ensures
            len == self@.payload_len,
    {
        self.payload_len
    }
}

/// Checks that rows tile a payload.
pub fn validate_rows(row_token_offsets: &[usize], row_lengths: &[usize], payload_len: usize) -> (
    result: Result<()>)
    ensures
        outcome(result) == fault_outcome(
            rows_fault(row_token_offsets@, row_lengths@, payload_len),
        ),
{
    if row_token_offsets.len() != row_lengths.len() {
        return Err(
            invalid_layout(
                Fault::RowCountMismatch {
                    offset_count: row_token_offsets.len(),
                    length_count: row_lengths.len(),
                },
            ),
        );
    }
    if row_token_offsets.len() == 0 {
        if payload_len == 0 {
            return Ok(());
        }
        return Err(invalid_layout(Fault::EmptyLayoutPayload { payload_len }));
    }
    if row_token_offsets[0] != 0 {
        return Err(invalid_layout(Fault::FirstRowOffset { offset: row_token_offsets[0] }));
    }
    let mut index: usize = 0;
    let mut last_end: usize = 0;
    while index < row_token_offsets.len()
        invariant
            index <= row_token_offsets.len(),
            row_token_offsets@.len() == row_lengths@.len(),
            row_token_offsets@.len() > 0,
            row_token_offsets@[0] == 0,
            first_row_fault(row_token_offsets@, row_lengths@, payload_len, 0) == first_row_fault(
                row_token_offsets@,
                row_lengths@,
                payload_len,
                index as int,
            ),
            index > 0 ==> last_end == row_token_offsets@[index - 1] + row_lengths@[index - 1],
        decreases row_token_offsets.len() - index,
    {
        let offset: usize = row_token_offsets[index];
        let len: usize = row_lengths[index];
        let end: usize = match offset.checked_add(len) {
            Some(end) => end,
            None => {
                return Err(invalid_layout(Fault::RowOverflow { index, offset, len }));
            },
        };
        if end > payload_len {
            return Err(invalid_layout(Fault::RowOutsidePayload { index, end, payload_len }));
        }
        if index + 1 < row_token_offsets.len() && row_token_offsets[index + 1] != end {
            return Err(
                invalid_layout(
                    Fault::RowGap { index, end, next_offset: row_token_offsets[index + 1] },
                ),
            );
        }
        last_end = end;
        index += 1;
    }
    if last_end != payload_len {
        return Err(invalid_layout(Fault::LastRowEnd { end: last_end, payload_len }));
    }
    Ok(())
}

/// Checks that cells belong to rows and lie inside a payload.
pub fn validate_cells(cell_positions: &[CellPosition], row_count: usize, payload_len: usize) -> (
    result: Result<()>)
    ensures
        outcome(result) == fault_outcome(
            first_cell_fault(cell_positions@, row_count, payload_len, 0),
        ),
{
    let mut index: usize = 0;
    while index < cell_positions.len()
        invariant
            index <= cell_positions.len(),
            first_cell_fault(cell_positions@, row_count, payload_len, 0) == first_cell_fault(
                cell_positions@,
                row_count,
                payload_len,
                index as int,
            ),
        decreases cell_positions.len() - index,
    {
        let cell: CellPosition = cell_positions[index];
        if cell.row_index >= row_count {
            return Err(invalid_layout(Fault::CellRow { row_index: cell.row_index, row_count }));
        }
        let end: usize = match cell.offset.checked_add(cell.len) {
            Some(end) => end,
            None => {
                return Err(
                    invalid_layout(Fault::CellOverflow { offset: cell.offset, len: cell.len }),
                );
            },
        };
        if end > payload_len {
            return Err(
                invalid_layout(
                    Fault::CellOutsidePayload {
                        row_index: cell.row_index,
                        column_index: cell.column_index,
                        end,
                        payload_len,
                    },
                ),
            );
        }
        index += 1;
    }
    Ok(())
}

/// Creates the error of an inconsistent layout.
pub fn invalid_layout(fault: Fault) -> (error: Error)
    ensures
        error@ == payload_error(fault),
{
    invalid_payload(fault)
}

/// No row from an index on has a fault exactly when every one of them is placed well.
proof fn lemma_first_row_fault(
    row_token_offsets: Seq<usize>,
    row_lengths: Seq<usize>,
    payload_len: usize,
    index: int,
)
    requires
        0 <= index <= row_token_offsets.len(),
    ensures
        first_row_fault(row_token_offsets, row_lengths, payload_len, index) is None <==> (forall|
            i: int,
        |
            index <= i < row_token_offsets.len() ==> #[trigger] row_placement_fault(
                row_token_offsets,
                row_lengths,
                payload_len,
                i,
            ) is None),
    decreases row_token_offsets.len() - index,
{
    if index < row_token_offsets.len() {
        lemma_first_row_fault(row_token_offsets, row_lengths, payload_len, index + 1);
        assert(row_placement_fault(row_token_offsets, row_lengths, payload_len, index) is None
            || !(row_placement_fault(row_token_offsets, row_lengths, payload_len, index) is None));
    }
}

/// Rows are accepted exactly when they tile the payload.
pub proof fn law_rows_accepted_iff_tiling(
    row_token_offsets: Seq<usize>,
    row_lengths: Seq<usize>,
    payload_len: usize,
)
    ensures
        rows_fault(row_token_offsets, row_lengths, payload_len) is None <==> rows_tile(
            row_token_offsets,
            row_lengths,
            payload_len,
        ),
{
    lemma_first_row_fault(row_token_offsets, row_lengths, payload_len, 0);
    if rows_fault(row_token_offsets, row_lengths, payload_len) is None {
        assert forall|i: int|
            #![trigger row_token_offsets[i]]
            0 <= i < row_token_offsets.len() - 1 implies row_token_offsets[i] + row_lengths[i]
            == row_token_offsets[i + 1] by {
            assert(row_placement_fault(row_token_offsets, row_lengths, payload_len, i) is None);
        }
        assert forall|i: int|
            #![trigger row_lengths[i]]
            0 <= i < row_token_offsets.len() implies row_token_offsets[i] + row_lengths[i]
            <= payload_len by {
            assert(row_placement_fault(row_token_offsets, row_lengths, payload_len, i) is None);
        }
    }
    if rows_tile(row_token_offsets, row_lengths, payload_len) {
        assert forall|i: int| 0 <= i < row_token_offsets.len() implies #[trigger]
        row_placement_fault(row_token_offsets, row_lengths, payload_len, i) is None by {
            assert(row_token_offsets[i] + row_lengths[i] <= payload_len);
        }
    }
}

/// Cells are accepted exactly when each belongs to a row and lies inside the payload.
pub proof fn law_cells_accepted_iff_inside(
    cell_positions: Seq<CellPosition>,
    row_count: usize,
    payload_len: usize,
)
    ensures
        first_cell_fault(cell_positions, row_count, payload_len, 0) is None <==> cells_inside(
            cell_positions,
            row_count,
            payload_len,
        ),
{
    lemma_first_cell_fault(cell_positions, row_count, payload_len, 0);
}

/// No cell from an index on has a fault exactly when every one of them is placed well.
proof fn lemma_first_cell_fault(
    cell_positions: Seq<CellPosition>,
    row_count: usize,
    payload_len: usize,
    index: int,
)
    requires
        0 <= index <= cell_positions.len(),
    ensures
        first_cell_fault(cell_positions, row_count, payload_len, index) is None <==> (forall|i: int|
            index <= i < cell_positions.len() ==> (#[trigger] cell_positions[i]).row_index
                < row_count && cell_positions[i].offset + cell_positions[i].len <= payload_len),
    decreases cell_positions.len() - index,
{
    if index < cell_positions.len() {
        lemma_first_cell_fault(cell_positions, row_count, payload_len, index + 1);
        assert(cell_positions[index].len >= 0);
    }
}

} // verus!
