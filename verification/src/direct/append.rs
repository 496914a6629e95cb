//! Appending of measured rows to a row buffer.

use vstd::prelude::*;

use crate::batch::RecordBatch;
use crate::diagnostic::{invalid_payload, outcome, payload_error, ErrorView, Result};
use crate::direct::binding::{BoundColumnView, BoundDirectColumn};
use crate::direct::bound::{bound_views, BoundDirectBatch};
use crate::direct::cell::{append_slice, cell_bytes};
use crate::direct::encode::{
    bound_rows_outcome, empty_payload, lemma_slice_is_bound_rows, measured_range_error,
};
use crate::direct::encoder::{DirectEncoder, EncoderView};
use crate::direct::image::BoundBatchView;
use crate::direct::measure::{MeasuredDirectBatch, MeasuredView};
use crate::direct::payload::{PayloadView, TDS_ROW_TOKEN};
use crate::direct::rows::cell_index;
use crate::message::Fault;

verus! {

/// Rows that were appended to a buffer.
#[derive(Debug, PartialEq, Eq)]
pub struct RawRowsAppend {
    /// Offset of every row from the first appended byte.
    pub row_token_offsets: Vec<usize>,
    /// Number of bytes that were appended.
    pub byte_len: usize,
}

/// The error of appending one cell that was measured with a length.
pub open spec fn append_error(
    column: BoundColumnView,
    row: int,
    measured_len: usize,
) -> Option<ErrorView> {
    match column.outcome(row) {
        Err(error) => Some(error),
        Ok(cell) => if cell_bytes(cell).len() != measured_len {
            Some(
                payload_error(
                    Fault::MeasuredCellLength {
                        row_index: row as usize,
                        column_index: column.mapping.arrow.index,
                        len: measured_len,
                        expected: cell_bytes(cell).len() as usize,
                    },
                ),
            )
        } else {
            None
        },
    }
}

/// The first error of appending rows in row-major order, from a cell on.
pub open spec fn first_append_error(
    batch: BoundBatchView,
    measured: MeasuredView,
    start: int,
    row: int,
    column: int,
) -> Option<ErrorView>
    decreases batch.row_count - row, batch.columns.len() - column,
{
    if row < 0 || row >= batch.row_count {
        None
    } else if column < 0 || column >= batch.columns.len() {
        first_append_error(batch, measured, start, row + 1, 0)
    } else {
        match append_error(
            batch.columns[column],
            row,
            measured.cell_lengths[cell_index(measured.column_count as int, start + row, column)],
        ) {
            Some(error) => Some(error),
            None => first_append_error(batch, measured, start, row, column + 1),
        }
    }
}

/// The outcome of appending a measured row range: the appended payload, or the first error.
pub open spec fn append_outcome(
    encoder: EncoderView,
    batch: RecordBatch,
    measured: MeasuredView,
    start: usize,
    count: usize,
) -> core::result::Result<PayloadView, ErrorView> {
    match measured_range_error(encoder, batch, measured, start, count) {
        Some(error) => Err(error),
        None => if count == 0 {
            Ok(empty_payload())
        } else {
            match bound_rows_outcome(encoder, batch, start, count) {
                Ok(bound) => match first_append_error(bound, measured, start as int, 0, 0) {
                    Some(error) => Err(error),
                    None => Ok(bound.payload()),
                },
                Err(error) => Err(error),
            }
        },
    }
}

impl<'a> BoundDirectColumn<'a> {
    /// Appends one cell of the column to a row buffer.
    pub fn append_cell(&self, buf: &mut Vec<u8>, row_index: usize, measured_len: usize) -> (result:
        Result<()>)
        requires
            row_index < self@.cells.len(),
        ensures
            match append_error(self@, row_index as int, measured_len) {
                Some(view) => outcome(result) == Err::<(), _>(view) && final(buf)@ == old(buf)@,
                None => result is Ok && final(buf)@ == old(buf)@ + cell_bytes(
                    self@.outcome(row_index as int)->Ok_0,
                ),
            },
    {
        let cell = match self.cell(row_index) {
            Ok(cell) => cell,
            Err(error) => {
                return Err(error);
            },
        };
        let expected: usize = cell.len();
        if measured_len != expected {
            return Err(
                invalid_payload(
                    Fault::MeasuredCellLength {
                        row_index,
                        column_index: self.mapping().arrow().index(),
                        len: measured_len,
                        expected,
                    },
                ),
            );
        }
        cell.append(buf);
        Ok(())
    }
}

/// Encodes measured rows of a bound batch, one after another.
fn encode_measured_rows(
    bound: &BoundDirectBatch<'_>,
    measured: &MeasuredDirectBatch,
    start_row: usize,
) -> (result: Result<(Vec<u8>, Vec<usize>)>)
    requires
        start_row + bound@.row_count <= measured@.row_count,
        measured@.column_count == bound@.column_count(),
    ensures
        match first_append_error(bound@, measured@, start_row as int, 0, 0) {
            Some(view) => result matches Err(error) && error@ == view,
            None => result matches Ok((bytes, offsets)) && bytes@ == bound@.payload().bytes
                && offsets@ == bound@.payload().row_token_offsets,
        },
{
    let ghost batch = bound@;
    let ghost start = start_row as int;
    let columns = bound.columns();
    let row_count: usize = bound.row_count();
    let mut bytes: Vec<u8> = Vec::new();
    let mut offsets: Vec<usize> = Vec::with_capacity(row_count);
    let mut row_index: usize = 0;
    assert(bytes@ =~= batch.rows_bytes(0));
    while row_index < row_count
        invariant
            row_index <= row_count,
            batch == bound@,
            batch.well_formed(),
            start == start_row,
            row_count == batch.row_count,
            bound_views(columns@) == batch.columns,
            start_row + row_count <= measured@.row_count,
            measured@.column_count == batch.column_count(),
            bytes@ == batch.rows_bytes(row_index as int),
            offsets@.len() == row_index,
            forall|r: int|
                0 <= r < row_index ==> #[trigger] offsets@[r] == batch.rows_bytes(r).len(),
            first_append_error(batch, measured@, start, 0, 0) == first_append_error(
                batch,
                measured@,
                start,
                row_index as int,
                0,
            ),
        decreases row_count - row_index,
    {
        offsets.push(bytes.len());
        let ghost before = bytes@;
        bytes.push(TDS_ROW_TOKEN);
        let mut column_index: usize = 0;
        assert(bytes@ =~= before + seq![TDS_ROW_TOKEN] + batch.cells_bytes(row_index as int, 0));
        while column_index < columns.len()
            invariant
                column_index <= columns@.len(),
                row_index < row_count,
                batch == bound@,
                batch.well_formed(),
                start == start_row,
                row_count == batch.row_count,
                bound_views(columns@) == batch.columns,
                start_row + row_count <= measured@.row_count,
                measured@.column_count == batch.column_count(),
                bytes@ == before + seq![TDS_ROW_TOKEN] + batch.cells_bytes(
                    row_index as int,
                    column_index as int,
                ),
                first_append_error(batch, measured@, start, 0, 0) == first_append_error(
                    batch,
                    measured@,
                    start,
                    row_index as int,
                    column_index as int,
                ),
            decreases columns.len() - column_index,
        {
            let column = &columns[column_index];
            assert(batch.columns[column_index as int] == column@);
            let measured_len: usize = match measured.cell_len(start_row + row_index, column_index) {
                Ok(measured_len) => measured_len,
                Err(error) => {
                    return Err(error);
                },
            };
            match column.append_cell(&mut bytes, row_index, measured_len) {
                Ok(()) => {},
                Err(error) => {
                    return Err(error);
                },
            }
            column_index += 1;
            assert(bytes@ =~= before + seq![TDS_ROW_TOKEN] + batch.cells_bytes(
                row_index as int,
                column_index as int,
            ));
        }
        row_index += 1;
        assert(bytes@ =~= batch.rows_bytes(row_index as int));
    }
    assert(offsets@ =~= batch.payload().row_token_offsets);
    Ok((bytes, offsets))
}

impl DirectEncoder {
    /// Encodes one measured range directly behind the rows of a buffer.
    ///
    /// On error the buffer keeps its contents.
    pub fn encode_measured_batch_range_into(
        &self,
        batch: &RecordBatch,
        measured: &MeasuredDirectBatch,
        start_row: usize,
        row_count: usize,
        buf: &mut Vec<u8>,
    ) -> (result: Result<RawRowsAppend>)
        ensures
            match append_outcome(self@, *batch, measured@, start_row, row_count) {
                Ok(payload) => result matches Ok(rows) && final(buf)@ == old(buf)@ + payload.bytes
                    && rows.row_token_offsets@ == payload.row_token_offsets && rows.byte_len
                    == payload.bytes.len(),
                Err(view) => result matches Err(error) && error@ == view && final(buf)@
                    == old(buf)@,
            },
    {
        match self.check_measured_range(batch, measured, start_row, row_count) {
            Ok(()) => {},
            Err(error) => {
                return Err(error);
            },
        }
        if row_count == 0 {
            let row_token_offsets: Vec<usize> = Vec::new();
            proof {
                assert(row_token_offsets@ =~= Seq::empty());
                assert(buf@ =~= buf@ + empty_payload().bytes);
            }
            return Ok(RawRowsAppend { row_token_offsets, byte_len: 0 });
        }
        let slice = batch.slice(start_row, row_count);
        proof {
            use_type_invariant(batch);
            lemma_slice_is_bound_rows(self@, *batch, start_row, row_count, slice);
        }
        let bound = match BoundDirectBatch::new(self, &slice) {
            Ok(bound) => bound,
            Err(error) => {
                return Err(error);
            },
        };
        match encode_measured_rows(&bound, measured, start_row) {
            Ok((bytes, row_token_offsets)) => {
                append_slice(buf, bytes.as_slice());
                Ok(RawRowsAppend { row_token_offsets, byte_len: bytes.len() })
            },
            Err(error) => Err(error),
        }
    }
}

} // verus!
