//! Batches whose columns are bound to their runtime arrays.

use vstd::prelude::*;

use crate::batch::{ColumnArray, RecordBatch};
use crate::diagnostic::{
    invalid_payload, outcome, payload_error, value_conversion_error, DiagnosticCode, ErrorView,
    Result,
};
use crate::direct::binding::{
    array_cells, bind_direct_column, binding_error, BoundColumn, BoundColumnView,
    BoundDirectColumn,
};
use crate::direct::cell::cell_bytes;
use crate::direct::encoder::{column_error, row_column_diagnostic, DirectEncoder, EncoderView};
use crate::direct::image::{lemma_bad_column, lemma_bad_row, BoundBatchView};
use crate::direct::layout::{RowLayout, RowLayoutView};
use crate::direct::plan::column_views;
use crate::direct::rows::{
    build_fixed_width_row_layout, cell_position, cell_position_outcome, layout_result,
    lemma_cell_index, lemma_cell_of_index, range_layout_outcome,
};
use crate::direct::wire::{splice, write_bytes};
use crate::mapping::mapping_views;
use crate::message::{Fault, MessageOf};

verus! {

/// The bound column of a planned column of an encoder.
pub open spec fn bind_outcome(
    encoder: EncoderView,
    arrays: Seq<ColumnArray>,
    index: int,
) -> core::result::Result<BoundColumnView, ErrorView> {
    let column = encoder.columns[index];
    if column.source_index >= arrays.len() {
        Err(
            column_error(
                column,
                0,
                DiagnosticCode::ValueTypeMismatch,
                MessageOf::Fault(Fault::DirectColumnOutside),
            ),
        )
    } else {
        let array = arrays[column.source_index as int];
        match binding_error(column, encoder.mappings[index], array) {
            Some(error) => Err(error),
            None => Ok(
                BoundColumnView {
                    plan: column,
                    mapping: encoder.mappings[index],
                    policy: encoder.policy(),
                    cells: array_cells(array),
                },
            ),
        }
    }
}

/// The error of the first planned column, from a column on, that cannot be bound.
pub open spec fn first_bind_error(
    encoder: EncoderView,
    arrays: Seq<ColumnArray>,
    index: int,
) -> Option<ErrorView>
    decreases encoder.columns.len() - index,
{
    if index < 0 || index >= encoder.columns.len() {
        None
    } else {
        match bind_outcome(encoder, arrays, index) {
            Err(error) => Some(error),
            Ok(_) => first_bind_error(encoder, arrays, index + 1),
        }
    }
}

/// The bound columns of an encoder.
pub open spec fn bound_columns(
    encoder: EncoderView,
    arrays: Seq<ColumnArray>,
) -> Seq<BoundColumnView> {
    Seq::new(
        encoder.columns.len(),
        |index: int| bind_outcome(encoder, arrays, index)->Ok_0,
    )
}

/// The outcome of binding a batch.
pub open spec fn bound_batch_outcome(encoder: EncoderView, batch: RecordBatch) -> core::result::Result<
    BoundBatchView,
    ErrorView,
> {
    match first_bind_error(encoder, batch.arrays(), 0) {
        Some(error) => Err(error),
        None => Ok(
            BoundBatchView {
                columns: bound_columns(encoder, batch.arrays()),
                row_count: batch.rows(),
            },
        ),
    }
}

/// The views of bound columns.
pub open spec fn bound_views(columns: Seq<BoundDirectColumn<'_>>) -> Seq<BoundColumnView> {
    columns.map_values(|column: BoundDirectColumn<'_>| column@)
}

/// Whether every bound column is of the variant of its planned encoding and of its array.
pub open spec fn are_variants_for(
    columns: Seq<BoundDirectColumn<'_>>,
    encoder: EncoderView,
    arrays: Seq<ColumnArray>,
) -> bool {
    forall|index: int|
        0 <= index < columns.len() ==> (#[trigger] columns[index]).is_variant_for(
            encoder.columns[index].encoding,
            arrays[encoder.columns[index].source_index as int],
        )
}

/// Batch whose columns are bound to their runtime arrays.
#[derive(Debug)]
pub struct BoundDirectBatch<'a> {
    columns: Vec<BoundDirectColumn<'a>>,
    row_count: usize,
}

impl<'a> View for BoundDirectBatch<'a> {
    type V = BoundBatchView;

    closed spec fn view(&self) -> BoundBatchView {
        BoundBatchView { columns: bound_views(self.columns@), row_count: self.row_count }
    }
}

impl<'a> BoundDirectBatch<'a> {
    /// The bound columns.
    pub closed spec fn columns_spec(self) -> Seq<BoundDirectColumn<'a>> {
        self.columns@
    }

    /// Every column has the batch's number of rows.
    #[verifier::type_invariant]
    pub open spec fn well_formed(self) -> bool {
        self@.well_formed()
    }

    /// Binds every planned column of an encoder to its array.
    pub fn new(encoder: &'a DirectEncoder, batch: &'a RecordBatch) -> (result: Result<Self>)
        ensures
            match bound_batch_outcome(encoder@, *batch) {
                Ok(view) => result matches Ok(bound) && bound@ == view && are_variants_for(
                    bound.columns_spec(),
                    encoder@,
                    batch.arrays(),
                ),
                Err(view) => result matches Err(error) && error@ == view,
            },
    {
        match bind_direct_columns(encoder, batch) {
            Ok(columns) => {
                let row_count: usize = batch.num_rows();
                proof {
                    use_type_invariant(batch);
                    lemma_bound_columns_have_rows(encoder@, *batch);
                }
                assert(columns@.len() == columns.len());
                Ok(BoundDirectBatch { columns, row_count })
            },
            Err(error) => Err(error),
        }
    }

    /// Returns the bound columns.
    pub fn columns(&self) -> (columns: &[BoundDirectColumn<'a>])
        ensures
            columns@ == self.columns_spec(),
            bound_views(columns@) == self@.columns,
            self@.well_formed(),
    {
        proof {
            use_type_invariant(self);
        }
        self.columns.as_slice()
    }

    /// Returns the number of rows.
    pub fn row_count(&self) -> (count: usize)
        ensures
            count == self@.row_count,
    {
        self.row_count
    }
}

/// The columns bound to the arrays of a batch have the batch's number of rows.
proof fn lemma_bound_columns_have_rows(encoder: EncoderView, batch: RecordBatch)
    requires
        batch.well_formed(),
        first_bind_error(encoder, batch.arrays(), 0) is None,
    ensures
        forall|index: int|
            0 <= index < encoder.columns.len() ==> (#[trigger] bound_columns(
                encoder,
                batch.arrays(),
            )[index]).cells.len() == batch.rows(),
{
    assert forall|index: int| 0 <= index < encoder.columns.len() implies (#[trigger] bound_columns(
        encoder,
        batch.arrays(),
    )[index]).cells.len() == batch.rows() by {
        lemma_no_bind_error(encoder, batch.arrays(), 0, index);
        assert(batch.arrays()[encoder.columns[index].source_index as int].row_count()
            == batch.rows());
    }
}

/// Without an error from a column on, every such column is bound.
proof fn lemma_no_bind_error(
    encoder: EncoderView,
    arrays: Seq<ColumnArray>,
    from: int,
    index: int,
)
    requires
        0 <= from <= index < encoder.columns.len(),
        first_bind_error(encoder, arrays, from) is None,
    ensures
        bind_outcome(encoder, arrays, index) is Ok,
    decreases index - from,
{
    if from < index {
        lemma_no_bind_error(encoder, arrays, from + 1, index);
    }
}

/// Binds every planned column of an encoder to its array.
pub fn bind_direct_columns<'a>(encoder: &'a DirectEncoder, batch: &'a RecordBatch) -> (result:
    Result<Vec<BoundDirectColumn<'a>>>)
    ensures
        match first_bind_error(encoder@, batch.arrays(), 0) {
            Some(view) => result matches Err(error) && error@ == view,
            None => result matches Ok(columns) && bound_views(columns@) == bound_columns(
                encoder@,
                batch.arrays(),
            ) && are_variants_for(columns@, encoder@, batch.arrays()) && forall|index: int|
                0 <= index < columns@.len() ==> (#[trigger] columns@[index]).column_spec().plan@
                    == encoder@.columns[index],
        },
{
    let plan = encoder.plan();
    let planned = plan.columns();
    let mappings = encoder.mappings();
    let arrays = batch.columns();
    let policy = encoder.runtime_context().nanosecond_policy();
    let ghost view = encoder@;
    let mut columns: Vec<BoundDirectColumn<'a>> = Vec::with_capacity(planned.len());
    let mut index: usize = 0;
    while index < planned.len()
        invariant
            index <= planned.len(),
            view == encoder@,
            view.follows_mappings(),
            column_views(planned@) == view.columns,
            mapping_views(mappings@) == view.mappings,
            arrays@ == batch.arrays(),
            policy == view.policy(),
            columns@.len() == index,
            first_bind_error(view, arrays@, 0) == first_bind_error(view, arrays@, index as int),
            forall|i: int|
                0 <= i < index ==> bind_outcome(view, arrays@, i) == Ok::<_, ErrorView>(
                    (#[trigger] columns@[i])@,
                ),
            are_variants_for(columns@, view, arrays@),
            forall|i: int|
                0 <= i < index ==> (#[trigger] columns@[i]).column_spec().plan@ == view.columns[i],
        decreases planned.len() - index,
    {
        let plan = &planned[index];
        proof {
            assert(view.columns[index as int] == plan@);
            assert(view.mappings[index as int] == mappings@[index as int]@);
        }
        if plan.source_index() >= arrays.len() {
            return Err(
                value_conversion_error(
                    row_column_diagnostic(
                        plan,
                        0,
                        DiagnosticCode::ValueTypeMismatch,
                        MessageOf::Fault(Fault::DirectColumnOutside),
                    ),
                ),
            );
        }
        let column = BoundColumn { plan, mapping: &mappings[index], nanosecond_policy: policy };
        let bound = match bind_direct_column(&arrays[plan.source_index()], column) {
            Ok(bound) => bound,
            Err(error) => {
                return Err(error);
            },
        };
        columns.push(bound);
        index += 1;
    }
    assert(bound_views(columns@) =~= bound_columns(view, arrays@));
    Ok(columns)
}

/// A matrix of cell lengths in which the first rows of a column are set.
pub open spec fn with_column_lengths(
    lengths: Seq<usize>,
    column: BoundColumnView,
    column_index: int,
    column_count: int,
    rows: int,
) -> Seq<usize> {
    Seq::new(
        lengths.len(),
        |index: int|
            if index % column_count == column_index && index / column_count < rows {
                cell_bytes(column.outcome(index / column_count)->Ok_0).len() as usize
            } else {
                lengths[index]
            },
    )
}

/// The error of a result.
pub open spec fn error_of(result: Result<()>) -> Option<ErrorView> {
    match result {
        Ok(_) => None,
        Err(error) => Some(error@),
    }
}

/// The error of a column: that of its first bad row.
pub open spec fn column_outcome(column: BoundColumnView) -> Option<ErrorView> {
    if column.bad_row(0) < column.cells.len() {
        Some(column.outcome(column.bad_row(0))->Err_0)
    } else {
        None
    }
}

/// The place and the bytes of one cell of a column, where a layout places it as measured.
pub open spec fn fill_step(
    column: BoundColumnView,
    column_index: usize,
    column_count: usize,
    layout: RowLayoutView,
    buffer_len: nat,
    row: int,
) -> core::result::Result<(int, Seq<u8>), ErrorView> {
    match cell_position_outcome(layout.cell_positions, row as usize, column_index, column_count) {
        Err(error) => Err(error),
        Ok(position) => match column.outcome(row) {
            Err(error) => Err(error),
            Ok(cell) => {
                let bytes = cell_bytes(cell);
                if bytes.len() != position.len {
                    Err(
                        payload_error(
                            Fault::MeasuredCellLength {
                                row_index: row as usize,
                                column_index,
                                len: position.len,
                                expected: bytes.len() as usize,
                            },
                        ),
                    )
                } else if position.offset + position.len > usize::MAX {
                    Err(payload_error(Fault::CellEndOverflow))
                } else if position.offset + position.len > buffer_len {
                    Err(payload_error(Fault::CellRangeOutside))
                } else {
                    Ok((position.offset as int, bytes))
                }
            },
        },
    }
}

/// The buffer after the rows of a column from a row on are filled, and the error that ended the
/// filling.
pub open spec fn fill_column_from(
    column: BoundColumnView,
    column_index: usize,
    column_count: usize,
    layout: RowLayoutView,
    bytes: Seq<u8>,
    row: int,
) -> (Seq<u8>, Option<ErrorView>)
    decreases column.cells.len() - row,
{
    if row < 0 || row >= column.cells.len() {
        (bytes, None)
    } else {
        match fill_step(column, column_index, column_count, layout, bytes.len(), row) {
            Err(error) => (bytes, Some(error)),
            Ok((offset, part)) => fill_column_from(
                column,
                column_index,
                column_count,
                layout,
                splice(bytes, offset, part),
                row + 1,
            ),
        }
    }
}

/// The buffer after the columns from a column on are filled, and the error that ended the filling.
pub open spec fn fill_columns_from(
    batch: BoundBatchView,
    layout: RowLayoutView,
    bytes: Seq<u8>,
    column: int,
) -> (Seq<u8>, Option<ErrorView>)
    decreases batch.columns.len() - column,
{
    if column < 0 || column >= batch.columns.len() {
        (bytes, None)
    } else {
        let (filled, error) = fill_column_from(
            batch.columns[column],
            column as usize,
            batch.columns.len() as usize,
            layout,
            bytes,
            0,
        );
        match error {
            Some(error) => (filled, Some(error)),
            None => fill_columns_from(batch, layout, filled, column + 1),
        }
    }
}

impl<'a> BoundDirectColumn<'a> {
    /// Measures every cell of the column into a row-major matrix of cell lengths.
    pub fn measure_cell_lengths(
        &self,
        column_index: usize,
        column_count: usize,
        cell_lengths: &mut [usize],
    ) -> (result: Result<()>)
        requires
            column_index < column_count,
            self@.cells.len() * column_count <= old(cell_lengths)@.len(),
        ensures
            error_of(result) == column_outcome(self@),
            final(cell_lengths)@ == with_column_lengths(
                old(cell_lengths)@,
                self@,
                column_index as int,
                column_count as int,
                self@.bad_row(0),
            ),
    {
        let ghost before = cell_lengths@;
        let ghost columns = column_count as int;
        let matrix_len: usize = cell_lengths.len();
        let row_count: usize = self.row_count();
        let mut row_index: usize = 0;
        proof {
            lemma_bad_row(self@, 0);
            let unset = with_column_lengths(before, self@, column_index as int, columns, 0);
            assert forall|i: int| 0 <= i < before.len() implies #[trigger] unset[i]
                == before[i] by {
                assert(i / columns >= 0) by (nonlinear_arith)
                    requires
                        i >= 0,
                        columns > 0,
                ;
            }
            assert(cell_lengths@ =~= unset);
        }
        while row_index < row_count
            invariant
                row_index <= row_count,
                row_count == self@.cells.len(),
                column_index < column_count,
                columns == column_count,
                row_count * column_count <= matrix_len,
                matrix_len == before.len(),
                before == old(cell_lengths)@,
                self@.bad_row(0) == self@.bad_row(row_index as int),
                cell_lengths@ == with_column_lengths(
                    before,
                    self@,
                    column_index as int,
                    columns,
                    row_index as int,
                ),
            decreases row_count - row_index,
        {
            let cell = match self.cell(row_index) {
                Ok(cell) => cell,
                Err(error) => {
                    return Err(error);
                },
            };
            proof {
                lemma_cell_index(
                    columns,
                    row_count as int,
                    row_index as int,
                    column_index as int,
                );
            }
            let index: usize = row_index * column_count + column_index;
            cell_lengths[index] = cell.len();
            proof {
                let next = with_column_lengths(
                    before,
                    self@,
                    column_index as int,
                    columns,
                    row_index + 1,
                );
                assert forall|i: int| 0 <= i < before.len() implies #[trigger] cell_lengths@[i]
                    == next[i] by {
                    if i % columns == column_index && i / columns == row_index {
                        assert(i == row_index * columns + column_index) by {
                            vstd::arithmetic::div_mod::lemma_fundamental_div_mod(i, columns);
                            assert(columns * (i / columns) == (i / columns) * columns)
                                by (nonlinear_arith);
                        }
                    }
                }
                assert(cell_lengths@ =~= next);
            }
            row_index += 1;
        }
        Ok(())
    }

    /// Fills every cell of the column into a rows payload.
    pub fn fill_column(
        &self,
        column_index: usize,
        column_count: usize,
        layout: &RowLayout,
        bytes: &mut [u8],
    ) -> (result: Result<()>)
        ensures
            (final(bytes)@, error_of(result)) == fill_column_from(
                self@,
                column_index,
                column_count,
                layout@,
                old(bytes)@,
                0,
            ),
    {
        let ghost before = bytes@;
        let row_count: usize = self.row_count();
        let mut row_index: usize = 0;
        while row_index < row_count
            invariant
                row_index <= row_count,
                row_count == self@.cells.len(),
                before == old(bytes)@,
                fill_column_from(self@, column_index, column_count, layout@, before, 0)
                    == fill_column_from(
                    self@,
                    column_index,
                    column_count,
                    layout@,
                    bytes@,
                    row_index as int,
                ),
            decreases row_count - row_index,
        {
            match self.fill_cell(column_index, column_count, row_index, layout, bytes) {
                Ok(()) => {},
                Err(error) => {
                    return Err(error);
                },
            }
            row_index += 1;
        }
        Ok(())
    }

    /// Fills one cell of the column into a rows payload.
    pub fn fill_cell(
        &self,
        column_index: usize,
        column_count: usize,
        row_index: usize,
        layout: &RowLayout,
        bytes: &mut [u8],
    ) -> (result: Result<()>)
        requires
            row_index < self@.cells.len(),
        ensures
            match fill_step(
                self@,
                column_index,
                column_count,
                layout@,
                old(bytes)@.len(),
                row_index as int,
            ) {
                Ok((offset, part)) => result is Ok && final(bytes)@ == splice(
                    old(bytes)@,
                    offset,
                    part,
                ),
                Err(view) => outcome(result) == Err::<(), _>(view) && final(bytes)@ == old(bytes)@,
            },
    {
        let position = match cell_position(layout, row_index, column_index, column_count) {
            Ok(position) => position,
            Err(error) => {
                return Err(error);
            },
        };
        let cell = match self.cell(row_index) {
            Ok(cell) => cell,
            Err(error) => {
                return Err(error);
            },
        };
        let expected: usize = cell.len();
        if position.len() != expected {
            return Err(
                invalid_payload(
                    Fault::MeasuredCellLength {
                        row_index,
                        column_index,
                        len: position.len(),
                        expected,
                    },
                ),
            );
        }
        let end: usize = match position.offset().checked_add(expected) {
            Some(end) => end,
            None => {
                return Err(invalid_payload(Fault::CellEndOverflow));
            },
        };
        if end > bytes.len() {
            return Err(invalid_payload(Fault::CellRangeOutside));
        }
        let mut part: Vec<u8> = Vec::with_capacity(expected);
        cell.append(&mut part);
        assert(part@ =~= cell_bytes(cell@));
        write_bytes(bytes, position.offset(), part.as_slice());
        Ok(())
    }
}

impl<'a> BoundDirectBatch<'a> {
    /// Measures every cell into a row-major matrix of cell lengths.
    pub fn measure_cell_lengths(&self) -> (result: Result<Vec<usize>>)
        ensures
            match self@.lengths_outcome() {
                Ok(lengths) => result matches Ok(found) && found@ == lengths,
                Err(view) => result matches Err(error) && error@ == view,
            },
    {
        proof {
            use_type_invariant(self);
            lemma_bad_column(self@, 0);
        }
        let ghost batch = self@;
        let ghost columns = batch.column_count();
        let column_count: usize = self.columns.len();
        let row_count: usize = self.row_count;
        let cell_count: usize = match row_count.checked_mul(column_count) {
            Some(cell_count) => cell_count,
            None => {
                return Err(invalid_payload(Fault::CellCountOverflow));
            },
        };
        let mut cell_lengths: Vec<usize> = vec![0; cell_count];
        let mut column_index: usize = 0;
        while column_index < column_count
            invariant
                column_index <= column_count,
                batch == self@,
                batch.well_formed(),
                columns == batch.column_count(),
                column_count == columns,
                column_count == self.columns@.len(),
                row_count == batch.row_count,
                cell_count == row_count * column_count,
                cell_lengths@.len() == cell_count,
                batch.bad_column(0) == batch.bad_column(column_index as int),
                forall|i: int|
                    0 <= i < cell_count && i % columns < column_index ==> #[trigger] cell_lengths@[i]
                        == batch.lengths()[i],
            decreases column_count - column_index,
        {
            let ghost before = cell_lengths@;
            let column = &self.columns[column_index];
            proof {
                assert(batch.columns[column_index as int] == column@);
                lemma_bad_row(column@, 0);
            }
            match column.measure_cell_lengths(
                column_index,
                column_count,
                cell_lengths.as_mut_slice(),
            ) {
                Ok(()) => {},
                Err(error) => {
                    return Err(error);
                },
            }
            proof {
                assert forall|i: int|
                    0 <= i < cell_count && i % columns < column_index + 1 implies #[trigger]
                cell_lengths@[i] == batch.lengths()[i] by {
                    lemma_cell_of_index(columns, row_count as int, i);
                    if i % columns < column_index {
                        assert(cell_lengths@[i] == before[i]);
                    }
                }
            }
            column_index += 1;
        }
        proof {
            assert forall|i: int| 0 <= i < cell_count implies #[trigger] cell_lengths@[i]
                == batch.lengths()[i] by {
                lemma_cell_of_index(columns, row_count as int, i);
            }
            assert(cell_lengths@ =~= batch.lengths());
        }
        Ok(cell_lengths)
    }

    /// Lays out all rows.
    pub fn measure_layout(&self) -> (result: Result<RowLayout>)
        ensures
            layout_result(
                result,
                match self@.lengths_outcome() {
                    Ok(lengths) => range_layout_outcome(
                        lengths,
                        self@.columns.len() as usize,
                        0,
                        self@.row_count,
                    ),
                    Err(error) => Err(error),
                },
            ),
    {
        proof {
            use_type_invariant(self);
        }
        match self.measure_cell_lengths() {
            Ok(cell_lengths) => build_fixed_width_row_layout(
                self.row_count,
                self.columns.len(),
                cell_lengths.as_slice(),
            ),
            Err(error) => Err(error),
        }
    }

    /// Fills every column into a rows payload.
    pub fn fill_columns(&self, layout: &RowLayout, bytes: &mut [u8]) -> (result: Result<()>)
        ensures
            (final(bytes)@, error_of(result)) == fill_columns_from(
                self@,
                layout@,
                old(bytes)@,
                0,
            ),
    {
        let ghost before = bytes@;
        let column_count: usize = self.columns.len();
        let mut column_index: usize = 0;
        while column_index < column_count
            invariant
                column_index <= column_count,
                column_count == self.columns@.len(),
                before == old(bytes)@,
                fill_columns_from(self@, layout@, before, 0) == fill_columns_from(
                    self@,
                    layout@,
                    bytes@,
                    column_index as int,
                ),
            decreases column_count - column_index,
        {
            let column = &self.columns[column_index];
            assert(self@.columns[column_index as int] == column@);
            match column.fill_column(column_index, column_count, layout, bytes) {
                Ok(()) => {},
                Err(error) => {
                    return Err(error);
                },
            }
            column_index += 1;
        }
        Ok(())
    }
}

} // verus!
