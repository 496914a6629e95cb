//! Laws of encoded rows.

use vstd::prelude::*;

use crate::arrow_type::same_type;
use crate::batch::{ColumnArray, RecordBatch};
use crate::diagnostic::ErrorView;
use crate::direct::append::append_outcome;
use crate::direct::assemble::law_only_own_layout_fills;
use crate::direct::binding::{array_cells, binding_error, BoundColumnView};
use crate::direct::bound::{bind_outcome, bound_batch_outcome, first_bind_error};
use crate::direct::cell::{cell_bytes, DirectCellView};
use crate::direct::encode::{
    batch_rows, bound_rows_outcome, encode_measured_outcome, encode_outcome, encode_range_outcome,
    encoding_shape_error, lemma_bound_batch_is_well_formed, measure_outcome,
};
use crate::direct::encoder::{encoder_outcome, EncoderView};
use crate::direct::image::{
    cell_start, law_first_error_is_column_major, law_measured_length_is_encoded_length,
    law_payload_holds_cells, lemma_length_at, row_start,
};
use crate::direct::laws::{law_append_is_encode, law_full_range_is_batch};
use crate::direct::measure::{
    is_measured, law_measured_iff_payload_fits, lemma_range_fits, MeasuredView,
};
use crate::direct::payload::PayloadView;
use crate::direct::plan::{column_of, current_encoding, CurrentDirectMappings};
use crate::direct::rows::row_major_layout;
use crate::direct::value::direct_cell_outcome;
use crate::laws::batches::{
    is_encoded_column_of, law_batches_have_the_shape_of_their_mappings,
};
use crate::laws::plans::{is_planned_from, law_encoders_plan_every_mapping};
use crate::laws::values::{is_bytes_type, is_text_type};
use crate::mapping::SchemaMappingView;

verus! {

/// The cell of a value of a batch, where rows are counted from a first one on.
pub open spec fn encoded(
    encoder: EncoderView,
    batch: RecordBatch,
    start: int,
    row: int,
    column: int,
) -> core::result::Result<DirectCellView, ErrorView> {
    direct_cell_outcome(
        current_encoding(encoder.mappings[column])->0,
        encoder.mappings[column],
        encoder.context.plan_options.nanosecond_policy,
        row as usize,
        batch.arrays()[column].cell_at(start + row),
    )
}

/// The bytes of the cell of a value.
pub open spec fn part(
    encoder: EncoderView,
    batch: RecordBatch,
    start: int,
    row: int,
    column: int,
) -> Seq<u8> {
    cell_bytes(encoded(encoder, batch, start, row, column)->Ok_0)
}

/// The bytes of the cells of a row before a column.
pub open spec fn bytes_before(
    encoder: EncoderView,
    batch: RecordBatch,
    start: int,
    row: int,
    column: int,
) -> int
    decreases column,
{
    if column <= 0 {
        0
    } else {
        bytes_before(encoder, batch, start, row, column - 1) + part(
            encoder,
            batch,
            start,
            row,
            column - 1,
        ).len()
    }
}

/// The bytes of the rows before a row: a token and the cells of each.
pub open spec fn rows_before(
    encoder: EncoderView,
    batch: RecordBatch,
    start: int,
    row: int,
) -> int
    decreases row,
{
    if row <= 0 {
        0
    } else {
        rows_before(encoder, batch, start, row - 1) + 1 + bytes_before(
            encoder,
            batch,
            start,
            row - 1,
            encoder.mappings.len() as int,
        )
    }
}

/// Whether every value of some rows has a cell.
pub open spec fn all_encoded(
    encoder: EncoderView,
    batch: RecordBatch,
    start: int,
    count: int,
) -> bool {
    forall|row: int, column: int|
        0 <= row < count && 0 <= column < encoder.mappings.len() ==> (#[trigger] encoded(
            encoder,
            batch,
            start,
            row,
            column,
        )) is Ok
}

/// Whether a payload is that of some rows: each starts with a token where the offset says, and its
/// cells follow, one after another.
pub open spec fn holds_rows(
    payload: PayloadView,
    encoder: EncoderView,
    batch: RecordBatch,
    start: int,
    count: int,
) -> bool {
    &&& payload.bytes.len() == rows_before(encoder, batch, start, count)
    &&& payload.row_token_offsets.len() == count
    &&& forall|row: int|
        #![trigger payload.row_token_offsets[row]]
        0 <= row < count ==> payload.row_token_offsets[row] == rows_before(
            encoder,
            batch,
            start,
            row,
        ) && payload.bytes[rows_before(encoder, batch, start, row)] == 0xD1
    &&& forall|row: int, column: int|
        #![trigger part(encoder, batch, start, row, column)]
        0 <= row < count && 0 <= column < encoder.mappings.len() ==> {
            let at = rows_before(encoder, batch, start, row) + 1 + bytes_before(
                encoder,
                batch,
                start,
                row,
                column,
            );
            payload.bytes.subrange(at, at + part(encoder, batch, start, row, column).len())
                == part(encoder, batch, start, row, column)
        }
}

/// Whether an encoder was planned for mappings, and a batch has their shape.
pub open spec fn is_ready(encoder: EncoderView, batch: RecordBatch) -> bool {
    &&& encoder_outcome(CurrentDirectMappings, encoder.mappings, encoder.context) == Ok::<
        _,
        ErrorView,
    >(encoder)
    &&& encoder.mappings.len() <= usize::MAX
    &&& batch.well_formed()
    &&& encoding_shape_error(batch, encoder.mappings) is None
}

/// An array of the planned type, or of another layout of its family, is bound.
proof fn lemma_binds(mapping: SchemaMappingView, array: ColumnArray)
    requires
        current_encoding(mapping) is Some,
        same_type(array.type_view(), mapping.arrow.data_type) || is_text_type(array.type_view())
            && is_text_type(mapping.arrow.data_type) || is_bytes_type(array.type_view())
            && is_bytes_type(mapping.arrow.data_type),
    ensures
        binding_error(column_of(mapping, current_encoding(mapping)->0), mapping, array) is None,
{
}

/// Every column of a batch that has the shape of an encoder is bound.
pub proof fn lemma_bound(encoder: EncoderView, batch: RecordBatch, position: int)
    requires
        is_ready(encoder, batch),
        0 <= position <= encoder.mappings.len(),
    ensures
        first_bind_error(encoder, batch.arrays(), position) is None,
        forall|i: int|
            position <= i < encoder.mappings.len() ==> #[trigger] bind_outcome(
                encoder,
                batch.arrays(),
                i,
            ) == Ok::<_, ErrorView>(
                BoundColumnView {
                    plan: encoder.columns[i],
                    mapping: encoder.mappings[i],
                    policy: encoder.context.plan_options.nanosecond_policy,
                    cells: array_cells(batch.arrays()[i]),
                },
            ),
    decreases encoder.mappings.len() - position,
{
    law_encoders_plan_every_mapping(encoder.mappings, encoder.context);
    law_batches_have_the_shape_of_their_mappings(batch, encoder.mappings);
    if position < encoder.mappings.len() {
        lemma_bound(encoder, batch, position + 1);
        assert(is_encoded_column_of(batch, encoder.mappings, position));
        assert(is_planned_from(encoder.columns[position], encoder.mappings[position]));
        let mapping = encoder.mappings[position];
        lemma_binds(mapping, batch.arrays()[position]);
        assert(encoder.columns[position] =~= column_of(mapping, current_encoding(mapping)->0));
    }
}

/// The rows of a bound batch are those of the batch.
proof fn lemma_rows(encoder: EncoderView, batch: RecordBatch, start: usize, count: usize)
    requires
        is_ready(encoder, batch),
        start + count <= batch.rows(),
    ensures
        encoder.columns.len() == encoder.mappings.len(),
        bound_rows_outcome(encoder, batch, start, count) is Ok,
        ({
            let rows = bound_rows_outcome(encoder, batch, start, count)->Ok_0;
            &&& rows.well_formed()
            &&& rows.row_count == count
            &&& rows.column_count() == encoder.mappings.len()
            &&& forall|row: int, column: int|
                #![trigger encoded(encoder, batch, start as int, row, column)]
                #![trigger rows.columns[column].outcome(row)]
                0 <= row < count && 0 <= column < encoder.mappings.len()
                    ==> rows.columns[column].outcome(row) == encoded(
                    encoder,
                    batch,
                    start as int,
                    row,
                    column,
                )
        }),
{
    law_encoders_plan_every_mapping(encoder.mappings, encoder.context);
    law_batches_have_the_shape_of_their_mappings(batch, encoder.mappings);
    lemma_bound(encoder, batch, 0);
    lemma_bound_batch_is_well_formed(encoder, batch);
    let bound = bound_batch_outcome(encoder, batch)->Ok_0;
    let rows = batch_rows(bound, start, count);
    reveal(BoundColumnView::outcome);
    assert forall|column: int| 0 <= column < rows.columns.len() implies (
    #[trigger] rows.columns[column]).cells.len() == rows.row_count by {
        assert(bound.columns[column].cells.len() == bound.row_count);
    }
    assert forall|row: int, column: int|
        #![trigger rows.columns[column].outcome(row)]
        0 <= row < count && 0 <= column < encoder.mappings.len() implies
        rows.columns[column].outcome(row) == encoded(
        encoder,
        batch,
        start as int,
        row,
        column,
    ) by {
        assert(bind_outcome(encoder, batch.arrays(), column) is Ok);
        assert(is_planned_from(encoder.columns[column], encoder.mappings[column]));
        assert(bound.columns[column].cells.len() == bound.row_count);
        assert(rows.columns[column].cells[row] == batch.arrays()[column].cell_at(start + row));
    }
}

/// The bytes of the cells of a row before a column.
proof fn lemma_bytes_before(
    encoder: EncoderView,
    batch: RecordBatch,
    start: usize,
    count: usize,
    row: int,
    column: int,
)
    requires
        is_ready(encoder, batch),
        start + count <= batch.rows(),
        0 <= row < count,
        0 <= column <= encoder.mappings.len(),
    ensures
        bound_rows_outcome(encoder, batch, start, count)->Ok_0.cells_bytes(row, column).len()
            == bytes_before(encoder, batch, start as int, row, column),
    decreases column,
{
    lemma_rows(encoder, batch, start, count);
    if column > 0 {
        lemma_bytes_before(encoder, batch, start, count, row, column - 1);
        let rows = bound_rows_outcome(encoder, batch, start, count)->Ok_0;
        assert(rows.columns[column - 1].outcome(row) == encoded(
            encoder,
            batch,
            start as int,
            row,
            column - 1,
        ));
    }
}

/// The bytes of the rows before a row.
proof fn lemma_rows_before(
    encoder: EncoderView,
    batch: RecordBatch,
    start: usize,
    count: usize,
    row: int,
)
    requires
        is_ready(encoder, batch),
        start + count <= batch.rows(),
        0 <= row <= count,
    ensures
        bound_rows_outcome(encoder, batch, start, count)->Ok_0.rows_bytes(row).len()
            == rows_before(encoder, batch, start as int, row),
    decreases row,
{
    if row > 0 {
        lemma_rows(encoder, batch, start, count);
        lemma_rows_before(encoder, batch, start, count, row - 1);
        lemma_bytes_before(
            encoder,
            batch,
            start,
            count,
            row - 1,
            encoder.mappings.len() as int,
        );
    }
}

/// The payload of bound rows is that of the rows of the batch.
proof fn lemma_payload(encoder: EncoderView, batch: RecordBatch, start: usize, count: usize)
    requires
        is_ready(encoder, batch),
        start + count <= batch.rows(),
        rows_before(encoder, batch, start as int, count as int) <= usize::MAX,
    ensures
        holds_rows(
            bound_rows_outcome(encoder, batch, start, count)->Ok_0.payload(),
            encoder,
            batch,
            start as int,
            count as int,
        ),
{
    lemma_rows(encoder, batch, start, count);
    lemma_rows_before(encoder, batch, start, count, count as int);
    let rows = bound_rows_outcome(encoder, batch, start, count)->Ok_0;
    let payload = rows.payload();
    assert forall|row: int|
        #![trigger payload.row_token_offsets[row]]
        0 <= row < count implies payload.row_token_offsets[row] == rows_before(
        encoder,
        batch,
        start as int,
        row,
    ) && payload.bytes[rows_before(encoder, batch, start as int, row)] == 0xD1 by {
        lemma_rows_before(encoder, batch, start, count, row);
        law_payload_holds_cells(rows, row, 0);
        assert(row_start(rows, row) == rows_before(encoder, batch, start as int, row));
    }
    assert forall|row: int, column: int|
        #![trigger part(encoder, batch, start as int, row, column)]
        0 <= row < count && 0 <= column < encoder.mappings.len() implies {
        let at = rows_before(encoder, batch, start as int, row) + 1 + bytes_before(
            encoder,
            batch,
            start as int,
            row,
            column,
        );
        payload.bytes.subrange(at, at + part(encoder, batch, start as int, row, column).len())
            == part(encoder, batch, start as int, row, column)
    } by {
        lemma_rows_before(encoder, batch, start, count, row);
        lemma_bytes_before(encoder, batch, start, count, row, column);
        law_payload_holds_cells(rows, row, column);
        assert(rows.columns[column].outcome(row) == encoded(
            encoder,
            batch,
            start as int,
            row,
            column,
        ));
        assert(cell_start(rows, row, column) == rows_before(encoder, batch, start as int, row) + 1
            + bytes_before(encoder, batch, start as int, row, column));
    }
}

/// Some rows of a batch are encoded as they stand: a token and the cells of each, in order. They
/// are encoded exactly when every value of theirs has a cell and memory can hold the bytes.
pub proof fn law_encoded_rows_are_the_rows(
    encoder: EncoderView,
    batch: RecordBatch,
    start: usize,
    count: usize,
)
    requires
        is_ready(encoder, batch),
        start + count <= batch.rows(),
    ensures
        ({
            let found = encode_range_outcome(encoder, batch, start, count);
            &&& found is Ok <==> all_encoded(encoder, batch, start as int, count as int) && count
                * encoder.mappings.len() <= usize::MAX && rows_before(
                encoder,
                batch,
                start as int,
                count as int,
            ) <= usize::MAX
            &&& found matches Ok(payload) ==> holds_rows(
                payload,
                encoder,
                batch,
                start as int,
                count as int,
            )
        }),
        start == 0 && count == batch.rows() ==> encode_outcome(encoder, batch)
            == encode_range_outcome(encoder, batch, start, count),
{
    lemma_rows(encoder, batch, start, count);
    lemma_rows_before(encoder, batch, start, count, count as int);
    law_full_range_is_batch(encoder, batch);
    let rows = bound_rows_outcome(encoder, batch, start, count)->Ok_0;
    law_first_error_is_column_major(rows);
    lemma_convertible(encoder, batch, start, count);
    assert(rows.row_count * rows.column_count() == count * encoder.mappings.len());
    if count == 0 {
        assert(0 * encoder.mappings.len() == 0);
    }
    if rows_before(encoder, batch, start as int, count as int) <= usize::MAX {
        lemma_payload(encoder, batch, start, count);
    }
}

/// Bound rows convert where those of the batch have cells.
proof fn lemma_convertible(encoder: EncoderView, batch: RecordBatch, start: usize, count: usize)
    requires
        is_ready(encoder, batch),
        start + count <= batch.rows(),
    ensures
        bound_rows_outcome(encoder, batch, start, count)->Ok_0.is_convertible() <==> all_encoded(
            encoder,
            batch,
            start as int,
            count as int,
        ),
{
    lemma_rows(encoder, batch, start, count);
    let rows = bound_rows_outcome(encoder, batch, start, count)->Ok_0;
    if rows.is_convertible() {
        assert forall|row: int, column: int|
            0 <= row < count && 0 <= column < encoder.mappings.len() implies (#[trigger] encoded(
            encoder,
            batch,
            start as int,
            row,
            column,
        )) is Ok by {
            assert(rows.columns[column].outcome(row) is Ok);
        }
    }
    if all_encoded(encoder, batch, start as int, count as int) {
        assert forall|row: int, column: int|
            0 <= row < rows.row_count && 0 <= column < rows.column_count() implies (
        #[trigger] rows.columns[column].outcome(row)) is Ok by {
            assert(encoded(encoder, batch, start as int, row, column) is Ok);
        }
    }
}

/// Where some value has no cell, the error is that of the first one: columns count before rows.
pub proof fn law_errors_are_those_of_the_first_column(
    encoder: EncoderView,
    batch: RecordBatch,
    start: usize,
    count: usize,
)
    requires
        is_ready(encoder, batch),
        start + count <= batch.rows(),
        count * encoder.mappings.len() <= usize::MAX,
        !all_encoded(encoder, batch, start as int, count as int),
    ensures
        encode_range_outcome(encoder, batch, start, count) is Err,
        exists|row: int, column: int|
            0 <= row < count && 0 <= column < encoder.mappings.len() && #[trigger] encoded(
                encoder,
                batch,
                start as int,
                row,
                column,
            ) == Err::<DirectCellView, _>(
                encode_range_outcome(encoder, batch, start, count)->Err_0,
            ) && forall|r: int, c: int|
                0 <= r < count && (0 <= c < column || c == column && r < row) ==> (
                #[trigger] encoded(encoder, batch, start as int, r, c)) is Ok,
{
    lemma_rows(encoder, batch, start, count);
    lemma_convertible(encoder, batch, start, count);
    let rows = bound_rows_outcome(encoder, batch, start, count)->Ok_0;
    law_first_error_is_column_major(rows);
    assert(rows.row_count * rows.column_count() == count * encoder.mappings.len());
    let error = rows.error()->0;
    let (row, column) = choose|row: int, column: int|
        {
            &&& 0 <= row < rows.row_count
            &&& 0 <= column < rows.column_count()
            &&& #[trigger] rows.columns[column].outcome(row) == Err::<DirectCellView, _>(error)
            &&& forall|r: int, c: int|
                0 <= r < rows.row_count && (0 <= c < column || c == column && r < row) ==> (
                #[trigger] rows.columns[c].outcome(r)) is Ok
        };
    assert(encoded(encoder, batch, start as int, row, column) == Err::<DirectCellView, _>(error));
    assert forall|r: int, c: int|
        0 <= r < count && (0 <= c < column || c == column && r < row) implies (
    #[trigger] encoded(encoder, batch, start as int, r, c)) is Ok by {
        assert(rows.columns[c].outcome(r) is Ok);
    }
    assert(count > 0);
}

/// A batch measures exactly when it encodes, and the length of a cell is the number of its bytes.
pub proof fn law_measured_lengths_are_those_of_the_cells(encoder: EncoderView, batch: RecordBatch)
    requires
        is_ready(encoder, batch),
    ensures
        measure_outcome(encoder, batch) is Ok <==> encode_outcome(encoder, batch) is Ok,
        measure_outcome(encoder, batch) matches Ok(measured) ==> measured.row_count == batch.rows()
            && measured.column_count == encoder.mappings.len() && measured.cell_lengths.len()
            == batch.rows() * encoder.mappings.len() && forall|row: int, column: int|
            #![trigger part(encoder, batch, 0, row, column)]
            0 <= row < batch.rows() && 0 <= column < encoder.mappings.len()
                ==> measured.cell_lengths[row * encoder.mappings.len() + column] == part(
                encoder,
                batch,
                0,
                row,
                column,
            ).len(),
{
    let count = batch.rows();
    lemma_rows(encoder, batch, 0, count);
    law_encoded_rows_are_the_rows(encoder, batch, 0, count);
    lemma_convertible(encoder, batch, 0, count);
    let rows = bound_rows_outcome(encoder, batch, 0, count)->Ok_0;
    let bound = bound_batch_outcome(encoder, batch)->Ok_0;
    lemma_bound(encoder, batch, 0);
    lemma_bound_batch_is_well_formed(encoder, batch);
    assert forall|i: int| 0 <= i < bound.columns.len() implies #[trigger] rows.columns[i]
        == bound.columns[i] by {
        assert(bound.columns[i].cells.len() == batch.rows());
        assert(rows.columns[i].cells =~= bound.columns[i].cells);
    }
    assert(rows.columns =~= bound.columns);
    assert(rows == bound);
    law_first_error_is_column_major(bound);
    assert(bound.row_count * bound.column_count() == count * encoder.mappings.len());
    if count == 0 {
        assert(0 * encoder.mappings.len() == 0);
    } else if bound.is_convertible() && count * encoder.mappings.len() <= usize::MAX {
        let measured = MeasuredView {
            row_count: count,
            column_count: encoder.columns.len() as usize,
            cell_lengths: bound.lengths(),
        };
        law_measured_length_is_encoded_length(bound, count as int);
        law_measured_iff_payload_fits(measured);
        assert forall|row: int, column: int|
            #![trigger part(encoder, batch, 0, row, column)]
            0 <= row < count && 0 <= column < encoder.mappings.len() implies bound.lengths()[row
            * encoder.mappings.len() + column] == part(encoder, batch, 0, row, column).len() by {
            lemma_length_at(bound, row, column);
            assert(bound.columns[column].outcome(row) == encoded(encoder, batch, 0, row, column));
        }
    }
}

/// No measurement changes what is encoded: rows that are encoded or appended by a measurement, of
/// whatever batch, are the rows.
pub proof fn law_no_measurement_changes_the_rows(
    encoder: EncoderView,
    batch: RecordBatch,
    measured: MeasuredView,
    start: usize,
    count: usize,
)
    requires
        is_ready(encoder, batch),
        is_measured(measured),
    ensures
        encode_measured_outcome(encoder, batch, measured, start, count) matches Ok(
            payload,
        ) ==> start + count <= batch.rows() && encode_range_outcome(encoder, batch, start, count)
            == Ok::<_, ErrorView>(payload),
        append_outcome(encoder, batch, measured, start, count) matches Ok(payload) ==> start + count
            <= batch.rows() && encode_range_outcome(encoder, batch, start, count) == Ok::<
            _,
            ErrorView,
        >(payload),
{
    law_encoders_plan_every_mapping(encoder.mappings, encoder.context);
    law_append_is_encode(encoder, batch, measured, start, count);
    if encode_measured_outcome(encoder, batch, measured, start, count) is Ok && count > 0 {
        lemma_rows(encoder, batch, start, count);
        let rows = bound_rows_outcome(encoder, batch, start, count)->Ok_0;
        let columns = measured.column_count as int;
        let layout = row_major_layout(measured.cell_lengths, columns, start as int, count as int);
        lemma_range_fits(measured, start as int, count as int);
        crate::direct::assemble::lemma_range_layout_is_row_major(
            measured.cell_lengths,
            columns,
            start as int,
            count as int,
        );
        assert(count * columns <= measured.row_count * columns) by (nonlinear_arith)
            requires
                count <= measured.row_count,
                0 <= columns,
        ;
        law_only_own_layout_fills(rows, layout);
        law_first_error_is_column_major(rows);
    }
}

/// Some rows are encoded exactly when they are rows of the batch.
pub proof fn law_ranges_lie_inside(
    encoder: EncoderView,
    batch: RecordBatch,
    measured: MeasuredView,
    start: usize,
    count: usize,
)
    requires
        start + count > batch.rows(),
    ensures
        encode_range_outcome(encoder, batch, start, count) is Err,
        encode_measured_outcome(encoder, batch, measured, start, count) is Err,
        append_outcome(encoder, batch, measured, start, count) is Err,
{
}

} // verus!
