//! Encoding of runtime batches, whole or by row range.

use vstd::prelude::*;

use crate::arrow_type::{same_type, ArrowType, DataType, DataTypeView};
use crate::batch::{is_array_slice, is_slice, ColumnArray, RecordBatch};
use crate::classify::{is_binary_family, is_string_family};
use crate::convert::{
    column_count_error, field_error, validate_column_count, validate_field,
    validate_runtime_column, column_type_error,
};
use crate::diagnostic::{invalid_payload, outcome, payload_error, ErrorView, Result};
use crate::direct::assemble::{
    encode_with_layout, is_payload, layout_outcome, law_filling_gives_payload,
    lemma_range_layout_is_row_major, own_layout,
};
use crate::direct::binding::{array_cells, reads_array, BoundColumnView};
use crate::direct::bound::{
    bind_outcome, bound_batch_outcome, bound_columns, first_bind_error, BoundDirectBatch,
};
use crate::direct::encoder::{DirectEncoder, EncoderView};
use crate::direct::fixed_width::{
    try_encode_fixed_width_rows, try_encode_fixed_width_rows_with_layout,
};
use crate::direct::image::{
    law_first_error_is_column_major, law_measured_length_is_encoded_length, BoundBatchView,
};
use crate::direct::measure::{
    is_measured, measurement_fault, range_fault, MeasuredDirectBatch, MeasuredView,
};
use crate::direct::payload::{EncodedRowsPayload, PayloadView};
use crate::direct::plan::DirectColumnEncoding;
use crate::direct::rows::row_major_layout;
use crate::mapping::{mapping_views, SchemaMapping, SchemaMappingView};
use crate::message::Fault;

verus! {

/// Whether a runtime type can stand for a planned one: it is the same, or another layout of the
/// same family.
pub open spec fn is_encoding_compatible(planned: DataTypeView, runtime: DataTypeView) -> bool {
    ||| same_type(planned, runtime)
    ||| is_string_family(planned) && is_string_family(runtime)
    ||| is_binary_family(planned) && is_binary_family(runtime)
}

/// The error of a batch column that does not have the shape of its mapping.
pub open spec fn encoding_column_error(
    batch: RecordBatch,
    mapping: SchemaMappingView,
    position: usize,
) -> Option<ErrorView> {
    let array = batch.arrays()[position as int];
    match field_error(batch, mapping, position) {
        Some(error) => Some(error),
        None => if is_encoding_compatible(mapping.arrow.data_type, array.type_view()) {
            None
        } else {
            column_type_error(array, mapping)
        },
    }
}

/// The error of the first batch column, from a position on, that does not have the shape of its
/// mapping.
pub open spec fn first_encoding_error(
    batch: RecordBatch,
    mappings: Seq<SchemaMappingView>,
    position: int,
) -> Option<ErrorView>
    decreases mappings.len() - position,
{
    if position < 0 || position >= mappings.len() {
        None
    } else {
        match encoding_column_error(batch, mappings[position], position as usize) {
            Some(error) => Some(error),
            None => first_encoding_error(batch, mappings, position + 1),
        }
    }
}

/// The error of a batch that does not have the shape of the mappings.
pub open spec fn encoding_shape_error(
    batch: RecordBatch,
    mappings: Seq<SchemaMappingView>,
) -> Option<ErrorView> {
    match column_count_error(batch, mappings) {
        Some(error) => Some(error),
        None => first_encoding_error(batch, mappings, 0),
    }
}

/// Returns true when two types are layouts of strings, or of byte strings.
fn is_same_variable_family(planned: &DataType, runtime: &DataType) -> (result: bool)
    ensures
        result == (is_string_family(planned@) && is_string_family(runtime@) || is_binary_family(
            planned@,
        ) && is_binary_family(runtime@)),
{
    match planned {
        ArrowType::Utf8 | ArrowType::LargeUtf8 | ArrowType::Utf8View => matches!(
            runtime,
            ArrowType::Utf8 | ArrowType::LargeUtf8 | ArrowType::Utf8View
        ),
        ArrowType::Binary | ArrowType::LargeBinary | ArrowType::BinaryView => matches!(
            runtime,
            ArrowType::Binary | ArrowType::LargeBinary | ArrowType::BinaryView
        ),
        _ => false,
    }
}

/// Checks that the columns of a batch match the mappings in number, position, name and type
/// family.
pub fn validate_record_batch_encoding_shape(batch: &RecordBatch, mappings: &[SchemaMapping]) -> (
    result: Result<()>)
    ensures
        outcome(result) == (match encoding_shape_error(*batch, mapping_views(mappings@)) {
            Some(error) => Err(error),
            None => Ok(()),
        }),
{
    match validate_column_count(batch, mappings) {
        Ok(()) => {},
        Err(error) => {
            return Err(error);
        },
    }
    let ghost views = mapping_views(mappings@);
    let mut position: usize = 0;
    while position < mappings.len()
        invariant
            position <= mappings.len(),
            views == mapping_views(mappings@),
            batch.arrays().len() == mappings@.len(),
            column_count_error(*batch, views) is None,
            first_encoding_error(*batch, views, 0) == first_encoding_error(
                *batch,
                views,
                position as int,
            ),
        decreases mappings.len() - position,
    {
        let mapping = &mappings[position];
        assert(views[position as int] == mapping@);
        match validate_field(batch, mapping, position) {
            Ok(()) => {},
            Err(error) => {
                return Err(error);
            },
        }
        let array = &batch.columns()[position];
        let runtime = array.data_type();
        let planned = mapping.arrow().data_type();
        if !is_same_variable_family(planned, &runtime) {
            match validate_runtime_column(array, mapping) {
                Ok(()) => {},
                Err(error) => {
                    return Err(error);
                },
            }
        }
        position += 1;
    }
    Ok(())
}

/// The payload of no rows.
pub open spec fn empty_payload() -> PayloadView {
    PayloadView { bytes: Seq::empty(), row_token_offsets: Seq::empty() }
}

/// The outcome of encoding a batch.
pub open spec fn encode_outcome(encoder: EncoderView, batch: RecordBatch) -> core::result::Result<
    PayloadView,
    ErrorView,
> {
    match encoding_shape_error(batch, encoder.mappings) {
        Some(error) => Err(error),
        None => if batch.rows() == 0 {
            Ok(empty_payload())
        } else {
            match bound_batch_outcome(encoder, batch) {
                Ok(bound) => bound.payload_outcome(),
                Err(error) => Err(error),
            }
        },
    }
}

/// The outcome of measuring a batch.
pub open spec fn measure_outcome(encoder: EncoderView, batch: RecordBatch) -> core::result::Result<
    MeasuredView,
    ErrorView,
> {
    let column_count = encoder.columns.len() as usize;
    match encoding_shape_error(batch, encoder.mappings) {
        Some(error) => Err(error),
        None => if batch.rows() == 0 {
            Ok(MeasuredView { row_count: 0, column_count, cell_lengths: Seq::empty() })
        } else {
            match bound_batch_outcome(encoder, batch) {
                Ok(bound) => match bound.lengths_outcome() {
                    Ok(cell_lengths) => {
                        let measured = MeasuredView {
                            row_count: batch.rows(),
                            column_count,
                            cell_lengths,
                        };
                        match measurement_fault(measured) {
                            Some(fault) => Err(payload_error(fault)),
                            None => Ok(measured),
                        }
                    },
                    Err(error) => Err(error),
                },
                Err(error) => Err(error),
            }
        },
    }
}

/// Consecutive rows of a bound column.
pub open spec fn column_rows(column: BoundColumnView, start: int, count: int) -> BoundColumnView {
    BoundColumnView { cells: column.cells.subrange(start, start + count), ..column }
}

/// Consecutive rows of a bound batch.
pub open spec fn batch_rows(batch: BoundBatchView, start: usize, count: usize) -> BoundBatchView {
    BoundBatchView {
        columns: batch.columns.map_values(
            |column: BoundColumnView| column_rows(column, start as int, count as int),
        ),
        row_count: count,
    }
}

/// The fault of a row range outside a batch.
pub open spec fn batch_range_fault(row_count: usize, start: usize, count: usize) -> Option<Fault> {
    if start + count > usize::MAX {
        Some(Fault::RangeEndOverflow)
    } else if start + count > row_count {
        Some(Fault::BatchRange { start, end: (start + count) as usize, row_count })
    } else {
        None
    }
}

/// The outcome of binding consecutive rows of a batch.
pub open spec fn bound_rows_outcome(
    encoder: EncoderView,
    batch: RecordBatch,
    start: usize,
    count: usize,
) -> core::result::Result<BoundBatchView, ErrorView> {
    match bound_batch_outcome(encoder, batch) {
        Ok(bound) => Ok(batch_rows(bound, start, count)),
        Err(error) => Err(error),
    }
}

/// The outcome of encoding consecutive rows of a batch.
pub open spec fn encode_range_outcome(
    encoder: EncoderView,
    batch: RecordBatch,
    start: usize,
    count: usize,
) -> core::result::Result<PayloadView, ErrorView> {
    match batch_range_fault(batch.rows(), start, count) {
        Some(fault) => Err(payload_error(fault)),
        None => match encoding_shape_error(batch, encoder.mappings) {
            Some(error) => Err(error),
            None => if count == 0 {
                Ok(empty_payload())
            } else {
                match bound_rows_outcome(encoder, batch, start, count) {
                    Ok(bound) => bound.payload_outcome(),
                    Err(error) => Err(error),
                }
            },
        },
    }
}

/// The error of a measurement that is not of a batch's shape, or of a range outside it.
pub open spec fn measured_range_error(
    encoder: EncoderView,
    batch: RecordBatch,
    measured: MeasuredView,
    start: usize,
    count: usize,
) -> Option<ErrorView> {
    match encoding_shape_error(batch, encoder.mappings) {
        Some(error) => Some(error),
        None => if measured.row_count != batch.rows() || measured.column_count
            != encoder.columns.len() {
            Some(
                payload_error(
                    Fault::MeasuredBatchShape {
                        row_count: measured.row_count,
                        column_count: measured.column_count,
                    },
                ),
            )
        } else {
            match range_fault(measured, start, count) {
                Some(fault) => Some(payload_error(fault)),
                None => None,
            }
        },
    }
}

/// The outcome of encoding a measured row range.
pub open spec fn encode_measured_outcome(
    encoder: EncoderView,
    batch: RecordBatch,
    measured: MeasuredView,
    start: usize,
    count: usize,
) -> core::result::Result<PayloadView, ErrorView> {
    match measured_range_error(encoder, batch, measured, start, count) {
        Some(error) => Err(error),
        None => if count == 0 {
            Ok(empty_payload())
        } else {
            match bound_rows_outcome(encoder, batch, start, count) {
                Ok(bound) => layout_outcome(
                    bound,
                    row_major_layout(
                        measured.cell_lengths,
                        measured.column_count as int,
                        start as int,
                        count as int,
                    ),
                ),
                Err(error) => Err(error),
            }
        },
    }
}

/// Arrays of one type are read by the same encodings.
proof fn lemma_reads_by_type(encoding: DirectColumnEncoding, one: ColumnArray, other: ColumnArray)
    requires
        one.type_view() == other.type_view(),
    ensures
        reads_array(encoding, one) == reads_array(encoding, other),
{
}

/// Rows of an array bind as the array does.
proof fn lemma_slice_binds(
    encoder: EncoderView,
    batch: RecordBatch,
    start: usize,
    count: usize,
    slice: RecordBatch,
    index: int,
)
    requires
        batch.well_formed(),
        start + count <= batch.rows(),
        is_slice(batch, start, count, slice),
        0 <= index < encoder.columns.len(),
    ensures
        match bind_outcome(encoder, batch.arrays(), index) {
            Ok(column) => bind_outcome(encoder, slice.arrays(), index) == Ok::<_, ErrorView>(
                column_rows(column, start as int, count as int),
            ) && column.cells.len() == batch.rows(),
            Err(error) => bind_outcome(encoder, slice.arrays(), index) == Err::<
                BoundColumnView,
                _,
            >(error),
        },
{
    let column = encoder.columns[index];
    let position = column.source_index as int;
    if position < batch.arrays().len() {
        let array = batch.arrays()[position];
        let part = slice.arrays()[position];
        assert(is_array_slice(array, start, count, part));
        lemma_reads_by_type(column.encoding, array, part);
        assert(array.row_count() == batch.rows());
        assert forall|row: int| 0 <= row < count implies #[trigger] array_cells(part)[row]
            == array_cells(array).subrange(start as int, start + count)[row] by {
            assert(part.cell_at(row) == array.cell_at(start + row));
        }
        assert(array_cells(part) =~= array_cells(array).subrange(start as int, start + count));
    }
}

/// Rows of a batch have the first binding error of the batch.
proof fn lemma_slice_bind_error(
    encoder: EncoderView,
    batch: RecordBatch,
    start: usize,
    count: usize,
    slice: RecordBatch,
    index: int,
)
    requires
        batch.well_formed(),
        start + count <= batch.rows(),
        is_slice(batch, start, count, slice),
        0 <= index <= encoder.columns.len(),
    ensures
        first_bind_error(encoder, slice.arrays(), index) == first_bind_error(
            encoder,
            batch.arrays(),
            index,
        ),
    decreases encoder.columns.len() - index,
{
    if index < encoder.columns.len() {
        lemma_slice_binds(encoder, batch, start, count, slice, index);
        lemma_slice_bind_error(encoder, batch, start, count, slice, index + 1);
    }
}

/// Without an error, every column is bound.
proof fn lemma_all_bound(encoder: EncoderView, arrays: Seq<ColumnArray>, from: int, index: int)
    requires
        0 <= from <= index < encoder.columns.len(),
        first_bind_error(encoder, arrays, from) is None,
    ensures
        bind_outcome(encoder, arrays, index) is Ok,
    decreases index - from,
{
    if from < index {
        lemma_all_bound(encoder, arrays, from + 1, index);
    }
}

/// Binding rows of a batch gives the rows of the bound batch.
pub proof fn lemma_slice_is_bound_rows(
    encoder: EncoderView,
    batch: RecordBatch,
    start: usize,
    count: usize,
    slice: RecordBatch,
)
    requires
        batch.well_formed(),
        start + count <= batch.rows(),
        is_slice(batch, start, count, slice),
    ensures
        bound_batch_outcome(encoder, slice) == bound_rows_outcome(encoder, batch, start, count),
{
    lemma_slice_bind_error(encoder, batch, start, count, slice, 0);
    if first_bind_error(encoder, batch.arrays(), 0) is None {
        let rows = batch_rows(bound_batch_outcome(encoder, batch)->Ok_0, start, count);
        assert forall|index: int| 0 <= index < encoder.columns.len() implies #[trigger]
        bound_columns(encoder, slice.arrays())[index] == rows.columns[index] by {
            lemma_all_bound(encoder, batch.arrays(), 0, index);
            lemma_slice_binds(encoder, batch, start, count, slice, index);
        }
        assert(bound_columns(encoder, slice.arrays()) =~= rows.columns);
    }
}

/// A bound batch has the rows of the batch in every column.
pub proof fn lemma_bound_batch_is_well_formed(encoder: EncoderView, batch: RecordBatch)
    requires
        batch.well_formed(),
        encoder.columns.len() <= usize::MAX,
    ensures
        bound_batch_outcome(encoder, batch) matches Ok(bound) ==> bound.well_formed(),
{
    if first_bind_error(encoder, batch.arrays(), 0) is None {
        let bound = bound_batch_outcome(encoder, batch)->Ok_0;
        assert forall|index: int| 0 <= index < bound.columns.len() implies (
        #[trigger] bound.columns[index]).cells.len() == bound.row_count by {
            lemma_all_bound(encoder, batch.arrays(), 0, index);
            assert(batch.arrays()[encoder.columns[index].source_index as int].row_count()
                == batch.rows());
        }
    }
}

/// Rows of a batch have the shape of the batch.
proof fn lemma_slice_shape(
    batch: RecordBatch,
    mappings: Seq<SchemaMappingView>,
    start: usize,
    count: usize,
    slice: RecordBatch,
    position: int,
)
    requires
        is_slice(batch, start, count, slice),
        batch.arrays().len() == mappings.len(),
        0 <= position <= mappings.len(),
    ensures
        first_encoding_error(slice, mappings, position) == first_encoding_error(
            batch,
            mappings,
            position,
        ),
    decreases mappings.len() - position,
{
    if position < mappings.len() {
        lemma_slice_shape(batch, mappings, start, count, slice, position + 1);
        assert(is_array_slice(
            batch.arrays()[position],
            start,
            count,
            slice.arrays()[position],
        ));
    }
}

/// Encodes a bound batch by a layout measured cell by cell.
pub fn encode_general_rows(bound: &BoundDirectBatch<'_>) -> (result: Result<EncodedRowsPayload>)
    ensures
        is_payload(result, bound@.payload_outcome()),
{
    let ghost batch = bound@;
    proof {
        use_type_invariant(bound);
        law_first_error_is_column_major(batch);
        if batch.is_convertible() {
            law_measured_length_is_encoded_length(batch, batch.row_count as int);
        }
    }
    let layout = match bound.measure_layout() {
        Ok(layout) => layout,
        Err(error) => {
            return Err(error);
        },
    };
    proof {
        lemma_range_layout_is_row_major(
            batch.lengths(),
            batch.column_count(),
            0,
            batch.row_count as int,
        );
        law_filling_gives_payload(batch);
        assert(layout@ == own_layout(batch));
    }
    encode_with_layout(bound, &layout)
}

/// Encodes a bound batch, by the fixed-width path where it applies.
fn encode_bound_rows(bound: &BoundDirectBatch<'_>) -> (result: Result<EncodedRowsPayload>)
    ensures
        is_payload(result, bound@.payload_outcome()),
{
    match try_encode_fixed_width_rows(bound) {
        Ok(Some(payload)) => Ok(payload),
        Ok(None) => encode_general_rows(bound),
        Err(error) => Err(error),
    }
}

/// Creates the payload of no rows.
fn encode_no_rows() -> (result: Result<EncodedRowsPayload>)
    ensures
        is_payload(result, Ok(empty_payload())),
{
    let bytes: Vec<u8> = Vec::new();
    let row_token_offsets: Vec<usize> = Vec::new();
    proof {
        assert(bytes@ =~= Seq::empty());
        assert(row_token_offsets@ =~= Seq::empty());
    }
    EncodedRowsPayload::new(bytes, row_token_offsets)
}

impl DirectEncoder {
    /// Encodes a runtime batch into complete raw TDS row payload bytes.
    pub fn encode_batch(&self, batch: &RecordBatch) -> (result: Result<EncodedRowsPayload>)
        ensures
            is_payload(result, encode_outcome(self@, *batch)),
    {
        match validate_record_batch_encoding_shape(batch, self.mappings()) {
            Ok(()) => {},
            Err(error) => {
                return Err(error);
            },
        }
        if batch.num_rows() == 0 {
            return encode_no_rows();
        }
        match BoundDirectBatch::new(self, batch) {
            Ok(bound) => encode_bound_rows(&bound),
            Err(error) => Err(error),
        }
    }

    /// Measures and validates a runtime batch without allocating encoded bytes.
    pub fn measure_batch(&self, batch: &RecordBatch) -> (result: Result<MeasuredDirectBatch>)
        ensures
            match measure_outcome(self@, *batch) {
                Ok(view) => result matches Ok(measured) && measured@ == view && is_measured(view),
                Err(view) => result matches Err(error) && error@ == view,
            },
    {
        match validate_record_batch_encoding_shape(batch, self.mappings()) {
            Ok(()) => {},
            Err(error) => {
                return Err(error);
            },
        }
        let column_count: usize = self.plan().column_count();
        if batch.num_rows() == 0 {
            return Ok(MeasuredDirectBatch::empty(column_count));
        }
        let bound = match BoundDirectBatch::new(self, batch) {
            Ok(bound) => bound,
            Err(error) => {
                return Err(error);
            },
        };
        match bound.measure_cell_lengths() {
            Ok(cell_lengths) => MeasuredDirectBatch::new(
                batch.num_rows(),
                column_count,
                cell_lengths,
            ),
            Err(error) => Err(error),
        }
    }

    /// Encodes a contiguous row range from a runtime batch.
    ///
    /// Returned row-token offsets are relative to the returned payload, so the first non-empty
    /// range always starts at offset zero.
    pub fn encode_batch_range(&self, batch: &RecordBatch, start_row: usize, row_count: usize) -> (
        result: Result<EncodedRowsPayload>)
        ensures
            is_payload(result, encode_range_outcome(self@, *batch, start_row, row_count)),
    {
        let batch_rows: usize = batch.num_rows();
        let end_row: usize = match start_row.checked_add(row_count) {
            Some(end_row) => end_row,
            None => {
                return Err(invalid_payload(Fault::RangeEndOverflow));
            },
        };
        if end_row > batch_rows {
            return Err(
                invalid_payload(
                    Fault::BatchRange { start: start_row, end: end_row, row_count: batch_rows },
                ),
            );
        }
        let slice = batch.slice(start_row, row_count);
        proof {
            use_type_invariant(batch);
            lemma_slice_is_bound_rows(self@, *batch, start_row, row_count, slice);
            if batch.arrays().len() == self@.mappings.len() {
                lemma_slice_shape(*batch, self@.mappings, start_row, row_count, slice, 0);
            }
        }
        self.encode_batch(&slice)
    }

    /// Encodes one range from a pre-measured direct batch.
    pub fn encode_measured_batch_range(
        &self,
        batch: &RecordBatch,
        measured: &MeasuredDirectBatch,
        start_row: usize,
        row_count: usize,
    ) -> (result: Result<EncodedRowsPayload>)
        ensures
            is_payload(
                result,
                encode_measured_outcome(self@, *batch, measured@, start_row, row_count),
            ),
    {
        match self.check_measured_range(batch, measured, start_row, row_count) {
            Ok(()) => {},
            Err(error) => {
                return Err(error);
            },
        }
        if row_count == 0 {
            return encode_no_rows();
        }
        let slice = batch.slice(start_row, row_count);
        proof {
            use_type_invariant(batch);
            lemma_slice_is_bound_rows(self@, *batch, start_row, row_count, slice);
        }
        let bound = match BoundDirectBatch::new(self, &slice) {
            Ok(bound) => bound,
            Err(error) => {
                return Err(error);
            },
        };
        let layout = match measured.range_layout(start_row, row_count) {
            Ok(layout) => layout,
            Err(error) => {
                return Err(error);
            },
        };
        let measured_rows: usize = measured.row_count();
        proof {
            let view = measured@;
            let columns = view.column_count as int;
            assert(bound@.column_count() == columns);
            crate::direct::measure::lemma_range_fits(view, start_row as int, row_count as int);
            lemma_range_layout_is_row_major(
                view.cell_lengths,
                columns,
                start_row as int,
                row_count as int,
            );
            assert(0 <= row_count * columns <= measured_rows * columns) by (nonlinear_arith)
                requires
                    0 <= row_count <= measured_rows,
                    0 <= columns,
            ;
        }
        let cell_count: usize = layout.cell_positions().len();
        assert(cell_count == row_count * measured@.column_count);
        match try_encode_fixed_width_rows_with_layout(&bound, &layout) {
            Ok(Some(payload)) => Ok(payload),
            Ok(None) => encode_with_layout(&bound, &layout),
            Err(error) => Err(error),
        }
    }

    /// Checks that a measurement is of a batch's shape and a range inside it.
    pub fn check_measured_range(
        &self,
        batch: &RecordBatch,
        measured: &MeasuredDirectBatch,
        start_row: usize,
        row_count: usize,
    ) -> (result: Result<()>)
        ensures
            outcome(result) == (match measured_range_error(
                self@,
                *batch,
                measured@,
                start_row,
                row_count,
            ) {
                Some(error) => Err(error),
                None => Ok(()),
            }),
    {
        match validate_record_batch_encoding_shape(batch, self.mappings()) {
            Ok(()) => {},
            Err(error) => {
                return Err(error);
            },
        }
        if measured.row_count() != batch.num_rows() || measured.column_count()
            != self.plan().column_count() {
            return Err(
                invalid_payload(
                    Fault::MeasuredBatchShape {
                        row_count: measured.row_count(),
                        column_count: measured.column_count(),
                    },
                ),
            );
        }
        measured.check_range(start_row, row_count)
    }
}

} // verus!
