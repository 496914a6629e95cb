//! What holds of direct encoding across its operations.

use vstd::prelude::*;

use crate::batch::RecordBatch;
use crate::cell::ArrowCellView;
use crate::classify::{
    FixedSizeBinaryArrowToMssql, PrimitiveArrowToMssql, VariableWidthArrowToMssql,
};
use crate::context::NanosecondPolicy;
use crate::convert::datetimeoffset_value_outcome;
use crate::decimal::decimal_value_outcome;
use crate::diagnostic::ErrorView;
use crate::direct::append::{append_error, append_outcome, first_append_error};
use crate::direct::assemble::{
    is_encodable, law_filling_gives_payload, layout_outcome, lemma_layouts_agree, lengths_agree,
};
use crate::direct::binding::BoundColumnView;
use crate::direct::bound::bound_batch_outcome;
use crate::direct::encode::{
    batch_rows, bound_rows_outcome, empty_payload, encode_measured_outcome, encode_outcome,
    encode_range_outcome, lemma_bound_batch_is_well_formed, measure_outcome,
};
use crate::direct::encoder::EncoderView;
use crate::direct::image::{
    law_first_error_is_column_major, law_measured_length_is_encoded_length, law_rows_bytes_prefix,
    lemma_length_at, BoundBatchView,
};
use crate::direct::measure::{
    is_measured, is_row_partition, law_measured_iff_payload_fits, law_range_len_is_additive,
    lemma_range_fits, range_is_full, MeasuredRowRange, MeasuredView,
};
use crate::direct::plan::DirectColumnEncoding;
use crate::direct::rows::{cell_index, row_major_layout};
use crate::direct::value::{
    bytes_cell_outcome, column_timezone_error, direct_cell_outcome, fixed_bytes_cell_outcome,
    primitive_cell_outcome, target_of, temporal_cell_outcome, text_cell_outcome, TemporalTarget,
};
use crate::mapping::SchemaMappingView;
use crate::mssql_type::MssqlTypeLength;

verus! {

/// Whether two outcomes are the same value, or both errors.
pub open spec fn same_value<T>(
    one: core::result::Result<T, ErrorView>,
    other: core::result::Result<T, ErrorView>,
) -> bool {
    match (one, other) {
        (Ok(one), Ok(other)) => one == other,
        (Err(_), Err(_)) => true,
        _ => false,
    }
}

/// The cell of a primitive value does not depend on its row.
proof fn lemma_primitive_ignores_row(
    class: PrimitiveArrowToMssql,
    mapping: SchemaMappingView,
    one: usize,
    other: usize,
    cell: ArrowCellView,
)
    ensures
        same_value(
            primitive_cell_outcome(class, mapping, one, cell),
            primitive_cell_outcome(class, mapping, other, cell),
        ),
{
}

/// A decimal does not depend on its row.
proof fn lemma_decimal_ignores_row(
    mapping: SchemaMappingView,
    one: usize,
    other: usize,
    cell: ArrowCellView,
)
    ensures
        same_value(
            decimal_value_outcome(mapping, one, cell),
            decimal_value_outcome(mapping, other, cell),
        ),
{
}

/// The cell of a string or byte string does not depend on its row.
proof fn lemma_variable_ignores_row(
    length: MssqlTypeLength,
    size: usize,
    mapping: SchemaMappingView,
    one: usize,
    other: usize,
    cell: ArrowCellView,
)
    ensures
        same_value(
            text_cell_outcome(length, mapping, one, cell),
            text_cell_outcome(length, mapping, other, cell),
        ),
        same_value(
            bytes_cell_outcome(length, mapping, one, cell),
            bytes_cell_outcome(length, mapping, other, cell),
        ),
        same_value(
            fixed_bytes_cell_outcome(size, mapping, one, cell),
            fixed_bytes_cell_outcome(size, mapping, other, cell),
        ),
{
}

/// A `datetimeoffset` value does not depend on its row.
proof fn lemma_datetimeoffset_ignores_row(
    mapping: SchemaMappingView,
    policy: NanosecondPolicy,
    one: usize,
    other: usize,
    cell: ArrowCellView,
)
    ensures
        same_value(
            datetimeoffset_value_outcome(mapping, policy, one, cell),
            datetimeoffset_value_outcome(mapping, policy, other, cell),
        ),
{
}

/// The cell of a date or time does not depend on its row.
proof fn lemma_temporal_ignores_row(
    target: TemporalTarget,
    mapping: SchemaMappingView,
    policy: NanosecondPolicy,
    one: usize,
    other: usize,
    cell: ArrowCellView,
)
    ensures
        same_value(
            temporal_cell_outcome(target, mapping, policy, one, cell),
            temporal_cell_outcome(target, mapping, policy, other, cell),
        ),
{
    match target {
        TemporalTarget::DateTimeOffset => {
            lemma_datetimeoffset_ignores_row(mapping, policy, one, other, cell);
        },
        _ => {},
    }
}

/// Whether timezone metadata is valid does not depend on the row.
proof fn lemma_timezone_ignores_row(
    encoding: DirectColumnEncoding,
    mapping: SchemaMappingView,
    one: usize,
    other: usize,
)
    ensures
        column_timezone_error(encoding, mapping, one) is Some <==> column_timezone_error(
            encoding,
            mapping,
            other,
        ) is Some,
{
}

/// The cell of a value does not depend on its row: only errors name it.
pub proof fn law_cells_do_not_depend_on_rows(
    encoding: DirectColumnEncoding,
    mapping: SchemaMappingView,
    policy: NanosecondPolicy,
    one: usize,
    other: usize,
    cell: ArrowCellView,
)
    ensures
        same_value(
            direct_cell_outcome(encoding, mapping, policy, one, cell),
            direct_cell_outcome(encoding, mapping, policy, other, cell),
        ),
{
    lemma_timezone_ignores_row(encoding, mapping, one, other);
    match encoding {
        DirectColumnEncoding::Primitive(class) => {
            lemma_primitive_ignores_row(class, mapping, one, other, cell);
        },
        DirectColumnEncoding::UInt64Decimal20_0 | DirectColumnEncoding::Decimal(_) => {
            lemma_decimal_ignores_row(mapping, one, other, cell);
        },
        DirectColumnEncoding::VariableWidth(
            VariableWidthArrowToMssql::StringToNVarChar { length },
        ) => {
            lemma_variable_ignores_row(length, 0, mapping, one, other, cell);
        },
        DirectColumnEncoding::VariableWidth(
            VariableWidthArrowToMssql::BytesToVarBinary { length },
        ) => {
            lemma_variable_ignores_row(length, 0, mapping, one, other, cell);
        },
        DirectColumnEncoding::FixedSizeBinary(
            FixedSizeBinaryArrowToMssql::FixedSizeBinaryToBinary { length },
        ) => {
            lemma_variable_ignores_row(
                MssqlTypeLength::Max,
                length,
                mapping,
                one,
                other,
                cell,
            );
        },
        DirectColumnEncoding::Temporal(class) => {
            lemma_temporal_ignores_row(target_of(class), mapping, policy, one, other, cell);
        },
    }
}

/// A row of a range is the row of the batch that the range starts at.
pub proof fn law_range_rows_are_batch_rows(
    batch: BoundBatchView,
    start: usize,
    count: usize,
    row: int,
    column: int,
)
    requires
        batch.well_formed(),
        batch.is_convertible(),
        start + count <= batch.row_count,
        0 <= row < count,
        0 <= column < batch.column_count(),
    ensures
        batch_rows(batch, start, count).columns[column].outcome(row) is Ok,
        batch_rows(batch, start, count).cell(row, column) == batch.cell(start + row, column),
{
    reveal(BoundColumnView::outcome);
    let bound = batch.columns[column];
    assert(bound.cells.len() == batch.row_count);
    assert(bound.outcome(start + row) is Ok);
    law_cells_do_not_depend_on_rows(
        bound.plan.encoding,
        bound.mapping,
        bound.policy,
        (start + row) as usize,
        row as usize,
        bound.cells[start + row],
    );
}

/// The rows of a range of a convertible batch are convertible.
proof fn lemma_range_is_convertible(batch: BoundBatchView, start: usize, count: usize)
    requires
        batch.well_formed(),
        batch.is_convertible(),
        start + count <= batch.row_count,
    ensures
        batch_rows(batch, start, count).well_formed(),
        batch_rows(batch, start, count).is_convertible(),
{
    let range = batch_rows(batch, start, count);
    assert forall|column: int| 0 <= column < range.columns.len() implies (
    #[trigger] range.columns[column]).cells.len() == range.row_count by {
        assert(batch.columns[column].cells.len() == batch.row_count);
    }
    assert forall|row: int, column: int|
        0 <= row < range.row_count && 0 <= column < range.column_count() implies (
    #[trigger] range.columns[column].outcome(row)) is Ok by {
        law_range_rows_are_batch_rows(batch, start, count, row, column);
    }
}

/// The cells of a row of a range are the cells of the row of the batch.
proof fn lemma_range_cells(
    batch: BoundBatchView,
    start: usize,
    count: usize,
    row: int,
    cells: int,
)
    requires
        batch.well_formed(),
        batch.is_convertible(),
        start + count <= batch.row_count,
        0 <= row < count,
        cells <= batch.column_count(),
    ensures
        batch_rows(batch, start, count).cells_bytes(row, cells) == batch.cells_bytes(
            start + row,
            cells,
        ),
    decreases cells,
{
    if cells > 0 {
        lemma_range_cells(batch, start, count, row, cells - 1);
        law_range_rows_are_batch_rows(batch, start, count, row, cells - 1);
    }
}

/// The bytes of a range follow the bytes of the rows before it.
pub proof fn law_ranges_concatenate(batch: BoundBatchView, start: usize, count: usize)
    requires
        batch.well_formed(),
        batch.is_convertible(),
        start + count <= batch.row_count,
    ensures
        batch.rows_bytes(start + count) == batch.rows_bytes(start as int) + batch_rows(
            batch,
            start,
            count,
        ).payload().bytes,
{
    lemma_range_prefix(batch, start, count, count as int);
}

/// The bytes of the first rows of a range follow the bytes of the rows before it.
proof fn lemma_range_prefix(batch: BoundBatchView, start: usize, count: usize, rows: int)
    requires
        batch.well_formed(),
        batch.is_convertible(),
        start + count <= batch.row_count,
        0 <= rows <= count,
    ensures
        batch.rows_bytes(start + rows) == batch.rows_bytes(start as int) + batch_rows(
            batch,
            start,
            count,
        ).rows_bytes(rows),
    decreases rows,
{
    let range = batch_rows(batch, start, count);
    if rows > 0 {
        lemma_range_prefix(batch, start, count, rows - 1);
        lemma_range_cells(batch, start, count, rows - 1, batch.column_count());
        assert(range.column_count() == batch.column_count());
        assert(batch.rows_bytes(start + rows) == batch.rows_bytes(start + rows - 1)
            + batch.row_bytes(start + rows - 1));
        assert(batch.rows_bytes(start + rows) =~= batch.rows_bytes(start as int)
            + range.rows_bytes(rows));
    } else {
        assert(batch.rows_bytes(start + rows) =~= batch.rows_bytes(start as int)
            + range.rows_bytes(rows));
    }
}

/// The bytes of row ranges, one after another.
pub open spec fn ranges_bytes(
    batch: BoundBatchView,
    ranges: Seq<MeasuredRowRange>,
    count: int,
) -> Seq<u8>
    decreases count,
{
    if count <= 0 {
        Seq::empty()
    } else {
        ranges_bytes(batch, ranges, count - 1) + batch_rows(
            batch,
            ranges[count - 1].start,
            ranges[count - 1].len,
        ).payload().bytes
    }
}

/// The row ranges of a byte limit, encoded one after another, are the payload of the batch.
pub proof fn law_row_ranges_concatenate_to_payload(
    batch: BoundBatchView,
    measured: MeasuredView,
    max_payload_bytes: usize,
    ranges: Seq<MeasuredRowRange>,
)
    requires
        batch.well_formed(),
        batch.is_convertible(),
        measured.row_count == batch.row_count,
        is_row_partition(measured, max_payload_bytes, ranges),
    ensures
        ranges_bytes(batch, ranges, ranges.len() as int) == batch.payload().bytes,
{
    if ranges.len() > 0 {
        lemma_ranges_prefix(batch, measured, max_payload_bytes, ranges, ranges.len() as int);
    } else {
        assert(ranges_bytes(batch, ranges, 0) =~= batch.payload().bytes);
    }
}

/// The first row ranges of a byte limit, encoded one after another, are the first rows.
proof fn lemma_ranges_prefix(
    batch: BoundBatchView,
    measured: MeasuredView,
    max_payload_bytes: usize,
    ranges: Seq<MeasuredRowRange>,
    count: int,
)
    requires
        batch.well_formed(),
        batch.is_convertible(),
        measured.row_count == batch.row_count,
        is_row_partition(measured, max_payload_bytes, ranges),
        0 < count <= ranges.len(),
    ensures
        ranges_bytes(batch, ranges, count) == batch.rows_bytes(
            ranges[count - 1].start + ranges[count - 1].len,
        ),
        ranges[count - 1].start + ranges[count - 1].len <= batch.row_count,
    decreases count,
{
    let range = ranges[count - 1];
    lemma_range_ends_inside(measured, max_payload_bytes, ranges, count - 1);
    law_ranges_concatenate(batch, range.start, range.len);
    if count > 1 {
        lemma_ranges_prefix(batch, measured, max_payload_bytes, ranges, count - 1);
        assert(range_is_full(measured, max_payload_bytes, ranges, count - 2)) by {
            assert(ranges[count - 2].len >= 0);
        }
    } else {
        assert(range.start == 0);
        assert(ranges_bytes(batch, ranges, 0) =~= batch.rows_bytes(0));
        assert(ranges_bytes(batch, ranges, 1) =~= batch.rows_bytes(range.start + range.len));
    }
}

/// A row range of a partition ends inside the batch.
proof fn lemma_range_ends_inside(
    measured: MeasuredView,
    max_payload_bytes: usize,
    ranges: Seq<MeasuredRowRange>,
    index: int,
)
    requires
        is_row_partition(measured, max_payload_bytes, ranges),
        0 <= index < ranges.len(),
    ensures
        ranges[index].start + ranges[index].len <= measured.row_count,
    decreases ranges.len() - index,
{
    assert(range_is_full(measured, max_payload_bytes, ranges, index)) by {
        assert(ranges[index].len >= 0);
    }
    if index + 1 < ranges.len() {
        lemma_range_ends_inside(measured, max_payload_bytes, ranges, index + 1);
    }
}

/// The lengths of a batch are those of a range from its first row on.
proof fn lemma_range_lengths(batch: BoundBatchView, start: usize, count: usize)
    requires
        batch.well_formed(),
        batch.is_convertible(),
        start + count <= batch.row_count,
    ensures
        lengths_agree(
            batch.lengths(),
            batch_rows(batch, start, count).lengths(),
            batch.column_count(),
            start as int,
            count as int,
        ),
{
    let range = batch_rows(batch, start, count);
    let columns = batch.column_count();
    lemma_range_is_convertible(batch, start, count);
    assert forall|row: int, column: int|
        #![trigger range.lengths()[cell_index(columns, row, column)]]
        0 <= row < count && 0 <= column < columns implies batch.lengths()[cell_index(
        columns,
        start + row,
        column,
    )] == range.lengths()[cell_index(columns, row, column)] by {
        law_range_rows_are_batch_rows(batch, start, count, row, column);
        lemma_length_at(batch, start + row, column);
        lemma_length_at(range, row, column);
    }
}

/// A range of a batch that can be encoded can be encoded.
proof fn lemma_range_is_encodable(batch: BoundBatchView, start: usize, count: usize)
    requires
        is_encodable(batch),
        start + count <= batch.row_count,
    ensures
        is_encodable(batch_rows(batch, start, count)),
{
    let columns = batch.column_count();
    lemma_range_is_convertible(batch, start, count);
    law_ranges_concatenate(batch, start, count);
    law_rows_bytes_prefix(batch, start + count, batch.row_count as int);
    assert(count * columns <= batch.row_count * columns) by (nonlinear_arith)
        requires
            count <= batch.row_count,
            0 <= columns,
    ;
}

/// A batch that was measured as it is encodes range by range as measured.
pub proof fn law_own_measurement_encodes_ranges(batch: BoundBatchView, start: usize, count: usize)
    requires
        is_encodable(batch),
        start + count <= batch.row_count,
    ensures
        layout_outcome(
            batch_rows(batch, start, count),
            row_major_layout(batch.lengths(), batch.column_count(), start as int, count as int),
        ) == Ok::<_, ErrorView>(batch_rows(batch, start, count).payload()),
        batch_rows(batch, start, count).payload_outcome() == Ok::<_, ErrorView>(
            batch_rows(batch, start, count).payload(),
        ),
{
    let range = batch_rows(batch, start, count);
    lemma_range_is_encodable(batch, start, count);
    lemma_range_lengths(batch, start, count);
    lemma_layouts_agree(
        batch.lengths(),
        range.lengths(),
        batch.column_count(),
        start as int,
        count as int,
    );
    assert(range.column_count() == batch.column_count());
    law_filling_gives_payload(range);
    law_first_error_is_column_major(range);
}

/// A measured batch can be encoded.
proof fn lemma_measured_is_encodable(encoder: EncoderView, batch: RecordBatch)
    requires
        batch.well_formed(),
        encoder.columns.len() <= usize::MAX,
        measure_outcome(encoder, batch) is Ok,
        batch.rows() > 0,
    ensures
        bound_batch_outcome(encoder, batch) matches Ok(bound) && is_encodable(bound)
            && bound.row_count == batch.rows() && bound.columns.len() == encoder.columns.len()
            && measure_outcome(encoder, batch)->Ok_0.cell_lengths == bound.lengths(),
{
    let bound = bound_batch_outcome(encoder, batch)->Ok_0;
    let measured = measure_outcome(encoder, batch)->Ok_0;
    lemma_bound_batch_is_well_formed(encoder, batch);
    law_first_error_is_column_major(bound);
    law_measured_length_is_encoded_length(bound, bound.row_count as int);
    law_measured_iff_payload_fits(measured);
}

/// Encoding a range of a measured batch is encoding the range.
pub proof fn law_measured_range_is_range(
    encoder: EncoderView,
    batch: RecordBatch,
    measured: MeasuredView,
    start: usize,
    count: usize,
)
    requires
        batch.well_formed(),
        encoder.columns.len() <= usize::MAX,
        measure_outcome(encoder, batch) == Ok::<_, ErrorView>(measured),
        start + count <= batch.rows(),
    ensures
        encode_measured_outcome(encoder, batch, measured, start, count) == encode_range_outcome(
            encoder,
            batch,
            start,
            count,
        ),
        encode_measured_outcome(encoder, batch, measured, start, count) is Ok,
{
    if count > 0 {
        lemma_measured_is_encodable(encoder, batch);
        let bound = bound_batch_outcome(encoder, batch)->Ok_0;
        law_own_measurement_encodes_ranges(bound, start, count);
    }
}

/// Encoding all rows as a range is encoding the batch.
pub proof fn law_full_range_is_batch(encoder: EncoderView, batch: RecordBatch)
    requires
        batch.well_formed(),
        encoder.columns.len() <= usize::MAX,
    ensures
        encode_range_outcome(encoder, batch, 0, batch.rows()) == encode_outcome(encoder, batch),
{
    if bound_batch_outcome(encoder, batch) is Ok {
        let bound = bound_batch_outcome(encoder, batch)->Ok_0;
        lemma_bound_batch_is_well_formed(encoder, batch);
        let rows = batch_rows(bound, 0, batch.rows());
        assert forall|i: int| 0 <= i < bound.columns.len() implies #[trigger] rows.columns[i]
            == bound.columns[i] by {
            assert(bound.columns[i].cells.len() == batch.rows());
            assert(rows.columns[i].cells =~= bound.columns[i].cells);
        }
        assert(rows.columns =~= bound.columns);
    }
}

/// Measured ranges that follow each other encode to the bytes of the range that they make up.
pub proof fn law_measured_ranges_concatenate(
    encoder: EncoderView,
    batch: RecordBatch,
    measured: MeasuredView,
    start: usize,
    first: usize,
    second: usize,
)
    requires
        batch.well_formed(),
        encoder.columns.len() <= usize::MAX,
        measure_outcome(encoder, batch) == Ok::<_, ErrorView>(measured),
        start + first + second <= batch.rows(),
    ensures
        encode_measured_outcome(
            encoder,
            batch,
            measured,
            start,
            (first + second) as usize,
        )->Ok_0.bytes == encode_measured_outcome(
            encoder,
            batch,
            measured,
            start,
            first,
        )->Ok_0.bytes + encode_measured_outcome(
            encoder,
            batch,
            measured,
            (start + first) as usize,
            second,
        )->Ok_0.bytes,
{
    let middle = (start + first) as usize;
    let total = (first + second) as usize;
    if batch.rows() > 0 {
        lemma_measured_is_encodable(encoder, batch);
        let bound = bound_batch_outcome(encoder, batch)->Ok_0;
        law_measured_range_is_range(encoder, batch, measured, start, total);
        law_measured_range_is_range(encoder, batch, measured, start, first);
        law_measured_range_is_range(encoder, batch, measured, middle, second);
        law_own_measurement_encodes_ranges(bound, start, total);
        law_own_measurement_encodes_ranges(bound, start, first);
        law_own_measurement_encodes_ranges(bound, middle, second);
        law_ranges_concatenate(bound, start, total);
        law_ranges_concatenate(bound, start, first);
        law_ranges_concatenate(bound, middle, second);
        let head = bound.rows_bytes(start as int);
        let one = batch_rows(bound, start, first).payload().bytes;
        let other = batch_rows(bound, middle, second).payload().bytes;
        let both = batch_rows(bound, start, total).payload().bytes;
        assert(head + both == head + one + other);
        assert(both =~= (head + both).skip(head.len() as int));
        assert(one + other =~= (head + one + other).skip(head.len() as int));
        lemma_empty_range(bound, start);
        lemma_empty_range(bound, middle);
    } else {
        assert(empty_payload().bytes =~= empty_payload().bytes + empty_payload().bytes);
    }
}

/// A range of no rows has the payload of no rows.
proof fn lemma_empty_range(batch: BoundBatchView, start: usize)
    ensures
        batch_rows(batch, start, 0).payload() == empty_payload(),
{
    assert(batch_rows(batch, start, 0).payload().bytes =~= empty_payload().bytes);
    assert(batch_rows(batch, start, 0).payload().row_token_offsets
        =~= empty_payload().row_token_offsets);
}

/// A measurement counts the bytes of the payload, range by range.
pub proof fn law_measured_range_counts_bytes(
    encoder: EncoderView,
    batch: RecordBatch,
    measured: MeasuredView,
    start: usize,
    count: usize,
)
    requires
        batch.well_formed(),
        encoder.columns.len() <= usize::MAX,
        measure_outcome(encoder, batch) == Ok::<_, ErrorView>(measured),
        start + count <= batch.rows(),
    ensures
        encode_measured_outcome(encoder, batch, measured, start, count)->Ok_0.bytes.len()
            == measured.range_len(start as int, count as int),
{
    if count > 0 {
        lemma_measured_is_encodable(encoder, batch);
        let bound = bound_batch_outcome(encoder, batch)->Ok_0;
        let range = batch_rows(bound, start, count);
        law_measured_range_is_range(encoder, batch, measured, start, count);
        law_own_measurement_encodes_ranges(bound, start, count);
        law_ranges_concatenate(bound, start, count);
        law_measured_length_is_encoded_length(bound, start as int);
        law_measured_length_is_encoded_length(bound, start + count);
        law_range_len_is_additive(measured, 0, start as int, count as int);
    }
}

/// Without an error from a cell on, no later cell has one.
proof fn lemma_no_append_error(
    batch: BoundBatchView,
    measured: MeasuredView,
    start: int,
    row: int,
    column: int,
    at_row: int,
    at_column: int,
)
    requires
        first_append_error(batch, measured, start, row, column) is None,
        0 <= row <= at_row < batch.row_count,
        0 <= column <= batch.columns.len(),
        0 <= at_column < batch.columns.len(),
        row < at_row || column <= at_column,
    ensures
        append_error(
            batch.columns[at_column],
            at_row,
            measured.cell_lengths[cell_index(
                measured.column_count as int,
                start + at_row,
                at_column,
            )],
        ) is None,
    decreases at_row - row, batch.columns.len() - column,
{
    if column >= batch.columns.len() {
        lemma_no_append_error(batch, measured, start, row + 1, 0, at_row, at_column);
    } else if row < at_row || column < at_column {
        lemma_no_append_error(batch, measured, start, row, column + 1, at_row, at_column);
    }
}

/// Rows that are appended are the rows that are encoded.
pub proof fn law_append_is_encode(
    encoder: EncoderView,
    batch: RecordBatch,
    measured: MeasuredView,
    start: usize,
    count: usize,
)
    requires
        batch.well_formed(),
        encoder.columns.len() <= usize::MAX,
        is_measured(measured),
    ensures
        append_outcome(encoder, batch, measured, start, count) is Ok ==> append_outcome(
            encoder,
            batch,
            measured,
            start,
            count,
        ) == encode_measured_outcome(encoder, batch, measured, start, count),
{
    if append_outcome(encoder, batch, measured, start, count) is Ok && count > 0 {
        let range = bound_rows_outcome(encoder, batch, start, count)->Ok_0;
        let columns = range.column_count();
        lemma_bound_batch_is_well_formed(encoder, batch);
        assert(range.well_formed()) by {
            let bound = bound_batch_outcome(encoder, batch)->Ok_0;
            assert forall|column: int| 0 <= column < range.columns.len() implies (
            #[trigger] range.columns[column]).cells.len() == range.row_count by {
                assert(bound.columns[column].cells.len() == bound.row_count);
            }
        }
        assert forall|row: int, column: int|
            0 <= row < range.row_count && 0 <= column < range.column_count() implies (
        #[trigger] range.columns[column].outcome(row)) is Ok by {
            lemma_no_append_error(range, measured, start as int, 0, 0, row, column);
        }
        assert forall|row: int, column: int|
            #![trigger range.lengths()[cell_index(columns, row, column)]]
            0 <= row < count && 0 <= column < columns implies measured.cell_lengths[cell_index(
            columns,
            start + row,
            column,
        )] == range.lengths()[cell_index(columns, row, column)] by {
            lemma_no_append_error(range, measured, start as int, 0, 0, row, column);
            lemma_length_at(range, row, column);
        }
        lemma_layouts_agree(
            measured.cell_lengths,
            range.lengths(),
            columns,
            start as int,
            count as int,
        );
        lemma_range_fits(measured, start as int, count as int);
        law_measured_length_is_encoded_length(range, count as int);
        assert(count * columns <= measured.row_count * columns) by (nonlinear_arith)
            requires
                count <= measured.row_count,
                0 <= columns,
        ;
        law_filling_gives_payload(range);
    }
}

/// Where every cell has the length that was measured, appending meets no error.
proof fn lemma_measured_cells_append(
    batch: BoundBatchView,
    measured: MeasuredView,
    start: int,
    row: int,
    column: int,
)
    requires
        0 <= row,
        0 <= column,
        forall|at_row: int, at_column: int|
            0 <= at_row < batch.row_count && 0 <= at_column < batch.columns.len()
                ==> #[trigger] append_error(
                batch.columns[at_column],
                at_row,
                measured.cell_lengths[cell_index(
                    measured.column_count as int,
                    start + at_row,
                    at_column,
                )],
            ) is None,
    ensures
        first_append_error(batch, measured, start, row, column) is None,
    decreases batch.row_count - row, batch.columns.len() - column,
{
    if row < batch.row_count {
        if column < batch.columns.len() {
            lemma_measured_cells_append(batch, measured, start, row, column + 1);
        } else {
            lemma_measured_cells_append(batch, measured, start, row + 1, 0);
        }
    }
}

/// A batch that was measured as it is appends range by range, and what is appended is what is
/// encoded.
pub proof fn law_own_measurement_appends(
    encoder: EncoderView,
    batch: RecordBatch,
    measured: MeasuredView,
    start: usize,
    count: usize,
)
    requires
        batch.well_formed(),
        encoder.columns.len() <= usize::MAX,
        measure_outcome(encoder, batch) == Ok::<_, ErrorView>(measured),
        start + count <= batch.rows(),
    ensures
        append_outcome(encoder, batch, measured, start, count) is Ok,
        append_outcome(encoder, batch, measured, start, count) == encode_range_outcome(
            encoder,
            batch,
            start,
            count,
        ),
{
    law_measured_range_is_range(encoder, batch, measured, start, count);
    if count > 0 {
        lemma_measured_is_encodable(encoder, batch);
        let bound = bound_batch_outcome(encoder, batch)->Ok_0;
        let range = batch_rows(bound, start, count);
        let columns = bound.column_count();
        lemma_range_is_convertible(bound, start, count);
        lemma_range_lengths(bound, start, count);
        assert forall|row: int, column: int|
            0 <= row < range.row_count && 0 <= column < range.columns.len() implies
            #[trigger] append_error(
            range.columns[column],
            row,
            measured.cell_lengths[cell_index(measured.column_count as int, start + row, column)],
        ) is None by {
            assert(range.columns[column].outcome(row) is Ok);
            lemma_length_at(range, row, column);
            assert(bound.lengths()[cell_index(columns, start + row, column)]
                == range.lengths()[cell_index(columns, row, column)]);
        }
        lemma_measured_cells_append(range, measured, start as int, 0, 0);
        law_own_measurement_encodes_ranges(bound, start, count);
    }
}

} // verus!
