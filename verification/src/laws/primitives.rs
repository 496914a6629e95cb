//! Laws of cells that are written one by one.

use vstd::prelude::*;

use crate::batch::{ColumnArray, RecordBatch};
use crate::cell::{ArrowCellOf, ArrowCellView, MssqlDateTime2};
use crate::diagnostic::{DiagnosticCode, ErrorView};
use crate::direct::binding::BoundColumnView;
use crate::direct::bound::{
    bound_batch_outcome, fill_column_from, fill_step, with_column_lengths,
};
use crate::direct::cell::cell_bytes;
use crate::direct::encode::encode_outcome;
use crate::direct::encoder::EncoderView;
use crate::direct::fixed_width::fixed_width_outcome;
use crate::direct::layout::{CellPosition, RowLayoutView};
use crate::direct::plan::DirectColumnView;
use crate::direct::primitive::{
    first_non_finite_error, first_null_row, fixed_write_fault, null_write_fault,
    nullable_write_fault, primitive_append_error, primitive_cell_bytes, primitive_error,
    primitive_fill_from, primitive_step, with_primitive_lengths,
};
use crate::direct::primitive_rows::{
    add_lengths_from, cell_width, column_array, column_fill_error, column_measure_error,
    first_fill_error, first_measure_error, fixed_row_len, fixed_rows_len, law_primitive_path_agrees,
    primitive_rows_outcome,
};
use crate::direct::temporal::{datetime2_fault, length_fault, time_fault};
use crate::direct::wire::splice;
use crate::laws::plans::{is_planned_from, law_encoders_plan_every_mapping};
use crate::laws::reading::{number_at, signed};
use crate::laws::rows::{
    all_encoded, bytes_before, encoded, is_ready, law_encoded_rows_are_the_rows, part, rows_before,
};
use crate::laws::wire::{is_writable_time, law_number_cell, law_patterns_keep_the_sign};
use crate::mapping::SchemaMappingView;
use crate::mssql_type::MssqlType;

verus! {

/// Whether a 64-bit float is finite: its exponent is not all ones.
pub open spec fn is_finite(bits: u64) -> bool {
    (bits as int / 0x10_0000_0000_0000) % 0x800 != 0x7FF
}

/// The bytes of a value of a primitive type.
pub open spec fn primitive_size(cell: ArrowCellView) -> nat {
    match cell {
        ArrowCellOf::Boolean(_) => 1,
        ArrowCellOf::Int32(_) => 4,
        _ => 8,
    }
}

/// Whether a cell is a value that primitive columns hold.
pub open spec fn is_primitive_value(cell: ArrowCellView) -> bool {
    cell is Boolean || cell is Int32 || cell is Int64 || cell is Float64
}

/// A primitive cell is its value behind a length byte where the column allows nulls, and a null is
/// a zero length. A null is refused where the column allows none, and so is a float that is not
/// finite.
pub proof fn law_primitive_cells(column: DirectColumnView, row: usize, cell: ArrowCellView)
    requires
        is_primitive_value(cell) || cell is Null,
    ensures
        ({
            let bytes = primitive_cell_bytes(column.nullable, cell);
            let start: int = if column.nullable {
                1
            } else {
                0
            };
            let size = primitive_size(cell);
            &&& cell is Null ==> bytes == seq![0u8]
            &&& !(cell is Null) ==> bytes.len() == start + size && (column.nullable ==> bytes[0]
                == size)
            &&& cell matches ArrowCellOf::Boolean(value) ==> number_at(bytes, start, 1)
                == if value {
                1nat
            } else {
                0
            }
            &&& cell matches ArrowCellOf::Int32(value) ==> signed(
                number_at(bytes, start, 4) as int,
                32,
            ) == value
            &&& cell matches ArrowCellOf::Int64(value) ==> signed(
                number_at(bytes, start, 8) as int,
                64,
            ) == value
            &&& cell matches ArrowCellOf::Float64(bits) ==> number_at(bytes, start, 8) == bits
        }),
        primitive_error(column, row, cell) is None <==> (cell is Null ==> column.nullable) && (
        cell matches ArrowCellOf::Float64(bits) ==> is_finite(bits)),
        primitive_error(column, row, cell) matches Some(error) ==> is_column_error(
            error,
            column,
            row,
            if cell is Null {
                DiagnosticCode::NullInNonNullableColumn
            } else {
                DiagnosticCode::NonFiniteFloat
            },
        ),
{
    let bytes = primitive_cell_bytes(column.nullable, cell);
    match cell {
        ArrowCellOf::Boolean(value) => {
            reveal_with_fuel(number_at, 2);
        },
        ArrowCellOf::Int32(value) => {
            law_patterns_keep_the_sign(0, value, 0);
            let pattern = crate::direct::cell::twos_complement_32(value);
            crate::direct::wire::lemma_le_bytes_len(pattern, 4);
            law_number_cell(pattern as u64, 4, column.nullable);
        },
        ArrowCellOf::Int64(value) => {
            law_patterns_keep_the_sign(0, 0, value);
            let pattern = crate::direct::value::twos_complement_64(value);
            crate::direct::wire::lemma_le_bytes_len(pattern, 8);
            law_number_cell(pattern as u64, 8, column.nullable);
        },
        ArrowCellOf::Float64(bits) => {
            crate::direct::wire::lemma_le_bytes_len(bits as nat, 8);
            law_number_cell(bits, 8, column.nullable);
        },
        _ => {},
    }
}

/// Whether an error is one diagnostic at a row of a planned column.
pub open spec fn is_column_error(
    error: ErrorView,
    column: DirectColumnView,
    row: usize,
    code: DiagnosticCode,
) -> bool {
    &&& error matches ErrorView::ValueConversion(diagnostics) && diagnostics.len() == 1
        && diagnostics[0].code == code && diagnostics[0].row == Some(row) && diagnostics[0].field
        == Some((column.source_index, column.source_name))
}

/// A cell is written exactly when its place has the length of its bytes and lies in the buffer.
pub proof fn law_cells_are_written_to_their_place(
    position: CellPosition,
    value_len: nat,
    buffer_len: nat,
)
    requires
        buffer_len <= usize::MAX,
    ensures
        null_write_fault(position, buffer_len) is None <==> position.len == 1 && position.offset
            + 1 <= buffer_len,
        fixed_write_fault(position, value_len, buffer_len) is None <==> position.len == value_len
            && position.offset + value_len <= buffer_len,
        nullable_write_fault(position, value_len, buffer_len) is None <==> position.len == 1
            + value_len && position.offset + 1 + value_len <= buffer_len && value_len <= 255,
{
}

/// A cell is appended exactly when it was measured with the length of its bytes and its value is
/// one that the column takes.
pub proof fn law_cells_are_appended_as_measured(
    column: DirectColumnView,
    row: usize,
    cell: ArrowCellView,
    measured: usize,
)
    requires
        is_primitive_value(cell) || cell is Null,
    ensures
        primitive_append_error(column, row, cell, measured) is None <==> primitive_error(
            column,
            row,
            cell,
        ) is None && measured == if cell is Null {
            1
        } else if column.nullable {
            1 + primitive_size(cell)
        } else {
            primitive_size(cell)
        },
{
    law_primitive_cells(column, row, cell);
    law_primitive_cells(DirectColumnView { nullable: false, ..column }, row, cell);
}

/// Writing changes the bytes at the place, and no others.
pub proof fn law_writing_changes_the_place(bytes: Seq<u8>, start: int, part: Seq<u8>)
    requires
        0 <= start,
        start + part.len() <= bytes.len(),
    ensures
        splice(bytes, start, part).len() == bytes.len(),
        splice(bytes, start, part).subrange(start, start + part.len()) == part,
        forall|i: int|
            0 <= i < bytes.len() && !(start <= i < start + part.len()) ==> #[trigger] splice(
                bytes,
                start,
                part,
            )[i] == bytes[i],
{
    assert(splice(bytes, start, part).subrange(start, start + part.len()) =~= part);
}

/// The place of a cell of a column.
pub open spec fn place(
    layout: RowLayoutView,
    row: int,
    column_index: usize,
    column_count: usize,
) -> CellPosition {
    layout.cell_positions[row * column_count + column_index]
}

/// Whether a byte is in the place of a cell.
pub open spec fn is_inside(index: int, position: CellPosition) -> bool {
    position.offset <= index < position.offset + position.len
}

/// Whether the places of the rows of a column do not overlap.
pub open spec fn are_apart(
    layout: RowLayoutView,
    column_index: usize,
    column_count: usize,
    count: int,
) -> bool {
    forall|one: int, other: int, index: int|
        #![trigger is_inside(index, place(layout, one, column_index, column_count)),
            is_inside(index, place(layout, other, column_index, column_count))]
        0 <= one < other < count ==> !(is_inside(
            index,
            place(layout, one, column_index, column_count),
        ) && is_inside(index, place(layout, other, column_index, column_count)))
}

/// Filling a column touches no byte outside the places of its cells, and where those do not
/// overlap, each holds the bytes of its cell.
pub proof fn law_filling_writes_the_column(
    column: BoundColumnView,
    column_index: usize,
    column_count: usize,
    layout: RowLayoutView,
    bytes: Seq<u8>,
    row: int,
)
    requires
        0 <= row <= column.cells.len(),
        column.cells.len() <= usize::MAX,
        bytes.len() <= usize::MAX,
    ensures
        ({
            let (filled, error) = fill_column_from(
                column,
                column_index,
                column_count,
                layout,
                bytes,
                row,
            );
            &&& filled.len() == bytes.len()
            &&& forall|i: int|
                #![trigger filled[i]]
                0 <= i < bytes.len() && (forall|r: int|
                    row <= r < column.cells.len() ==> !is_inside(
                        i,
                        #[trigger] place(layout, r, column_index, column_count),
                    )) ==> filled[i] == bytes[i]
            &&& error is None && are_apart(
                layout,
                column_index,
                column_count,
                column.cells.len() as int,
            ) ==> forall|r: int|
                row <= r < column.cells.len() ==> is_held(
                    filled,
                    #[trigger] place(layout, r, column_index, column_count),
                    cell_bytes(column.outcome(r)->Ok_0),
                )
        }),
    decreases column.cells.len() - row,
{
    if row < column.cells.len() {
        if let Ok((offset, written)) = fill_step(
            column,
            column_index,
            column_count,
            layout,
            bytes.len(),
            row,
        ) {
            let next = splice(bytes, offset, written);
            let position = place(layout, row, column_index, column_count);
            assert(offset == position.offset && written.len() == position.len);
            law_writing_changes_the_place(bytes, offset, written);
            law_filling_writes_the_column(
                column,
                column_index,
                column_count,
                layout,
                next,
                row + 1,
            );
            let (filled, error) = fill_column_from(
                column,
                column_index,
                column_count,
                layout,
                next,
                row + 1,
            );
            assert forall|i: int|
                #![trigger filled[i]]
                0 <= i < bytes.len() && (forall|r: int|
                    row <= r < column.cells.len() ==> !is_inside(
                        i,
                        #[trigger] place(layout, r, column_index, column_count),
                    )) implies filled[i] == bytes[i] by {
                assert(!is_inside(i, place(layout, row, column_index, column_count)));
                assert(next[i] == bytes[i]);
            }
            if error is None && are_apart(
                layout,
                column_index,
                column_count,
                column.cells.len() as int,
            ) {
                assert forall|i: int| offset <= i < offset + written.len() implies filled[i]
                    == next[i] by {
                    assert(is_inside(i, place(layout, row, column_index, column_count)));
                    assert forall|r: int| row + 1 <= r < column.cells.len() implies !is_inside(
                        i,
                        #[trigger] place(layout, r, column_index, column_count),
                    ) by {}
                }
                assert(filled.subrange(offset, offset + written.len()) =~= next.subrange(
                    offset,
                    offset + written.len(),
                ));
                assert(is_held(filled, position, cell_bytes(column.outcome(row)->Ok_0)));
            }
        }
    }
}

/// Whether a place holds some bytes.
pub open spec fn is_held(bytes: Seq<u8>, position: CellPosition, held: Seq<u8>) -> bool {
    &&& position.len == held.len()
    &&& bytes.subrange(position.offset as int, position.offset + position.len) == held
}

/// Filling a primitive column touches no byte outside the places of its cells, and where those do
/// not overlap, each holds the bytes of its cell.
pub proof fn law_filling_writes_the_primitive_column(
    column: DirectColumnView,
    cells: Seq<ArrowCellView>,
    column_index: usize,
    column_count: usize,
    layout: RowLayoutView,
    bytes: Seq<u8>,
    row: int,
)
    requires
        0 <= row <= cells.len(),
        cells.len() <= usize::MAX,
        bytes.len() <= usize::MAX,
        forall|r: int|
            0 <= r < cells.len() ==> is_primitive_value(#[trigger] cells[r]) || cells[r] is Null,
    ensures
        ({
            let (filled, error) = primitive_fill_from(
                column,
                cells,
                column_index,
                column_count,
                layout,
                bytes,
                row,
            );
            &&& filled.len() == bytes.len()
            &&& forall|i: int|
                #![trigger filled[i]]
                0 <= i < bytes.len() && (forall|r: int|
                    row <= r < cells.len() ==> !is_inside(
                        i,
                        #[trigger] place(layout, r, column_index, column_count),
                    )) ==> filled[i] == bytes[i]
            &&& error is None && are_apart(
                layout,
                column_index,
                column_count,
                cells.len() as int,
            ) ==> forall|r: int|
                row <= r < cells.len() ==> is_held(
                    filled,
                    #[trigger] place(layout, r, column_index, column_count),
                    primitive_cell_bytes(column.nullable, cells[r]),
                )
        }),
    decreases cells.len() - row,
{
    if row < cells.len() {
        if let Ok((offset, written)) = primitive_step(
            column,
            cells[row],
            column_index,
            column_count,
            layout,
            bytes.len(),
            row,
        ) {
            let next = splice(bytes, offset, written);
            let position = place(layout, row, column_index, column_count);
            law_primitive_cells(column, row as usize, cells[row]);
            assert(offset == position.offset && written.len() == position.len);
            law_writing_changes_the_place(bytes, offset, written);
            law_filling_writes_the_primitive_column(
                column,
                cells,
                column_index,
                column_count,
                layout,
                next,
                row + 1,
            );
            let (filled, error) = primitive_fill_from(
                column,
                cells,
                column_index,
                column_count,
                layout,
                next,
                row + 1,
            );
            assert forall|i: int|
                #![trigger filled[i]]
                0 <= i < bytes.len() && (forall|r: int|
                    row <= r < cells.len() ==> !is_inside(
                        i,
                        #[trigger] place(layout, r, column_index, column_count),
                    )) implies filled[i] == bytes[i] by {
                assert(!is_inside(i, place(layout, row, column_index, column_count)));
                assert(next[i] == bytes[i]);
            }
            if error is None && are_apart(layout, column_index, column_count, cells.len() as int) {
                assert forall|i: int| offset <= i < offset + written.len() implies filled[i]
                    == next[i] by {
                    assert(is_inside(i, place(layout, row, column_index, column_count)));
                    assert forall|r: int| row + 1 <= r < cells.len() implies !is_inside(
                        i,
                        #[trigger] place(layout, r, column_index, column_count),
                    ) by {}
                }
                assert(filled.subrange(offset, offset + written.len()) =~= next.subrange(
                    offset,
                    offset + written.len(),
                ));
                assert(is_held(filled, position, written));
            }
        }
    }
}

/// Measuring a column sets the length of each of its cells to the number of its bytes, and no other
/// length.
pub proof fn law_measuring_sets_the_column(
    lengths: Seq<usize>,
    column: BoundColumnView,
    column_index: int,
    column_count: int,
    rows: int,
    row: int,
    other: int,
)
    requires
        0 <= column_index < column_count,
        0 <= other < column_count,
        0 <= row,
        row * column_count + column_count <= lengths.len(),
        cell_bytes(column.outcome(row)->Ok_0).len() <= usize::MAX,
    ensures
        ({
            let set = with_column_lengths(lengths, column, column_index, column_count, rows);
            &&& set.len() == lengths.len()
            &&& set[row * column_count + other] == if other == column_index && row < rows {
                cell_bytes(column.outcome(row)->Ok_0).len()
            } else {
                lengths[row * column_count + other] as nat
            }
        }),
{
    vstd::arithmetic::div_mod::lemma_fundamental_div_mod_converse(
        row * column_count + other,
        column_count,
        row,
        other,
    );
    assert(0 <= row * column_count) by (nonlinear_arith)
        requires
            0 <= row,
            0 < column_count,
    ;
}

/// Measuring a primitive column sets the length of each of its cells, and no other length: one byte
/// for a null, and for a value its width, with a length byte where the column allows nulls.
pub proof fn law_measuring_sets_the_primitive_column(
    lengths: Seq<usize>,
    array: ColumnArray,
    nullable: bool,
    width: usize,
    column_index: int,
    column_count: int,
    rows: int,
    row: int,
    other: int,
)
    requires
        0 <= column_index < column_count,
        0 <= other < column_count,
        0 <= row,
        row * column_count + column_count <= lengths.len(),
        width < usize::MAX,
    ensures
        ({
            let set = with_primitive_lengths(
                lengths,
                array,
                nullable,
                width,
                column_index,
                column_count,
                rows,
            );
            &&& set.len() == lengths.len()
            &&& set[row * column_count + other] == if other != column_index || row >= rows {
                lengths[row * column_count + other] as int
            } else if array.cell_at(row) is Null {
                1
            } else if nullable {
                1 + width
            } else {
                width as int
            }
        }),
{
    vstd::arithmetic::div_mod::lemma_fundamental_div_mod_converse(
        row * column_count + other,
        column_count,
        row,
        other,
    );
    assert(0 <= row * column_count) by (nonlinear_arith)
        requires
            0 <= row,
            0 < column_count,
    ;
}

/// Adding parts to lengths adds each to its own, unless one overflows.
pub proof fn law_parts_are_added_to_lengths(lengths: Seq<usize>, parts: Seq<int>, index: int)
    requires
        0 <= index <= lengths.len(),
        parts.len() == lengths.len(),
        forall|i: int| 0 <= i < parts.len() ==> 0 <= #[trigger] parts[i],
    ensures
        ({
            let (added, error) = add_lengths_from(lengths, parts, index);
            &&& added.len() == lengths.len()
            &&& error is None <==> forall|i: int|
                index <= i < lengths.len() ==> lengths[i] + (#[trigger] parts[i]) <= usize::MAX
            &&& error is None ==> forall|i: int|
                0 <= i < lengths.len() ==> #[trigger] added[i] == if i < index {
                    lengths[i] as int
                } else {
                    lengths[i] + parts[i]
                }
        }),
    decreases lengths.len() - index,
{
    if index < lengths.len() {
        if lengths[index] + parts[index] <= usize::MAX {
            let next = lengths.update(index, (lengths[index] + parts[index]) as usize);
            law_parts_are_added_to_lengths(next, parts, index + 1);
            let (added, error) = add_lengths_from(next, parts, index + 1);
            if error is None {
                assert forall|i: int| index <= i < lengths.len() implies lengths[i] + (
                #[trigger] parts[i]) <= usize::MAX by {
                    if i > index {
                        assert(next[i] + parts[i] <= usize::MAX);
                    }
                }
            } else {
                let i = choose|i: int|
                    index + 1 <= i < next.len() && next[i] + (#[trigger] parts[i]) > usize::MAX;
                assert(lengths[i] + parts[i] > usize::MAX);
            }
        } else {
            assert(parts[index] >= 0);
        }
    }
}

/// A time of day is written exactly when it has at most seven fractional-second digits and its
/// bytes can hold it; a date and time, when its date fits three bytes too; and both only into a
/// buffer of their length.
pub proof fn law_times_are_written_where_they_fit(
    datetime2: MssqlDateTime2,
    len: nat,
    expected: nat,
)
    ensures
        time_fault(datetime2.time) is None <==> datetime2.time.scale <= 7 && is_writable_time(
            datetime2.time,
        ),
        datetime2_fault(datetime2) is None <==> datetime2.time.scale <= 7 && is_writable_time(
            datetime2.time,
        ) && datetime2.date.days < 0x100_0000,
        length_fault(len, expected) is None <==> len == expected,
{
}

/// Whether columns of a mapping have a primitive layout.
pub open spec fn is_primitive_mapping(mapping: SchemaMappingView) -> bool {
    let data_type = mapping.arrow.data_type;
    match mapping.mssql.ty {
        MssqlType::Bit => data_type is Boolean,
        MssqlType::Int => data_type is Int32,
        MssqlType::BigInt => data_type is Int64,
        MssqlType::Float { precision } => data_type is Float64 && precision == 53,
        _ => false,
    }
}

/// Whether the columns of mappings all have a primitive layout.
pub open spec fn all_primitive_mappings(mappings: Seq<SchemaMappingView>) -> bool {
    forall|i: int| 0 <= i < mappings.len() ==> #[trigger] is_primitive_mapping(mappings[i])
}

/// Rows take the primitive path exactly when all their columns have a primitive layout, and what it
/// encodes is what encoding the batch gives.
pub proof fn law_primitive_rows_take_the_primitive_path(encoder: EncoderView, batch: RecordBatch)
    requires
        is_ready(encoder, batch),
        batch.rows() > 0,
        batch.rows() * encoder.mappings.len() <= usize::MAX,
    ensures
        (primitive_rows_outcome(encoder.columns, batch) matches Ok(None))
            <==> !all_primitive_mappings(encoder.mappings),
        all_primitive_mappings(encoder.mappings) ==> (encode_outcome(encoder, batch) matches Ok(
            payload,
        ) ==> primitive_rows_outcome(encoder.columns, batch) == Ok::<_, ErrorView>(Some(payload))),
        primitive_rows_outcome(encoder.columns, batch) matches Ok(Some(payload)) ==> encode_outcome(
            encoder,
            batch,
        ) == Ok::<_, ErrorView>(payload),
{
    let columns = encoder.columns;
    law_encoders_plan_every_mapping(encoder.mappings, encoder.context);
    law_primitive_path_agrees(encoder, batch);
    law_encoded_rows_are_the_rows(encoder, batch, 0, batch.rows());
    assert forall|i: int| 0 <= i < columns.len() implies (
    crate::direct::primitive::encoding_width((#[trigger] columns[i]).encoding) is Some
        <==> is_primitive_mapping(encoder.mappings[i])) by {
        assert(is_planned_from(columns[i], encoder.mappings[i]));
    }
    if all_primitive_mappings(encoder.mappings) {
        assert forall|i: int| 0 <= i < columns.len() implies
            crate::direct::primitive::encoding_width((#[trigger] columns[i]).encoding) is Some by {
            assert(is_primitive_mapping(encoder.mappings[i]));
        }
    } else {
        let i = choose|i: int|
            0 <= i < encoder.mappings.len() && !(#[trigger] is_primitive_mapping(
                encoder.mappings[i],
            ));
        assert(crate::direct::primitive::encoding_width(columns[i].encoding) is None);
    }
    if all_primitive_mappings(encoder.mappings) && encode_outcome(encoder, batch) is Ok {
        lemma_no_measure_error(encoder, batch, 0);
        lemma_no_fill_error(encoder, batch, 0);
        lemma_fixed_rows(encoder, batch, batch.rows() as int);
    }
}

/// A batch that encodes, of primitive columns.
spec fn is_primitive_batch(encoder: EncoderView, batch: RecordBatch) -> bool {
    &&& is_ready(encoder, batch)
    &&& all_primitive_mappings(encoder.mappings)
    &&& all_encoded(encoder, batch, 0, batch.rows() as int)
    &&& rows_before(encoder, batch, 0, batch.rows() as int) <= usize::MAX
}

/// A primitive column of a batch that encodes.
proof fn lemma_primitive_cell(encoder: EncoderView, batch: RecordBatch, row: int, column: int)
    requires
        is_primitive_batch(encoder, batch),
        0 <= row < batch.rows(),
        0 <= column < encoder.mappings.len(),
    ensures
        encoder.columns.len() == encoder.mappings.len(),
        encoder.columns[column].source_index == column,
        batch.arrays().len() == encoder.mappings.len(),
        column_array(encoder.columns[column], batch.arrays()) == batch.arrays()[column],
        batch.arrays()[column].row_count() == batch.rows(),
        part(encoder, batch, 0, row, column).len() == cell_width(
            encoder.columns[column],
            batch.arrays(),
            row,
        ),
        crate::direct::binding::reads_array(
            encoder.columns[column].encoding,
            batch.arrays()[column],
        ),
        batch.arrays()[column].cell_at(row) is Null ==> encoder.columns[column].nullable,
        batch.arrays()[column] matches ColumnArray::Float64(values) ==> (values@[row] matches Some(
            bits,
        ) ==> is_finite(bits)),
{
    law_encoders_plan_every_mapping(encoder.mappings, encoder.context);
    crate::laws::batches::law_batches_have_the_shape_of_their_mappings(batch, encoder.mappings);
    assert(is_planned_from(encoder.columns[column], encoder.mappings[column]));
    assert(crate::laws::batches::is_encoded_column_of(batch, encoder.mappings, column));
    assert(is_primitive_mapping(encoder.mappings[column]));
    assert(encoded(encoder, batch, 0, row, column) is Ok);
    let array = batch.arrays()[column];
    crate::laws::batches::law_arrays_hold_their_values(array, row);
    let found = encoded(encoder, batch, 0, row, column)->Ok_0;
    crate::laws::wire::law_null_cells();
    if !(array.cell_at(0 + row) is Null) {
        assert(found is Fixed);
        law_number_cell(found->value, found->width, found->prefixed);
    }
}

/// The bytes of the first cells of a row of primitive columns.
proof fn lemma_fixed_row(encoder: EncoderView, batch: RecordBatch, row: int, count: int)
    requires
        is_primitive_batch(encoder, batch),
        0 <= row < batch.rows(),
        0 <= count <= encoder.mappings.len(),
    ensures
        fixed_row_len(encoder.columns, batch.arrays(), row, count) == 1 + bytes_before(
            encoder,
            batch,
            0,
            row,
            count,
        ),
    decreases count,
{
    if count > 0 {
        lemma_fixed_row(encoder, batch, row, count - 1);
        lemma_primitive_cell(encoder, batch, row, count - 1);
    }
}

/// The bytes of the first rows of primitive columns.
proof fn lemma_fixed_rows(encoder: EncoderView, batch: RecordBatch, count: int)
    requires
        is_primitive_batch(encoder, batch),
        0 <= count <= batch.rows(),
    ensures
        fixed_rows_len(encoder.columns, batch.arrays(), count) == rows_before(
            encoder,
            batch,
            0,
            count,
        ),
    decreases count,
{
    if count > 0 {
        law_encoders_plan_every_mapping(encoder.mappings, encoder.context);
        lemma_fixed_rows(encoder, batch, count - 1);
        lemma_fixed_row(encoder, batch, count - 1, encoder.mappings.len() as int);
    }
}

/// The cells of a row before a column take no more bytes than all rows.
proof fn lemma_row_fits(encoder: EncoderView, batch: RecordBatch, row: int, column: int, rows: int)
    requires
        0 <= row < rows,
        0 <= column <= encoder.mappings.len(),
    ensures
        0 <= bytes_before(encoder, batch, 0, row, column),
        0 <= rows_before(encoder, batch, 0, row),
        1 + bytes_before(encoder, batch, 0, row, column) <= rows_before(encoder, batch, 0, rows),
    decreases rows, encoder.mappings.len() - column,
{
    lemma_bytes_grow(encoder, batch, row, 0, column);
    lemma_bytes_grow(encoder, batch, row, column, encoder.mappings.len() as int);
    lemma_rows_grow(encoder, batch, 0, row);
    lemma_rows_grow(encoder, batch, row + 1, rows);
}

/// More cells take no fewer bytes.
proof fn lemma_bytes_grow(
    encoder: EncoderView,
    batch: RecordBatch,
    row: int,
    low: int,
    high: int,
)
    requires
        0 <= low <= high,
    ensures
        bytes_before(encoder, batch, 0, row, low) <= bytes_before(encoder, batch, 0, row, high),
    decreases high - low,
{
    if low < high {
        lemma_bytes_grow(encoder, batch, row, low, high - 1);
    }
}

/// More rows take no fewer bytes.
proof fn lemma_rows_grow(encoder: EncoderView, batch: RecordBatch, low: int, high: int)
    requires
        0 <= low <= high,
    ensures
        rows_before(encoder, batch, 0, low) <= rows_before(encoder, batch, 0, high),
    decreases high - low,
{
    if low < high {
        lemma_rows_grow(encoder, batch, low, high - 1);
        lemma_bytes_grow(encoder, batch, high - 1, 0, encoder.mappings.len() as int);
    }
}

/// Primitive columns that encode are measured without an error.
proof fn lemma_no_measure_error(encoder: EncoderView, batch: RecordBatch, index: int)
    requires
        is_primitive_batch(encoder, batch),
        batch.rows() > 0,
        0 <= index <= encoder.mappings.len(),
    ensures
        first_measure_error(encoder.columns, batch.arrays(), batch.rows(), index) is None,
    decreases encoder.mappings.len() - index,
{
    law_encoders_plan_every_mapping(encoder.mappings, encoder.context);
    if index < encoder.mappings.len() {
        lemma_no_measure_error(encoder, batch, index + 1);
        lemma_primitive_cell(encoder, batch, 0, index);
        let array = batch.arrays()[index];
        lemma_first_null_row(array, 0);
        let null_row = first_null_row(array, 0);
        if null_row < batch.rows() {
            lemma_primitive_cell(encoder, batch, null_row, index);
        }
        assert forall|row: int| 0 <= row < batch.rows() implies #[trigger] fixed_row_len(
            encoder.columns,
            batch.arrays(),
            row,
            index + 1,
        ) <= usize::MAX by {
            lemma_fixed_row(encoder, batch, row, index + 1);
            lemma_row_fits(encoder, batch, row, index + 1, batch.rows() as int);
        }
        assert(column_measure_error(encoder.columns, batch.arrays(), batch.rows(), index) is None);
    }
}

/// The first null row of an array is null.
proof fn lemma_first_null_row(array: ColumnArray, row: int)
    requires
        0 <= row <= array.row_count(),
    ensures
        row <= first_null_row(array, row) <= array.row_count(),
        first_null_row(array, row) < array.row_count() ==> array.cell_at(
            first_null_row(array, row),
        ) is Null,
    decreases array.row_count() - row,
{
    if row < array.row_count() {
        lemma_first_null_row(array, row + 1);
    }
}

/// Primitive columns that encode are filled without an error.
proof fn lemma_no_fill_error(encoder: EncoderView, batch: RecordBatch, index: int)
    requires
        is_primitive_batch(encoder, batch),
        batch.rows() > 0,
        0 <= index <= encoder.mappings.len(),
    ensures
        first_fill_error(encoder.columns, batch.arrays(), index) is None,
    decreases encoder.mappings.len() - index,
{
    law_encoders_plan_every_mapping(encoder.mappings, encoder.context);
    if index < encoder.mappings.len() {
        lemma_no_fill_error(encoder, batch, index + 1);
        lemma_primitive_cell(encoder, batch, 0, index);
        if let ColumnArray::Float64(values) = batch.arrays()[index] {
            assert forall|row: int| 0 <= row < values@.len() implies (
            #[trigger] values@[row] matches Some(bits) ==> is_finite(bits)) by {
                lemma_primitive_cell(encoder, batch, row, index);
            }
            lemma_all_finite(encoder.columns[index], values@, 0);
        }
        assert(column_fill_error(encoder.columns[index], batch.arrays()) is None);
    }
}

/// Floats that are all finite meet no error.
proof fn lemma_all_finite(column: DirectColumnView, values: Seq<Option<u64>>, row: int)
    requires
        0 <= row <= values.len(),
        forall|r: int|
            0 <= r < values.len() ==> (#[trigger] values[r] matches Some(bits) ==> is_finite(bits)),
    ensures
        first_non_finite_error(column, values, row) is None,
    decreases values.len() - row,
{
    if row < values.len() {
        lemma_all_finite(column, values, row + 1);
        assert(values[row] matches Some(bits) ==> is_finite(bits));
    }
}

/// Whether every value of a column of a mapping takes the same bytes.
pub open spec fn is_fixed_width_mapping(mapping: SchemaMappingView) -> bool {
    !(mapping.mssql.ty is NVarChar) && !(mapping.mssql.ty is VarBinary) && !(mapping.mssql.ty
        is Decimal)
}

/// Rows take the fixed-width path exactly when no column is text, a byte string of any length or a
/// decimal, and what it encodes is what encoding the batch gives.
pub proof fn law_fixed_width_rows_take_the_fixed_width_path(
    encoder: EncoderView,
    batch: RecordBatch,
)
    requires
        is_ready(encoder, batch),
        batch.rows() > 0,
    ensures
        bound_batch_outcome(encoder, batch) is Ok,
        ({
            let found = fixed_width_outcome(bound_batch_outcome(encoder, batch)->Ok_0);
            let fixed = forall|i: int|
                0 <= i < encoder.mappings.len() ==> #[trigger] is_fixed_width_mapping(
                    encoder.mappings[i],
                );
            &&& (found matches Ok(None)) <==> !fixed
            &&& fixed ==> match encode_outcome(encoder, batch) {
                Ok(payload) => found == Ok::<_, ErrorView>(Some(payload)),
                Err(error) => found matches Err(other) && other == error,
            }
        }),
{
    law_encoders_plan_every_mapping(encoder.mappings, encoder.context);
    crate::laws::rows::lemma_bound(encoder, batch, 0);
    let bound = bound_batch_outcome(encoder, batch)->Ok_0;
    assert forall|i: int| 0 <= i < encoder.mappings.len() implies (
    crate::direct::fixed_width::is_fixed_width((#[trigger] bound.columns[i]).plan.encoding)
        <==> is_fixed_width_mapping(encoder.mappings[i])) by {
        assert(crate::direct::bound::bind_outcome(encoder, batch.arrays(), i) is Ok);
        assert(is_planned_from(encoder.columns[i], encoder.mappings[i]));
    }
    if forall|i: int|
        0 <= i < encoder.mappings.len() ==> #[trigger] is_fixed_width_mapping(
            encoder.mappings[i],
        ) {
        assert forall|i: int| 0 <= i < bound.columns.len() implies
            crate::direct::fixed_width::is_fixed_width(
            (#[trigger] bound.columns[i]).plan.encoding,
        ) by {
            assert(is_fixed_width_mapping(encoder.mappings[i]));
        }
    } else {
        let i = choose|i: int|
            0 <= i < encoder.mappings.len() && !(#[trigger] is_fixed_width_mapping(
                encoder.mappings[i],
            ));
        assert(!crate::direct::fixed_width::is_fixed_width(bound.columns[i].plan.encoding));
    }
}

} // verus!
