//! Encoding of primitive columns without a layout of their cells.

use vstd::prelude::*;

use crate::arrow_type::ArrowType;
use crate::batch::{ColumnArray, RecordBatch};
use crate::cell::{optional_bytes, ArrowCellOf, ArrowCellView};
use crate::classify::PrimitiveArrowToMssql;
use crate::context::NanosecondPolicy;
use crate::diagnostic::{
    outcome, payload_error, value_conversion_error, DiagnosticCode, Error, ErrorView, Result,
};
use crate::direct::assemble::{is_encodable, lemma_holding_all_is_payload};
use crate::direct::binding::{
    array_cells, array_mismatch, downcast_error, reads_array, BoundColumnView,
};
use crate::direct::bound::{bind_outcome, bound_batch_outcome, error_of, first_bind_error};
use crate::direct::cell::{cell_bytes, twos_complement_32};
use crate::direct::encode::{empty_payload, lemma_bound_batch_is_well_formed};
use crate::direct::encoder::{column_error, row_column_diagnostic, EncoderView};
use crate::direct::fixed_width::{
    holds_cells, holds_tokens, is_optional_payload, lemma_agreement_kept,
    lemma_written_cell,
};
use crate::direct::image::{
    cell_start, law_encoded_payload_is_accepted, law_first_error_is_column_major, row_start,
    BoundBatchView,
};
use crate::direct::payload::{EncodedRowsPayload, PayloadView, TDS_ROW_TOKEN};
use crate::direct::plan::{
    column_of, column_views, DirectColumnEncoding, DirectColumnPlan, DirectColumnView,
};
use crate::direct::primitive::{
    encoding_width, first_non_finite_error, first_null_row, fixed_cell_len, fixed_width_value_len,
    boolean_bytes, non_finite_in_column, null_error, null_in_column, pattern_bytes,
    primitive_bytes, primitive_cell_bytes, primitive_error, CELL_LEN_PREFIX_LEN,
};
use crate::direct::rows::{checked_add, write_row_tokens, zeros, ROW_TOKEN_LEN};
use crate::direct::value::{bit_pattern, direct_cell_outcome, twos_complement_64};
use crate::direct::wire::{le_bytes, lemma_le_bytes_len, splice, write_bytes};
use crate::float::{classify_float64, float64_class};
use crate::mapping::{ArrowFieldView, MssqlColumnView, SchemaMappingView};
use crate::message::{Fault, MessageOf};

verus! {

/// A planned column whose values have a fixed width.
#[derive(Debug, Clone, Copy)]
pub struct FixedWidthColumn<'a> {
    /// Planned column.
    pub plan: &'a DirectColumnPlan,
    /// Number of bytes of a value.
    pub value_len: usize,
}

/// Row offsets of primitive rows, and where the next cell of every row goes.
#[derive(Debug, PartialEq, Eq)]
pub struct FixedWidthRowsLayout {
    /// Offset of every row.
    pub row_token_offsets: Vec<usize>,
    /// Offset of the next cell of every row.
    pub current_offsets: Vec<usize>,
    /// Number of bytes of all rows.
    pub payload_len: usize,
}

/// Lengths with parts added from an index on, and the error that ended the adding.
pub open spec fn add_lengths_from(lengths: Seq<usize>, parts: Seq<int>, index: int) -> (
    Seq<usize>,
    Option<ErrorView>,
)
    decreases lengths.len() - index,
{
    if index < 0 || index >= lengths.len() {
        (lengths, None)
    } else if lengths[index] + parts[index] > usize::MAX {
        (lengths, Some(payload_error(Fault::PrimitiveLengthOverflow)))
    } else {
        add_lengths_from(
            lengths.update(index, (lengths[index] + parts[index]) as usize),
            parts,
            index + 1,
        )
    }
}

/// Adding parts changes every length by its part, or ends at a length that overflows.
proof fn lemma_add_lengths(lengths: Seq<usize>, parts: Seq<int>, index: int)
    requires
        0 <= index <= lengths.len(),
        parts.len() == lengths.len(),
        forall|i: int| 0 <= i < parts.len() ==> 0 <= #[trigger] parts[i],
    ensures
        ({
            let (added, error) = add_lengths_from(lengths, parts, index);
            &&& added.len() == lengths.len()
            &&& forall|i: int| 0 <= i < index ==> #[trigger] added[i] == lengths[i]
            &&& error is None ==> forall|i: int|
                index <= i < lengths.len() ==> #[trigger] added[i] == lengths[i] + parts[i]
            &&& error matches Some(view) ==> view == payload_error(Fault::PrimitiveLengthOverflow)
                && exists|i: int|
                index <= i < lengths.len() && #[trigger] lengths[i] + parts[i] > usize::MAX
        }),
    decreases lengths.len() - index,
{
    if index < lengths.len() && lengths[index] + parts[index] <= usize::MAX {
        let next = lengths.update(index, (lengths[index] + parts[index]) as usize);
        lemma_add_lengths(next, parts, index + 1);
        let (added, error) = add_lengths_from(next, parts, index + 1);
        if error is None {
            assert forall|i: int| index <= i < lengths.len() implies #[trigger] added[i]
                == lengths[i] + parts[i] by {
                if i > index {
                    assert(next[i] == lengths[i]);
                }
            }
        } else {
            let i = choose|i: int|
                index + 1 <= i < next.len() && #[trigger] next[i] + parts[i] > usize::MAX;
            assert(lengths[i] + parts[i] > usize::MAX);
        }
    }
}

/// Adds the width of a column that allows no nulls to every row length.
pub fn add_non_nullable_fixed_width_column_lengths(value_len: usize, row_lengths: &mut [usize]) -> (
    result: Result<()>)
    ensures
        (final(row_lengths)@, error_of(result)) == add_lengths_from(
            old(row_lengths)@,
            Seq::new(old(row_lengths)@.len(), |row: int| value_len as int),
            0,
        ),
{
    let ghost before = row_lengths@;
    let ghost parts = Seq::new(before.len(), |row: int| value_len as int);
    let row_count: usize = row_lengths.len();
    let mut row: usize = 0;
    while row < row_count
        invariant
            row <= row_count,
            row_count == row_lengths@.len(),
            before == old(row_lengths)@,
            before.len() == row_count,
            parts == Seq::new(before.len(), |row: int| value_len as int),
            add_lengths_from(before, parts, 0) == add_lengths_from(
                row_lengths@,
                parts,
                row as int,
            ),
        decreases row_count - row,
    {
        let sum: usize = match checked_add(row_lengths[row], value_len) {
            Ok(sum) => sum,
            Err(error) => {
                return Err(error);
            },
        };
        row_lengths[row] = sum;
        row += 1;
    }
    Ok(())
}

/// The widths of the cells of a column that allows nulls.
pub open spec fn nullable_widths(array: ColumnArray, value_len: usize, count: nat) -> Seq<int> {
    Seq::new(
        count,
        |row: int| fixed_cell_len(true, value_len, array.cell_at(row) is Null),
    )
}

/// Adds the widths of the cells of a column that allows nulls to the row lengths.
pub fn add_nullable_fixed_width_column_lengths(
    array: &ColumnArray,
    value_len: usize,
    row_lengths: &mut [usize],
) -> (result: Result<()>)
    requires
        old(row_lengths)@.len() <= array.row_count(),
    ensures
        (final(row_lengths)@, error_of(result)) == add_lengths_from(
            old(row_lengths)@,
            nullable_widths(*array, value_len, old(row_lengths)@.len()),
            0,
        ),
{
    let ghost before = row_lengths@;
    let ghost parts = nullable_widths(*array, value_len, before.len());
    let row_count: usize = row_lengths.len();
    let mut row: usize = 0;
    while row < row_count
        invariant
            row <= row_count,
            row_count == row_lengths@.len(),
            row_count <= array.row_count(),
            before == old(row_lengths)@,
            before.len() == row_count,
            parts == nullable_widths(*array, value_len, before.len()),
            add_lengths_from(before, parts, 0) == add_lengths_from(
                row_lengths@,
                parts,
                row as int,
            ),
        decreases row_count - row,
    {
        let cell_len: usize = if array.is_null(row) {
            CELL_LEN_PREFIX_LEN
        } else {
            match checked_add(CELL_LEN_PREFIX_LEN, value_len) {
                Ok(cell_len) => cell_len,
                Err(error) => {
                    return Err(error);
                },
            }
        };
        let sum: usize = match checked_add(row_lengths[row], cell_len) {
            Ok(sum) => sum,
            Err(error) => {
                return Err(error);
            },
        };
        row_lengths[row] = sum;
        row += 1;
    }
    Ok(())
}

/// Creates the error of the first null of a column that allows none.
pub fn first_null_error(array: &ColumnArray, column: &DirectColumnPlan) -> (error: Error)
    ensures
        ({
            let row = first_null_row(*array, 0);
            error@ == null_error(
                column@,
                if row < array.row_count() {
                    row as usize
                } else {
                    0
                },
            )
        }),
{
    null_in_column(
        column,
        match find_null(array) {
            Some(row_index) => row_index,
            None => 0,
        },
    )
}

/// Finds the first null of an array.
fn find_null(array: &ColumnArray) -> (row: Option<usize>)
    ensures
        match row {
            Some(row) => row < array.row_count() && row == first_null_row(*array, 0),
            None => first_null_row(*array, 0) == array.row_count(),
        },
{
    let row_count: usize = array.len();
    let mut row: usize = 0;
    while row < row_count
        invariant
            row <= row_count,
            row_count == array.row_count(),
            first_null_row(*array, 0) == first_null_row(*array, row as int),
        decreases row_count - row,
    {
        if array.is_null(row) {
            return Some(row);
        }
        row += 1;
    }
    None
}

/// The buffer and the offsets after the rows of a column from a row on are written where the
/// offsets point, and the error that ended the writing.
pub open spec fn fixed_fill_from(
    column: DirectColumnView,
    cells: Seq<ArrowCellView>,
    offsets: Seq<usize>,
    bytes: Seq<u8>,
    row: int,
) -> (Seq<usize>, Seq<u8>, Option<ErrorView>)
    decreases cells.len() - row,
{
    if row < 0 || row >= cells.len() {
        (offsets, bytes, None)
    } else {
        match primitive_error(column, row as usize, cells[row]) {
            Some(error) => (offsets, bytes, Some(error)),
            None => {
                let part = primitive_cell_bytes(column.nullable, cells[row]);
                fixed_fill_from(
                    column,
                    cells,
                    offsets.update(row, (offsets[row] + part.len()) as usize),
                    splice(bytes, offsets[row] as int, part),
                    row + 1,
                )
            },
        }
    }
}

/// Whether the cells of a column fit a buffer where the offsets point.
pub open spec fn cells_fit(
    column: DirectColumnView,
    cells: Seq<ArrowCellView>,
    offsets: Seq<usize>,
    buffer_len: nat,
    row: int,
) -> bool {
    &&& cells.len() <= offsets.len()
    &&& forall|r: int|
        row <= r < cells.len() ==> (#[trigger] offsets[r]) + primitive_cell_bytes(
            column.nullable,
            cells[r],
        ).len() <= buffer_len
}

/// Whether the values of a column have no null where the column allows none.
pub open spec fn nulls_allowed(column: DirectColumnView, cells: Seq<ArrowCellView>) -> bool {
    column.nullable || forall|r: int| 0 <= r < cells.len() ==> !(#[trigger] cells[r] is Null)
}

/// The bytes of a cell whose value is given as bytes.
pub open spec fn value_cell_bytes(nullable: bool, value: Option<Seq<u8>>) -> Seq<u8> {
    match value {
        None => seq![0u8],
        Some(value) => if nullable {
            seq![value.len() as u8] + value
        } else {
            value
        },
    }
}

/// Writes one value, given as bytes, where the row's offset points, and moves the offset behind it.
pub fn write_fixed_width_value(
    column: &DirectColumnPlan,
    row_index: usize,
    value: Option<&[u8]>,
    current_offsets: &mut [usize],
    bytes: &mut [u8],
)
    requires
        row_index < old(current_offsets)@.len(),
        value matches Some(value) ==> value@.len() <= u8::MAX,
        old(current_offsets)@[row_index as int] + value_cell_bytes(
            column@.nullable,
            optional_bytes(value),
        ).len() <= old(bytes)@.len(),
    ensures
        ({
            let offset = old(current_offsets)@[row_index as int];
            let part = value_cell_bytes(column@.nullable, optional_bytes(value));
            &&& final(bytes)@ == splice(old(bytes)@, offset as int, part)
            &&& final(current_offsets)@ == old(current_offsets)@.update(
                row_index as int,
                (offset + part.len()) as usize,
            )
        }),
{
    let buffer_len: usize = bytes.len();
    let offset: usize = current_offsets[row_index];
    match value {
        None => {
            bytes[offset] = 0;
            assert(bytes@ =~= splice(old(bytes)@, offset as int, seq![0u8]));
            current_offsets[row_index] = offset + CELL_LEN_PREFIX_LEN;
        },
        Some(value) => {
            let value_len: usize = value.len();
            if column.nullable() {
                bytes[offset] = value_len as u8;
                write_bytes(bytes, offset + CELL_LEN_PREFIX_LEN, value);
                assert(bytes@ =~= splice(
                    old(bytes)@,
                    offset as int,
                    seq![value@.len() as u8] + value@,
                ));
                current_offsets[row_index] = offset + CELL_LEN_PREFIX_LEN + value_len;
            } else {
                write_bytes(bytes, offset, value);
                current_offsets[row_index] = offset + value_len;
            }
        },
    }
}

/// A primitive value takes at most eight bytes.
proof fn lemma_primitive_bytes_len(cell: ArrowCellView)
    ensures
        primitive_bytes(cell).len() <= 8,
{
    match cell {
        ArrowCellOf::Int32(value) => {
            lemma_le_bytes_len(twos_complement_32(value), 4);
        },
        ArrowCellOf::Int64(value) => {
            lemma_le_bytes_len(twos_complement_64(value), 8);
        },
        ArrowCellOf::Float64(bits) => {
            lemma_le_bytes_len(bits as nat, 8);
        },
        _ => {},
    }
}

/// Writes one Boolean-to-bit column where the offsets point.
pub fn fill_boolean_fixed_width_column(
    array: &Vec<Option<bool>>,
    column: &DirectColumnPlan,
    current_offsets: &mut [usize],
    bytes: &mut [u8],
)
    requires
        nulls_allowed(column@, array_cells(ColumnArray::Boolean(*array))),
        cells_fit(
            column@,
            array_cells(ColumnArray::Boolean(*array)),
            old(current_offsets)@,
            old(bytes)@.len(),
            0,
        ),
    ensures
        (final(current_offsets)@, final(bytes)@, None::<ErrorView>) == fixed_fill_from(
            column@,
            array_cells(ColumnArray::Boolean(*array)),
            old(current_offsets)@,
            old(bytes)@,
            0,
        ),
{
    let ghost cells = array_cells(ColumnArray::Boolean(*array));
    let ghost offsets = current_offsets@;
    let ghost before = bytes@;
    let mut row_index: usize = 0;
    while row_index < array.len()
        invariant
            row_index <= array@.len(),
            cells == array_cells(ColumnArray::Boolean(*array)),
            offsets == old(current_offsets)@,
            before == old(bytes)@,
            nulls_allowed(column@, cells),
            cells_fit(column@, cells, current_offsets@, bytes@.len(), row_index as int),
            fixed_fill_from(column@, cells, offsets, before, 0) == fixed_fill_from(
                column@,
                cells,
                current_offsets@,
                bytes@,
                row_index as int,
            ),
        decreases array@.len() - row_index,
    {
        proof {
            lemma_primitive_bytes_len(cells[row_index as int]);
            assert(current_offsets@[row_index as int] >= 0);
        }
        match array[row_index] {
            Some(value) => {
                let value_bytes: Vec<u8> = boolean_bytes(value);
                write_fixed_width_value(
                    column,
                    row_index,
                    Some(value_bytes.as_slice()),
                    current_offsets,
                    bytes,
                );
            },
            None => {
                write_fixed_width_value(column, row_index, None, current_offsets, bytes);
            },
        }
        row_index += 1;
    }
}

/// Writes one Int32-to-int column where the offsets point.
pub fn fill_int32_fixed_width_column(
    array: &Vec<Option<i32>>,
    column: &DirectColumnPlan,
    current_offsets: &mut [usize],
    bytes: &mut [u8],
)
    requires
        nulls_allowed(column@, array_cells(ColumnArray::Int32(*array))),
        cells_fit(
            column@,
            array_cells(ColumnArray::Int32(*array)),
            old(current_offsets)@,
            old(bytes)@.len(),
            0,
        ),
    ensures
        (final(current_offsets)@, final(bytes)@, None::<ErrorView>) == fixed_fill_from(
            column@,
            array_cells(ColumnArray::Int32(*array)),
            old(current_offsets)@,
            old(bytes)@,
            0,
        ),
{
    let ghost cells = array_cells(ColumnArray::Int32(*array));
    let ghost offsets = current_offsets@;
    let ghost before = bytes@;
    let mut row_index: usize = 0;
    while row_index < array.len()
        invariant
            row_index <= array@.len(),
            cells == array_cells(ColumnArray::Int32(*array)),
            offsets == old(current_offsets)@,
            before == old(bytes)@,
            nulls_allowed(column@, cells),
            cells_fit(column@, cells, current_offsets@, bytes@.len(), row_index as int),
            fixed_fill_from(column@, cells, offsets, before, 0) == fixed_fill_from(
                column@,
                cells,
                current_offsets@,
                bytes@,
                row_index as int,
            ),
        decreases array@.len() - row_index,
    {
        proof {
            lemma_primitive_bytes_len(cells[row_index as int]);
            assert(current_offsets@[row_index as int] >= 0);
        }
        match array[row_index] {
            Some(value) => {
                let value_bytes: Vec<u8> = pattern_bytes(bit_pattern(value as i64, 32), 4);
                write_fixed_width_value(
                    column,
                    row_index,
                    Some(value_bytes.as_slice()),
                    current_offsets,
                    bytes,
                );
            },
            None => {
                write_fixed_width_value(column, row_index, None, current_offsets, bytes);
            },
        }
        row_index += 1;
    }
}

/// Writes one Int64-to-bigint column where the offsets point.
pub fn fill_int64_fixed_width_column(
    array: &Vec<Option<i64>>,
    column: &DirectColumnPlan,
    current_offsets: &mut [usize],
    bytes: &mut [u8],
)
    requires
        nulls_allowed(column@, array_cells(ColumnArray::Int64(*array))),
        cells_fit(
            column@,
            array_cells(ColumnArray::Int64(*array)),
            old(current_offsets)@,
            old(bytes)@.len(),
            0,
        ),
    ensures
        (final(current_offsets)@, final(bytes)@, None::<ErrorView>) == fixed_fill_from(
            column@,
            array_cells(ColumnArray::Int64(*array)),
            old(current_offsets)@,
            old(bytes)@,
            0,
        ),
{
    let ghost cells = array_cells(ColumnArray::Int64(*array));
    let ghost offsets = current_offsets@;
    let ghost before = bytes@;
    let mut row_index: usize = 0;
    while row_index < array.len()
        invariant
            row_index <= array@.len(),
            cells == array_cells(ColumnArray::Int64(*array)),
            offsets == old(current_offsets)@,
            before == old(bytes)@,
            nulls_allowed(column@, cells),
            cells_fit(column@, cells, current_offsets@, bytes@.len(), row_index as int),
            fixed_fill_from(column@, cells, offsets, before, 0) == fixed_fill_from(
                column@,
                cells,
                current_offsets@,
                bytes@,
                row_index as int,
            ),
        decreases array@.len() - row_index,
    {
        proof {
            lemma_primitive_bytes_len(cells[row_index as int]);
            assert(current_offsets@[row_index as int] >= 0);
        }
        match array[row_index] {
            Some(value) => {
                let value_bytes: Vec<u8> = pattern_bytes(bit_pattern(value, 64), 8);
                write_fixed_width_value(
                    column,
                    row_index,
                    Some(value_bytes.as_slice()),
                    current_offsets,
                    bytes,
                );
            },
            None => {
                write_fixed_width_value(column, row_index, None, current_offsets, bytes);
            },
        }
        row_index += 1;
    }
}

/// Writes one Float64-to-float column where the offsets point.
pub fn fill_float64_fixed_width_column(
    array: &Vec<Option<u64>>,
    column: &DirectColumnPlan,
    current_offsets: &mut [usize],
    bytes: &mut [u8],
) -> (result: Result<()>)
    requires
        nulls_allowed(column@, array_cells(ColumnArray::Float64(*array))),
        cells_fit(
            column@,
            array_cells(ColumnArray::Float64(*array)),
            old(current_offsets)@,
            old(bytes)@.len(),
            0,
        ),
    ensures
        (final(current_offsets)@, final(bytes)@, error_of(result)) == fixed_fill_from(
            column@,
            array_cells(ColumnArray::Float64(*array)),
            old(current_offsets)@,
            old(bytes)@,
            0,
        ),
{
    let ghost cells = array_cells(ColumnArray::Float64(*array));
    let ghost offsets = current_offsets@;
    let ghost before = bytes@;
    let mut row_index: usize = 0;
    while row_index < array.len()
        invariant
            row_index <= array@.len(),
            cells == array_cells(ColumnArray::Float64(*array)),
            offsets == old(current_offsets)@,
            before == old(bytes)@,
            nulls_allowed(column@, cells),
            cells_fit(column@, cells, current_offsets@, bytes@.len(), row_index as int),
            fixed_fill_from(column@, cells, offsets, before, 0) == fixed_fill_from(
                column@,
                cells,
                current_offsets@,
                bytes@,
                row_index as int,
            ),
        decreases array@.len() - row_index,
    {
        proof {
            lemma_primitive_bytes_len(cells[row_index as int]);
            assert(current_offsets@[row_index as int] >= 0);
        }
        match array[row_index] {
            Some(bits) => {
                match classify_float64(bits) {
                    Some(value) => {
                        return Err(non_finite_in_column(column, row_index, value));
                    },
                    None => {},
                }
                let value_bytes: Vec<u8> = pattern_bytes(bits, 8);
                write_fixed_width_value(
                    column,
                    row_index,
                    Some(value_bytes.as_slice()),
                    current_offsets,
                    bytes,
                );
            },
            None => {
                write_fixed_width_value(column, row_index, None, current_offsets, bytes);
            },
        }
        row_index += 1;
    }
    Ok(())
}

/// The mapping that a planned column stands for.
pub open spec fn column_mapping(column: DirectColumnView) -> SchemaMappingView {
    SchemaMappingView {
        arrow: ArrowFieldView {
            index: column.source_index,
            name: column.source_name,
            nullable: column.nullable,
            data_type: ArrowType::Boolean,
        },
        mssql: MssqlColumnView {
            name: column.source_name,
            ty: column.target_type,
            nullable: column.nullable,
        },
    }
}

/// The array of a planned column.
pub open spec fn column_array(column: DirectColumnView, arrays: Seq<ColumnArray>) -> ColumnArray {
    arrays[column.source_index as int]
}

/// A planned column with the values of an array.
pub open spec fn primitive_column(column: DirectColumnView, array: ColumnArray) -> BoundColumnView {
    BoundColumnView {
        plan: column,
        mapping: column_mapping(column),
        policy: NanosecondPolicy::RejectNon100ns,
        cells: array_cells(array),
    }
}

/// The rows of planned columns.
pub open spec fn primitive_batch(
    columns: Seq<DirectColumnView>,
    arrays: Seq<ColumnArray>,
    row_count: usize,
) -> BoundBatchView {
    BoundBatchView {
        columns: Seq::new(
            columns.len(),
            |index: int| primitive_column(columns[index], column_array(columns[index], arrays)),
        ),
        row_count,
    }
}

/// The number of bytes of a cell of a planned column.
pub open spec fn cell_width(
    column: DirectColumnView,
    arrays: Seq<ColumnArray>,
    row: int,
) -> int {
    fixed_cell_len(
        column.nullable,
        encoding_width(column.encoding)->0,
        column_array(column, arrays).cell_at(row) is Null,
    )
}

/// The number of bytes of the token and the first cells of a row.
pub open spec fn fixed_row_len(
    columns: Seq<DirectColumnView>,
    arrays: Seq<ColumnArray>,
    row: int,
    count: int,
) -> int
    decreases count,
{
    if count <= 0 {
        ROW_TOKEN_LEN as int
    } else {
        fixed_row_len(columns, arrays, row, count - 1) + cell_width(
            columns[count - 1],
            arrays,
            row,
        )
    }
}

/// The number of bytes of the first rows.
pub open spec fn fixed_rows_len(
    columns: Seq<DirectColumnView>,
    arrays: Seq<ColumnArray>,
    count: int,
) -> int
    decreases count,
{
    if count <= 0 {
        0
    } else {
        fixed_rows_len(columns, arrays, count - 1) + fixed_row_len(
            columns,
            arrays,
            count - 1,
            columns.len() as int,
        )
    }
}

/// The error of a planned column that the runtime batch does not have.
pub open spec fn outside_error(column: DirectColumnView) -> ErrorView {
    column_error(
        column,
        0,
        DiagnosticCode::ValueTypeMismatch,
        MessageOf::Fault(Fault::DirectColumnOutside),
    )
}

/// The error of measuring the cells of a planned column.
pub open spec fn column_measure_error(
    columns: Seq<DirectColumnView>,
    arrays: Seq<ColumnArray>,
    row_count: usize,
    index: int,
) -> Option<ErrorView> {
    let column = columns[index];
    if column.source_index >= arrays.len() {
        Some(outside_error(column))
    } else {
        let null_row = first_null_row(column_array(column, arrays), 0);
        if !column.nullable && null_row < row_count {
            Some(null_error(column, null_row as usize))
        } else if exists|row: int|
            0 <= row < row_count && #[trigger] fixed_row_len(columns, arrays, row, index + 1)
                > usize::MAX {
            Some(payload_error(Fault::PrimitiveLengthOverflow))
        } else {
            None
        }
    }
}

/// The error of measuring the first planned column, from a column on, that has one.
pub open spec fn first_measure_error(
    columns: Seq<DirectColumnView>,
    arrays: Seq<ColumnArray>,
    row_count: usize,
    index: int,
) -> Option<ErrorView>
    decreases columns.len() - index,
{
    if index < 0 || index >= columns.len() {
        None
    } else {
        match column_measure_error(columns, arrays, row_count, index) {
            Some(error) => Some(error),
            None => first_measure_error(columns, arrays, row_count, index + 1),
        }
    }
}

/// The error of writing the cells of a planned column.
pub open spec fn column_fill_error(column: DirectColumnView, arrays: Seq<ColumnArray>) -> Option<
    ErrorView,
> {
    let array = column_array(column, arrays);
    if !reads_array(column.encoding, array) {
        Some(downcast_error(column, array))
    } else {
        match array {
            ColumnArray::Float64(values) => first_non_finite_error(column, values@, 0),
            _ => None,
        }
    }
}

/// The error of writing the first planned column, from a column on, that has one.
pub open spec fn first_fill_error(
    columns: Seq<DirectColumnView>,
    arrays: Seq<ColumnArray>,
    index: int,
) -> Option<ErrorView>
    decreases columns.len() - index,
{
    if index < 0 || index >= columns.len() {
        None
    } else {
        match column_fill_error(columns[index], arrays) {
            Some(error) => Some(error),
            None => first_fill_error(columns, arrays, index + 1),
        }
    }
}

/// Whether every planned column has a primitive layout.
pub open spec fn all_primitive(columns: Seq<DirectColumnView>) -> bool {
    forall|index: int|
        0 <= index < columns.len() ==> encoding_width(
            (#[trigger] columns[index]).encoding,
        ) is Some
}

/// The outcome of encoding planned columns without a layout of their cells.
pub open spec fn primitive_rows_outcome(
    columns: Seq<DirectColumnView>,
    batch: RecordBatch,
) -> core::result::Result<Option<PayloadView>, ErrorView> {
    let arrays = batch.arrays();
    if batch.rows() == 0 {
        Ok(Some(empty_payload()))
    } else if !all_primitive(columns) {
        Ok(None)
    } else {
        match first_measure_error(columns, arrays, batch.rows(), 0) {
            Some(error) => Err(error),
            None => if fixed_rows_len(columns, arrays, batch.rows() as int) > usize::MAX {
                Err(payload_error(Fault::PrimitiveLengthOverflow))
            } else {
                match first_fill_error(columns, arrays, 0) {
                    Some(error) => Err(error),
                    None => Ok(Some(primitive_batch(columns, arrays, batch.rows()).payload())),
                }
            },
        }
    }
}

/// The views of fixed-width columns.
pub open spec fn fixed_width_views(columns: Seq<FixedWidthColumn<'_>>) -> Seq<DirectColumnView> {
    columns.map_values(|column: FixedWidthColumn<'_>| column.plan@)
}

/// Whether the widths of fixed-width columns are those of their encodings.
pub open spec fn has_widths(columns: Seq<FixedWidthColumn<'_>>) -> bool {
    forall|index: int|
        0 <= index < columns.len() ==> encoding_width(
            (#[trigger] columns[index]).plan@.encoding,
        ) == Some(columns[index].value_len)
}

/// Selects the fixed-width columns of a plan.
///
/// Returns `Ok(None)` when a column has no primitive layout.
pub fn fixed_width_columns<'a>(columns: &'a [DirectColumnPlan]) -> (result: Result<
    Option<Vec<FixedWidthColumn<'a>>>,
>)
    ensures
        match result {
            Ok(Some(found)) => all_primitive(column_views(columns@)) && fixed_width_views(found@)
                == column_views(columns@) && has_widths(found@),
            Ok(None) => !all_primitive(column_views(columns@)),
            Err(_) => false,
        },
{
    let ghost views = column_views(columns@);
    let mut found: Vec<FixedWidthColumn<'a>> = Vec::with_capacity(columns.len());
    let mut index: usize = 0;
    while index < columns.len()
        invariant
            index <= columns@.len(),
            views == column_views(columns@),
            found@.len() == index,
            forall|i: int| 0 <= i < index ==> (#[trigger] found@[i]).plan@ == views[i],
            has_widths(found@),
        decreases columns.len() - index,
    {
        let plan = &columns[index];
        assert(views[index as int] == plan@);
        let value_len: usize = match fixed_width_value_len(plan.encoding()) {
            Some(value_len) => value_len,
            None => {
                assert(encoding_width(views[index as int].encoding) is None);
                return Ok(None);
            },
        };
        found.push(FixedWidthColumn { plan, value_len });
        index += 1;
    }
    proof {
        assert(fixed_width_views(found@) =~= views);
        assert forall|i: int| 0 <= i < views.len() implies encoding_width(
            (#[trigger] views[i]).encoding,
        ) is Some by {
            assert(found@[i].plan@ == views[i]);
        }
    }
    Ok(Some(found))
}

/// Cells only add to a row.
proof fn lemma_fixed_row_len_grows(
    columns: Seq<DirectColumnView>,
    arrays: Seq<ColumnArray>,
    row: int,
    low: int,
    high: int,
)
    requires
        all_primitive(columns),
        0 <= low <= high <= columns.len(),
    ensures
        1 + low <= fixed_row_len(columns, arrays, row, low) <= fixed_row_len(
            columns,
            arrays,
            row,
            high,
        ),
    decreases high,
{
    if high > 0 {
        assert(encoding_width(columns[high - 1].encoding) is Some);
        if low < high {
            lemma_fixed_row_len_grows(columns, arrays, row, low, high - 1);
        } else {
            lemma_fixed_row_len_grows(columns, arrays, row, low - 1, high - 1);
        }
    }
}

/// Rows only add to a payload.
proof fn lemma_fixed_rows_len_grows(
    columns: Seq<DirectColumnView>,
    arrays: Seq<ColumnArray>,
    low: int,
    high: int,
)
    requires
        all_primitive(columns),
        0 <= low <= high,
    ensures
        low * columns.len() <= fixed_rows_len(columns, arrays, low) <= fixed_rows_len(
            columns,
            arrays,
            high,
        ),
    decreases high,
{
    if high > 0 {
        let count = columns.len() as int;
        lemma_fixed_row_len_grows(columns, arrays, high - 1, count, count);
        if low < high {
            lemma_fixed_rows_len_grows(columns, arrays, low, high - 1);
        } else {
            lemma_fixed_rows_len_grows(columns, arrays, low - 1, high - 1);
            assert(low * count == (low - 1) * count + count) by (nonlinear_arith);
        }
    } else {
        assert(0 * columns.len() == 0) by (nonlinear_arith);
    }
}

/// Where a cell stands among primitive rows.
pub open spec fn fixed_cell_start(
    columns: Seq<DirectColumnView>,
    arrays: Seq<ColumnArray>,
    row: int,
    column: int,
) -> int {
    fixed_rows_len(columns, arrays, row) + fixed_row_len(columns, arrays, row, column)
}

/// A cell ends inside the payload.
proof fn lemma_fixed_cell_end(
    columns: Seq<DirectColumnView>,
    arrays: Seq<ColumnArray>,
    row_count: int,
    row: int,
    column: int,
)
    requires
        all_primitive(columns),
        0 <= row < row_count,
        0 <= column <= columns.len(),
    ensures
        0 <= fixed_rows_len(columns, arrays, row) < fixed_cell_start(
            columns,
            arrays,
            row,
            column,
        ) <= fixed_rows_len(columns, arrays, row_count),
{
    lemma_fixed_rows_len_grows(columns, arrays, row, row_count);
    lemma_fixed_rows_len_grows(columns, arrays, row + 1, row_count);
    lemma_fixed_row_len_grows(columns, arrays, row, column, columns.len() as int);
    assert(0 <= row * columns.len()) by (nonlinear_arith)
        requires
            0 <= row,
    ;
}

/// Measures the rows of primitive columns.
pub fn measure_fixed_width_rows(batch: &RecordBatch, columns: &[FixedWidthColumn<'_>]) -> (result:
    Result<FixedWidthRowsLayout>)
    requires
        has_widths(columns@),
    ensures
        ({
            let views = fixed_width_views(columns@);
            let arrays = batch.arrays();
            let rows = batch.rows();
            match first_measure_error(views, arrays, rows, 0) {
                Some(view) => result matches Err(error) && error@ == view,
                None => if fixed_rows_len(views, arrays, rows as int) > usize::MAX {
                    outcome(result) == Err::<FixedWidthRowsLayout, _>(
                        payload_error(Fault::PrimitiveLengthOverflow),
                    )
                } else {
                    result matches Ok(layout) && layout.payload_len == fixed_rows_len(
                        views,
                        arrays,
                        rows as int,
                    ) && layout.row_token_offsets@.len() == rows && layout.current_offsets@.len()
                        == rows && (forall|r: int|
                        0 <= r < rows ==> #[trigger] layout.row_token_offsets@[r]
                            == fixed_rows_len(views, arrays, r)) && (forall|r: int|
                        0 <= r < rows ==> #[trigger] layout.current_offsets@[r]
                            == fixed_cell_start(views, arrays, r, 0))
                },
            }
        }),
{
    let ghost views = fixed_width_views(columns@);
    proof {
        use_type_invariant(batch);
        assert forall|i: int| 0 <= i < views.len() implies encoding_width(
            (#[trigger] views[i]).encoding,
        ) is Some by {
            assert(columns@[i].plan@ == views[i]);
        }
    }
    let arrays = batch.columns();
    let row_count: usize = batch.num_rows();
    let mut row_lengths: Vec<usize> = vec![ROW_TOKEN_LEN; row_count];
    let mut index: usize = 0;
    while index < columns.len()
        invariant
            index <= columns@.len(),
            has_widths(columns@),
            views == fixed_width_views(columns@),
            all_primitive(views),
            arrays@ == batch.arrays(),
            batch.well_formed(),
            row_count == batch.rows(),
            row_lengths@.len() == row_count,
            forall|r: int|
                0 <= r < row_count ==> #[trigger] row_lengths@[r] == fixed_row_len(
                    views,
                    arrays@,
                    r,
                    index as int,
                ),
            first_measure_error(views, arrays@, row_count, 0) == first_measure_error(
                views,
                arrays@,
                row_count,
                index as int,
            ),
        decreases columns.len() - index,
    {
        let column = &columns[index];
        let plan = column.plan;
        assert(views[index as int] == plan@);
        if plan.source_index() >= arrays.len() {
            return Err(
                value_conversion_error(
                    row_column_diagnostic(
                        plan,
                        0,
                        DiagnosticCode::ValueTypeMismatch,
                        MessageOf::Fault(Fault::DirectColumnOutside),
                    ),
                ),
            );
        }
        let array = &arrays[plan.source_index()];
        let ghost before = row_lengths@;
        let ghost parts: Seq<int> = Seq::new(
            row_count as nat,
            |r: int| cell_width(plan@, arrays@, r),
        );
        assert(encoding_width(plan@.encoding) == Some(column.value_len));
        proof {
            assert(array.row_count() == row_count);
        }
        let added = if plan.nullable() {
            proof {
                assert(parts =~= nullable_widths(*array, column.value_len, row_count as nat));
            }
            add_nullable_fixed_width_column_lengths(
                array,
                column.value_len,
                row_lengths.as_mut_slice(),
            )
        } else {
            match find_null(array) {
                Some(_) => {
                    return Err(first_null_error(array, plan));
                },
                None => {},
            }
            proof {
                lemma_no_null(*array, 0);
                assert(parts =~= Seq::new(row_count as nat, |r: int| column.value_len as int));
            }
            add_non_nullable_fixed_width_column_lengths(
                column.value_len,
                row_lengths.as_mut_slice(),
            )
        };
        proof {
            assert((row_lengths@, error_of(added)) == add_lengths_from(before, parts, 0));
            lemma_add_lengths(before, parts, 0);
            assert forall|r: int| 0 <= r < row_count implies before[r] + #[trigger] parts[r]
                == fixed_row_len(views, arrays@, r, index + 1) by {
                assert(before[r] == fixed_row_len(views, arrays@, r, index as int));
            }
        }
        match added {
            Ok(()) => {
                proof {
                    assert forall|r: int| 0 <= r < row_count implies #[trigger] fixed_row_len(
                        views,
                        arrays@,
                        r,
                        index + 1,
                    ) <= usize::MAX by {
                        assert(row_lengths@[r] == before[r] + parts[r]);
                    }
                }
            },
            Err(error) => {
                proof {
                    let r = choose|i: int|
                        0 <= i < before.len() && #[trigger] before[i] + parts[i] > usize::MAX;
                    assert(parts[r] == parts[r]);
                    assert(fixed_row_len(views, arrays@, r, index + 1) > usize::MAX);
                }
                return Err(error);
            },
        }
        index += 1;
    }
    let mut row_token_offsets: Vec<usize> = Vec::with_capacity(row_count);
    let mut current_offsets: Vec<usize> = Vec::with_capacity(row_count);
    let mut payload_len: usize = 0;
    let mut row: usize = 0;
    let ghost column_count = columns@.len() as int;
    while row < row_count
        invariant
            row <= row_count,
            all_primitive(views),
            views == fixed_width_views(columns@),
            column_count == views.len(),
            arrays@ == batch.arrays(),
            row_count == batch.rows(),
            first_measure_error(views, arrays@, row_count, 0) is None,
            row_lengths@.len() == row_count,
            forall|r: int|
                0 <= r < row_count ==> #[trigger] row_lengths@[r] == fixed_row_len(
                    views,
                    arrays@,
                    r,
                    column_count,
                ),
            payload_len == fixed_rows_len(views, arrays@, row as int),
            row_token_offsets@.len() == row,
            current_offsets@.len() == row,
            forall|r: int|
                0 <= r < row ==> #[trigger] row_token_offsets@[r] == fixed_rows_len(
                    views,
                    arrays@,
                    r,
                ),
            forall|r: int|
                0 <= r < row ==> #[trigger] current_offsets@[r] == fixed_cell_start(
                    views,
                    arrays@,
                    r,
                    0,
                ),
        decreases row_count - row,
    {
        proof {
            lemma_fixed_rows_len_grows(views, arrays@, row + 1, row_count as int);
            lemma_fixed_cell_end(views, arrays@, row_count as int, row as int, 0);
        }
        row_token_offsets.push(payload_len);
        let current: usize = match checked_add(payload_len, ROW_TOKEN_LEN) {
            Ok(current) => current,
            Err(error) => {
                return Err(error);
            },
        };
        current_offsets.push(current);
        payload_len =
        match checked_add(payload_len, row_lengths[row]) {
            Ok(payload_len) => payload_len,
            Err(error) => {
                return Err(error);
            },
        };
        row += 1;
    }
    Ok(FixedWidthRowsLayout { row_token_offsets, current_offsets, payload_len })
}

/// An array without a first null has no null.
proof fn lemma_no_null(array: ColumnArray, row: int)
    requires
        0 <= row <= array.row_count(),
        first_null_row(array, row) == array.row_count(),
    ensures
        forall|r: int| row <= r < array.row_count() ==> !(#[trigger] array.cell_at(r) is Null),
    decreases array.row_count() - row,
{
    if row < array.row_count() {
        lemma_no_null(array, row + 1);
    }
}

/// The first null of an array is a row of it, or its number of rows.
proof fn lemma_first_null_row(array: ColumnArray, row: int)
    requires
        0 <= row <= array.row_count(),
    ensures
        row <= first_null_row(array, row) <= array.row_count(),
    decreases array.row_count() - row,
{
    if row < array.row_count() {
        lemma_first_null_row(array, row + 1);
    }
}

/// A cell of an array that a column reads takes its width.
proof fn lemma_cell_width(column: DirectColumnView, array: ColumnArray, row: int)
    requires
        encoding_width(column.encoding) is Some,
        reads_array(column.encoding, array),
    ensures
        primitive_cell_bytes(column.nullable, array.cell_at(row)).len() == fixed_cell_len(
            column.nullable,
            encoding_width(column.encoding)->0,
            array.cell_at(row) is Null,
        ),
{
    match array.cell_at(row) {
        ArrowCellOf::Int32(value) => {
            lemma_le_bytes_len(twos_complement_32(value), 4);
        },
        ArrowCellOf::Int64(value) => {
            lemma_le_bytes_len(twos_complement_64(value), 8);
        },
        ArrowCellOf::Float64(bits) => {
            lemma_le_bytes_len(bits as nat, 8);
        },
        _ => {},
    }
}

/// A value without an error is converted to the cell of its bytes.
proof fn lemma_primitive_outcome(column: DirectColumnView, array: ColumnArray, row: int)
    requires
        encoding_width(column.encoding) is Some,
        reads_array(column.encoding, array),
        0 <= row < array.row_count(),
        primitive_error(column, row as usize, array.cell_at(row)) is None,
    ensures
        primitive_column(column, array).outcome(row) matches Ok(cell) && cell_bytes(cell)
            == primitive_cell_bytes(column.nullable, array.cell_at(row)),
{
    reveal(BoundColumnView::outcome);
    lemma_cell_width(column, array, row);
    let found = primitive_column(column, array).outcome(row);
    assert(found is Ok);
    match array.cell_at(row) {
        ArrowCellOf::Boolean(value) => {
            let pattern: nat = if value {
                1
            } else {
                0
            };
            reveal_with_fuel(le_bytes, 2);
            assert(le_bytes(pattern, 1) =~= primitive_bytes(array.cell_at(row)));
        },
        ArrowCellOf::Int32(value) => {
            lemma_le_bytes_len(twos_complement_32(value), 4);
        },
        ArrowCellOf::Int64(value) => {
            lemma_le_bytes_len(twos_complement_64(value), 8);
        },
        ArrowCellOf::Float64(bits) => {
            lemma_le_bytes_len(bits as nat, 8);
        },
        _ => {},
    }
    assert(cell_bytes(found->Ok_0) =~= primitive_cell_bytes(column.nullable, array.cell_at(row)));
}

/// Without a float that is not finite, no value of a column that has no null has an error.
proof fn lemma_all_finite(column: DirectColumnView, values: Seq<Option<u64>>, from: int, row: int)
    requires
        0 <= from <= row < values.len(),
        first_non_finite_error(column, values, from) is None,
    ensures
        values[row] matches Some(bits) ==> float64_class(bits) is None,
    decreases row - from,
{
    if from < row {
        lemma_all_finite(column, values, from + 1, row);
    }
}

/// A column without errors has no value with an error.
proof fn lemma_no_value_error(
    columns: Seq<DirectColumnView>,
    arrays: Seq<ColumnArray>,
    row_count: usize,
    index: int,
    row: int,
)
    requires
        0 <= index < columns.len(),
        column_measure_error(columns, arrays, row_count, index) is None,
        column_fill_error(columns[index], arrays) is None,
        column_array(columns[index], arrays).row_count() == row_count,
        0 <= row < row_count,
    ensures
        primitive_error(
            columns[index],
            row as usize,
            column_array(columns[index], arrays).cell_at(row),
        ) is None,
{
    let column = columns[index];
    let array = column_array(column, arrays);
    if !column.nullable {
        lemma_first_null_row(array, 0);
        lemma_no_null(array, 0);
    }
    match array {
        ColumnArray::Float64(values) => {
            lemma_all_finite(column, values@, 0, row);
        },
        _ => {},
    }
}

/// Without a first error, no column has one.
proof fn lemma_no_column_error(
    columns: Seq<DirectColumnView>,
    arrays: Seq<ColumnArray>,
    row_count: usize,
    from: int,
    index: int,
)
    requires
        0 <= from <= index < columns.len(),
        first_measure_error(columns, arrays, row_count, from) is None,
    ensures
        column_measure_error(columns, arrays, row_count, index) is None,
    decreases index - from,
{
    if from < index {
        lemma_no_column_error(columns, arrays, row_count, from + 1, index);
    }
}

/// Without a first error, no column has one.
proof fn lemma_no_fill_error(
    columns: Seq<DirectColumnView>,
    arrays: Seq<ColumnArray>,
    from: int,
    index: int,
)
    requires
        0 <= from <= index < columns.len(),
        first_fill_error(columns, arrays, from) is None,
    ensures
        column_fill_error(columns[index], arrays) is None,
    decreases index - from,
{
    if from < index {
        lemma_no_fill_error(columns, arrays, from + 1, index);
    }
}

/// Whether arrays have a number of rows.
spec fn arrays_have_rows(arrays: Seq<ColumnArray>, row_count: usize) -> bool {
    forall|i: int| 0 <= i < arrays.len() ==> (#[trigger] arrays[i]).row_count() == row_count
}

/// Whether planned columns meet no error.
spec fn is_clean(
    columns: Seq<DirectColumnView>,
    arrays: Seq<ColumnArray>,
    row_count: usize,
) -> bool {
    &&& all_primitive(columns)
    &&& columns.len() <= usize::MAX
    &&& arrays_have_rows(arrays, row_count)
    &&& first_measure_error(columns, arrays, row_count, 0) is None
    &&& fixed_rows_len(columns, arrays, row_count as int) <= usize::MAX
    &&& first_fill_error(columns, arrays, 0) is None
}

/// Without errors, every value is converted to the cell of its bytes.
proof fn lemma_clean_cell(
    columns: Seq<DirectColumnView>,
    arrays: Seq<ColumnArray>,
    row_count: usize,
    row: int,
    index: int,
)
    requires
        is_clean(columns, arrays, row_count),
        0 <= row < row_count,
        0 <= index < columns.len(),
    ensures
        ({
            let batch = primitive_batch(columns, arrays, row_count);
            let column = columns[index];
            &&& column.source_index < arrays.len()
            &&& reads_array(column.encoding, column_array(column, arrays))
            &&& batch.columns[index].outcome(row) is Ok
            &&& batch.columns[index].cells.len() == row_count
            &&& batch.bytes_at(row, index) == primitive_cell_bytes(
                column.nullable,
                column_array(column, arrays).cell_at(row),
            )
            &&& batch.bytes_at(row, index).len() == cell_width(column, arrays, row)
        }),
{
    let column = columns[index];
    lemma_no_column_error(columns, arrays, row_count, 0, index);
    lemma_no_fill_error(columns, arrays, 0, index);
    let array = column_array(column, arrays);
    assert(array.row_count() == row_count);
    assert(encoding_width(column.encoding) is Some);
    lemma_no_value_error(columns, arrays, row_count, index, row);
    lemma_primitive_outcome(column, array, row);
    lemma_cell_width(column, array, row);
}

/// Without errors, cells take their widths.
proof fn lemma_clean_cells_len(
    columns: Seq<DirectColumnView>,
    arrays: Seq<ColumnArray>,
    row_count: usize,
    row: int,
    count: int,
)
    requires
        is_clean(columns, arrays, row_count),
        0 <= row < row_count,
        0 <= count <= columns.len(),
    ensures
        ROW_TOKEN_LEN + primitive_batch(columns, arrays, row_count).cells_bytes(row, count).len()
            == fixed_row_len(columns, arrays, row, count),
    decreases count,
{
    if count > 0 {
        lemma_clean_cells_len(columns, arrays, row_count, row, count - 1);
        lemma_clean_cell(columns, arrays, row_count, row, count - 1);
    }
}

/// Without errors, rows take their widths.
proof fn lemma_clean_rows_len(
    columns: Seq<DirectColumnView>,
    arrays: Seq<ColumnArray>,
    row_count: usize,
    count: int,
)
    requires
        is_clean(columns, arrays, row_count),
        0 <= count <= row_count,
    ensures
        primitive_batch(columns, arrays, row_count).rows_bytes(count).len() == fixed_rows_len(
            columns,
            arrays,
            count,
        ),
    decreases count,
{
    if count > 0 {
        lemma_clean_rows_len(columns, arrays, row_count, count - 1);
        lemma_clean_cells_len(columns, arrays, row_count, count - 1, columns.len() as int);
    }
}

/// Without errors, planned columns can be encoded.
proof fn lemma_clean_is_encodable(
    columns: Seq<DirectColumnView>,
    arrays: Seq<ColumnArray>,
    row_count: usize,
)
    requires
        is_clean(columns, arrays, row_count),
        row_count > 0,
    ensures
        is_encodable(primitive_batch(columns, arrays, row_count)),
        primitive_batch(columns, arrays, row_count).payload().bytes.len() == fixed_rows_len(
            columns,
            arrays,
            row_count as int,
        ),
{
    let batch = primitive_batch(columns, arrays, row_count);
    assert forall|column: int| 0 <= column < batch.columns.len() implies (
    #[trigger] batch.columns[column]).cells.len() == batch.row_count by {
        lemma_clean_cell(columns, arrays, row_count, 0, column);
    }
    assert forall|row: int, column: int|
        0 <= row < batch.row_count && 0 <= column < batch.column_count() implies (
    #[trigger] batch.columns[column].outcome(row)) is Ok by {
        lemma_clean_cell(columns, arrays, row_count, row, column);
    }
    lemma_clean_rows_len(columns, arrays, row_count, row_count as int);
    lemma_fixed_rows_len_grows(columns, arrays, row_count as int, row_count as int);
}

/// Without errors, cells stand where their widths place them.
proof fn lemma_clean_cell_start(
    columns: Seq<DirectColumnView>,
    arrays: Seq<ColumnArray>,
    row_count: usize,
    row: int,
    column: int,
)
    requires
        is_clean(columns, arrays, row_count),
        0 <= row < row_count,
        0 <= column <= columns.len(),
    ensures
        cell_start(primitive_batch(columns, arrays, row_count), row, column) == fixed_cell_start(
            columns,
            arrays,
            row,
            column,
        ),
        row_start(primitive_batch(columns, arrays, row_count), row) == fixed_rows_len(
            columns,
            arrays,
            row,
        ),
{
    lemma_clean_rows_len(columns, arrays, row_count, row);
    lemma_clean_cells_len(columns, arrays, row_count, row, column);
}

/// Writing the rest of a column moves every offset behind its cell.
proof fn lemma_fixed_fill(
    column: DirectColumnView,
    cells: Seq<ArrowCellView>,
    offsets: Seq<usize>,
    bytes: Seq<u8>,
    row: int,
)
    requires
        0 <= row <= cells.len(),
        cells_fit(column, cells, offsets, bytes.len(), row),
        bytes.len() <= usize::MAX,
    ensures
        ({
            let (moved, written, error) = fixed_fill_from(column, cells, offsets, bytes, row);
            &&& written.len() == bytes.len()
            &&& moved.len() == offsets.len()
            &&& forall|r: int|
                0 <= r < offsets.len() && !(row <= r < cells.len()) ==> #[trigger] moved[r]
                    == offsets[r]
            &&& error is None ==> forall|r: int|
                row <= r < cells.len() ==> #[trigger] moved[r] == offsets[r]
                    + primitive_cell_bytes(column.nullable, cells[r]).len()
        }),
    decreases cells.len() - row,
{
    if row < cells.len() && primitive_error(column, row as usize, cells[row]) is None {
        let part = primitive_cell_bytes(column.nullable, cells[row]);
        assert(offsets[row] + part.len() <= bytes.len());
        let next = offsets.update(row, (offsets[row] + part.len()) as usize);
        let after = splice(bytes, offsets[row] as int, part);
        assert(after.len() == bytes.len());
        assert forall|r: int| row + 1 <= r < cells.len() implies (#[trigger] next[r])
            + primitive_cell_bytes(column.nullable, cells[r]).len() <= after.len() by {
            assert(next[r] == offsets[r]);
        }
        lemma_fixed_fill(column, cells, next, after, row + 1);
        let (moved, written, error) = fixed_fill_from(column, cells, next, after, row + 1);
        assert forall|r: int|
            0 <= r < offsets.len() && !(row <= r < cells.len()) implies #[trigger] moved[r]
            == offsets[r] by {
            assert(moved[r] == next[r]);
        }
        if error is None {
            assert forall|r: int| row <= r < cells.len() implies #[trigger] moved[r] == offsets[r]
                + primitive_cell_bytes(column.nullable, cells[r]).len() by {
                if r > row {
                    assert(next[r] == offsets[r]);
                } else {
                    assert(moved[row] == next[row]);
                }
            }
        }
    }
}

/// The error of writing a column that has no null where it allows none.
proof fn lemma_fixed_fill_error(
    column: DirectColumnView,
    array: ColumnArray,
    offsets: Seq<usize>,
    bytes: Seq<u8>,
    row: int,
)
    requires
        0 <= row <= array.row_count(),
        nulls_allowed(column, array_cells(array)),
    ensures
        fixed_fill_from(column, array_cells(array), offsets, bytes, row).2 == (match array {
            ColumnArray::Float64(values) => first_non_finite_error(column, values@, row),
            _ => None,
        }),
    decreases array.row_count() - row,
{
    if row < array.row_count() {
        let cells = array_cells(array);
        let part = primitive_cell_bytes(column.nullable, cells[row]);
        assert(cells[row] is Null ==> column.nullable);
        lemma_fixed_fill_error(
            column,
            array,
            offsets.update(row, (offsets[row] + part.len()) as usize),
            splice(bytes, offsets[row] as int, part),
            row + 1,
        );
    }
}

/// Writing the rest of a column adds its cells to what a buffer holds of the payload.
proof fn lemma_fixed_fill_holds(
    columns: Seq<DirectColumnView>,
    arrays: Seq<ColumnArray>,
    row_count: usize,
    offsets: Seq<usize>,
    bytes: Seq<u8>,
    index: int,
    row: int,
)
    requires
        is_clean(columns, arrays, row_count),
        row_count > 0,
        0 <= index < columns.len(),
        0 <= row <= row_count,
        offsets.len() == row_count,
        bytes.len() == fixed_rows_len(columns, arrays, row_count as int),
        forall|r: int|
            row <= r < row_count ==> #[trigger] offsets[r] == fixed_cell_start(
                columns,
                arrays,
                r,
                index,
            ),
        holds_tokens(primitive_batch(columns, arrays, row_count), bytes),
        holds_cells(primitive_batch(columns, arrays, row_count), bytes, index, row),
    ensures
        ({
            let batch = primitive_batch(columns, arrays, row_count);
            let cells = array_cells(column_array(columns[index], arrays));
            let written = fixed_fill_from(columns[index], cells, offsets, bytes, row).1;
            &&& holds_tokens(batch, written)
            &&& holds_cells(batch, written, index + 1, 0)
        }),
    decreases row_count - row,
{
    let batch = primitive_batch(columns, arrays, row_count);
    let column = columns[index];
    let array = column_array(column, arrays);
    let cells = array_cells(array);
    lemma_clean_is_encodable(columns, arrays, row_count);
    lemma_clean_cell(columns, arrays, row_count, 0, index);
    if row < row_count {
        lemma_clean_cell(columns, arrays, row_count, row, index);
        lemma_clean_cell_start(columns, arrays, row_count, row, index);
        lemma_no_column_error(columns, arrays, row_count, 0, index);
        lemma_no_fill_error(columns, arrays, 0, index);
        lemma_no_value_error(columns, arrays, row_count, index, row);
        let part = primitive_cell_bytes(column.nullable, cells[row]);
        assert(offsets[row] == cell_start(batch, row, index));
        let next = offsets.update(row, (offsets[row] + part.len()) as usize);
        let after = splice(bytes, offsets[row] as int, part);
        lemma_written_cell(batch, bytes, row, index);
        lemma_agreement_kept(batch, bytes, after, index, row);
        assert(holds_cells(batch, after, index, row + 1));
        assert forall|r: int| row + 1 <= r < row_count implies #[trigger] next[r]
            == fixed_cell_start(columns, arrays, r, index) by {
            assert(next[r] == offsets[r]);
        }
        lemma_fixed_fill_holds(columns, arrays, row_count, next, after, index, row + 1);
    }
}

/// Writes one primitive column where the offsets point.
fn fill_fixed_width_column(
    array: &ColumnArray,
    plan: &DirectColumnPlan,
    current_offsets: &mut [usize],
    bytes: &mut [u8],
) -> (result: Result<()>)
    requires
        encoding_width(plan@.encoding) is Some,
        nulls_allowed(plan@, array_cells(*array)),
        reads_array(plan@.encoding, *array) ==> cells_fit(
            plan@,
            array_cells(*array),
            old(current_offsets)@,
            old(bytes)@.len(),
            0,
        ),
    ensures
        !reads_array(plan@.encoding, *array) ==> outcome(result) == Err::<(), _>(
            downcast_error(plan@, *array),
        ),
        reads_array(plan@.encoding, *array) ==> (
            final(current_offsets)@,
            final(bytes)@,
            error_of(result),
        ) == fixed_fill_from(
            plan@,
            array_cells(*array),
            old(current_offsets)@,
            old(bytes)@,
            0,
        ),
        final(bytes)@.len() == old(bytes)@.len(),
        final(current_offsets)@.len() == old(current_offsets)@.len(),
{
    let buffer_len: usize = bytes.len();
    proof {
        if reads_array(plan@.encoding, *array) {
            lemma_fixed_fill(plan@, array_cells(*array), current_offsets@, bytes@, 0);
            lemma_fixed_fill_error(plan@, *array, current_offsets@, bytes@, 0);
        }
    }
    match plan.encoding() {
        DirectColumnEncoding::Primitive(PrimitiveArrowToMssql::BooleanToBit) => match array {
            ColumnArray::Boolean(values) => {
                fill_boolean_fixed_width_column(values, plan, current_offsets, bytes);
                Ok(())
            },
            _ => Err(array_mismatch(plan, array)),
        },
        DirectColumnEncoding::Primitive(PrimitiveArrowToMssql::Int32ToInt) => match array {
            ColumnArray::Int32(values) => {
                fill_int32_fixed_width_column(values, plan, current_offsets, bytes);
                Ok(())
            },
            _ => Err(array_mismatch(plan, array)),
        },
        DirectColumnEncoding::Primitive(PrimitiveArrowToMssql::Int64ToBigInt) => match array {
            ColumnArray::Int64(values) => {
                fill_int64_fixed_width_column(values, plan, current_offsets, bytes);
                Ok(())
            },
            _ => Err(array_mismatch(plan, array)),
        },
        DirectColumnEncoding::Primitive(PrimitiveArrowToMssql::Float64ToFloat) => match array {
            ColumnArray::Float64(values) => fill_float64_fixed_width_column(
                values,
                plan,
                current_offsets,
                bytes,
            ),
            _ => Err(array_mismatch(plan, array)),
        },
        _ => Ok(()),
    }
}

/// Encodes fixed-width primitive columns without building a full per-cell row layout.
///
/// Returns `Ok(None)` when the columns require the general layout path.
pub fn try_encode_fixed_width_primitive_rows(batch: &RecordBatch, columns: &[DirectColumnPlan]) -> (
    result: Result<Option<EncodedRowsPayload>>)
    ensures
        is_optional_payload(result, primitive_rows_outcome(column_views(columns@), *batch)),
{
    let ghost views = column_views(columns@);
    if batch.num_rows() == 0 {
        let bytes: Vec<u8> = Vec::new();
        let row_token_offsets: Vec<usize> = Vec::new();
        proof {
            assert(bytes@ =~= Seq::empty());
            assert(row_token_offsets@ =~= Seq::empty());
        }
        return match EncodedRowsPayload::new(bytes, row_token_offsets) {
            Ok(payload) => Ok(Some(payload)),
            Err(error) => Err(error),
        };
    }
    let selected = match fixed_width_columns(columns) {
        Ok(Some(selected)) => selected,
        Ok(None) => {
            return Ok(None);
        },
        Err(error) => {
            return Err(error);
        },
    };
    let layout = match measure_fixed_width_rows(batch, selected.as_slice()) {
        Ok(layout) => layout,
        Err(error) => {
            return Err(error);
        },
    };
    let FixedWidthRowsLayout { row_token_offsets, mut current_offsets, payload_len } = layout;
    let row_count: usize = batch.num_rows();
    let arrays = batch.columns();
    let mut bytes: Vec<u8> = zeros(payload_len);
    let ghost rows = primitive_batch(views, arrays@, row_count);
    let ghost clean = first_fill_error(views, arrays@, 0) is None;
    proof {
        use_type_invariant(batch);
        assert(selected@.len() == selected.len());
        assert forall|r: int| 0 <= r < row_token_offsets@.len() implies #[trigger]
        row_token_offsets@[r] < bytes@.len() by {
            lemma_fixed_cell_end(views, arrays@, row_count as int, r, 0);
        }
        assert(arrays_have_rows(arrays@, row_count));
        if clean {
            lemma_clean_is_encodable(views, arrays@, row_count);
        }
    }
    write_row_tokens(&mut bytes, row_token_offsets.as_slice());
    proof {
        if clean {
            assert forall|row: int| 0 <= row < rows.row_count implies bytes@[#[trigger] row_start(
                rows,
                row,
            )] == TDS_ROW_TOKEN by {
                lemma_clean_cell_start(views, arrays@, row_count, row, 0);
                assert(row_token_offsets@[row] == row_start(rows, row));
            }
        }
    }
    let mut index: usize = 0;
    while index < selected.len()
        invariant
            index <= selected@.len(),
            views == column_views(columns@),
            row_count > 0,
            row_count == batch.rows(),
            arrays@ == batch.arrays(),
            arrays_have_rows(arrays@, row_count),
            fixed_width_views(selected@) == views,
            has_widths(selected@),
            all_primitive(views),
            selected@.len() <= usize::MAX,
            rows == primitive_batch(views, arrays@, row_count),
            clean == (first_fill_error(views, arrays@, 0) is None),
            first_measure_error(views, arrays@, row_count, 0) is None,
            payload_len == fixed_rows_len(views, arrays@, row_count as int),
            bytes@.len() == payload_len,
            current_offsets@.len() == row_count,
            forall|r: int|
                0 <= r < row_count ==> #[trigger] current_offsets@[r] == fixed_cell_start(
                    views,
                    arrays@,
                    r,
                    index as int,
                ),
            first_fill_error(views, arrays@, 0) == first_fill_error(
                views,
                arrays@,
                index as int,
            ),
            clean ==> holds_tokens(rows, bytes@) && holds_cells(rows, bytes@, index as int, 0),
        decreases selected.len() - index,
    {
        let plan = selected[index].plan;
        proof {
            assert(views[index as int] == plan@);
            assert(encoding_width(plan@.encoding) is Some);
            lemma_no_column_error(views, arrays@, row_count, 0, index as int);
        }
        let array = &arrays[plan.source_index()];
        let ghost cells = array_cells(*array);
        let ghost offsets = current_offsets@;
        let ghost before = bytes@;
        proof {
            assert(array.row_count() == row_count);
            if !plan@.nullable {
                lemma_first_null_row(*array, 0);
                lemma_no_null(*array, 0);
            }
            if reads_array(plan@.encoding, *array) {
                assert forall|r: int| 0 <= r < cells.len() implies (#[trigger] offsets[r])
                    + primitive_cell_bytes(plan@.nullable, cells[r]).len() <= before.len() by {
                    lemma_cell_width(plan@, *array, r);
                    lemma_fixed_cell_end(views, arrays@, row_count as int, r, index + 1);
                }
                lemma_fixed_fill(plan@, cells, offsets, before, 0);
                lemma_fixed_fill_error(plan@, *array, offsets, before, 0);
            }
        }
        match fill_fixed_width_column(
            array,
            plan,
            current_offsets.as_mut_slice(),
            bytes.as_mut_slice(),
        ) {
            Ok(()) => {},
            Err(error) => {
                return Err(error);
            },
        }
        proof {
            assert forall|r: int| 0 <= r < row_count implies #[trigger] current_offsets@[r]
                == fixed_cell_start(views, arrays@, r, index + 1) by {
                lemma_cell_width(plan@, *array, r);
            }
            if clean {
                lemma_fixed_fill_holds(
                    views,
                    arrays@,
                    row_count,
                    offsets,
                    before,
                    index as int,
                    0,
                );
            }
        }
        index += 1;
    }
    proof {
        lemma_holding_all_is_payload(rows, bytes@);
        law_encoded_payload_is_accepted(rows);
        assert forall|r: int| 0 <= r < row_count implies #[trigger] row_token_offsets@[r]
            == rows.payload().row_token_offsets[r] by {
            lemma_clean_cell_start(views, arrays@, row_count, r, 0);
        }
        assert(row_token_offsets@ =~= rows.payload().row_token_offsets);
    }
    match EncodedRowsPayload::new(bytes, row_token_offsets) {
        Ok(payload) => Ok(Some(payload)),
        Err(error) => Err(error),
    }
}

/// A primitive cell depends on its mapping by nullability alone.
proof fn lemma_primitive_cell_by_nullability(
    class: PrimitiveArrowToMssql,
    one: SchemaMappingView,
    other: SchemaMappingView,
    policy: NanosecondPolicy,
    row_index: usize,
    cell: ArrowCellView,
)
    requires
        one.mssql.nullable == other.mssql.nullable,
    ensures
        ({
            let encoding = DirectColumnEncoding::Primitive(class);
            let reject = NanosecondPolicy::RejectNon100ns;
            let found = direct_cell_outcome(encoding, one, policy, row_index, cell);
            found is Ok ==> direct_cell_outcome(encoding, other, reject, row_index, cell) == found
        }),
{
}

/// The cells of a row of two batches that agree cell by cell are the same.
proof fn lemma_same_cells(one: BoundBatchView, other: BoundBatchView, row: int, count: int)
    requires
        forall|column: int|
            0 <= column < count ==> #[trigger] one.cell(row, column) == other.cell(row, column),
    ensures
        one.cells_bytes(row, count) == other.cells_bytes(row, count),
    decreases count,
{
    if count > 0 {
        lemma_same_cells(one, other, row, count - 1);
        assert(one.cell(row, count - 1) == other.cell(row, count - 1));
    }
}

/// The rows of two batches that agree cell by cell are the same.
proof fn lemma_same_rows(one: BoundBatchView, other: BoundBatchView, count: int)
    requires
        one.columns.len() == other.columns.len(),
        forall|row: int, column: int|
            0 <= row < count && 0 <= column < one.columns.len() ==> #[trigger] one.cell(row, column)
                == other.cell(row, column),
    ensures
        one.rows_bytes(count) == other.rows_bytes(count),
    decreases count,
{
    if count > 0 {
        lemma_same_rows(one, other, count - 1);
        lemma_same_cells(one, other, count - 1, one.columns.len() as int);
    }
}

/// What the primitive path encodes, the general path encodes to the same payload.
pub proof fn law_primitive_path_agrees(encoder: EncoderView, batch: RecordBatch)
    requires
        batch.well_formed(),
        batch.rows() > 0,
        encoder.follows_mappings(),
        encoder.columns.len() <= usize::MAX,
    ensures
        primitive_rows_outcome(encoder.columns, batch) matches Ok(Some(payload))
            ==> bound_batch_outcome(encoder, batch) matches Ok(bound) && bound.payload_outcome()
            == Ok::<_, ErrorView>(payload),
{
    let columns = encoder.columns;
    let arrays = batch.arrays();
    let rows = batch.rows();
    if let Ok(Some(payload)) = primitive_rows_outcome(columns, batch) {
        assert(is_clean(columns, arrays, rows));
        let primitive = primitive_batch(columns, arrays, rows);
        lemma_clean_is_encodable(columns, arrays, rows);
        assert forall|index: int| 0 <= index < columns.len() implies (#[trigger] bind_outcome(
            encoder,
            arrays,
            index,
        )) is Ok by {
            lemma_clean_cell(columns, arrays, rows, 0, index);
            assert(encoding_width(columns[index].encoding) is Some);
        }
        lemma_binds_all(encoder, arrays, 0);
        lemma_bound_batch_is_well_formed(encoder, batch);
        let bound = bound_batch_outcome(encoder, batch)->Ok_0;
        assert forall|row: int, column: int|
            0 <= row < rows && 0 <= column < columns.len() implies (
        #[trigger] bound.columns[column].outcome(row)) is Ok && bound.cell(row, column)
            == primitive.cell(row, column) by {
            reveal(BoundColumnView::outcome);
            lemma_clean_cell(columns, arrays, rows, row, column);
            assert(bind_outcome(encoder, arrays, column) is Ok);
            assert(columns[column] == column_of(
                encoder.mappings[column],
                columns[column].encoding,
            ));
            assert(encoding_width(columns[column].encoding) is Some);
            lemma_primitive_cell_by_nullability(
                columns[column].encoding->Primitive_0,
                column_mapping(columns[column]),
                encoder.mappings[column],
                NanosecondPolicy::RejectNon100ns,
                row as usize,
                primitive.columns[column].cells[row],
            );
            lemma_primitive_ignores_policy(
                columns[column].encoding->Primitive_0,
                encoder.mappings[column],
                encoder.policy(),
                row as usize,
                primitive.columns[column].cells[row],
            );
        }
        assert forall|row: int, column: int|
            0 <= row < rows && 0 <= column < bound.columns.len() implies #[trigger] bound.cell(
            row,
            column,
        ) == primitive.cell(row, column) by {
            assert(bound.columns[column].outcome(row) is Ok);
        }
        law_first_error_is_column_major(bound);
        lemma_same_rows(bound, primitive, rows as int);
        assert forall|row: int| 0 <= row < rows implies #[trigger]
        bound.payload().row_token_offsets[row] == primitive.payload().row_token_offsets[row] by {
            lemma_same_rows(bound, primitive, row);
        }
        assert(bound.payload().row_token_offsets =~= primitive.payload().row_token_offsets);
        lemma_fixed_rows_len_grows(columns, arrays, rows as int, rows as int);
    }
}

/// A primitive cell does not depend on the nanosecond policy.
proof fn lemma_primitive_ignores_policy(
    class: PrimitiveArrowToMssql,
    mapping: SchemaMappingView,
    policy: NanosecondPolicy,
    row_index: usize,
    cell: ArrowCellView,
)
    ensures
        ({
            let encoding = DirectColumnEncoding::Primitive(class);
            let reject = NanosecondPolicy::RejectNon100ns;
            direct_cell_outcome(encoding, mapping, policy, row_index, cell) == direct_cell_outcome(
                encoding,
                mapping,
                reject,
                row_index,
                cell,
            )
        }),
{
}

/// Columns that are all bound meet no error.
proof fn lemma_binds_all(encoder: EncoderView, arrays: Seq<ColumnArray>, index: int)
    requires
        0 <= index <= encoder.columns.len(),
        forall|i: int|
            0 <= i < encoder.columns.len() ==> (#[trigger] bind_outcome(
                encoder,
                arrays,
                i,
            )) is Ok,
    ensures
        first_bind_error(encoder, arrays, index) is None,
    decreases encoder.columns.len() - index,
{
    if index < encoder.columns.len() {
        assert(bind_outcome(encoder, arrays, index) is Ok);
        lemma_binds_all(encoder, arrays, index + 1);
    }
}

} // verus!
