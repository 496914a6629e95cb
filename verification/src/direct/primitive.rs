//! Fixed-width primitive direct TDS rows.

use vstd::prelude::*;

use crate::batch::ColumnArray;
use crate::cell::{ArrowCellOf, ArrowCellView};
use crate::classify::PrimitiveArrowToMssql;
use crate::diagnostic::{
    direct_error, invalid_payload, invalid_payload_message, outcome, payload_error,
    payload_message_error, unsupported_batch, value_conversion_error, DiagnosticCode, Error,
    ErrorView, Result,
};
use crate::direct::binding::{array_cells, array_mismatch, downcast_error};
use crate::direct::bound::error_of;
use crate::direct::cell::{append_slice, twos_complement_32};
use crate::direct::encoder::{column_error, row_column_diagnostic};
use crate::direct::layout::{CellPosition, RowLayout, RowLayoutView};
use crate::direct::plan::{DirectColumnEncoding, DirectColumnPlan, DirectColumnView};
use crate::direct::rows::{cell_position, cell_position_outcome, lemma_cell_index};
use crate::direct::value::{bit_pattern, twos_complement_64};
use crate::direct::wire::{append_le, le_bytes, splice, write_bytes};
use crate::float::{classify_float64, float64_class};
use crate::message::{Fault, MessageOf, NonFinite};

verus! {

/// Length of the length byte of a nullable cell.
pub const CELL_LEN_PREFIX_LEN: usize = 1;

/// The error of a null in a column that allows none.
pub open spec fn null_error(column: DirectColumnView, row_index: usize) -> ErrorView {
    column_error(
        column,
        row_index,
        DiagnosticCode::NullInNonNullableColumn,
        MessageOf::Fault(Fault::NullInDirectColumn),
    )
}

/// The error of a float that is not finite.
pub open spec fn non_finite_error(
    column: DirectColumnView,
    row_index: usize,
    value: NonFinite,
) -> ErrorView {
    column_error(
        column,
        row_index,
        DiagnosticCode::NonFiniteFloat,
        MessageOf::Fault(Fault::NonFiniteFloat { value }),
    )
}

/// The bytes of a primitive value.
pub open spec fn primitive_bytes(cell: ArrowCellView) -> Seq<u8> {
    match cell {
        ArrowCellOf::Boolean(value) => seq![
            if value {
                1u8
            } else {
                0u8
            },
        ],
        ArrowCellOf::Int32(value) => le_bytes(twos_complement_32(value), 4),
        ArrowCellOf::Int64(value) => le_bytes(twos_complement_64(value), 8),
        ArrowCellOf::Float64(bits) => le_bytes(bits as nat, 8),
        _ => Seq::empty(),
    }
}

/// The error of a primitive value of a column.
pub open spec fn primitive_error(
    column: DirectColumnView,
    row_index: usize,
    cell: ArrowCellView,
) -> Option<ErrorView> {
    match cell {
        ArrowCellOf::Null => if column.nullable {
            None
        } else {
            Some(null_error(column, row_index))
        },
        ArrowCellOf::Float64(bits) => match float64_class(bits) {
            Some(value) => Some(non_finite_error(column, row_index, value)),
            None => None,
        },
        _ => None,
    }
}

/// The bytes of a primitive cell: a null is a zero length, and a nullable column has a length byte
/// before its values.
pub open spec fn primitive_cell_bytes(nullable: bool, cell: ArrowCellView) -> Seq<u8> {
    if cell is Null {
        seq![0u8]
    } else if nullable {
        seq![primitive_bytes(cell).len() as u8] + primitive_bytes(cell)
    } else {
        primitive_bytes(cell)
    }
}

/// The fault of writing a null to its place.
pub open spec fn null_write_fault(position: CellPosition, buffer_len: nat) -> Option<Fault> {
    if position.len != CELL_LEN_PREFIX_LEN {
        Some(
            Fault::NullCellLength {
                row_index: position.row_index,
                column_index: position.column_index,
                len: position.len,
            },
        )
    } else if position.offset >= buffer_len {
        Some(Fault::NullCellOutside)
    } else {
        None
    }
}

/// The fault of a cell range that does not lie inside a buffer.
pub open spec fn range_write_fault(position: CellPosition, buffer_len: nat) -> Option<Fault> {
    if position.offset + position.len > usize::MAX {
        Some(Fault::CellEndOverflow)
    } else if position.offset + position.len > buffer_len {
        Some(Fault::CellRangeOutside)
    } else {
        None
    }
}

/// The fault of writing a value with a length byte to its place.
pub open spec fn nullable_write_fault(
    position: CellPosition,
    value_len: nat,
    buffer_len: nat,
) -> Option<Fault> {
    if CELL_LEN_PREFIX_LEN + value_len > usize::MAX {
        Some(Fault::NullableCellOverflow)
    } else if position.len != CELL_LEN_PREFIX_LEN + value_len {
        Some(
            Fault::NullableCellLength {
                row_index: position.row_index,
                column_index: position.column_index,
                len: position.len,
                expected: (CELL_LEN_PREFIX_LEN + value_len) as usize,
            },
        )
    } else {
        match range_write_fault(position, buffer_len) {
            Some(fault) => Some(fault),
            None => if value_len > u8::MAX {
                Some(Fault::NullableValueTooLong)
            } else {
                None
            },
        }
    }
}

/// The fault of writing a value without a length byte to its place.
pub open spec fn fixed_write_fault(
    position: CellPosition,
    value_len: nat,
    buffer_len: nat,
) -> Option<Fault> {
    if position.len != value_len {
        Some(
            Fault::FixedCellLength {
                row_index: position.row_index,
                column_index: position.column_index,
                len: position.len,
                expected: value_len as usize,
            },
        )
    } else {
        range_write_fault(position, buffer_len)
    }
}

/// Whether a cell was written to its place, or the fault reported and the buffer left alone.
pub open spec fn is_cell_written(
    result: Result<()>,
    before: Seq<u8>,
    after: Seq<u8>,
    fault: Option<Fault>,
    offset: usize,
    part: Seq<u8>,
) -> bool {
    match fault {
        Some(fault) => outcome(result) == Err::<(), _>(payload_error(fault)) && after == before,
        None => result is Ok && after == splice(before, offset as int, part),
    }
}

/// Writes a null to its place.
pub fn write_null_cell(bytes: &mut [u8], cell: &CellPosition) -> (result: Result<()>)
    ensures
        is_cell_written(
            result,
            old(bytes)@,
            final(bytes)@,
            null_write_fault(*cell, old(bytes)@.len()),
            cell.offset,
            seq![0u8],
        ),
{
    if cell.len() != CELL_LEN_PREFIX_LEN {
        return Err(
            invalid_payload(
                Fault::NullCellLength {
                    row_index: cell.row_index(),
                    column_index: cell.column_index(),
                    len: cell.len(),
                },
            ),
        );
    }
    if cell.offset() >= bytes.len() {
        return Err(invalid_payload(Fault::NullCellOutside));
    }
    bytes[cell.offset()] = 0;
    assert(bytes@ =~= splice(old(bytes)@, cell.offset as int, seq![0u8]));
    Ok(())
}

/// Writes a value to its place, with a length byte where the column allows nulls.
pub fn write_primitive_cell(
    bytes: &mut [u8],
    cell: &CellPosition,
    column: &DirectColumnPlan,
    value: &[u8],
) -> (result: Result<()>)
    ensures
        column@.nullable ==> is_cell_written(
            result,
            old(bytes)@,
            final(bytes)@,
            nullable_write_fault(*cell, value@.len(), old(bytes)@.len()),
            cell.offset,
            seq![value@.len() as u8] + value@,
        ),
        !column@.nullable ==> is_cell_written(
            result,
            old(bytes)@,
            final(bytes)@,
            fixed_write_fault(*cell, value@.len(), old(bytes)@.len()),
            cell.offset,
            value@,
        ),
{
    if column.nullable() {
        return write_nullable_primitive_cell(bytes, cell, value);
    }
    write_fixed_width_cell(bytes, cell, value)
}

/// Checks that a cell range lies inside a buffer.
fn check_cell_range(cell: &CellPosition, buffer_len: usize) -> (result: Result<()>)
    ensures
        outcome(result) == (match range_write_fault(*cell, buffer_len as nat) {
            Some(fault) => Err(payload_error(fault)),
            None => Ok(()),
        }),
{
    match cell.offset().checked_add(cell.len()) {
        Some(end) => if end > buffer_len {
            Err(invalid_payload(Fault::CellRangeOutside))
        } else {
            Ok(())
        },
        None => Err(invalid_payload(Fault::CellEndOverflow)),
    }
}

/// Writes a value with a length byte to its place.
pub fn write_nullable_primitive_cell(bytes: &mut [u8], cell: &CellPosition, value: &[u8]) -> (
    result: Result<()>)
    ensures
        is_cell_written(
            result,
            old(bytes)@,
            final(bytes)@,
            nullable_write_fault(*cell, value@.len(), old(bytes)@.len()),
            cell.offset,
            seq![value@.len() as u8] + value@,
        ),
{
    let value_len: usize = value.len();
    let expected: usize = match CELL_LEN_PREFIX_LEN.checked_add(value_len) {
        Some(expected) => expected,
        None => {
            return Err(invalid_payload(Fault::NullableCellOverflow));
        },
    };
    if cell.len() != expected {
        return Err(
            invalid_payload(
                Fault::NullableCellLength {
                    row_index: cell.row_index(),
                    column_index: cell.column_index(),
                    len: cell.len(),
                    expected,
                },
            ),
        );
    }
    match check_cell_range(cell, bytes.len()) {
        Ok(()) => {},
        Err(error) => {
            return Err(error);
        },
    }
    if value_len > u8::MAX as usize {
        return Err(invalid_payload(Fault::NullableValueTooLong));
    }
    bytes[cell.offset()] = value_len as u8;
    write_bytes(bytes, cell.offset() + CELL_LEN_PREFIX_LEN, value);
    assert(bytes@ =~= splice(
        old(bytes)@,
        cell.offset as int,
        seq![value@.len() as u8] + value@,
    ));
    Ok(())
}

/// Writes a value without a length byte to its place.
pub fn write_fixed_width_cell(bytes: &mut [u8], cell: &CellPosition, value: &[u8]) -> (result:
    Result<()>)
    ensures
        is_cell_written(
            result,
            old(bytes)@,
            final(bytes)@,
            fixed_write_fault(*cell, value@.len(), old(bytes)@.len()),
            cell.offset,
            value@,
        ),
{
    if cell.len() != value.len() {
        return Err(
            invalid_payload(
                Fault::FixedCellLength {
                    row_index: cell.row_index(),
                    column_index: cell.column_index(),
                    len: cell.len(),
                    expected: value.len(),
                },
            ),
        );
    }
    match check_cell_range(cell, bytes.len()) {
        Ok(()) => {},
        Err(error) => {
            return Err(error);
        },
    }
    write_bytes(bytes, cell.offset(), value);
    Ok(())
}

/// Creates the error of a null in a column that allows none.
pub(crate) fn null_in_column(column: &DirectColumnPlan, row_index: usize) -> (error: Error)
    ensures
        error@ == null_error(column@, row_index),
{
    value_conversion_error(
        row_column_diagnostic(
            column,
            row_index,
            DiagnosticCode::NullInNonNullableColumn,
            MessageOf::Fault(Fault::NullInDirectColumn),
        ),
    )
}

/// Creates the error of a float that is not finite.
pub(crate) fn non_finite_in_column(column: &DirectColumnPlan, row_index: usize, value: NonFinite) -> (error:
    Error)
    ensures
        error@ == non_finite_error(column@, row_index, value),
{
    value_conversion_error(
        row_column_diagnostic(
            column,
            row_index,
            DiagnosticCode::NonFiniteFloat,
            MessageOf::Fault(Fault::NonFiniteFloat { value }),
        ),
    )
}

/// The fault of writing a primitive cell to its place.
pub open spec fn primitive_write_fault(
    nullable: bool,
    cell: ArrowCellView,
    position: CellPosition,
    buffer_len: nat,
) -> Option<Fault> {
    if cell is Null {
        null_write_fault(position, buffer_len)
    } else if nullable {
        nullable_write_fault(position, primitive_bytes(cell).len(), buffer_len)
    } else {
        fixed_write_fault(position, primitive_bytes(cell).len(), buffer_len)
    }
}

/// The place and the bytes of one cell of a primitive column.
pub open spec fn primitive_step(
    column: DirectColumnView,
    cell: ArrowCellView,
    column_index: usize,
    column_count: usize,
    layout: RowLayoutView,
    buffer_len: nat,
    row: int,
) -> core::result::Result<(int, Seq<u8>), ErrorView> {
    match cell_position_outcome(layout.cell_positions, row as usize, column_index, column_count) {
        Err(error) => Err(error),
        Ok(position) => match primitive_error(column, row as usize, cell) {
            Some(error) => Err(error),
            None => match primitive_write_fault(column.nullable, cell, position, buffer_len) {
                Some(fault) => Err(payload_error(fault)),
                None => Ok((position.offset as int, primitive_cell_bytes(column.nullable, cell))),
            },
        },
    }
}

/// The buffer after the rows of a primitive column from a row on are filled, and the error that
/// ended the filling.
pub open spec fn primitive_fill_from(
    column: DirectColumnView,
    cells: Seq<ArrowCellView>,
    column_index: usize,
    column_count: usize,
    layout: RowLayoutView,
    bytes: Seq<u8>,
    row: int,
) -> (Seq<u8>, Option<ErrorView>)
    decreases cells.len() - row,
{
    if row < 0 || row >= cells.len() {
        (bytes, None)
    } else {
        match primitive_step(
            column,
            cells[row],
            column_index,
            column_count,
            layout,
            bytes.len(),
            row,
        ) {
            Err(error) => (bytes, Some(error)),
            Ok((offset, part)) => primitive_fill_from(
                column,
                cells,
                column_index,
                column_count,
                layout,
                splice(bytes, offset, part),
                row + 1,
            ),
        }
    }
}

/// Fills one cell, whose value is given as bytes, to the place of a layout.
fn fill_primitive_cell(
    column: &DirectColumnPlan,
    row_index: usize,
    column_index: usize,
    column_count: usize,
    layout: &RowLayout,
    bytes: &mut [u8],
    value: Option<Vec<u8>>,
    Ghost(cell): Ghost<ArrowCellView>,
) -> (result: Result<()>)
    requires
        value is None <==> cell is Null,
        value matches Some(value) ==> value@ == primitive_bytes(cell),
        !(cell is Null) ==> primitive_error(column@, row_index, cell) is None,
    ensures
        match primitive_step(
            column@,
            cell,
            column_index,
            column_count,
            layout@,
            old(bytes)@.len(),
            row_index as int,
        ) {
            Ok((offset, part)) => result is Ok && final(bytes)@ == splice(
                old(bytes)@,
                offset,
                part,
            ),
            Err(view) => outcome(result) == Err::<(), _>(view) && final(bytes)@ == old(bytes)@,
        },
{
    let position = match cell_position(layout, row_index, column_index, column_count) {
        Ok(position) => position,
        Err(error) => {
            return Err(error);
        },
    };
    match value {
        None => {
            if !column.nullable() {
                return Err(null_in_column(column, row_index));
            }
            write_null_cell(bytes, &position)
        },
        Some(value) => write_primitive_cell(bytes, &position, column, value.as_slice()),
    }
}

/// Returns the bytes of a boolean.
pub(crate) fn boolean_bytes(value: bool) -> (bytes: Vec<u8>)
    ensures
        bytes@ == primitive_bytes(ArrowCellOf::Boolean(value)),
{
    let mut bytes: Vec<u8> = Vec::with_capacity(1);
    bytes.push(
        if value {
            1
        } else {
            0
        },
    );
    assert(bytes@ =~= primitive_bytes(ArrowCellOf::Boolean(value)));
    bytes
}

/// Returns the little-endian bytes of a bit pattern.
pub(crate) fn pattern_bytes(pattern: u64, width: usize) -> (bytes: Vec<u8>)
    ensures
        bytes@ == le_bytes(pattern as nat, width as nat),
{
    let mut bytes: Vec<u8> = Vec::with_capacity(width);
    append_le(&mut bytes, pattern as u128, width);
    assert(bytes@ =~= le_bytes(pattern as nat, width as nat));
    bytes
}

/// Fills one Boolean-to-bit column into an already allocated rows payload.
pub fn fill_boolean_column(
    array: &Vec<Option<bool>>,
    column: &DirectColumnPlan,
    column_index: usize,
    column_count: usize,
    layout: &RowLayout,
    bytes: &mut [u8],
) -> (result: Result<()>)
    ensures
        (final(bytes)@, error_of(result)) == primitive_fill_from(
            column@,
            array_cells(ColumnArray::Boolean(*array)),
            column_index,
            column_count,
            layout@,
            old(bytes)@,
            0,
        ),
{
    let ghost before = bytes@;
    let ghost cells = array_cells(ColumnArray::Boolean(*array));
    let mut row_index: usize = 0;
    while row_index < array.len()
        invariant
            row_index <= array@.len(),
            before == old(bytes)@,
            cells == array_cells(ColumnArray::Boolean(*array)),
            primitive_fill_from(column@, cells, column_index, column_count, layout@, before, 0)
                == primitive_fill_from(
                column@,
                cells,
                column_index,
                column_count,
                layout@,
                bytes@,
                row_index as int,
            ),
        decreases array@.len() - row_index,
    {
        let value: Option<Vec<u8>> = match array[row_index] {
            Some(value) => Some(boolean_bytes(value)),
            None => None,
        };
        match fill_primitive_cell(
            column,
            row_index,
            column_index,
            column_count,
            layout,
            bytes,
            value,
            Ghost(cells[row_index as int]),
        ) {
            Ok(()) => {},
            Err(error) => {
                return Err(error);
            },
        }
        row_index += 1;
    }
    Ok(())
}

/// Fills one Int32-to-int column into an already allocated rows payload.
pub fn fill_int32_column(
    array: &Vec<Option<i32>>,
    column: &DirectColumnPlan,
    column_index: usize,
    column_count: usize,
    layout: &RowLayout,
    bytes: &mut [u8],
) -> (result: Result<()>)
    ensures
        (final(bytes)@, error_of(result)) == primitive_fill_from(
            column@,
            array_cells(ColumnArray::Int32(*array)),
            column_index,
            column_count,
            layout@,
            old(bytes)@,
            0,
        ),
{
    let ghost before = bytes@;
    let ghost cells = array_cells(ColumnArray::Int32(*array));
    let mut row_index: usize = 0;
    while row_index < array.len()
        invariant
            row_index <= array@.len(),
            before == old(bytes)@,
            cells == array_cells(ColumnArray::Int32(*array)),
            primitive_fill_from(column@, cells, column_index, column_count, layout@, before, 0)
                == primitive_fill_from(
                column@,
                cells,
                column_index,
                column_count,
                layout@,
                bytes@,
                row_index as int,
            ),
        decreases array@.len() - row_index,
    {
        let value: Option<Vec<u8>> = match array[row_index] {
            Some(value) => Some(pattern_bytes(bit_pattern(value as i64, 32), 4)),
            None => None,
        };
        match fill_primitive_cell(
            column,
            row_index,
            column_index,
            column_count,
            layout,
            bytes,
            value,
            Ghost(cells[row_index as int]),
        ) {
            Ok(()) => {},
            Err(error) => {
                return Err(error);
            },
        }
        row_index += 1;
    }
    Ok(())
}

/// Fills one Int64-to-bigint column into an already allocated rows payload.
pub fn fill_int64_column(
    array: &Vec<Option<i64>>,
    column: &DirectColumnPlan,
    column_index: usize,
    column_count: usize,
    layout: &RowLayout,
    bytes: &mut [u8],
) -> (result: Result<()>)
    ensures
        (final(bytes)@, error_of(result)) == primitive_fill_from(
            column@,
            array_cells(ColumnArray::Int64(*array)),
            column_index,
            column_count,
            layout@,
            old(bytes)@,
            0,
        ),
{
    let ghost before = bytes@;
    let ghost cells = array_cells(ColumnArray::Int64(*array));
    let mut row_index: usize = 0;
    while row_index < array.len()
        invariant
            row_index <= array@.len(),
            before == old(bytes)@,
            cells == array_cells(ColumnArray::Int64(*array)),
            primitive_fill_from(column@, cells, column_index, column_count, layout@, before, 0)
                == primitive_fill_from(
                column@,
                cells,
                column_index,
                column_count,
                layout@,
                bytes@,
                row_index as int,
            ),
        decreases array@.len() - row_index,
    {
        let value: Option<Vec<u8>> = match array[row_index] {
            Some(value) => Some(pattern_bytes(bit_pattern(value, 64), 8)),
            None => None,
        };
        match fill_primitive_cell(
            column,
            row_index,
            column_index,
            column_count,
            layout,
            bytes,
            value,
            Ghost(cells[row_index as int]),
        ) {
            Ok(()) => {},
            Err(error) => {
                return Err(error);
            },
        }
        row_index += 1;
    }
    Ok(())
}

/// Fills one Float64-to-float column into an already allocated rows payload.
pub fn fill_float64_column(
    array: &Vec<Option<u64>>,
    column: &DirectColumnPlan,
    column_index: usize,
    column_count: usize,
    layout: &RowLayout,
    bytes: &mut [u8],
) -> (result: Result<()>)
    ensures
        (final(bytes)@, error_of(result)) == primitive_fill_from(
            column@,
            array_cells(ColumnArray::Float64(*array)),
            column_index,
            column_count,
            layout@,
            old(bytes)@,
            0,
        ),
{
    let ghost before = bytes@;
    let ghost cells = array_cells(ColumnArray::Float64(*array));
    let mut row_index: usize = 0;
    while row_index < array.len()
        invariant
            row_index <= array@.len(),
            before == old(bytes)@,
            cells == array_cells(ColumnArray::Float64(*array)),
            primitive_fill_from(column@, cells, column_index, column_count, layout@, before, 0)
                == primitive_fill_from(
                column@,
                cells,
                column_index,
                column_count,
                layout@,
                bytes@,
                row_index as int,
            ),
        decreases array@.len() - row_index,
    {
        match cell_position(layout, row_index, column_index, column_count) {
            Ok(_) => {},
            Err(error) => {
                return Err(error);
            },
        }
        let value: Option<Vec<u8>> = match array[row_index] {
            Some(bits) => match classify_float64(bits) {
                None => Some(pattern_bytes(bits, 8)),
                Some(value) => {
                    return Err(non_finite_in_column(column, row_index, value));
                },
            },
            None => None,
        };
        match fill_primitive_cell(
            column,
            row_index,
            column_index,
            column_count,
            layout,
            bytes,
            value,
            Ghost(cells[row_index as int]),
        ) {
            Ok(()) => {},
            Err(error) => {
                return Err(error);
            },
        }
        row_index += 1;
    }
    Ok(())
}

/// The error of appending a null that was measured with a length.
pub open spec fn null_append_error(
    column: DirectColumnView,
    row_index: usize,
    measured_len: usize,
) -> Option<ErrorView> {
    if !column.nullable {
        Some(null_error(column, row_index))
    } else if measured_len != CELL_LEN_PREFIX_LEN {
        Some(
            payload_error(
                Fault::MeasuredNullLength {
                    row_index,
                    column_index: column.source_index,
                    len: measured_len,
                },
            ),
        )
    } else {
        None
    }
}

/// The error of appending a value that was measured with a length.
pub open spec fn value_append_error(
    column: DirectColumnView,
    measured_len: usize,
    value_len: nat,
) -> Option<ErrorView> {
    if column.nullable {
        if CELL_LEN_PREFIX_LEN + value_len > usize::MAX {
            Some(payload_error(Fault::NullableCellOverflow))
        } else if measured_len != CELL_LEN_PREFIX_LEN + value_len {
            Some(
                payload_message_error(
                    MessageOf::MeasuredNullableLength {
                        column: column.source_name,
                        len: measured_len,
                        expected: (CELL_LEN_PREFIX_LEN + value_len) as usize,
                    },
                ),
            )
        } else if value_len > u8::MAX {
            Some(payload_error(Fault::NullableValueTooLong))
        } else {
            None
        }
    } else if measured_len != value_len {
        Some(
            payload_message_error(
                MessageOf::MeasuredFixedLength {
                    column: column.source_name,
                    len: measured_len,
                    expected: value_len as usize,
                },
            ),
        )
    } else {
        None
    }
}

/// The error of appending a primitive cell that was measured with a length.
pub open spec fn primitive_append_error(
    column: DirectColumnView,
    row_index: usize,
    cell: ArrowCellView,
    measured_len: usize,
) -> Option<ErrorView> {
    if cell is Null {
        null_append_error(column, row_index, measured_len)
    } else {
        match primitive_error(column, row_index, cell) {
            Some(error) => Some(error),
            None => value_append_error(column, measured_len, primitive_bytes(cell).len()),
        }
    }
}

/// Whether a cell was appended, or the error reported and the buffer left alone.
pub open spec fn is_appended(
    result: Result<()>,
    before: Seq<u8>,
    after: Seq<u8>,
    error: Option<ErrorView>,
    part: Seq<u8>,
) -> bool {
    match error {
        Some(view) => outcome(result) == Err::<(), _>(view) && after == before,
        None => result is Ok && after == before + part,
    }
}

/// Appends a null to a row buffer.
pub fn append_null_cell(
    buf: &mut Vec<u8>,
    column: &DirectColumnPlan,
    row_index: usize,
    measured_len: usize,
) -> (result: Result<()>)
    ensures
        is_appended(
            result,
            old(buf)@,
            final(buf)@,
            null_append_error(column@, row_index, measured_len),
            seq![0u8],
        ),
{
    if !column.nullable() {
        return Err(null_in_column(column, row_index));
    }
    if measured_len != CELL_LEN_PREFIX_LEN {
        return Err(
            invalid_payload(
                Fault::MeasuredNullLength {
                    row_index,
                    column_index: column.source_index(),
                    len: measured_len,
                },
            ),
        );
    }
    buf.push(0);
    assert(buf@ =~= old(buf)@ + seq![0u8]);
    Ok(())
}

/// Appends a value to a row buffer, with a length byte where the column allows nulls.
pub fn append_primitive_cell(
    buf: &mut Vec<u8>,
    column: &DirectColumnPlan,
    measured_len: usize,
    value: &[u8],
) -> (result: Result<()>)
    ensures
        is_appended(
            result,
            old(buf)@,
            final(buf)@,
            value_append_error(column@, measured_len, value@.len()),
            if column@.nullable {
                seq![value@.len() as u8] + value@
            } else {
                value@
            },
        ),
{
    let value_len: usize = value.len();
    if column.nullable() {
        let expected: usize = match CELL_LEN_PREFIX_LEN.checked_add(value_len) {
            Some(expected) => expected,
            None => {
                return Err(invalid_payload(Fault::NullableCellOverflow));
            },
        };
        if measured_len != expected {
            return Err(
                invalid_payload_message(
                    MessageOf::MeasuredNullableLength {
                        column: column.source_name().to_owned(),
                        len: measured_len,
                        expected,
                    },
                ),
            );
        }
        if value_len > u8::MAX as usize {
            return Err(invalid_payload(Fault::NullableValueTooLong));
        }
        buf.push(value_len as u8);
    } else if measured_len != value_len {
        return Err(
            invalid_payload_message(
                MessageOf::MeasuredFixedLength {
                    column: column.source_name().to_owned(),
                    len: measured_len,
                    expected: value_len,
                },
            ),
        );
    }
    append_slice(buf, value);
    assert(buf@ =~= old(buf)@ + (if column@.nullable {
        seq![value@.len() as u8] + value@
    } else {
        value@
    }));
    Ok(())
}

/// Appends one Boolean-to-bit cell to a row buffer.
pub fn append_boolean_cell(
    buf: &mut Vec<u8>,
    array: &Vec<Option<bool>>,
    column: &DirectColumnPlan,
    row_index: usize,
    measured_len: usize,
) -> (result: Result<()>)
    requires
        row_index < array@.len(),
    ensures
        ({
            let cell = ColumnArray::Boolean(*array).cell_at(row_index as int);
            is_appended(
                result,
                old(buf)@,
                final(buf)@,
                primitive_append_error(column@, row_index, cell, measured_len),
                primitive_cell_bytes(column@.nullable, cell),
            )
        }),
{
    match array[row_index] {
        Some(value) => append_primitive_cell(
            buf,
            column,
            measured_len,
            boolean_bytes(value).as_slice(),
        ),
        None => append_null_cell(buf, column, row_index, measured_len),
    }
}

/// Appends one Int32-to-int cell to a row buffer.
pub fn append_int32_cell(
    buf: &mut Vec<u8>,
    array: &Vec<Option<i32>>,
    column: &DirectColumnPlan,
    row_index: usize,
    measured_len: usize,
) -> (result: Result<()>)
    requires
        row_index < array@.len(),
    ensures
        ({
            let cell = ColumnArray::Int32(*array).cell_at(row_index as int);
            is_appended(
                result,
                old(buf)@,
                final(buf)@,
                primitive_append_error(column@, row_index, cell, measured_len),
                primitive_cell_bytes(column@.nullable, cell),
            )
        }),
{
    match array[row_index] {
        Some(value) => append_primitive_cell(
            buf,
            column,
            measured_len,
            pattern_bytes(bit_pattern(value as i64, 32), 4).as_slice(),
        ),
        None => append_null_cell(buf, column, row_index, measured_len),
    }
}

/// Appends one Int64-to-bigint cell to a row buffer.
pub fn append_int64_cell(
    buf: &mut Vec<u8>,
    array: &Vec<Option<i64>>,
    column: &DirectColumnPlan,
    row_index: usize,
    measured_len: usize,
) -> (result: Result<()>)
    requires
        row_index < array@.len(),
    ensures
        ({
            let cell = ColumnArray::Int64(*array).cell_at(row_index as int);
            is_appended(
                result,
                old(buf)@,
                final(buf)@,
                primitive_append_error(column@, row_index, cell, measured_len),
                primitive_cell_bytes(column@.nullable, cell),
            )
        }),
{
    match array[row_index] {
        Some(value) => append_primitive_cell(
            buf,
            column,
            measured_len,
            pattern_bytes(bit_pattern(value, 64), 8).as_slice(),
        ),
        None => append_null_cell(buf, column, row_index, measured_len),
    }
}

/// Appends one Float64-to-float cell to a row buffer.
pub fn append_float64_cell(
    buf: &mut Vec<u8>,
    array: &Vec<Option<u64>>,
    column: &DirectColumnPlan,
    row_index: usize,
    measured_len: usize,
) -> (result: Result<()>)
    requires
        row_index < array@.len(),
    ensures
        ({
            let cell = ColumnArray::Float64(*array).cell_at(row_index as int);
            is_appended(
                result,
                old(buf)@,
                final(buf)@,
                primitive_append_error(column@, row_index, cell, measured_len),
                primitive_cell_bytes(column@.nullable, cell),
            )
        }),
{
    match array[row_index] {
        Some(value) => match classify_float64(value) {
            None => append_primitive_cell(
                buf,
                column,
                measured_len,
                pattern_bytes(value, 8).as_slice(),
            ),
            Some(value) => Err(non_finite_in_column(column, row_index, value)),
        },
        None => append_null_cell(buf, column, row_index, measured_len),
    }
}

/// The number of bytes of a primitive value, where the layout of its conversion is known.
pub open spec fn primitive_width(class: PrimitiveArrowToMssql) -> Option<usize> {
    match class {
        PrimitiveArrowToMssql::BooleanToBit => Some(1),
        PrimitiveArrowToMssql::Int32ToInt => Some(4),
        PrimitiveArrowToMssql::Int64ToBigInt | PrimitiveArrowToMssql::Float64ToFloat => Some(8),
        _ => None,
    }
}

/// The number of bytes of a value of a column with an encoding, where it has a primitive layout.
pub open spec fn encoding_width(encoding: DirectColumnEncoding) -> Option<usize> {
    match encoding {
        DirectColumnEncoding::Primitive(class) => primitive_width(class),
        _ => None,
    }
}

/// The error of an encoding without a primitive layout.
pub open spec fn no_primitive_layout(encoding: DirectColumnEncoding) -> ErrorView {
    direct_error(
        DiagnosticCode::DirectEncodingUnsupportedBatch,
        match encoding {
            DirectColumnEncoding::Primitive(class) => Fault::PrimitiveLayout { class },
            DirectColumnEncoding::VariableWidth(class) => Fault::VariableWidthLayout { class },
            _ => Fault::OtherLayout,
        },
    )
}

/// Returns the number of bytes of a value of a column with a primitive layout.
pub fn primitive_value_len(encoding: DirectColumnEncoding) -> (result: Result<usize>)
    ensures
        outcome(result) == (match encoding_width(encoding) {
            Some(width) => Ok(width),
            None => Err(no_primitive_layout(encoding)),
        }),
{
    match encoding {
        DirectColumnEncoding::Primitive(PrimitiveArrowToMssql::BooleanToBit) => Ok(1),
        DirectColumnEncoding::Primitive(PrimitiveArrowToMssql::Int32ToInt) => Ok(4),
        DirectColumnEncoding::Primitive(PrimitiveArrowToMssql::Int64ToBigInt) => Ok(8),
        DirectColumnEncoding::Primitive(PrimitiveArrowToMssql::Float64ToFloat) => Ok(8),
        DirectColumnEncoding::Primitive(class) => Err(
            unsupported_batch(Fault::PrimitiveLayout { class }),
        ),
        DirectColumnEncoding::VariableWidth(class) => Err(
            unsupported_batch(Fault::VariableWidthLayout { class }),
        ),
        _ => Err(unsupported_batch(Fault::OtherLayout)),
    }
}

/// Returns the number of bytes of a value of a column, where it has a primitive layout.
pub fn fixed_width_value_len(encoding: DirectColumnEncoding) -> (len: Option<usize>)
    ensures
        len == encoding_width(encoding),
{
    match encoding {
        DirectColumnEncoding::Primitive(PrimitiveArrowToMssql::BooleanToBit) => Some(1),
        DirectColumnEncoding::Primitive(PrimitiveArrowToMssql::Int32ToInt) => Some(4),
        DirectColumnEncoding::Primitive(PrimitiveArrowToMssql::Int64ToBigInt) => Some(8),
        DirectColumnEncoding::Primitive(PrimitiveArrowToMssql::Float64ToFloat) => Some(8),
        _ => None,
    }
}

/// The error of the first float, from a row on, that is not finite.
pub open spec fn first_non_finite_error(
    column: DirectColumnView,
    values: Seq<Option<u64>>,
    row: int,
) -> Option<ErrorView>
    decreases values.len() - row,
{
    if row < 0 || row >= values.len() {
        None
    } else {
        match values[row] {
            Some(bits) => match float64_class(bits) {
                Some(value) => Some(non_finite_error(column, row as usize, value)),
                None => first_non_finite_error(column, values, row + 1),
            },
            None => first_non_finite_error(column, values, row + 1),
        }
    }
}

/// The error of the values of a column before its cells are measured.
pub open spec fn column_values_error(column: DirectColumnView, array: ColumnArray) -> Option<
    ErrorView,
> {
    if column.encoding != DirectColumnEncoding::Primitive(PrimitiveArrowToMssql::Float64ToFloat) {
        None
    } else {
        match array {
            ColumnArray::Float64(values) => first_non_finite_error(column, values@, 0),
            _ => Some(downcast_error(column, array)),
        }
    }
}

/// Checks that the floats of a column are finite.
pub fn validate_primitive_column_values(array: &ColumnArray, column: &DirectColumnPlan) -> (result:
    Result<()>)
    ensures
        error_of(result) == column_values_error(column@, *array),
{
    match column.encoding() {
        DirectColumnEncoding::Primitive(PrimitiveArrowToMssql::Float64ToFloat) => {},
        _ => {
            return Ok(());
        },
    }
    let values = match array {
        ColumnArray::Float64(values) => values,
        _ => {
            return Err(array_mismatch(column, array));
        },
    };
    let mut row_index: usize = 0;
    while row_index < values.len()
        invariant
            row_index <= values@.len(),
            *array == ColumnArray::Float64(*values),
            column@.encoding == DirectColumnEncoding::Primitive(
                PrimitiveArrowToMssql::Float64ToFloat,
            ),
            first_non_finite_error(column@, values@, 0) == first_non_finite_error(
                column@,
                values@,
                row_index as int,
            ),
        decreases values@.len() - row_index,
    {
        match values[row_index] {
            Some(bits) => match classify_float64(bits) {
                Some(value) => {
                    return Err(non_finite_in_column(column, row_index, value));
                },
                None => {},
            },
            None => {},
        }
        row_index += 1;
    }
    Ok(())
}

/// The first row, from a row on, that is null; the number of rows where there is none.
pub open spec fn first_null_row(array: ColumnArray, row: int) -> int
    decreases array.row_count() - row,
{
    if row < 0 || row >= array.row_count() {
        array.row_count() as int
    } else if array.cell_at(row) is Null {
        row
    } else {
        first_null_row(array, row + 1)
    }
}

/// The number of bytes of a cell of a primitive column.
pub open spec fn fixed_cell_len(nullable: bool, width: usize, is_null: bool) -> int {
    if is_null {
        CELL_LEN_PREFIX_LEN as int
    } else if nullable {
        CELL_LEN_PREFIX_LEN + width
    } else {
        width as int
    }
}

/// A matrix of cell lengths in which the first rows of a primitive column are set.
pub open spec fn with_primitive_lengths(
    lengths: Seq<usize>,
    array: ColumnArray,
    nullable: bool,
    width: usize,
    column_index: int,
    column_count: int,
    rows: int,
) -> Seq<usize> {
    Seq::new(
        lengths.len(),
        |index: int|
            if index % column_count == column_index && index / column_count < rows {
                fixed_cell_len(
                    nullable,
                    width,
                    array.cell_at(index / column_count) is Null,
                ) as usize
            } else {
                lengths[index]
            },
    )
}

/// The rows of a primitive column that are measured, and the error that ended the measuring.
pub open spec fn primitive_measure_outcome(column: DirectColumnView, array: ColumnArray) -> (
    int,
    Option<ErrorView>,
) {
    if encoding_width(column.encoding) is None {
        (0, Some(no_primitive_layout(column.encoding)))
    } else {
        match column_values_error(column, array) {
            Some(error) => (0, Some(error)),
            None => {
                let null_row = first_null_row(array, 0);
                if !column.nullable && null_row < array.row_count() {
                    (null_row, Some(null_error(column, null_row as usize)))
                } else {
                    (array.row_count() as int, None)
                }
            },
        }
    }
}

/// Measures one primitive column into a row-major cell length matrix.
///
/// Cell lengths match the TDS metadata shape implied by the mapping nullability. Non-nullable
/// primitive columns use fixed-width cells with no length byte. Nullable primitive columns use the
/// nullable TDS form with a one-byte length prefix, where null values occupy only the zero length
/// byte.
pub fn measure_primitive_column_cell_lengths(
    array: &ColumnArray,
    column: &DirectColumnPlan,
    column_index: usize,
    column_count: usize,
    cell_lengths: &mut [usize],
) -> (result: Result<()>)
    requires
        column_index < column_count,
        array.row_count() * column_count <= old(cell_lengths)@.len(),
    ensures
        error_of(result) == primitive_measure_outcome(column@, *array).1,
        final(cell_lengths)@ == with_primitive_lengths(
            old(cell_lengths)@,
            *array,
            column@.nullable,
            encoding_width(column@.encoding)->0,
            column_index as int,
            column_count as int,
            primitive_measure_outcome(column@, *array).0,
        ),
{
    let ghost before = cell_lengths@;
    let ghost columns = column_count as int;
    let ghost width = encoding_width(column@.encoding)->0;
    let ghost index = column_index as int;
    proof {
        lemma_no_rows_set(before, *array, column@.nullable, width, index, columns);
    }
    let value_len: usize = match primitive_value_len(column.encoding()) {
        Ok(value_len) => value_len,
        Err(error) => {
            return Err(error);
        },
    };
    match validate_primitive_column_values(array, column) {
        Ok(()) => {},
        Err(error) => {
            return Err(error);
        },
    }
    let nullable: bool = column.nullable();
    let matrix_len: usize = cell_lengths.len();
    let row_count: usize = array.len();
    let mut row_index: usize = 0;
    while row_index < row_count
        invariant
            row_index <= row_count,
            row_count == array.row_count(),
            column_index < column_count,
            columns == column_count,
            index == column_index,
            width == encoding_width(column@.encoding)->0,
            encoding_width(column@.encoding) == Some(value_len),
            value_len <= 8,
            nullable == column@.nullable,
            column_values_error(column@, *array) is None,
            row_count * column_count <= matrix_len,
            matrix_len == before.len(),
            before == old(cell_lengths)@,
            nullable || first_null_row(*array, 0) == first_null_row(*array, row_index as int),
            cell_lengths@ == with_primitive_lengths(
                before,
                *array,
                nullable,
                width,
                index,
                columns,
                row_index as int,
            ),
        decreases row_count - row_index,
    {
        let cell_len: usize = if array.is_null(row_index) {
            if !nullable {
                return Err(null_in_column(column, row_index));
            }
            CELL_LEN_PREFIX_LEN
        } else if nullable {
            CELL_LEN_PREFIX_LEN + value_len
        } else {
            value_len
        };
        proof {
            lemma_cell_index(columns, row_count as int, row_index as int, index);
        }
        cell_lengths[row_index * column_count + column_index] = cell_len;
        proof {
            let next = with_primitive_lengths(
                before,
                *array,
                nullable,
                width,
                index,
                columns,
                row_index + 1,
            );
            assert forall|i: int| 0 <= i < before.len() implies #[trigger] cell_lengths@[i]
                == next[i] by {
                if i % columns == index && i / columns == row_index {
                    vstd::arithmetic::div_mod::lemma_fundamental_div_mod(i, columns);
                    assert(columns * (i / columns) == (i / columns) * columns)
                        by (nonlinear_arith);
                }
            }
            assert(cell_lengths@ =~= next);
        }
        row_index += 1;
    }
    Ok(())
}

/// A matrix of cell lengths in which no row is set is left as it is.
proof fn lemma_no_rows_set(
    lengths: Seq<usize>,
    array: ColumnArray,
    nullable: bool,
    width: usize,
    column_index: int,
    column_count: int,
)
    requires
        0 <= column_index < column_count,
    ensures
        with_primitive_lengths(lengths, array, nullable, width, column_index, column_count, 0)
            == lengths,
{
    let unset = with_primitive_lengths(
        lengths,
        array,
        nullable,
        width,
        column_index,
        column_count,
        0,
    );
    assert forall|i: int| 0 <= i < lengths.len() implies #[trigger] unset[i] == lengths[i] by {
        assert(i / column_count >= 0) by (nonlinear_arith)
            requires
                i >= 0,
                column_count > 0,
        ;
    }
    assert(unset =~= lengths);
}

} // verus!
