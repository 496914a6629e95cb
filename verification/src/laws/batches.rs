//! Laws of batches.

use vstd::prelude::*;

use crate::arrow_type::{same_type, ArrowType, DataTypeView, TimeUnit};
use crate::batch::{ColumnArray, RecordBatch};
use crate::cell::{ArrowCellView, MssqlCellView};
use crate::context::NanosecondPolicy;
use crate::convert::{
    batch_mssql_cell, batch_row, batch_row_prefix, extract_outcome, first_column_error,
    mssql_cell_outcome, runtime_column_error, runtime_columns_error,
};
use crate::diagnostic::{DiagnosticCode, ErrorView};
use crate::direct::encode::{encoding_column_error, encoding_shape_error, first_encoding_error};
use crate::laws::temporal::timestamp_of;
use crate::laws::timezone::is_row_error;
use crate::laws::values::{is_bytes_type, is_text_type};
use crate::mapping::{SchemaMapping, SchemaMappingView};

verus! {

/// An array holds its values in order: what stands at a row is the value at that row, and nothing
/// where the value is missing. Its type is that of its values.
pub proof fn law_arrays_hold_their_values(array: ColumnArray, row: int)
    requires
        0 <= row < array.row_count(),
    ensures
        array matches ColumnArray::Boolean(values) ==> array.row_count() == values@.len()
            && array.type_view() == ArrowType::<Seq<char>>::Boolean && (match values@[row] {
            Some(value) => array.cell_at(row) == ArrowCellView::Boolean(value),
            None => array.cell_at(row) is Null,
        }),
        array matches ColumnArray::Int8(values) ==> array.row_count() == values@.len()
            && array.type_view() == ArrowType::<Seq<char>>::Int8 && (match values@[row] {
            Some(value) => array.cell_at(row) == ArrowCellView::Int8(value),
            None => array.cell_at(row) is Null,
        }),
        array matches ColumnArray::Int16(values) ==> array.row_count() == values@.len()
            && array.type_view() == ArrowType::<Seq<char>>::Int16 && (match values@[row] {
            Some(value) => array.cell_at(row) == ArrowCellView::Int16(value),
            None => array.cell_at(row) is Null,
        }),
        array matches ColumnArray::Int32(values) ==> array.row_count() == values@.len()
            && array.type_view() == ArrowType::<Seq<char>>::Int32 && (match values@[row] {
            Some(value) => array.cell_at(row) == ArrowCellView::Int32(value),
            None => array.cell_at(row) is Null,
        }),
        array matches ColumnArray::Int64(values) ==> array.row_count() == values@.len()
            && array.type_view() == ArrowType::<Seq<char>>::Int64 && (match values@[row] {
            Some(value) => array.cell_at(row) == ArrowCellView::Int64(value),
            None => array.cell_at(row) is Null,
        }),
        array matches ColumnArray::UInt8(values) ==> array.row_count() == values@.len()
            && array.type_view() == ArrowType::<Seq<char>>::UInt8 && (match values@[row] {
            Some(value) => array.cell_at(row) == ArrowCellView::UInt8(value),
            None => array.cell_at(row) is Null,
        }),
        array matches ColumnArray::UInt16(values) ==> array.row_count() == values@.len()
            && array.type_view() == ArrowType::<Seq<char>>::UInt16 && (match values@[row] {
            Some(value) => array.cell_at(row) == ArrowCellView::UInt16(value),
            None => array.cell_at(row) is Null,
        }),
        array matches ColumnArray::UInt32(values) ==> array.row_count() == values@.len()
            && array.type_view() == ArrowType::<Seq<char>>::UInt32 && (match values@[row] {
            Some(value) => array.cell_at(row) == ArrowCellView::UInt32(value),
            None => array.cell_at(row) is Null,
        }),
        array matches ColumnArray::UInt64(values) ==> array.row_count() == values@.len()
            && array.type_view() == ArrowType::<Seq<char>>::UInt64 && (match values@[row] {
            Some(value) => array.cell_at(row) == ArrowCellView::UInt64(value),
            None => array.cell_at(row) is Null,
        }),
        array matches ColumnArray::Float16(values) ==> array.row_count() == values@.len()
            && array.type_view() == ArrowType::<Seq<char>>::Float16 && (match values@[row] {
            Some(value) => array.cell_at(row) == ArrowCellView::Float16(value),
            None => array.cell_at(row) is Null,
        }),
        array matches ColumnArray::Float32(values) ==> array.row_count() == values@.len()
            && array.type_view() == ArrowType::<Seq<char>>::Float32 && (match values@[row] {
            Some(value) => array.cell_at(row) == ArrowCellView::Float32(value),
            None => array.cell_at(row) is Null,
        }),
        array matches ColumnArray::Float64(values) ==> array.row_count() == values@.len()
            && array.type_view() == ArrowType::<Seq<char>>::Float64 && (match values@[row] {
            Some(value) => array.cell_at(row) == ArrowCellView::Float64(value),
            None => array.cell_at(row) is Null,
        }),
        array matches ColumnArray::Date32(values) ==> array.row_count() == values@.len()
            && array.type_view() == ArrowType::<Seq<char>>::Date32 && (match values@[row] {
            Some(value) => array.cell_at(row) == ArrowCellView::Date32(value),
            None => array.cell_at(row) is Null,
        }),
        array matches ColumnArray::Date64(values) ==> array.row_count() == values@.len()
            && array.type_view() == ArrowType::<Seq<char>>::Date64 && (match values@[row] {
            Some(value) => array.cell_at(row) == ArrowCellView::Date64(value),
            None => array.cell_at(row) is Null,
        }),
        array matches ColumnArray::Time32Second(values) ==> array.row_count() == values@.len()
            && array.type_view() == ArrowType::<Seq<char>>::Time32(TimeUnit::Second) && (
        match values@[row] {
            Some(value) => array.cell_at(row) == ArrowCellView::Time32Second(value),
            None => array.cell_at(row) is Null,
        }),
        array matches ColumnArray::Time32Millisecond(values) ==> array.row_count() == values@.len()
            && array.type_view() == ArrowType::<Seq<char>>::Time32(TimeUnit::Millisecond) && (
        match values@[row] {
            Some(value) => array.cell_at(row) == ArrowCellView::Time32Millisecond(value),
            None => array.cell_at(row) is Null,
        }),
        array matches ColumnArray::Time64Microsecond(values) ==> array.row_count() == values@.len()
            && array.type_view() == ArrowType::<Seq<char>>::Time64(TimeUnit::Microsecond) && (
        match values@[row] {
            Some(value) => array.cell_at(row) == ArrowCellView::Time64Microsecond(value),
            None => array.cell_at(row) is Null,
        }),
        array matches ColumnArray::Time64Nanosecond(values) ==> array.row_count() == values@.len()
            && array.type_view() == ArrowType::<Seq<char>>::Time64(TimeUnit::Nanosecond) && (
        match values@[row] {
            Some(value) => array.cell_at(row) == ArrowCellView::Time64Nanosecond(value),
            None => array.cell_at(row) is Null,
        }),
        array matches ColumnArray::Decimal32 { precision, scale, values } ==> array.row_count()
            == values@.len() && array.type_view() == ArrowType::<Seq<char>>::Decimal32(
            precision,
            scale,
        ) && (match values@[row] {
            Some(value) => array.cell_at(row) == ArrowCellView::Decimal32(value),
            None => array.cell_at(row) is Null,
        }),
        array matches ColumnArray::Decimal64 { precision, scale, values } ==> array.row_count()
            == values@.len() && array.type_view() == ArrowType::<Seq<char>>::Decimal64(
            precision,
            scale,
        ) && (match values@[row] {
            Some(value) => array.cell_at(row) == ArrowCellView::Decimal64(value),
            None => array.cell_at(row) is Null,
        }),
        array matches ColumnArray::Decimal128 { precision, scale, values } ==> array.row_count()
            == values@.len() && array.type_view() == ArrowType::<Seq<char>>::Decimal128(
            precision,
            scale,
        ) && (match values@[row] {
            Some(value) => array.cell_at(row) == ArrowCellView::Decimal128(value),
            None => array.cell_at(row) is Null,
        }),
        array matches ColumnArray::Decimal256 { precision, scale, values } ==> array.row_count()
            == values@.len() && array.type_view() == ArrowType::<Seq<char>>::Decimal256(
            precision,
            scale,
        ) && (match values@[row] {
            Some(value) => array.cell_at(row) == ArrowCellView::Decimal256(value),
            None => array.cell_at(row) is Null,
        }),
        array matches ColumnArray::Timestamp { unit, timezone, values } ==> array.row_count()
            == values@.len() && (match values@[row] {
            Some(value) => array.cell_at(row) == timestamp_of(unit, value),
            None => array.cell_at(row) is Null,
        }) && (match timezone {
            Some(timezone) => array.type_view() == ArrowType::Timestamp(unit, Some(timezone@)),
            None => array.type_view() == ArrowType::<Seq<char>>::Timestamp(unit, None),
        }),
        array matches ColumnArray::Utf8(values) ==> array.row_count() == values@.len()
            && array.type_view() == ArrowType::<Seq<char>>::Utf8 && (match values@[row] {
            Some(value) => array.cell_at(row) == ArrowCellView::Utf8(value@),
            None => array.cell_at(row) is Null,
        }),
        array matches ColumnArray::LargeUtf8(values) ==> array.row_count() == values@.len()
            && array.type_view() == ArrowType::<Seq<char>>::LargeUtf8 && (match values@[row] {
            Some(value) => array.cell_at(row) == ArrowCellView::Utf8(value@),
            None => array.cell_at(row) is Null,
        }),
        array matches ColumnArray::Utf8View(values) ==> array.row_count() == values@.len()
            && array.type_view() == ArrowType::<Seq<char>>::Utf8View && (match values@[row] {
            Some(value) => array.cell_at(row) == ArrowCellView::Utf8(value@),
            None => array.cell_at(row) is Null,
        }),
        array matches ColumnArray::Binary(values) ==> array.row_count() == values@.len()
            && array.type_view() == ArrowType::<Seq<char>>::Binary && (match values@[row] {
            Some(value) => array.cell_at(row) == ArrowCellView::Binary(value@),
            None => array.cell_at(row) is Null,
        }),
        array matches ColumnArray::LargeBinary(values) ==> array.row_count() == values@.len()
            && array.type_view() == ArrowType::<Seq<char>>::LargeBinary && (match values@[row] {
            Some(value) => array.cell_at(row) == ArrowCellView::Binary(value@),
            None => array.cell_at(row) is Null,
        }),
        array matches ColumnArray::BinaryView(values) ==> array.row_count() == values@.len()
            && array.type_view() == ArrowType::<Seq<char>>::BinaryView && (match values@[row] {
            Some(value) => array.cell_at(row) == ArrowCellView::Binary(value@),
            None => array.cell_at(row) is Null,
        }),
        array matches ColumnArray::FixedSizeBinary { size, values } ==> array.row_count()
            == values@.len() && array.type_view() == ArrowType::<Seq<char>>::FixedSizeBinary(size)
            && (match values@[row] {
            Some(value) => array.cell_at(row) == ArrowCellView::Binary(value@),
            None => array.cell_at(row) is Null,
        }),
        array matches ColumnArray::Other { data_type, nulls } ==> array.row_count() == nulls@.len()
            && array.type_view() == ArrowType::Other(data_type@) && (array.cell_at(row) is Null
            <==> nulls@[row]),
{
}

/// Whether values of an Arrow type are read.
pub open spec fn is_read_type(data_type: DataTypeView) -> bool {
    !(data_type is Float16) && !(data_type is Time32) && !(data_type is Time64) && !(data_type
        is Utf8View) && !(data_type is BinaryView) && !(data_type is FixedSizeBinary)
        && !(data_type is Other)
}

/// A null is read whatever the planned type. Any other value of an array of the planned type is
/// read as it is, exactly when values of that type are read.
pub proof fn law_values_are_read_as_they_are(
    array: ColumnArray,
    mapping: SchemaMappingView,
    row: usize,
)
    requires
        row < array.row_count(),
    ensures
        array.cell_at(row as int) is Null ==> (extract_outcome(array, mapping, row) matches Ok(cell)
            && cell is Null),
        array.type_view() == mapping.arrow.data_type ==> (match extract_outcome(
            array,
            mapping,
            row,
        ) {
            Ok(cell) => cell == array.cell_at(row as int) && (cell is Null || is_read_type(
                mapping.arrow.data_type,
            )),
            Err(error) => !is_read_type(mapping.arrow.data_type) && is_row_error(
                error,
                mapping,
                row,
                DiagnosticCode::ValueConversionUnsupported,
            ),
        }),
        extract_outcome(array, mapping, row) matches Ok(cell) ==> cell == array.cell_at(row as int),
{
}

/// Types are the same when all their parameters are, timezone metadata included; types that are
/// not converted, when Arrow holds them equal.
pub proof fn law_types_are_the_same(left: DataTypeView, right: DataTypeView)
    ensures
        !(left is Other) || !(right is Other) ==> (same_type(left, right) <==> left == right),
        left matches ArrowType::Other(one) ==> (right matches ArrowType::Other(other) ==> (
        same_type(left, right) <==> one.identity == other.identity)),
{
}

/// Whether a batch column is that of a mapping: at its position, of its name and of its type.
pub open spec fn is_column_of(
    batch: RecordBatch,
    mappings: Seq<SchemaMappingView>,
    position: int,
) -> bool {
    &&& mappings[position].arrow.index == position
    &&& mappings[position].arrow.name == batch.names()[position]
    &&& same_type(batch.arrays()[position].type_view(), mappings[position].arrow.data_type)
}

/// Whether a batch column can be encoded as that of a mapping: of its type, or another layout of
/// strings for strings, or of byte strings for byte strings.
pub open spec fn is_encoded_column_of(
    batch: RecordBatch,
    mappings: Seq<SchemaMappingView>,
    position: int,
) -> bool {
    let planned = mappings[position].arrow.data_type;
    let runtime = batch.arrays()[position].type_view();
    &&& mappings[position].arrow.index == position
    &&& mappings[position].arrow.name == batch.names()[position]
    &&& same_type(runtime, planned) || is_text_type(runtime) && is_text_type(planned)
        || is_bytes_type(runtime) && is_bytes_type(planned)
}

/// Whether an error is one diagnostic of a mapping, without a row.
pub open spec fn is_schema_error(error: ErrorView, mapping: SchemaMappingView) -> bool {
    &&& error matches ErrorView::ValueConversion(diagnostics) && diagnostics.len() == 1
        && diagnostics[0].code == DiagnosticCode::SchemaMismatch && diagnostics[0].row is None
        && diagnostics[0].field == Some((mapping.arrow.index, mapping.arrow.name))
}

/// A batch matches mappings exactly when it has one column per mapping, each at its position, of
/// its name and of its type. The error is that of the first column that does not match.
pub proof fn law_batches_match_their_mappings(
    batch: RecordBatch,
    mappings: Seq<SchemaMappingView>,
)
    requires
        batch.well_formed(),
        mappings.len() <= usize::MAX,
    ensures
        runtime_columns_error(batch, mappings) is None <==> batch.arrays().len() == mappings.len()
            && forall|i: int|
            0 <= i < mappings.len() ==> #[trigger] is_column_of(batch, mappings, i),
        batch.arrays().len() == mappings.len() ==> (runtime_columns_error(batch, mappings) matches
            Some(error) ==> exists|i: int|
            0 <= i < mappings.len() && !(#[trigger] is_column_of(batch, mappings, i))
                && is_schema_error(error, mappings[i]) && forall|j: int|
                0 <= j < i ==> #[trigger] is_column_of(batch, mappings, j)),
{
    if batch.arrays().len() == mappings.len() {
        lemma_first_column_error(batch, mappings, 0);
    }
}

/// The first column, from a position on, that does not match its mapping.
proof fn lemma_first_column_error(
    batch: RecordBatch,
    mappings: Seq<SchemaMappingView>,
    position: int,
)
    requires
        batch.well_formed(),
        mappings.len() <= usize::MAX,
        batch.arrays().len() == mappings.len(),
        0 <= position <= mappings.len(),
    ensures
        match first_column_error(batch, mappings, position) {
            None => forall|i: int|
                position <= i < mappings.len() ==> #[trigger] is_column_of(batch, mappings, i),
            Some(error) => exists|i: int|
                position <= i < mappings.len() && !(#[trigger] is_column_of(batch, mappings, i))
                    && is_schema_error(error, mappings[i]) && forall|j: int|
                    position <= j < i ==> #[trigger] is_column_of(batch, mappings, j),
        },
    decreases mappings.len() - position,
{
    if position < mappings.len() {
        lemma_first_column_error(batch, mappings, position + 1);
        assert(runtime_column_error(batch, mappings[position], position as usize) is None
            <==> is_column_of(batch, mappings, position));
        if !is_column_of(batch, mappings, position) {
            assert(is_schema_error(
                first_column_error(batch, mappings, position)->0,
                mappings[position],
            ));
        } else if first_column_error(batch, mappings, position) is Some {
            let i = choose|i: int|
                position + 1 <= i < mappings.len() && !(#[trigger] is_column_of(
                    batch,
                    mappings,
                    i,
                )) && is_schema_error(
                    first_column_error(batch, mappings, position + 1)->0,
                    mappings[i],
                ) && forall|j: int|
                    position + 1 <= j < i ==> #[trigger] is_column_of(batch, mappings, j);
            assert(!is_column_of(batch, mappings, i));
        }
    }
}

/// A batch has the shape of mappings exactly when it has one column per mapping, each at its
/// position, of its name and of its type or of another layout of the same family. The error is
/// that of the first column that has not.
pub proof fn law_batches_have_the_shape_of_their_mappings(
    batch: RecordBatch,
    mappings: Seq<SchemaMappingView>,
)
    requires
        batch.well_formed(),
        mappings.len() <= usize::MAX,
    ensures
        encoding_shape_error(batch, mappings) is None <==> batch.arrays().len() == mappings.len()
            && forall|i: int|
            0 <= i < mappings.len() ==> #[trigger] is_encoded_column_of(batch, mappings, i),
        batch.arrays().len() == mappings.len() ==> (encoding_shape_error(batch, mappings) matches
            Some(error) ==> exists|i: int|
            0 <= i < mappings.len() && !(#[trigger] is_encoded_column_of(batch, mappings, i))
                && is_schema_error(error, mappings[i]) && forall|j: int|
                0 <= j < i ==> #[trigger] is_encoded_column_of(batch, mappings, j)),
{
    if batch.arrays().len() == mappings.len() {
        lemma_first_encoding_error(batch, mappings, 0);
    }
}

/// The first column, from a position on, that does not have the shape of its mapping.
proof fn lemma_first_encoding_error(
    batch: RecordBatch,
    mappings: Seq<SchemaMappingView>,
    position: int,
)
    requires
        batch.well_formed(),
        mappings.len() <= usize::MAX,
        batch.arrays().len() == mappings.len(),
        0 <= position <= mappings.len(),
    ensures
        match first_encoding_error(batch, mappings, position) {
            None => forall|i: int|
                position <= i < mappings.len() ==> #[trigger] is_encoded_column_of(
                    batch,
                    mappings,
                    i,
                ),
            Some(error) => exists|i: int|
                position <= i < mappings.len() && !(#[trigger] is_encoded_column_of(
                    batch,
                    mappings,
                    i,
                )) && is_schema_error(error, mappings[i]) && forall|j: int|
                    position <= j < i ==> #[trigger] is_encoded_column_of(batch, mappings, j),
        },
    decreases mappings.len() - position,
{
    if position < mappings.len() {
        lemma_first_encoding_error(batch, mappings, position + 1);
        assert(encoding_column_error(batch, mappings[position], position as usize) is None
            <==> is_encoded_column_of(batch, mappings, position));
        if !is_encoded_column_of(batch, mappings, position) {
            assert(is_schema_error(
                first_encoding_error(batch, mappings, position)->0,
                mappings[position],
            ));
        } else if first_encoding_error(batch, mappings, position) is Some {
            let i = choose|i: int|
                position + 1 <= i < mappings.len() && !(#[trigger] is_encoded_column_of(
                    batch,
                    mappings,
                    i,
                )) && is_schema_error(
                    first_encoding_error(batch, mappings, position + 1)->0,
                    mappings[i],
                ) && forall|j: int|
                    position + 1 <= j < i ==> #[trigger] is_encoded_column_of(batch, mappings, j);
            assert(!is_encoded_column_of(batch, mappings, i));
        }
    }
}

/// The cell of a mapping at a row of a batch: what its array holds there, converted.
pub open spec fn converted(
    batch: RecordBatch,
    policy: NanosecondPolicy,
    mapping: SchemaMappingView,
    row: usize,
) -> core::result::Result<MssqlCellView, ErrorView> {
    match extract_outcome(batch.arrays()[mapping.arrow.index as int], mapping, row) {
        Ok(cell) => mssql_cell_outcome(mapping, policy, row, cell),
        Err(error) => Err(error),
    }
}

/// A row is converted cell by cell, one per mapping and in their order, exactly when it is a row
/// of the batch and each cell converts; otherwise the error is that of the first that does not.
pub proof fn law_rows_are_converted_in_order(
    batch: RecordBatch,
    policy: NanosecondPolicy,
    mappings: Seq<SchemaMapping>,
    row: usize,
)
    requires
        forall|i: int|
            0 <= i < mappings.len() ==> (#[trigger] mappings[i]@).arrow.index
                < batch.arrays().len(),
    ensures
        row >= batch.rows() ==> (batch_row(batch, policy, mappings, row) matches Err(error)
            && error matches ErrorView::ValueConversion(diagnostics) && diagnostics.len() == 1
            && diagnostics[0].code == DiagnosticCode::RowIndexOutOfBounds && diagnostics[0].row
            == Some(row)),
        row < batch.rows() ==> match batch_row(batch, policy, mappings, row) {
            Ok(cells) => cells.len() == mappings.len() && forall|i: int|
                0 <= i < mappings.len() ==> converted(
                    batch,
                    policy,
                    (#[trigger] mappings[i])@,
                    row,
                ) == Ok::<_, ErrorView>(cells[i]),
            Err(error) => exists|i: int|
                0 <= i < mappings.len() && converted(
                    batch,
                    policy,
                    (#[trigger] mappings[i])@,
                    row,
                ) == Err::<MssqlCellView, _>(error) && forall|j: int|
                    0 <= j < i ==> converted(batch, policy, (#[trigger] mappings[j])@, row) is Ok,
        },
{
    if row < batch.rows() {
        lemma_row_prefix(batch, policy, mappings, row, mappings.len());
    }
}

/// The first cells of a row.
proof fn lemma_row_prefix(
    batch: RecordBatch,
    policy: NanosecondPolicy,
    mappings: Seq<SchemaMapping>,
    row: usize,
    count: nat,
)
    requires
        row < batch.rows(),
        count <= mappings.len(),
        forall|i: int|
            0 <= i < mappings.len() ==> (#[trigger] mappings[i]@).arrow.index
                < batch.arrays().len(),
    ensures
        match batch_row_prefix(batch, policy, mappings, row, count) {
            Ok(cells) => cells.len() == count && forall|i: int|
                0 <= i < count ==> converted(batch, policy, (#[trigger] mappings[i])@, row)
                    == Ok::<_, ErrorView>(cells[i]),
            Err(error) => exists|i: int|
                0 <= i < count && converted(batch, policy, (#[trigger] mappings[i])@, row)
                    == Err::<MssqlCellView, _>(error) && forall|j: int|
                    0 <= j < i ==> converted(batch, policy, (#[trigger] mappings[j])@, row) is Ok,
        },
    decreases count,
{
    if count > 0 {
        let last = count - 1;
        lemma_row_prefix(batch, policy, mappings, row, last as nat);
        let mapping = mappings[last]@;
        assert(batch_mssql_cell(batch, policy, mapping, row) == converted(
            batch,
            policy,
            mapping,
            row,
        ));
        match batch_row_prefix(batch, policy, mappings, row, last as nat) {
            Ok(cells) => {
                if batch_row_prefix(batch, policy, mappings, row, count) is Err {
                    assert(converted(batch, policy, mappings[last]@, row) is Err);
                }
            },
            Err(error) => {
                let i = choose|i: int|
                    0 <= i < last && converted(batch, policy, (#[trigger] mappings[i])@, row)
                        == Err::<MssqlCellView, _>(error) && forall|j: int|
                        0 <= j < i ==> converted(
                            batch,
                            policy,
                            (#[trigger] mappings[j])@,
                            row,
                        ) is Ok;
                assert(converted(batch, policy, mappings[i]@, row) == Err::<MssqlCellView, _>(
                    error,
                ));
            },
        }
    }
}

} // verus!
