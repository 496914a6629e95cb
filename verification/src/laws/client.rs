//! Laws of cells for the client.

use vstd::prelude::*;

use crate::batch::RecordBatch;
use crate::cell::{MssqlCellOf, MssqlCellView};
use crate::context::NanosecondPolicy;
use crate::convert::{batch_arrow_cell, batch_row, batch_row_prefix, mssql_cell_outcome};
use crate::mapping::SchemaMapping;
use crate::token_row::{
    column_content, is_sendable, is_tiberius_cell, is_tiberius_row, ColumnContent, TiberiusCell,
};

verus! {

/// The SQL Server cell that client data holds.
pub open spec fn held_cell(found: TiberiusCell<'_>) -> MssqlCellView {
    match found {
        TiberiusCell::Real(bits) => MssqlCellOf::Real(bits),
        TiberiusCell::Float(bits) => MssqlCellOf::Float(bits),
        TiberiusCell::Data(data) => match column_content(data) {
            ColumnContent::Bit(value) => MssqlCellOf::Bit(value),
            ColumnContent::U8(value) => MssqlCellOf::TinyInt(value),
            ColumnContent::I16(value) => MssqlCellOf::SmallInt(value),
            ColumnContent::I32(value) => MssqlCellOf::Int(value),
            ColumnContent::I64(value) => MssqlCellOf::BigInt(value),
            ColumnContent::Numeric(value) => MssqlCellOf::Decimal(value),
            ColumnContent::Date(value) => MssqlCellOf::Date(value),
            ColumnContent::DateTime2(value) => MssqlCellOf::DateTime2(value),
            ColumnContent::DateTimeOffset(value) => MssqlCellOf::DateTimeOffset(value),
            ColumnContent::String(Some(held)) => MssqlCellOf::NVarChar(Some(held.text)),
            ColumnContent::String(None) => MssqlCellOf::NVarChar(None),
            ColumnContent::Binary(Some(held)) => MssqlCellOf::VarBinary(Some(held.bytes)),
            ColumnContent::Binary(None) => MssqlCellOf::VarBinary(None),
        },
    }
}

/// Whether client data owns what it holds, `None` where it holds no text and no bytes.
pub open spec fn ownership(found: TiberiusCell<'_>) -> Option<bool> {
    match found {
        TiberiusCell::Data(data) => match column_content(data) {
            ColumnContent::String(Some(held)) => Some(held.owned),
            ColumnContent::Binary(Some(held)) => Some(held.owned),
            _ => None,
        },
        _ => None,
    }
}

/// The client data of a cell holds that cell, and its text or bytes as asked.
pub proof fn law_client_cells_hold_the_cell(
    found: TiberiusCell<'_>,
    cell: MssqlCellView,
    owned: bool,
)
    requires
        is_tiberius_cell(found, cell, owned),
    ensures
        held_cell(found) == cell,
        ownership(found) matches Some(kept) ==> kept == owned,
{
}

/// The client holds every cell but a decimal of more than 37 digits after the point and a date
/// beyond three bytes of days.
pub proof fn law_the_client_holds_cells(cell: MssqlCellView)
    ensures
        is_sendable(cell) <==> match cell {
            MssqlCellOf::Decimal(Some(decimal)) => decimal.scale <= 37,
            MssqlCellOf::Date(Some(date)) => (date.days as int) < 0x100_0000,
            MssqlCellOf::DateTime2(Some(value)) => (value.date.days as int) < 0x100_0000,
            MssqlCellOf::DateTimeOffset(Some(value)) => (value.datetime2.date.days as int)
                < 0x100_0000,
            _ => true,
        },
{
}

/// The client data of a row holds the converted cell of each mapping, in order.
pub proof fn law_client_rows_hold_the_row(
    batch: RecordBatch,
    policy: NanosecondPolicy,
    mappings: Seq<SchemaMapping>,
    row: usize,
    found: Seq<TiberiusCell<'_>>,
    cells: Seq<MssqlCellView>,
    index: int,
)
    requires
        batch_row(batch, policy, mappings, row) == Ok::<_, crate::diagnostic::ErrorView>(cells),
        is_tiberius_row(found, cells),
        0 <= index < mappings.len(),
    ensures
        found.len() == mappings.len(),
        ({
            let mapping = mappings[index]@;
            &&& batch_arrow_cell(batch, mapping, row) is Ok
            &&& mssql_cell_outcome(
                mapping,
                policy,
                row,
                batch_arrow_cell(batch, mapping, row)->Ok_0,
            ) == Ok::<_, crate::diagnostic::ErrorView>(held_cell(found[index]))
        }),
        ownership(found[index]) matches Some(kept) ==> kept,
{
    lemma_prefix(batch, policy, mappings, row, mappings.len(), index);
    law_client_cells_hold_the_cell(found[index], cells[index], true);
}

/// The cells of the first mappings of a row.
proof fn lemma_prefix(
    batch: RecordBatch,
    policy: NanosecondPolicy,
    mappings: Seq<SchemaMapping>,
    row: usize,
    count: nat,
    index: int,
)
    requires
        batch_row_prefix(batch, policy, mappings, row, count) is Ok,
        count <= mappings.len(),
    ensures
        ({
            let cells = batch_row_prefix(batch, policy, mappings, row, count)->Ok_0;
            &&& cells.len() == count
            &&& 0 <= index < count ==> {
                let mapping = mappings[index]@;
                &&& batch_arrow_cell(batch, mapping, row) is Ok
                &&& mssql_cell_outcome(
                    mapping,
                    policy,
                    row,
                    batch_arrow_cell(batch, mapping, row)->Ok_0,
                ) == Ok::<_, crate::diagnostic::ErrorView>(cells[index])
            }
        }),
    decreases count,
{
    if count > 0 {
        lemma_prefix(batch, policy, mappings, row, (count - 1) as nat, index);
    }
}

} // verus!
