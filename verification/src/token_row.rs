//! Conversion of SQL Server cells to the column data of the `tiberius` client.

use std::borrow::Cow;

use tiberius::ColumnData;
use vstd::prelude::*;

use crate::batch::RecordBatch;
use crate::cell::{
    optional_bytes, optional_text, ArrowCellView, MssqlCell, MssqlCellOf, MssqlCellView, MssqlDate,
    MssqlDateTime2, MssqlDateTimeOffset, MssqlDecimal, MssqlTime,
};
use crate::context::NanosecondPolicy;
use crate::convert::{
    batch_arrow_cell, batch_row, batch_row_prefix, cell_views, mssql_cell_outcome, RecordBatchView,
};
use crate::diagnostic::{ErrorView, Result};
use crate::mapping::{SchemaMapping, SchemaMappingView};

verus! {

/// Scales that a `tiberius` numeric cannot have start here.
pub const NUMERIC_SCALE_LIMIT: u8 = 38;

/// Days that a `tiberius` date cannot hold start here.
pub const DATE_DAYS_LIMIT: u32 = 0x100_0000;

/// `tiberius` column data.
#[verifier::external_type_specification]
#[verifier::external_body]
pub struct ExColumnData<'a>(ColumnData<'a>);

/// `tiberius` decimal.
#[verifier::external_type_specification]
#[verifier::external_body]
pub struct ExNumeric(tiberius::numeric::Numeric);

/// `tiberius` date.
#[verifier::external_type_specification]
#[verifier::external_body]
pub struct ExDate(tiberius::time::Date);

/// `tiberius` time of day.
#[verifier::external_type_specification]
#[verifier::external_body]
pub struct ExTime(tiberius::time::Time);

/// `tiberius` date and time.
#[verifier::external_type_specification]
#[verifier::external_body]
pub struct ExDateTime2(tiberius::time::DateTime2);

/// `tiberius` date and time with an offset.
#[verifier::external_type_specification]
#[verifier::external_body]
pub struct ExDateTimeOffset(tiberius::time::DateTimeOffset);

/// What `tiberius::numeric::Numeric::value` returns: the unscaled value.
pub uninterp spec fn numeric_value(numeric: tiberius::numeric::Numeric) -> i128;

/// What `tiberius::numeric::Numeric::scale` returns: the scale.
pub uninterp spec fn numeric_scale(numeric: tiberius::numeric::Numeric) -> u8;

/// What `tiberius::time::Date::days` returns: the days since 0001-01-01.
pub uninterp spec fn date_days(date: tiberius::time::Date) -> u32;

/// What `tiberius::time::Time::increments` returns: the increments since midnight.
pub uninterp spec fn time_increments(time: tiberius::time::Time) -> u64;

/// What `tiberius::time::Time::scale` returns: the number of fractional-second digits.
pub uninterp spec fn time_scale(time: tiberius::time::Time) -> u8;

/// What `tiberius::time::DateTime2::date` returns: the date component.
pub uninterp spec fn datetime2_date(datetime2: tiberius::time::DateTime2) -> tiberius::time::Date;

/// What `tiberius::time::DateTime2::time` returns: the time component.
pub uninterp spec fn datetime2_time(datetime2: tiberius::time::DateTime2) -> tiberius::time::Time;

/// What `tiberius::time::DateTimeOffset::datetime2` returns: the date and time component.
pub uninterp spec fn offset_datetime2(
    datetimeoffset: tiberius::time::DateTimeOffset,
) -> tiberius::time::DateTime2;

/// What `tiberius::time::DateTimeOffset::offset` returns: the offset in minutes.
pub uninterp spec fn offset_minutes(datetimeoffset: tiberius::time::DateTimeOffset) -> i16;

/// `tiberius::numeric::Numeric::new_with_scale` keeps the value and the scale that it is given.
/// It panics on a scale above 37, which is left out.
pub assume_specification[ tiberius::numeric::Numeric::new_with_scale ](
    value: i128,
    scale: u8,
) -> (numeric: tiberius::numeric::Numeric)
    requires
        scale < NUMERIC_SCALE_LIMIT,
    ensures
        numeric_value(numeric) == value,
        numeric_scale(numeric) == scale,
;

/// `tiberius::time::Date::new` keeps the days that it is given. It panics on days that three bytes
/// cannot hold, which are left out.
pub assume_specification[ tiberius::time::Date::new ](days: u32) -> (date: tiberius::time::Date)
    requires
        days < DATE_DAYS_LIMIT,
    ensures
        date_days(date) == days,
;

/// `tiberius::time::Time::new` keeps the increments and the scale that it is given.
pub assume_specification[ tiberius::time::Time::new ](increments: u64, scale: u8) -> (time:
    tiberius::time::Time)
    ensures
        time_increments(time) == increments,
        time_scale(time) == scale,
;

/// `tiberius::time::DateTime2::new` keeps the date and the time of day that it is given.
pub assume_specification[ tiberius::time::DateTime2::new ](
    date: tiberius::time::Date,
    time: tiberius::time::Time,
) -> (datetime2: tiberius::time::DateTime2)
    ensures
        datetime2_date(datetime2) == date,
        datetime2_time(datetime2) == time,
;

/// `tiberius::time::DateTimeOffset::new` keeps the date and time and the offset that it is given.
pub assume_specification[ tiberius::time::DateTimeOffset::new ](
    datetime2: tiberius::time::DateTime2,
    offset: i16,
) -> (datetimeoffset: tiberius::time::DateTimeOffset)
    ensures
        offset_datetime2(datetimeoffset) == datetime2,
        offset_minutes(datetimeoffset) == offset,
;

/// A string that column data holds.
#[verifier::ext_equal]
pub struct HeldText {
    /// Characters.
    pub text: Seq<char>,
    /// Whether the data owns them.
    pub owned: bool,
}

/// A byte string that column data holds.
#[verifier::ext_equal]
pub struct HeldBytes {
    /// Bytes.
    pub bytes: Seq<u8>,
    /// Whether the data owns them.
    pub owned: bool,
}

/// What `tiberius` column data of one of the variants of this library holds.
#[verifier::ext_equal]
pub enum ColumnContent {
    /// `ColumnData::Bit`.
    Bit(Option<bool>),
    /// `ColumnData::U8`.
    U8(Option<u8>),
    /// `ColumnData::I16`.
    I16(Option<i16>),
    /// `ColumnData::I32`.
    I32(Option<i32>),
    /// `ColumnData::I64`.
    I64(Option<i64>),
    /// `ColumnData::Numeric`.
    Numeric(Option<MssqlDecimal>),
    /// `ColumnData::Date`.
    Date(Option<MssqlDate>),
    /// `ColumnData::DateTime2`.
    DateTime2(Option<MssqlDateTime2>),
    /// `ColumnData::DateTimeOffset`.
    DateTimeOffset(Option<MssqlDateTimeOffset>),
    /// `ColumnData::String`.
    String(Option<HeldText>),
    /// `ColumnData::Binary`.
    Binary(Option<HeldBytes>),
}

/// The variant of `tiberius` column data, with what it holds.
pub uninterp spec fn column_content(data: ColumnData<'static>) -> ColumnContent;

/// The SQL Server decimal that a `tiberius` decimal is.
pub open spec fn held_numeric(numeric: tiberius::numeric::Numeric) -> MssqlDecimal {
    MssqlDecimal { unscaled: numeric_value(numeric), scale: numeric_scale(numeric) }
}

/// The SQL Server date that a `tiberius` date is.
pub open spec fn held_date(date: tiberius::time::Date) -> MssqlDate {
    MssqlDate { days: date_days(date) }
}

/// The SQL Server time of day that a `tiberius` one is.
pub open spec fn held_time(time: tiberius::time::Time) -> MssqlTime {
    MssqlTime { increments: time_increments(time), scale: time_scale(time) }
}

/// The SQL Server date and time that a `tiberius` one is.
pub open spec fn held_datetime2(datetime2: tiberius::time::DateTime2) -> MssqlDateTime2 {
    MssqlDateTime2 {
        date: held_date(datetime2_date(datetime2)),
        time: held_time(datetime2_time(datetime2)),
    }
}

/// The SQL Server date and time with an offset that a `tiberius` one is.
pub open spec fn held_datetimeoffset(
    datetimeoffset: tiberius::time::DateTimeOffset,
) -> MssqlDateTimeOffset {
    MssqlDateTimeOffset {
        datetime2: held_datetime2(offset_datetime2(datetimeoffset)),
        offset_minutes: offset_minutes(datetimeoffset),
    }
}

/// The optional SQL Server decimal that an optional `tiberius` decimal is.
pub open spec fn held_optional_numeric(value: Option<tiberius::numeric::Numeric>) -> Option<
    MssqlDecimal,
> {
    match value {
        Some(numeric) => Some(held_numeric(numeric)),
        None => None,
    }
}

/// The optional SQL Server date that an optional `tiberius` date is.
pub open spec fn held_optional_date(value: Option<tiberius::time::Date>) -> Option<MssqlDate> {
    match value {
        Some(date) => Some(held_date(date)),
        None => None,
    }
}

/// The optional SQL Server date and time that an optional `tiberius` one is.
pub open spec fn held_optional_datetime2(value: Option<tiberius::time::DateTime2>) -> Option<
    MssqlDateTime2,
> {
    match value {
        Some(datetime2) => Some(held_datetime2(datetime2)),
        None => None,
    }
}

/// The optional SQL Server date and time with an offset that an optional `tiberius` one is.
pub open spec fn held_optional_datetimeoffset(
    value: Option<tiberius::time::DateTimeOffset>,
) -> Option<MssqlDateTimeOffset> {
    match value {
        Some(datetimeoffset) => Some(held_datetimeoffset(datetimeoffset)),
        None => None,
    }
}

/// An optional string that column data holds.
pub open spec fn held_text(text: Option<Seq<char>>, owned: bool) -> Option<HeldText> {
    match text {
        Some(text) => Some(HeldText { text, owned }),
        None => None,
    }
}

/// An optional byte string that column data holds.
pub open spec fn held_bytes(bytes: Option<Seq<u8>>, owned: bool) -> Option<HeldBytes> {
    match bytes {
        Some(bytes) => Some(HeldBytes { bytes, owned }),
        None => None,
    }
}

/// Calls the constructor `tiberius::ColumnData::Bit`. The contract says that the data is of that
/// variant and holds the argument.
#[verifier::external_body]
fn bit_data<'a>(value: Option<bool>) -> (data: ColumnData<'a>)
    ensures
        column_content(data) == ColumnContent::Bit(value),
{
    ColumnData::Bit(value)
}

/// Calls the constructor `tiberius::ColumnData::U8`. The contract says that the data is of that
/// variant and holds the argument.
#[verifier::external_body]
fn tinyint_data<'a>(value: Option<u8>) -> (data: ColumnData<'a>)
    ensures
        column_content(data) == ColumnContent::U8(value),
{
    ColumnData::U8(value)
}

/// Calls the constructor `tiberius::ColumnData::I16`. The contract says that the data is of that
/// variant and holds the argument.
#[verifier::external_body]
fn smallint_data<'a>(value: Option<i16>) -> (data: ColumnData<'a>)
    ensures
        column_content(data) == ColumnContent::I16(value),
{
    ColumnData::I16(value)
}

/// Calls the constructor `tiberius::ColumnData::I32`. The contract says that the data is of that
/// variant and holds the argument.
#[verifier::external_body]
fn int_data<'a>(value: Option<i32>) -> (data: ColumnData<'a>)
    ensures
        column_content(data) == ColumnContent::I32(value),
{
    ColumnData::I32(value)
}

/// Calls the constructor `tiberius::ColumnData::I64`. The contract says that the data is of that
/// variant and holds the argument.
#[verifier::external_body]
fn bigint_data<'a>(value: Option<i64>) -> (data: ColumnData<'a>)
    ensures
        column_content(data) == ColumnContent::I64(value),
{
    ColumnData::I64(value)
}

/// Calls the constructor `tiberius::ColumnData::Numeric`. The contract says that the data is of
/// that variant and holds the argument.
#[verifier::external_body]
fn numeric_data<'a>(value: Option<tiberius::numeric::Numeric>) -> (data: ColumnData<'a>)
    ensures
        column_content(data) == ColumnContent::Numeric(held_optional_numeric(value)),
{
    ColumnData::Numeric(value)
}

/// Calls the constructor `tiberius::ColumnData::Date`. The contract says that the data is of that
/// variant and holds the argument.
#[verifier::external_body]
fn date_data<'a>(value: Option<tiberius::time::Date>) -> (data: ColumnData<'a>)
    ensures
        column_content(data) == ColumnContent::Date(held_optional_date(value)),
{
    ColumnData::Date(value)
}

/// Calls the constructor `tiberius::ColumnData::DateTime2`. The contract says that the data is of
/// that variant and holds the argument.
#[verifier::external_body]
fn datetime2_data<'a>(value: Option<tiberius::time::DateTime2>) -> (data: ColumnData<'a>)
    ensures
        column_content(data) == ColumnContent::DateTime2(held_optional_datetime2(value)),
{
    ColumnData::DateTime2(value)
}

/// Calls the constructor `tiberius::ColumnData::DateTimeOffset`. The contract says that the data is
/// of that variant and holds the argument.
#[verifier::external_body]
fn datetimeoffset_data<'a>(value: Option<tiberius::time::DateTimeOffset>) -> (data: ColumnData<'a>)
    ensures
        column_content(data) == ColumnContent::DateTimeOffset(held_optional_datetimeoffset(value)),
{
    ColumnData::DateTimeOffset(value)
}

/// Calls the constructor `tiberius::ColumnData::String` on the string as it stands. The contract
/// says that the data is of that variant and borrows the string.
#[verifier::external_body]
fn borrowed_text_data<'a>(value: Option<&'a str>) -> (data: ColumnData<'a>)
    ensures
        column_content(data) == ColumnContent::String(held_text(optional_text(value), false)),
{
    ColumnData::String(value.map(Cow::Borrowed))
}

/// Calls the constructor `tiberius::ColumnData::String` on a copy of the string. The contract says
/// that the data is of that variant and owns the characters of the string.
#[verifier::external_body]
fn owned_text_data(value: Option<&str>) -> (data: ColumnData<'static>)
    ensures
        column_content(data) == ColumnContent::String(held_text(optional_text(value), true)),
{
    ColumnData::String(value.map(|value| Cow::Owned(value.to_owned())))
}

/// Calls the constructor `tiberius::ColumnData::Binary` on the bytes as they stand. The contract
/// says that the data is of that variant and borrows the bytes.
#[verifier::external_body]
fn borrowed_bytes_data<'a>(value: Option<&'a [u8]>) -> (data: ColumnData<'a>)
    ensures
        column_content(data) == ColumnContent::Binary(held_bytes(optional_bytes(value), false)),
{
    ColumnData::Binary(value.map(Cow::Borrowed))
}

/// Calls the constructor `tiberius::ColumnData::Binary` on a copy of the bytes. The contract says
/// that the data is of that variant and owns the bytes.
#[verifier::external_body]
fn owned_bytes_data(value: Option<&[u8]>) -> (data: ColumnData<'static>)
    ensures
        column_content(data) == ColumnContent::Binary(held_bytes(optional_bytes(value), true)),
{
    ColumnData::Binary(value.map(|value| Cow::Owned(value.to_vec())))
}

/// Column data of one cell.
///
/// The bit patterns of floating point values stand for the column data of those values.
#[derive(Debug)]
pub enum TiberiusCell<'a> {
    /// Column data of any other type.
    Data(ColumnData<'a>),
    /// Bit pattern of a `real`.
    Real(Option<u32>),
    /// Bit pattern of a `float`.
    Float(Option<u64>),
}

/// What the column data of a cell holds, `None` for the floating point types.
pub open spec fn cell_content(cell: MssqlCellView, owned: bool) -> Option<ColumnContent> {
    match cell {
        MssqlCellOf::Bit(value) => Some(ColumnContent::Bit(value)),
        MssqlCellOf::TinyInt(value) => Some(ColumnContent::U8(value)),
        MssqlCellOf::SmallInt(value) => Some(ColumnContent::I16(value)),
        MssqlCellOf::Int(value) => Some(ColumnContent::I32(value)),
        MssqlCellOf::BigInt(value) => Some(ColumnContent::I64(value)),
        MssqlCellOf::Decimal(value) => Some(ColumnContent::Numeric(value)),
        MssqlCellOf::Date(value) => Some(ColumnContent::Date(value)),
        MssqlCellOf::DateTime2(value) => Some(ColumnContent::DateTime2(value)),
        MssqlCellOf::DateTimeOffset(value) => Some(ColumnContent::DateTimeOffset(value)),
        MssqlCellOf::NVarChar(text) => Some(ColumnContent::String(held_text(text, owned))),
        MssqlCellOf::VarBinary(bytes) => Some(ColumnContent::Binary(held_bytes(bytes, owned))),
        MssqlCellOf::Real(_) | MssqlCellOf::Float(_) => None,
    }
}

/// Whether a client cell is that of a SQL Server cell.
pub open spec fn is_tiberius_cell(
    found: TiberiusCell<'_>,
    cell: MssqlCellView,
    owned: bool,
) -> bool {
    match found {
        TiberiusCell::Data(data) => cell_content(cell, owned) == Some(column_content(data)),
        TiberiusCell::Real(bits) => cell == MssqlCellView::Real(bits),
        TiberiusCell::Float(bits) => cell == MssqlCellView::Float(bits),
    }
}

/// Whether the client can hold a SQL Server cell.
pub open spec fn is_sendable(cell: MssqlCellView) -> bool {
    match cell {
        MssqlCellOf::Decimal(Some(decimal)) => decimal.scale < NUMERIC_SCALE_LIMIT,
        MssqlCellOf::Date(Some(date)) => date.days < DATE_DAYS_LIMIT,
        MssqlCellOf::DateTime2(Some(datetime2)) => datetime2.date.days < DATE_DAYS_LIMIT,
        MssqlCellOf::DateTimeOffset(Some(datetimeoffset)) => datetimeoffset.datetime2.date.days
            < DATE_DAYS_LIMIT,
        _ => true,
    }
}

impl MssqlDecimal {
    /// Converts to a `tiberius` decimal.
    pub fn to_tiberius_numeric(self) -> (numeric: tiberius::numeric::Numeric)
        requires
            self.scale < NUMERIC_SCALE_LIMIT,
        ensures
            held_numeric(numeric) == self,
    {
        tiberius::numeric::Numeric::new_with_scale(self.unscaled(), self.scale())
    }
}

impl MssqlDate {
    /// Converts to a `tiberius` date.
    pub fn to_tiberius_date(self) -> (date: tiberius::time::Date)
        requires
            self.days < DATE_DAYS_LIMIT,
        ensures
            held_date(date) == self,
    {
        tiberius::time::Date::new(self.days())
    }
}

impl MssqlTime {
    /// Converts to a `tiberius` time of day.
    pub fn to_tiberius_time(self) -> (time: tiberius::time::Time)
        ensures
            held_time(time) == self,
    {
        tiberius::time::Time::new(self.increments(), self.scale())
    }
}

impl MssqlDateTime2 {
    /// Converts to a `tiberius` date and time.
    pub fn to_tiberius_datetime2(self) -> (datetime2: tiberius::time::DateTime2)
        requires
            self.date.days < DATE_DAYS_LIMIT,
        ensures
            held_datetime2(datetime2) == self,
    {
        tiberius::time::DateTime2::new(
            self.date().to_tiberius_date(),
            self.time().to_tiberius_time(),
        )
    }
}

impl MssqlDateTimeOffset {
    /// Converts to a `tiberius` date and time with an offset.
    pub fn to_tiberius_datetimeoffset(self) -> (datetimeoffset: tiberius::time::DateTimeOffset)
        requires
            self.datetime2.date.days < DATE_DAYS_LIMIT,
        ensures
            held_datetimeoffset(datetimeoffset) == self,
    {
        tiberius::time::DateTimeOffset::new(
            self.datetime2().to_tiberius_datetime2(),
            self.offset_minutes(),
        )
    }
}

/// Converts a cell that is neither a string nor a byte string.
fn scalar_cell<'a>(cell: MssqlCell<'_>, Ghost(owned): Ghost<bool>) -> (found: TiberiusCell<'a>)
    requires
        is_sendable(cell@),
        !(cell is NVarChar) && !(cell is VarBinary),
    ensures
        is_tiberius_cell(found, cell@, owned),
{
    match cell {
        MssqlCellOf::Bit(value) => TiberiusCell::Data(bit_data(value)),
        MssqlCellOf::TinyInt(value) => TiberiusCell::Data(tinyint_data(value)),
        MssqlCellOf::SmallInt(value) => TiberiusCell::Data(smallint_data(value)),
        MssqlCellOf::Int(value) => TiberiusCell::Data(int_data(value)),
        MssqlCellOf::BigInt(value) => TiberiusCell::Data(bigint_data(value)),
        MssqlCellOf::Decimal(value) => TiberiusCell::Data(
            numeric_data(
                match value {
                    Some(decimal) => Some(decimal.to_tiberius_numeric()),
                    None => None,
                },
            ),
        ),
        MssqlCellOf::Date(value) => TiberiusCell::Data(
            date_data(
                match value {
                    Some(date) => Some(date.to_tiberius_date()),
                    None => None,
                },
            ),
        ),
        MssqlCellOf::DateTime2(value) => TiberiusCell::Data(
            datetime2_data(
                match value {
                    Some(datetime2) => Some(datetime2.to_tiberius_datetime2()),
                    None => None,
                },
            ),
        ),
        MssqlCellOf::DateTimeOffset(value) => TiberiusCell::Data(
            datetimeoffset_data(
                match value {
                    Some(datetimeoffset) => Some(datetimeoffset.to_tiberius_datetimeoffset()),
                    None => None,
                },
            ),
        ),
        MssqlCellOf::Float(bits) => TiberiusCell::Float(bits),
        MssqlCellOf::Real(bits) => TiberiusCell::Real(bits),
        MssqlCellOf::NVarChar(_) | MssqlCellOf::VarBinary(_) => TiberiusCell::Real(None),
    }
}

/// Converts a semantic SQL Server cell into borrowed Tiberius column data.
pub fn mssql_cell_to_tiberius_borrowed<'a>(cell: MssqlCell<'a>) -> (found: TiberiusCell<'a>)
    requires
        is_sendable(cell@),
    ensures
        is_tiberius_cell(found, cell@, false),
{
    match cell {
        MssqlCellOf::NVarChar(value) => TiberiusCell::Data(borrowed_text_data(value)),
        MssqlCellOf::VarBinary(value) => TiberiusCell::Data(borrowed_bytes_data(value)),
        _ => scalar_cell(cell, Ghost(false)),
    }
}

/// Converts a semantic SQL Server cell into owned Tiberius column data.
pub fn mssql_cell_to_tiberius_owned(cell: MssqlCell<'_>) -> (found: TiberiusCell<'static>)
    requires
        is_sendable(cell@),
    ensures
        is_tiberius_cell(found, cell@, true),
{
    match cell {
        MssqlCellOf::NVarChar(value) => TiberiusCell::Data(owned_text_data(value)),
        MssqlCellOf::VarBinary(value) => TiberiusCell::Data(owned_bytes_data(value)),
        _ => scalar_cell(cell, Ghost(true)),
    }
}

/// The client can hold every cell that a value is converted to.
pub proof fn law_converted_cells_are_sendable(
    mapping: SchemaMappingView,
    policy: NanosecondPolicy,
    row_index: usize,
    cell: ArrowCellView,
)
    ensures
        mssql_cell_outcome(mapping, policy, row_index, cell) matches Ok(found) ==> is_sendable(
            found,
        ),
{
}

/// Whether the client can hold every cell of a row.
pub open spec fn is_sendable_row(cells: Seq<MssqlCellView>) -> bool {
    forall|i: int| 0 <= i < cells.len() ==> is_sendable(#[trigger] cells[i])
}

/// The client can hold every cell of a converted row.
proof fn lemma_row_is_sendable(
    batch: RecordBatch,
    policy: NanosecondPolicy,
    mappings: Seq<SchemaMapping>,
    row_index: usize,
    count: nat,
)
    ensures
        batch_row_prefix(batch, policy, mappings, row_index, count) matches Ok(cells)
            ==> is_sendable_row(cells),
    decreases count,
{
    if count > 0 {
        lemma_row_is_sendable(batch, policy, mappings, row_index, (count - 1) as nat);
        match batch_arrow_cell(batch, mappings[count - 1]@, row_index) {
            Ok(cell) => {
                law_converted_cells_are_sendable(
                    mappings[count - 1]@,
                    policy,
                    row_index,
                    cell,
                );
            },
            Err(_) => {},
        }
    }
}

/// Whether client cells are those of a row of SQL Server cells.
pub open spec fn is_tiberius_row(found: Seq<TiberiusCell<'_>>, cells: Seq<MssqlCellView>) -> bool {
    &&& found.len() == cells.len()
    &&& forall|i: int|
        0 <= i < cells.len() ==> is_tiberius_cell(#[trigger] found[i], cells[i], true)
}

impl<'a> RecordBatchView<'a> {
    /// Converts one runtime row into owned Tiberius column data in mapping order.
    pub fn tiberius_row_owned(&self, row_index: usize) -> (result: Result<
        Vec<TiberiusCell<'static>>,
    >)
        ensures
            match batch_row(
                self.batch_spec(),
                self.options_spec().nanosecond_policy,
                self.mappings_spec(),
                row_index,
            ) {
                Ok(cells) => result matches Ok(row) && is_tiberius_row(row@, cells),
                Err(view) => result matches Err(error) && error@ == view,
            },
    {
        let cells = match self.mssql_row(row_index) {
            Ok(cells) => cells,
            Err(error) => {
                return Err(error);
            },
        };
        let ghost views = cell_views(cells@);
        proof {
            lemma_row_is_sendable(
                self.batch_spec(),
                self.options_spec().nanosecond_policy,
                self.mappings_spec(),
                row_index,
                self.mappings_spec().len(),
            );
            assert(batch_row_prefix(
                self.batch_spec(),
                self.options_spec().nanosecond_policy,
                self.mappings_spec(),
                row_index,
                self.mappings_spec().len(),
            ) == Ok::<_, ErrorView>(views));
            assert(is_sendable_row(views));
        }
        let mut row: Vec<TiberiusCell<'static>> = Vec::with_capacity(cells.len());
        let mut index: usize = 0;
        while index < cells.len()
            invariant
                index <= cells@.len(),
                views == cell_views(cells@),
                row@.len() == index,
                is_sendable_row(views),
                forall|i: int|
                    0 <= i < index ==> is_tiberius_cell(#[trigger] row@[i], views[i], true),
            decreases cells@.len() - index,
        {
            let cell = cells[index];
            assert(views[index as int] == cell@);
            row.push(mssql_cell_to_tiberius_owned(cell));
            index += 1;
        }
        Ok(row)
    }
}

} // verus!
