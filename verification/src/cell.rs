//! Arrow cells and semantic SQL Server cells.

use vstd::prelude::*;

use crate::message::ArrowCellKind;
use crate::text::{
    append_bool, append_bytes, append_decimal, append_int, bool_text, bytes_text, decimal_text,
    int_text, quoted, quoted_text,
};

verus! {

/// Signed 256-bit integer in two parts: `high * 2^128 + low`.
#[derive(Debug, Clone, Copy, PartialEq, Eq, Hash, Structural)]
pub struct Int256 {
    /// Low 128 bits.
    pub low: u128,
    /// High 128 bits, with the sign.
    pub high: i128,
}

/// `2^128`.
pub open spec fn two_pow_128() -> int {
    0x1_0000_0000_0000_0000_0000_0000_0000_0000int
}

impl Int256 {
    /// The number that the parts stand for.
    pub open spec fn value(self) -> int {
        self.high * two_pow_128() + self.low
    }
}

/// Value of one Arrow array cell, over the representations `S` of strings and `B` of bytes.
///
/// Floating point values are held as their IEEE 754 bit patterns.
#[derive(Debug, Clone, Copy, PartialEq, Eq)]
pub enum ArrowCellOf<S, B> {
    /// Arrow null value.
    Null,
    /// Arrow boolean value.
    Boolean(bool),
    /// Arrow signed 8-bit integer value.
    Int8(i8),
    /// Arrow signed 16-bit integer value.
    Int16(i16),
    /// Arrow signed 32-bit integer value.
    Int32(i32),
    /// Arrow signed 64-bit integer value.
    Int64(i64),
    /// Arrow unsigned 8-bit integer value.
    UInt8(u8),
    /// Arrow unsigned 16-bit integer value.
    UInt16(u16),
    /// Arrow unsigned 32-bit integer value.
    UInt32(u32),
    /// Arrow unsigned 64-bit integer value.
    UInt64(u64),
    /// Arrow 32-bit decimal value.
    Decimal32(i32),
    /// Arrow 64-bit decimal value.
    Decimal64(i64),
    /// Arrow 128-bit decimal value.
    Decimal128(i128),
    /// Arrow 256-bit decimal value.
    Decimal256(Int256),
    /// Arrow Date32 day offset from Unix epoch.
    Date32(i32),
    /// Arrow Date64 millisecond timestamp from Unix epoch.
    Date64(i64),
    /// Arrow time of day in seconds.
    Time32Second(i32),
    /// Arrow time of day in milliseconds.
    Time32Millisecond(i32),
    /// Arrow time of day in microseconds.
    Time64Microsecond(i64),
    /// Arrow time of day in nanoseconds.
    Time64Nanosecond(i64),
    /// Arrow timestamp second offset from Unix epoch.
    TimestampSecond(i64),
    /// Arrow timestamp millisecond offset from Unix epoch.
    TimestampMillisecond(i64),
    /// Arrow timestamp microsecond offset from Unix epoch.
    TimestampMicrosecond(i64),
    /// Arrow timestamp nanosecond offset from Unix epoch.
    TimestampNanosecond(i64),
    /// Bit pattern of an Arrow 16-bit floating point value.
    Float16(u16),
    /// Bit pattern of an Arrow 32-bit floating point value.
    Float32(u32),
    /// Bit pattern of an Arrow 64-bit floating point value.
    Float64(u64),
    /// Arrow UTF-8 string value.
    Utf8(S),
    /// Arrow binary value.
    Binary(B),
    /// Value of a type that is not converted.
    Other,
}

/// Borrowed value of one Arrow array cell.
pub type ArrowCell<'a> = ArrowCellOf<&'a str, &'a [u8]>;

/// Value of one Arrow array cell as contracts speak of it.
pub type ArrowCellView = ArrowCellOf<Seq<char>, Seq<u8>>;

impl<'a> View for ArrowCellOf<&'a str, &'a [u8]> {
    type V = ArrowCellOf<Seq<char>, Seq<u8>>;

    open spec fn view(&self) -> ArrowCellOf<Seq<char>, Seq<u8>> {
        match *self {
            ArrowCellOf::Null => ArrowCellOf::Null,
            ArrowCellOf::Boolean(value) => ArrowCellOf::Boolean(value),
            ArrowCellOf::Int8(value) => ArrowCellOf::Int8(value),
            ArrowCellOf::Int16(value) => ArrowCellOf::Int16(value),
            ArrowCellOf::Int32(value) => ArrowCellOf::Int32(value),
            ArrowCellOf::Int64(value) => ArrowCellOf::Int64(value),
            ArrowCellOf::UInt8(value) => ArrowCellOf::UInt8(value),
            ArrowCellOf::UInt16(value) => ArrowCellOf::UInt16(value),
            ArrowCellOf::UInt32(value) => ArrowCellOf::UInt32(value),
            ArrowCellOf::UInt64(value) => ArrowCellOf::UInt64(value),
            ArrowCellOf::Decimal32(value) => ArrowCellOf::Decimal32(value),
            ArrowCellOf::Decimal64(value) => ArrowCellOf::Decimal64(value),
            ArrowCellOf::Decimal128(value) => ArrowCellOf::Decimal128(value),
            ArrowCellOf::Decimal256(value) => ArrowCellOf::Decimal256(value),
            ArrowCellOf::Date32(value) => ArrowCellOf::Date32(value),
            ArrowCellOf::Date64(value) => ArrowCellOf::Date64(value),
            ArrowCellOf::Time32Second(value) => ArrowCellOf::Time32Second(value),
            ArrowCellOf::Time32Millisecond(value) => ArrowCellOf::Time32Millisecond(value),
            ArrowCellOf::Time64Microsecond(value) => ArrowCellOf::Time64Microsecond(value),
            ArrowCellOf::Time64Nanosecond(value) => ArrowCellOf::Time64Nanosecond(value),
            ArrowCellOf::TimestampSecond(value) => ArrowCellOf::TimestampSecond(value),
            ArrowCellOf::TimestampMillisecond(value) => ArrowCellOf::TimestampMillisecond(value),
            ArrowCellOf::TimestampMicrosecond(value) => ArrowCellOf::TimestampMicrosecond(value),
            ArrowCellOf::TimestampNanosecond(value) => ArrowCellOf::TimestampNanosecond(value),
            ArrowCellOf::Float16(value) => ArrowCellOf::Float16(value),
            ArrowCellOf::Float32(value) => ArrowCellOf::Float32(value),
            ArrowCellOf::Float64(value) => ArrowCellOf::Float64(value),
            ArrowCellOf::Utf8(value) => ArrowCellOf::Utf8(value@),
            ArrowCellOf::Binary(value) => ArrowCellOf::Binary(value@),
            ArrowCellOf::Other => ArrowCellOf::Other,
        }
    }
}

/// The kind of a cell.
pub open spec fn cell_kind<S, B>(cell: ArrowCellOf<S, B>) -> ArrowCellKind {
    match cell {
        ArrowCellOf::Null => ArrowCellKind::Null,
        ArrowCellOf::Boolean(_) => ArrowCellKind::Boolean,
        ArrowCellOf::Int8(_) => ArrowCellKind::Int8,
        ArrowCellOf::Int16(_) => ArrowCellKind::Int16,
        ArrowCellOf::Int32(_) => ArrowCellKind::Int32,
        ArrowCellOf::Int64(_) => ArrowCellKind::Int64,
        ArrowCellOf::UInt8(_) => ArrowCellKind::UInt8,
        ArrowCellOf::UInt16(_) => ArrowCellKind::UInt16,
        ArrowCellOf::UInt32(_) => ArrowCellKind::UInt32,
        ArrowCellOf::UInt64(_) => ArrowCellKind::UInt64,
        ArrowCellOf::Decimal32(_) => ArrowCellKind::Decimal32,
        ArrowCellOf::Decimal64(_) => ArrowCellKind::Decimal64,
        ArrowCellOf::Decimal128(_) => ArrowCellKind::Decimal128,
        ArrowCellOf::Decimal256(_) => ArrowCellKind::Decimal256,
        ArrowCellOf::Date32(_) => ArrowCellKind::Date32,
        ArrowCellOf::Date64(_) => ArrowCellKind::Date64,
        ArrowCellOf::Time32Second(_) => ArrowCellKind::Time32Second,
        ArrowCellOf::Time32Millisecond(_) => ArrowCellKind::Time32Millisecond,
        ArrowCellOf::Time64Microsecond(_) => ArrowCellKind::Time64Microsecond,
        ArrowCellOf::Time64Nanosecond(_) => ArrowCellKind::Time64Nanosecond,
        ArrowCellOf::TimestampSecond(_) => ArrowCellKind::TimestampSecond,
        ArrowCellOf::TimestampMillisecond(_) => ArrowCellKind::TimestampMillisecond,
        ArrowCellOf::TimestampMicrosecond(_) => ArrowCellKind::TimestampMicrosecond,
        ArrowCellOf::TimestampNanosecond(_) => ArrowCellKind::TimestampNanosecond,
        ArrowCellOf::Float16(_) => ArrowCellKind::Float16,
        ArrowCellOf::Float32(_) => ArrowCellKind::Float32,
        ArrowCellOf::Float64(_) => ArrowCellKind::Float64,
        ArrowCellOf::Utf8(_) => ArrowCellKind::Utf8,
        ArrowCellOf::Binary(_) => ArrowCellKind::Binary,
        ArrowCellOf::Other => ArrowCellKind::Other,
    }
}

impl<'a> ArrowCellOf<&'a str, &'a [u8]> {
    /// Returns the kind of the cell.
    pub fn kind(&self) -> (kind: ArrowCellKind)
        ensures
            kind == cell_kind(self@),
    {
        match self {
            ArrowCellOf::Null => ArrowCellKind::Null,
            ArrowCellOf::Boolean(_) => ArrowCellKind::Boolean,
            ArrowCellOf::Int8(_) => ArrowCellKind::Int8,
            ArrowCellOf::Int16(_) => ArrowCellKind::Int16,
            ArrowCellOf::Int32(_) => ArrowCellKind::Int32,
            ArrowCellOf::Int64(_) => ArrowCellKind::Int64,
            ArrowCellOf::UInt8(_) => ArrowCellKind::UInt8,
            ArrowCellOf::UInt16(_) => ArrowCellKind::UInt16,
            ArrowCellOf::UInt32(_) => ArrowCellKind::UInt32,
            ArrowCellOf::UInt64(_) => ArrowCellKind::UInt64,
            ArrowCellOf::Decimal32(_) => ArrowCellKind::Decimal32,
            ArrowCellOf::Decimal64(_) => ArrowCellKind::Decimal64,
            ArrowCellOf::Decimal128(_) => ArrowCellKind::Decimal128,
            ArrowCellOf::Decimal256(_) => ArrowCellKind::Decimal256,
            ArrowCellOf::Date32(_) => ArrowCellKind::Date32,
            ArrowCellOf::Date64(_) => ArrowCellKind::Date64,
            ArrowCellOf::Time32Second(_) => ArrowCellKind::Time32Second,
            ArrowCellOf::Time32Millisecond(_) => ArrowCellKind::Time32Millisecond,
            ArrowCellOf::Time64Microsecond(_) => ArrowCellKind::Time64Microsecond,
            ArrowCellOf::Time64Nanosecond(_) => ArrowCellKind::Time64Nanosecond,
            ArrowCellOf::TimestampSecond(_) => ArrowCellKind::TimestampSecond,
            ArrowCellOf::TimestampMillisecond(_) => ArrowCellKind::TimestampMillisecond,
            ArrowCellOf::TimestampMicrosecond(_) => ArrowCellKind::TimestampMicrosecond,
            ArrowCellOf::TimestampNanosecond(_) => ArrowCellKind::TimestampNanosecond,
            ArrowCellOf::Float16(_) => ArrowCellKind::Float16,
            ArrowCellOf::Float32(_) => ArrowCellKind::Float32,
            ArrowCellOf::Float64(_) => ArrowCellKind::Float64,
            ArrowCellOf::Utf8(_) => ArrowCellKind::Utf8,
            ArrowCellOf::Binary(_) => ArrowCellKind::Binary,
            ArrowCellOf::Other => ArrowCellKind::Other,
        }
    }
}

/// The text of the value of a cell. A null has none, and floating point values are not written.
pub open spec fn cell_value_text(cell: ArrowCellView) -> Option<Seq<char>> {
    match cell {
        ArrowCellOf::Boolean(value) => Some(bool_text(value)),
        ArrowCellOf::Int8(value) => Some(int_text(value as int)),
        ArrowCellOf::Int16(value) => Some(int_text(value as int)),
        ArrowCellOf::Int32(value) => Some(int_text(value as int)),
        ArrowCellOf::Int64(value) => Some(int_text(value as int)),
        ArrowCellOf::Decimal32(value) => Some(int_text(value as int)),
        ArrowCellOf::Decimal64(value) => Some(int_text(value as int)),
        ArrowCellOf::Decimal128(value) => Some(int_text(value as int)),
        ArrowCellOf::Date32(value) => Some(int_text(value as int)),
        ArrowCellOf::Date64(value) => Some(int_text(value as int)),
        ArrowCellOf::Time32Second(value) => Some(int_text(value as int)),
        ArrowCellOf::Time32Millisecond(value) => Some(int_text(value as int)),
        ArrowCellOf::Time64Microsecond(value) => Some(int_text(value as int)),
        ArrowCellOf::Time64Nanosecond(value) => Some(int_text(value as int)),
        ArrowCellOf::TimestampSecond(value) => Some(int_text(value as int)),
        ArrowCellOf::TimestampMillisecond(value) => Some(int_text(value as int)),
        ArrowCellOf::TimestampMicrosecond(value) => Some(int_text(value as int)),
        ArrowCellOf::TimestampNanosecond(value) => Some(int_text(value as int)),
        ArrowCellOf::UInt8(value) => Some(decimal_text(value as nat)),
        ArrowCellOf::UInt16(value) => Some(decimal_text(value as nat)),
        ArrowCellOf::UInt32(value) => Some(decimal_text(value as nat)),
        ArrowCellOf::UInt64(value) => Some(decimal_text(value as nat)),
        ArrowCellOf::Decimal256(value) => Some(int_text(value.value())),
        ArrowCellOf::Utf8(value) => Some(quoted_text(value)),
        ArrowCellOf::Binary(value) => Some(bytes_text(value)),
        ArrowCellOf::Null
        | ArrowCellOf::Float16(_)
        | ArrowCellOf::Float32(_)
        | ArrowCellOf::Float64(_)
        | ArrowCellOf::Other => None,
    }
}

/// The text of a cell: its kind, and its value in round brackets where that is written.
pub open spec fn cell_text(cell: ArrowCellView) -> Seq<char> {
    match cell_value_text(cell) {
        Some(value) => cell_kind(cell).text() + "("@ + value + ")"@,
        None => cell_kind(cell).text(),
    }
}

/// The decimal numeral of a 256-bit integer.
///
/// Calls the `Display` formatting of `arrow_buffer::i256` on the integer of the two parts. The
/// contract says that it writes the shortest decimal numeral, with a leading `-` for a negative
/// number.
#[verifier::external_body]
fn int256_text(value: Int256) -> (text: String)
    ensures
        text@ == int_text(value.value()),
{
    format!("{}", arrow_buffer::i256::from_parts(value.low, value.high))
}

impl<'a> ArrowCellOf<&'a str, &'a [u8]> {
    /// Returns the text of the cell in a message.
    pub fn to_text(&self) -> (text: String)
        ensures
            text@ == cell_text(self@),
    {
        let mut text: String = String::from_str(self.kind().name());
        match self {
            ArrowCellOf::Null
            | ArrowCellOf::Float16(_)
            | ArrowCellOf::Float32(_)
            | ArrowCellOf::Float64(_)
            | ArrowCellOf::Other => {
                return text;
            },
            _ => {},
        }
        text.append("(");
        match self {
            ArrowCellOf::Boolean(value) => append_bool(&mut text, *value),
            ArrowCellOf::Int8(value) => append_int(&mut text, *value as i128),
            ArrowCellOf::Int16(value) => append_int(&mut text, *value as i128),
            ArrowCellOf::Int32(value) => append_int(&mut text, *value as i128),
            ArrowCellOf::Int64(value) => append_int(&mut text, *value as i128),
            ArrowCellOf::Decimal32(value) => append_int(&mut text, *value as i128),
            ArrowCellOf::Decimal64(value) => append_int(&mut text, *value as i128),
            ArrowCellOf::Decimal128(value) => append_int(&mut text, *value),
            ArrowCellOf::Date32(value) => append_int(&mut text, *value as i128),
            ArrowCellOf::Date64(value) => append_int(&mut text, *value as i128),
            ArrowCellOf::Time32Second(value) => append_int(&mut text, *value as i128),
            ArrowCellOf::Time32Millisecond(value) => append_int(&mut text, *value as i128),
            ArrowCellOf::Time64Microsecond(value) => append_int(&mut text, *value as i128),
            ArrowCellOf::Time64Nanosecond(value) => append_int(&mut text, *value as i128),
            ArrowCellOf::TimestampSecond(value) => append_int(&mut text, *value as i128),
            ArrowCellOf::TimestampMillisecond(value) => append_int(&mut text, *value as i128),
            ArrowCellOf::TimestampMicrosecond(value) => append_int(&mut text, *value as i128),
            ArrowCellOf::TimestampNanosecond(value) => append_int(&mut text, *value as i128),
            ArrowCellOf::UInt8(value) => append_decimal(&mut text, *value as u128),
            ArrowCellOf::UInt16(value) => append_decimal(&mut text, *value as u128),
            ArrowCellOf::UInt32(value) => append_decimal(&mut text, *value as u128),
            ArrowCellOf::UInt64(value) => append_decimal(&mut text, *value as u128),
            ArrowCellOf::Decimal256(value) => text.append(int256_text(*value).as_str()),
            ArrowCellOf::Utf8(value) => text.append(quoted(value).as_str()),
            ArrowCellOf::Binary(value) => append_bytes(&mut text, value),
            _ => {},
        }
        text.append(")");
        text
    }
}

/// Semantic SQL Server value of one planned cell, over the representations `S` of strings and
/// `B` of bytes.
///
/// Floating point values are held as their IEEE 754 bit patterns.
#[derive(Debug, Clone, Copy, PartialEq, Eq)]
pub enum MssqlCellOf<S, B> {
    /// SQL Server `bit` cell.
    Bit(Option<bool>),
    /// SQL Server `tinyint` cell.
    TinyInt(Option<u8>),
    /// SQL Server `smallint` cell.
    SmallInt(Option<i16>),
    /// SQL Server `int` cell.
    Int(Option<i32>),
    /// SQL Server `bigint` cell.
    BigInt(Option<i64>),
    /// SQL Server `decimal` cell.
    Decimal(Option<MssqlDecimal>),
    /// SQL Server `date` cell.
    Date(Option<MssqlDate>),
    /// SQL Server `datetime2` cell.
    DateTime2(Option<MssqlDateTime2>),
    /// SQL Server `datetimeoffset` cell.
    DateTimeOffset(Option<MssqlDateTimeOffset>),
    /// Bit pattern of a SQL Server `real` cell.
    Real(Option<u32>),
    /// Bit pattern of a SQL Server `float` cell.
    Float(Option<u64>),
    /// SQL Server `nvarchar` cell.
    NVarChar(Option<S>),
    /// SQL Server `varbinary` cell.
    VarBinary(Option<B>),
}

/// Borrowed semantic SQL Server value of one planned cell.
pub type MssqlCell<'a> = MssqlCellOf<&'a str, &'a [u8]>;

/// Semantic SQL Server value of one planned cell as contracts speak of it.
pub type MssqlCellView = MssqlCellOf<Seq<char>, Seq<u8>>;

/// The characters of an optional string.
pub open spec fn optional_text(text: Option<&str>) -> Option<Seq<char>> {
    match text {
        Some(text) => Some(text@),
        None => None,
    }
}

/// The bytes of an optional slice.
pub open spec fn optional_bytes(bytes: Option<&[u8]>) -> Option<Seq<u8>> {
    match bytes {
        Some(bytes) => Some(bytes@),
        None => None,
    }
}

impl<'a> View for MssqlCellOf<&'a str, &'a [u8]> {
    type V = MssqlCellOf<Seq<char>, Seq<u8>>;

    open spec fn view(&self) -> MssqlCellOf<Seq<char>, Seq<u8>> {
        match *self {
            MssqlCellOf::Bit(value) => MssqlCellOf::Bit(value),
            MssqlCellOf::TinyInt(value) => MssqlCellOf::TinyInt(value),
            MssqlCellOf::SmallInt(value) => MssqlCellOf::SmallInt(value),
            MssqlCellOf::Int(value) => MssqlCellOf::Int(value),
            MssqlCellOf::BigInt(value) => MssqlCellOf::BigInt(value),
            MssqlCellOf::Decimal(value) => MssqlCellOf::Decimal(value),
            MssqlCellOf::Date(value) => MssqlCellOf::Date(value),
            MssqlCellOf::DateTime2(value) => MssqlCellOf::DateTime2(value),
            MssqlCellOf::DateTimeOffset(value) => MssqlCellOf::DateTimeOffset(value),
            MssqlCellOf::Real(value) => MssqlCellOf::Real(value),
            MssqlCellOf::Float(value) => MssqlCellOf::Float(value),
            MssqlCellOf::NVarChar(value) => MssqlCellOf::NVarChar(optional_text(value)),
            MssqlCellOf::VarBinary(value) => MssqlCellOf::VarBinary(optional_bytes(value)),
        }
    }
}

/// Semantic SQL Server decimal value.
#[derive(Debug, Clone, Copy, PartialEq, Eq, Hash, Structural)]
pub struct MssqlDecimal {
    /// Unscaled integer value.
    pub unscaled: i128,
    /// Decimal scale.
    pub scale: u8,
}

impl MssqlDecimal {
    /// Creates a semantic decimal value from its unscaled integer and scale.
    pub fn new(unscaled: i128, scale: u8) -> (decimal: Self)
        ensures
            decimal == (MssqlDecimal { unscaled, scale }),
    {
        MssqlDecimal { unscaled, scale }
    }

    /// Returns the unscaled integer value.
    pub fn unscaled(self) -> (unscaled: i128)
        ensures
            unscaled == self.unscaled,
    {
        self.unscaled
    }

    /// Returns the decimal scale.
    pub fn scale(self) -> (scale: u8)
        ensures
            scale == self.scale,
    {
        self.scale
    }
}

/// Semantic SQL Server date value.
#[derive(Debug, Clone, Copy, PartialEq, Eq, Hash, Structural)]
pub struct MssqlDate {
    /// Number of days from 0001-01-01.
    pub days: u32,
}

impl MssqlDate {
    /// Creates a semantic date value from SQL Server's day count.
    pub fn new(days: u32) -> (date: Self)
        ensures
            date == (MssqlDate { days }),
    {
        MssqlDate { days }
    }

    /// Returns the number of days from 0001-01-01.
    pub fn days(self) -> (days: u32)
        ensures
            days == self.days,
    {
        self.days
    }
}

/// Semantic SQL Server datetime value.
#[derive(Debug, Clone, Copy, PartialEq, Eq, Hash, Structural)]
pub struct MssqlDateTime {
    /// Number of days from 1900-01-01.
    pub days: i32,
    /// Number of 1/300 seconds since midnight.
    pub seconds_fragments: u32,
}

impl MssqlDateTime {
    /// Creates a semantic datetime value.
    pub fn new(days: i32, seconds_fragments: u32) -> (datetime: Self)
        ensures
            datetime == (MssqlDateTime { days, seconds_fragments }),
    {
        MssqlDateTime { days, seconds_fragments }
    }

    /// Returns the number of days from 1900-01-01.
    pub fn days(self) -> (days: i32)
        ensures
            days == self.days,
    {
        self.days
    }

    /// Returns the number of 1/300 seconds since midnight.
    pub fn seconds_fragments(self) -> (seconds_fragments: u32)
        ensures
            seconds_fragments == self.seconds_fragments,
    {
        self.seconds_fragments
    }
}

/// Semantic SQL Server datetime2 value.
#[derive(Debug, Clone, Copy, PartialEq, Eq, Hash, Structural)]
pub struct MssqlDateTime2 {
    /// Date component.
    pub date: MssqlDate,
    /// Time component.
    pub time: MssqlTime,
}

impl MssqlDateTime2 {
    /// Creates a semantic datetime2 value from date and time components.
    pub fn new(date: MssqlDate, time: MssqlTime) -> (datetime2: Self)
        ensures
            datetime2 == (MssqlDateTime2 { date, time }),
    {
        MssqlDateTime2 { date, time }
    }

    /// Returns the date component.
    pub fn date(self) -> (date: MssqlDate)
        ensures
            date == self.date,
    {
        self.date
    }

    /// Returns the time component.
    pub fn time(self) -> (time: MssqlTime)
        ensures
            time == self.time,
    {
        self.time
    }
}

/// Semantic SQL Server datetimeoffset value.
///
/// TDS encodes `datetimeoffset` as a `datetime2` component plus an offset in minutes from UTC.
#[derive(Debug, Clone, Copy, PartialEq, Eq, Hash, Structural)]
pub struct MssqlDateTimeOffset {
    /// Date and time component.
    pub datetime2: MssqlDateTime2,
    /// Minutes from UTC.
    pub offset_minutes: i16,
}

impl MssqlDateTimeOffset {
    /// Creates a semantic datetimeoffset value from a date/time component and an offset.
    ///
    /// The offset is expressed as minutes from UTC.
    pub fn new(datetime2: MssqlDateTime2, offset_minutes: i16) -> (datetimeoffset: Self)
        ensures
            datetimeoffset == (MssqlDateTimeOffset { datetime2, offset_minutes }),
    {
        MssqlDateTimeOffset { datetime2, offset_minutes }
    }

    /// Returns the date/time component.
    pub fn datetime2(self) -> (datetime2: MssqlDateTime2)
        ensures
            datetime2 == self.datetime2,
    {
        self.datetime2
    }

    /// Returns the number of minutes from UTC.
    pub fn offset_minutes(self) -> (offset_minutes: i16)
        ensures
            offset_minutes == self.offset_minutes,
    {
        self.offset_minutes
    }
}

/// Semantic SQL Server time-of-day value.
///
/// SQL Server stores `time`/`datetime2` time-of-day as an integer count of
/// fractional-second increments since midnight. The `scale` says how fine each
/// increment is: scale 0 means whole seconds, scale 3 means milliseconds, and
/// scale 7 means 100ns ticks.
#[derive(Debug, Clone, Copy, PartialEq, Eq, Hash, Structural)]
pub struct MssqlTime {
    /// Number of `10^-scale` second increments since midnight.
    ///
    /// For example, at scale 3 this is milliseconds since midnight, so
    /// 12:00:00.123 is `43_200_123`.
    pub increments: u64,
    /// Fractional-second precision used by `increments`.
    ///
    /// `datetime2(3)` uses scale 3, so one increment is one millisecond.
    pub scale: u8,
}

impl MssqlTime {
    /// Creates a semantic time value from SQL Server increments and scale.
    ///
    /// This constructor assumes the caller has already validated that
    /// `increments` fits inside one day for the selected `scale`.
    pub fn new(increments: u64, scale: u8) -> (time: Self)
        ensures
            time == (MssqlTime { increments, scale }),
    {
        MssqlTime { increments, scale }
    }

    /// Returns the number of `10^-scale` second increments since midnight.
    pub fn increments(self) -> (increments: u64)
        ensures
            increments == self.increments,
    {
        self.increments
    }

    /// Returns the fractional-second precision used by the increments.
    pub fn scale(self) -> (scale: u8)
        ensures
            scale == self.scale,
    {
        self.scale
    }
}

} // verus!
