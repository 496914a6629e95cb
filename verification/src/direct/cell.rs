//! Cells of a direct TDS row payload.

use vstd::prelude::*;

use crate::cell::{MssqlDate, MssqlDateTime, MssqlDateTime2, MssqlDateTimeOffset, MssqlTime};
use crate::direct::decimal::{append_decimal_cell, decimal_cell_bytes, decimal_cell_len};
use crate::direct::wire::{
    append_le, byte_range, law_le_bytes_round_trip, le_bytes, le_value, lemma_le_bytes_len,
};
use crate::utf16::{append_utf16_le, utf16_le, utf16_len};

verus! {

/// Length byte of a `date` cell.
pub const DATE_LEN: usize = 3;

/// Length byte of a `datetime` cell.
pub const DATETIME_LEN: usize = 8;

/// Bytes of an offset in minutes.
pub const OFFSET_LEN: usize = 2;

/// Bytes of the length of a bounded variable-width cell.
pub const BOUNDED_LEN_PREFIX: usize = 2;

/// Length that marks a variable-width value of unknown total length.
pub const UNKNOWN_TOTAL_LEN: u64 = 0xFFFF_FFFF_FFFF_FFFE;

/// Bytes around the data of a non-empty unbounded cell: total length, chunk length, terminator.
pub const UNBOUNDED_FRAME_LEN: usize = 16;

/// Bytes of an empty unbounded cell: total length and terminator.
pub const EMPTY_UNBOUNDED_LEN: usize = 12;

/// Value of one cell as it stands in a row, over the representations `S` of strings and `B` of
/// bytes.
#[derive(Debug, Clone, Copy, PartialEq, Eq)]
pub enum DirectCellOf<S, B> {
    /// Null of a type whose length takes one byte.
    NullByte,
    /// Null of a bounded variable-width type.
    NullShort,
    /// Null of an unbounded variable-width type.
    NullLong,
    /// Little-endian number.
    Fixed {
        /// Bit pattern.
        value: u64,
        /// Number of bytes.
        width: usize,
        /// Whether a length byte stands before the number.
        prefixed: bool,
    },
    /// `decimal`.
    Decimal {
        /// Unscaled value.
        unscaled: i128,
    },
    /// `date`.
    Date(MssqlDate),
    /// `time`.
    Time(MssqlTime),
    /// `datetime`.
    DateTime(MssqlDateTime),
    /// `datetime2`.
    DateTime2(MssqlDateTime2),
    /// `datetimeoffset`, its date and time in UTC.
    DateTimeOffset(MssqlDateTimeOffset),
    /// `nvarchar`.
    NVarChar {
        /// Text.
        text: S,
        /// Whether the column is unbounded.
        unbounded: bool,
    },
    /// `varbinary` or `binary`.
    Binary {
        /// Bytes.
        bytes: B,
        /// Whether the column is unbounded.
        unbounded: bool,
    },
}

/// Borrowed value of one cell of a row.
pub type DirectCell<'a> = DirectCellOf<&'a str, &'a [u8]>;

/// Value of one cell of a row as contracts speak of it.
pub type DirectCellView = DirectCellOf<Seq<char>, Seq<u8>>;

impl<'a> View for DirectCellOf<&'a str, &'a [u8]> {
    type V = DirectCellOf<Seq<char>, Seq<u8>>;

    open spec fn view(&self) -> DirectCellOf<Seq<char>, Seq<u8>> {
        match *self {
            DirectCellOf::NullByte => DirectCellOf::NullByte,
            DirectCellOf::NullShort => DirectCellOf::NullShort,
            DirectCellOf::NullLong => DirectCellOf::NullLong,
            DirectCellOf::Fixed { value, width, prefixed } => DirectCellOf::Fixed {
                value,
                width,
                prefixed,
            },
            DirectCellOf::Decimal { unscaled } => DirectCellOf::Decimal { unscaled },
            DirectCellOf::Date(value) => DirectCellOf::Date(value),
            DirectCellOf::Time(value) => DirectCellOf::Time(value),
            DirectCellOf::DateTime(value) => DirectCellOf::DateTime(value),
            DirectCellOf::DateTime2(value) => DirectCellOf::DateTime2(value),
            DirectCellOf::DateTimeOffset(value) => DirectCellOf::DateTimeOffset(value),
            DirectCellOf::NVarChar { text, unbounded } => DirectCellOf::NVarChar {
                text: text@,
                unbounded,
            },
            DirectCellOf::Binary { bytes, unbounded } => DirectCellOf::Binary {
                bytes: bytes@,
                unbounded,
            },
        }
    }
}

/// The number of bytes of a time of day, by its number of fractional-second digits.
pub open spec fn time_width(scale: u8) -> nat {
    if scale <= 2 {
        3
    } else if scale <= 4 {
        4
    } else {
        5
    }
}

/// The bytes of a time of day without a length.
pub open spec fn time_bytes(time: MssqlTime) -> Seq<u8> {
    le_bytes(time.increments as nat, time_width(time.scale))
}

/// The bytes of a date without a length.
pub open spec fn date_bytes(date: MssqlDate) -> Seq<u8> {
    le_bytes(date.days as nat, 3)
}

/// A signed number of 16 bits in two's complement.
pub open spec fn twos_complement_16(value: i16) -> nat {
    if value < 0 {
        (value + 0x1_0000) as nat
    } else {
        value as nat
    }
}

/// A signed number of 32 bits in two's complement.
pub open spec fn twos_complement_32(value: i32) -> nat {
    if value < 0 {
        (value + 0x1_0000_0000) as nat
    } else {
        value as nat
    }
}

/// The bytes of a `date` cell.
pub open spec fn date_cell_bytes(date: MssqlDate) -> Seq<u8> {
    seq![DATE_LEN as u8] + date_bytes(date)
}

/// The bytes of a `time` cell.
pub open spec fn time_cell_bytes(time: MssqlTime) -> Seq<u8> {
    seq![time_width(time.scale) as u8] + time_bytes(time)
}

/// The bytes of a `datetime` cell.
pub open spec fn datetime_cell_bytes(datetime: MssqlDateTime) -> Seq<u8> {
    seq![DATETIME_LEN as u8] + le_bytes(twos_complement_32(datetime.days), 4) + le_bytes(
        datetime.seconds_fragments as nat,
        4,
    )
}

/// The bytes of a `datetime2` cell: length, time of day, date.
pub open spec fn datetime2_cell_bytes(datetime2: MssqlDateTime2) -> Seq<u8> {
    seq![(time_width(datetime2.time.scale) + DATE_LEN) as u8] + time_bytes(datetime2.time)
        + date_bytes(datetime2.date)
}

/// The bytes of a `datetimeoffset` cell: length, time of day, date, offset.
pub open spec fn datetimeoffset_cell_bytes(datetimeoffset: MssqlDateTimeOffset) -> Seq<u8> {
    let datetime2 = datetimeoffset.datetime2;
    seq![(time_width(datetime2.time.scale) + DATE_LEN + OFFSET_LEN) as u8] + time_bytes(
        datetime2.time,
    ) + date_bytes(datetime2.date) + le_bytes(
        twos_complement_16(datetimeoffset.offset_minutes),
        2,
    )
}

/// The bytes of a bounded variable-width cell: length and data.
pub open spec fn bounded_cell_bytes(data: Seq<u8>) -> Seq<u8> {
    le_bytes(data.len(), 2) + data
}

/// The bytes of an unbounded variable-width cell: the mark of an unknown total length, one chunk
/// where there is data, and the terminator.
pub open spec fn unbounded_cell_bytes(data: Seq<u8>) -> Seq<u8> {
    let head = le_bytes(UNKNOWN_TOTAL_LEN as nat, 8) + le_bytes(data.len(), 4) + data;
    if data.len() == 0 {
        head
    } else {
        head + le_bytes(0, 4)
    }
}

/// The bytes of a variable-width cell.
pub open spec fn variable_cell_bytes(data: Seq<u8>, unbounded: bool) -> Seq<u8> {
    if unbounded {
        unbounded_cell_bytes(data)
    } else {
        bounded_cell_bytes(data)
    }
}

/// The bytes of a cell.
pub open spec fn cell_bytes(cell: DirectCellView) -> Seq<u8> {
    match cell {
        DirectCellOf::NullByte => seq![0u8],
        DirectCellOf::NullShort => Seq::new(2, |i: int| 0xFFu8),
        DirectCellOf::NullLong => Seq::new(8, |i: int| 0xFFu8),
        DirectCellOf::Fixed { value, width, prefixed } => if prefixed {
            seq![width as u8] + le_bytes(value as nat, width as nat)
        } else {
            le_bytes(value as nat, width as nat)
        },
        DirectCellOf::Decimal { unscaled } => decimal_cell_bytes(unscaled),
        DirectCellOf::Date(date) => date_cell_bytes(date),
        DirectCellOf::Time(time) => time_cell_bytes(time),
        DirectCellOf::DateTime(datetime) => datetime_cell_bytes(datetime),
        DirectCellOf::DateTime2(datetime2) => datetime2_cell_bytes(datetime2),
        DirectCellOf::DateTimeOffset(datetimeoffset) => datetimeoffset_cell_bytes(datetimeoffset),
        DirectCellOf::NVarChar { text, unbounded } => variable_cell_bytes(
            utf16_le(text),
            unbounded,
        ),
        DirectCellOf::Binary { bytes, unbounded } => variable_cell_bytes(bytes, unbounded),
    }
}

/// Whether the bytes of a cell can be counted.
pub open spec fn is_countable(cell: DirectCellView) -> bool {
    cell_bytes(cell).len() <= usize::MAX
}

/// The number of bytes of a time of day.
pub fn time_cell_width(scale: u8) -> (width: usize)
    ensures
        width == time_width(scale),
{
    if scale <= 2 {
        3
    } else if scale <= 4 {
        4
    } else {
        5
    }
}

/// The length of a variable-width cell.
pub proof fn lemma_variable_cell_len(data: Seq<u8>, unbounded: bool)
    ensures
        variable_cell_bytes(data, unbounded).len() == if !unbounded {
            BOUNDED_LEN_PREFIX + data.len()
        } else if data.len() == 0 {
            EMPTY_UNBOUNDED_LEN as int
        } else {
            UNBOUNDED_FRAME_LEN + data.len()
        },
{
    lemma_le_bytes_len(data.len(), 2);
    lemma_le_bytes_len(data.len(), 4);
    lemma_le_bytes_len(UNKNOWN_TOTAL_LEN as nat, 8);
    lemma_le_bytes_len(0, 4);
}

/// Returns the number of bytes of a variable-width cell.
fn variable_cell_len(data_len: usize, unbounded: bool, Ghost(data): Ghost<Seq<u8>>) -> (len: usize)
    requires
        data_len == data.len(),
        variable_cell_bytes(data, unbounded).len() <= usize::MAX,
    ensures
        len == variable_cell_bytes(data, unbounded).len(),
{
    proof {
        lemma_variable_cell_len(data, unbounded);
    }
    if !unbounded {
        BOUNDED_LEN_PREFIX + data_len
    } else if data_len == 0 {
        EMPTY_UNBOUNDED_LEN
    } else {
        UNBOUNDED_FRAME_LEN + data_len
    }
}

impl<'a> DirectCellOf<&'a str, &'a [u8]> {
    /// Returns the number of bytes of the cell.
    pub fn len(&self) -> (len: usize)
        requires
            is_countable(self@),
        ensures
            len == cell_bytes(self@).len(),
    {
        match *self {
            DirectCellOf::NullByte => 1,
            DirectCellOf::NullShort => 2,
            DirectCellOf::NullLong => 8,
            DirectCellOf::Fixed { value, width, prefixed } => {
                proof {
                    lemma_le_bytes_len(value as nat, width as nat);
                }
                if prefixed {
                    1 + width
                } else {
                    width
                }
            },
            DirectCellOf::Decimal { unscaled } => decimal_cell_len(unscaled),
            DirectCellOf::Date(date) => {
                proof {
                    lemma_le_bytes_len(date.days as nat, 3);
                }
                1 + DATE_LEN
            },
            DirectCellOf::Time(time) => {
                proof {
                    lemma_le_bytes_len(time.increments as nat, time_width(time.scale));
                }
                1 + time_cell_width(time.scale())
            },
            DirectCellOf::DateTime(datetime) => {
                proof {
                    lemma_le_bytes_len(twos_complement_32(datetime.days), 4);
                    lemma_le_bytes_len(datetime.seconds_fragments as nat, 4);
                }
                1 + DATETIME_LEN
            },
            DirectCellOf::DateTime2(datetime2) => {
                proof {
                    lemma_datetime2_len(datetime2);
                }
                1 + time_cell_width(datetime2.time().scale()) + DATE_LEN
            },
            DirectCellOf::DateTimeOffset(datetimeoffset) => {
                proof {
                    lemma_datetime2_len(datetimeoffset.datetime2);
                    lemma_le_bytes_len(twos_complement_16(datetimeoffset.offset_minutes), 2);
                }
                1 + time_cell_width(datetimeoffset.datetime2().time().scale()) + DATE_LEN
                    + OFFSET_LEN
            },
            DirectCellOf::NVarChar { text, unbounded } => {
                proof {
                    lemma_variable_cell_len(utf16_le(text@), unbounded);
                }
                variable_cell_len(2 * utf16_len(text), unbounded, Ghost(utf16_le(text@)))
            },
            DirectCellOf::Binary { bytes, unbounded } => variable_cell_len(
                bytes.len(),
                unbounded,
                Ghost(bytes@),
            ),
        }
    }

    /// Appends the bytes of the cell.
    pub fn append(&self, buf: &mut Vec<u8>)
        requires
            is_countable(self@),
        ensures
            final(buf)@ == old(buf)@ + cell_bytes(self@),
    {
        match *self {
            DirectCellOf::NullByte => {
                buf.push(0);
                assert(buf@ =~= old(buf)@ + cell_bytes(self@));
            },
            DirectCellOf::NullShort => {
                buf.push(0xFF);
                buf.push(0xFF);
                assert(buf@ =~= old(buf)@ + cell_bytes(self@));
            },
            DirectCellOf::NullLong => {
                append_repeated(buf, 0xFF, 8);
            },
            DirectCellOf::Fixed { value, width, prefixed } => {
                if prefixed {
                    buf.push(width as u8);
                }
                append_le(buf, value as u128, width);
                assert(buf@ =~= old(buf)@ + cell_bytes(self@));
            },
            DirectCellOf::Decimal { unscaled } => {
                let _ = append_decimal_cell(buf, unscaled);
            },
            DirectCellOf::Date(date) => {
                append_date_cell_bytes(buf, date);
            },
            DirectCellOf::Time(time) => {
                append_time_cell_bytes(buf, time);
            },
            DirectCellOf::DateTime(datetime) => {
                append_datetime_cell_bytes(buf, datetime);
            },
            DirectCellOf::DateTime2(datetime2) => {
                append_datetime2_cell_bytes(buf, datetime2);
            },
            DirectCellOf::DateTimeOffset(datetimeoffset) => {
                append_datetimeoffset_cell_bytes(buf, datetimeoffset);
            },
            DirectCellOf::NVarChar { text, unbounded } => {
                let ghost data = utf16_le(text@);
                proof {
                    lemma_variable_cell_len(data, unbounded);
                }
                let data_len: usize = 2 * utf16_len(text);
                append_variable_head(buf, data_len, unbounded);
                append_utf16_le(buf, text);
                append_variable_tail(buf, data_len, unbounded);
                assert(buf@ =~= old(buf)@ + cell_bytes(self@));
            },
            DirectCellOf::Binary { bytes, unbounded } => {
                append_variable_head(buf, bytes.len(), unbounded);
                append_slice(buf, bytes);
                append_variable_tail(buf, bytes.len(), unbounded);
                assert(buf@ =~= old(buf)@ + cell_bytes(self@));
            },
        }
    }
}

/// The lengths of the parts of a `datetime2`.
proof fn lemma_datetime2_len(datetime2: MssqlDateTime2)
    ensures
        time_bytes(datetime2.time).len() == time_width(datetime2.time.scale),
        date_bytes(datetime2.date).len() == DATE_LEN,
{
    lemma_le_bytes_len(datetime2.time.increments as nat, time_width(datetime2.time.scale));
    lemma_le_bytes_len(datetime2.date.days as nat, 3);
}

/// What stands before the data of a variable-width cell.
spec fn variable_head(data_len: nat, unbounded: bool) -> Seq<u8> {
    if unbounded {
        le_bytes(UNKNOWN_TOTAL_LEN as nat, 8) + le_bytes(data_len, 4)
    } else {
        le_bytes(data_len, 2)
    }
}

/// What stands behind the data of a variable-width cell.
spec fn variable_tail(data_len: nat, unbounded: bool) -> Seq<u8> {
    if unbounded && data_len > 0 {
        le_bytes(0, 4)
    } else {
        Seq::empty()
    }
}

/// Appends what stands before the data of a variable-width cell.
fn append_variable_head(buf: &mut Vec<u8>, data_len: usize, unbounded: bool)
    ensures
        final(buf)@ == old(buf)@ + variable_head(data_len as nat, unbounded),
{
    if unbounded {
        append_le(buf, UNKNOWN_TOTAL_LEN as u128, 8);
        append_le(buf, data_len as u128, 4);
    } else {
        append_le(buf, data_len as u128, 2);
    }
    assert(buf@ =~= old(buf)@ + variable_head(data_len as nat, unbounded));
}

/// Appends what stands behind the data of a variable-width cell.
fn append_variable_tail(buf: &mut Vec<u8>, data_len: usize, unbounded: bool)
    ensures
        final(buf)@ == old(buf)@ + variable_tail(data_len as nat, unbounded),
{
    if unbounded && data_len > 0 {
        append_le(buf, 0, 4);
    }
    assert(buf@ =~= old(buf)@ + variable_tail(data_len as nat, unbounded));
}

/// Appends one byte several times.
fn append_repeated(buf: &mut Vec<u8>, byte: u8, count: usize)
    ensures
        final(buf)@ == old(buf)@ + Seq::new(count as nat, |i: int| byte),
{
    let ghost start = buf@;
    let mut done: usize = 0;
    assert(buf@ =~= start + Seq::new(0, |i: int| byte));
    while done < count
        invariant
            done <= count,
            buf@ == start + Seq::new(done as nat, |i: int| byte),
        decreases count - done,
    {
        buf.push(byte);
        done += 1;
        assert(buf@ =~= start + Seq::new(done as nat, |i: int| byte));
    }
}

/// Appends bytes.
pub fn append_slice(buf: &mut Vec<u8>, bytes: &[u8])
    ensures
        final(buf)@ == old(buf)@ + bytes@,
{
    let ghost start = buf@;
    let mut done: usize = 0;
    assert(buf@ =~= start + bytes@.take(0));
    while done < bytes.len()
        invariant
            done <= bytes.len(),
            buf@ == start + bytes@.take(done as int),
        decreases bytes.len() - done,
    {
        buf.push(bytes[done]);
        done += 1;
        assert(buf@ =~= start + bytes@.take(done as int));
    }
    assert(bytes@.take(bytes@.len() as int) =~= bytes@);
}

/// Appends a `date` cell.
pub fn append_date_cell_bytes(buf: &mut Vec<u8>, date: MssqlDate)
    ensures
        final(buf)@ == old(buf)@ + date_cell_bytes(date),
{
    buf.push(DATE_LEN as u8);
    append_le(buf, date.days() as u128, 3);
    assert(buf@ =~= old(buf)@ + date_cell_bytes(date));
}

/// Appends a `time` cell.
pub fn append_time_cell_bytes(buf: &mut Vec<u8>, time: MssqlTime)
    ensures
        final(buf)@ == old(buf)@ + time_cell_bytes(time),
{
    let width: usize = time_cell_width(time.scale());
    buf.push(width as u8);
    append_le(buf, time.increments() as u128, width);
    assert(buf@ =~= old(buf)@ + time_cell_bytes(time));
}

/// Appends a `datetime` cell.
pub fn append_datetime_cell_bytes(buf: &mut Vec<u8>, datetime: MssqlDateTime)
    ensures
        final(buf)@ == old(buf)@ + datetime_cell_bytes(datetime),
{
    buf.push(DATETIME_LEN as u8);
    let days: i64 = datetime.days() as i64;
    let days: u128 = if days < 0 {
        (days + 0x1_0000_0000) as u128
    } else {
        days as u128
    };
    append_le(buf, days, 4);
    append_le(buf, datetime.seconds_fragments() as u128, 4);
    assert(buf@ =~= old(buf)@ + datetime_cell_bytes(datetime));
}

/// Appends a `datetime2` cell.
pub fn append_datetime2_cell_bytes(buf: &mut Vec<u8>, datetime2: MssqlDateTime2)
    ensures
        final(buf)@ == old(buf)@ + datetime2_cell_bytes(datetime2),
{
    let width: usize = time_cell_width(datetime2.time().scale());
    buf.push((width + DATE_LEN) as u8);
    append_le(buf, datetime2.time().increments() as u128, width);
    append_le(buf, datetime2.date().days() as u128, 3);
    assert(buf@ =~= old(buf)@ + datetime2_cell_bytes(datetime2));
}

/// Appends a `datetimeoffset` cell.
pub fn append_datetimeoffset_cell_bytes(buf: &mut Vec<u8>, datetimeoffset: MssqlDateTimeOffset)
    ensures
        final(buf)@ == old(buf)@ + datetimeoffset_cell_bytes(datetimeoffset),
{
    let datetime2 = datetimeoffset.datetime2();
    let width: usize = time_cell_width(datetime2.time().scale());
    buf.push((width + DATE_LEN + OFFSET_LEN) as u8);
    append_le(buf, datetime2.time().increments() as u128, width);
    append_le(buf, datetime2.date().days() as u128, 3);
    let offset: i32 = datetimeoffset.offset_minutes() as i32;
    let offset: u128 = if offset < 0 {
        (offset + 0x1_0000) as u128
    } else {
        offset as u128
    };
    append_le(buf, offset, 2);
    assert(buf@ =~= old(buf)@ + datetimeoffset_cell_bytes(datetimeoffset));
}

/// A number is read back from its cell; in a nullable column the length byte counts its bytes.
pub proof fn law_fixed_cell_round_trip(value: u64, width: usize, prefixed: bool)
    requires
        width <= 8,
        value < byte_range(width as nat),
    ensures
        ({
            let bytes = cell_bytes(DirectCellOf::Fixed { value, width, prefixed });
            let start: int = if prefixed {
                1
            } else {
                0
            };
            &&& bytes.len() == start + width
            &&& prefixed ==> bytes[0] == width
            &&& le_value(bytes.skip(start)) == value
        }),
{
    let bytes = cell_bytes(DirectCellOf::Fixed { value, width, prefixed });
    let start: int = if prefixed {
        1
    } else {
        0
    };
    law_le_bytes_round_trip(value as nat, width as nat);
    assert(bytes.skip(start) =~= le_bytes(value as nat, width as nat));
}

/// The data of a bounded cell is read back, with its length before it.
pub proof fn law_bounded_cell_round_trip(data: Seq<u8>)
    requires
        data.len() < 0xFFFF,
    ensures
        le_value(bounded_cell_bytes(data).take(2)) == data.len(),
        bounded_cell_bytes(data).skip(2) == data,
        bounded_cell_bytes(data) != cell_bytes(DirectCellOf::NullShort),
{
    let bytes = bounded_cell_bytes(data);
    reveal_with_fuel(byte_range, 3);
    law_le_bytes_round_trip(data.len(), 2);
    assert(bytes.take(2) =~= le_bytes(data.len(), 2));
    assert(bytes.skip(2) =~= data);
    let null = cell_bytes(DirectCellOf::NullShort);
    if bytes == null {
        reveal_with_fuel(le_value, 3);
        assert(null.take(2) =~= null);
        assert(null.drop_first().drop_first().len() == 0);
        assert(le_value(null.take(2)) == 0xFFFF);
    }
}

/// The data of an unbounded cell is read back, with its length before it.
pub proof fn law_unbounded_cell_round_trip(data: Seq<u8>)
    requires
        data.len() <= u32::MAX,
    ensures
        le_value(unbounded_cell_bytes(data).subrange(8, 12)) == data.len(),
        unbounded_cell_bytes(data).subrange(12, 12 + data.len() as int) == data,
        unbounded_cell_bytes(data) != cell_bytes(DirectCellOf::NullLong),
{
    let bytes = unbounded_cell_bytes(data);
    reveal_with_fuel(byte_range, 9);
    law_le_bytes_round_trip(data.len(), 4);
    lemma_le_bytes_len(UNKNOWN_TOTAL_LEN as nat, 8);
    lemma_le_bytes_len(0, 4);
    assert(bytes.subrange(8, 12) =~= le_bytes(data.len(), 4));
    assert(bytes.subrange(12, 12 + data.len() as int) =~= data);
    assert(bytes[0] == 0xFE);
    assert(cell_bytes(DirectCellOf::NullLong)[0] == 0xFF);
}

/// A `datetime` cell holds its days and its fragments.
pub proof fn law_datetime_cell_round_trip(datetime: MssqlDateTime)
    ensures
        ({
            let bytes = datetime_cell_bytes(datetime);
            &&& bytes.len() == 1 + bytes[0]
            &&& le_value(bytes.subrange(1, 5)) == twos_complement_32(datetime.days)
            &&& le_value(bytes.subrange(5, 9)) == datetime.seconds_fragments
        }),
{
    let bytes = datetime_cell_bytes(datetime);
    reveal_with_fuel(byte_range, 5);
    law_le_bytes_round_trip(twos_complement_32(datetime.days), 4);
    law_le_bytes_round_trip(datetime.seconds_fragments as nat, 4);
    assert(bytes.subrange(1, 5) =~= le_bytes(twos_complement_32(datetime.days), 4));
    assert(bytes.subrange(5, 9) =~= le_bytes(datetime.seconds_fragments as nat, 4));
}

} // verus!
