//! Laws of the bytes of cells.

use vstd::arithmetic::power::pow;
use vstd::prelude::*;

use crate::cell::{MssqlDate, MssqlDateTime, MssqlDateTime2, MssqlDateTimeOffset, MssqlTime};
use crate::direct::cell::{
    bounded_cell_bytes, cell_bytes, datetime2_cell_bytes, datetime_cell_bytes,
    datetimeoffset_cell_bytes, twos_complement_16, twos_complement_32, unbounded_cell_bytes,
    DirectCellOf,
};
use crate::direct::decimal::{digit_count, magnitude, magnitude_len};
use crate::direct::value::twos_complement_64;
use crate::direct::wire::{le_bytes, lemma_le_bytes_len};
use crate::laws::reading::{
    code_points, code_points_from, law_utf16_reads_back, lemma_byte_ranges, lemma_number_at,
    lemma_sign_ranges, number_at, signed, unit_count,
};
use crate::utf16::utf16_le;

verus! {

/// The bytes of a time of day with some fractional-second digits.
pub open spec fn time_bytes_count(scale: u8) -> nat {
    if scale <= 2 {
        3
    } else if scale <= 4 {
        4
    } else {
        5
    }
}

/// Whether the bytes of a time of day can hold it.
pub open spec fn is_writable_time(time: MssqlTime) -> bool {
    if time.scale <= 2 {
        time.increments < 0x100_0000
    } else if time.scale <= 4 {
        time.increments < 0x1_0000_0000
    } else {
        time.increments < 0x100_0000_0000
    }
}

/// A number takes its width, least significant byte first, behind a length byte in a nullable
/// column.
pub proof fn law_number_cell(value: u64, width: usize, prefixed: bool)
    requires
        width == 1 || width == 2 || width == 4 || width == 8,
        width == 1 ==> value < 0x100,
        width == 2 ==> value < 0x1_0000,
        width == 4 ==> value < 0x1_0000_0000,
    ensures
        ({
            let bytes = cell_bytes(DirectCellOf::Fixed { value, width, prefixed });
            let start: int = if prefixed {
                1
            } else {
                0
            };
            &&& bytes.len() == start + width
            &&& prefixed ==> bytes[0] == width
            &&& number_at(bytes, start, width as nat) == value
        }),
{
    let bytes = cell_bytes(DirectCellOf::Fixed { value, width, prefixed });
    let start: int = if prefixed {
        1
    } else {
        0
    };
    lemma_byte_ranges();
    lemma_le_bytes_len(value as nat, width as nat);
    assert forall|i: int| 0 <= i < width implies #[trigger] bytes[start + i] == le_bytes(
        value as nat,
        width as nat,
    )[i] by {}
    lemma_number_at(bytes, start, value as nat, width as nat);
}

/// Two's complement keeps the sign.
pub proof fn law_patterns_keep_the_sign(narrow: i16, middle: i32, wide: i64)
    ensures
        signed(twos_complement_16(narrow) as int, 16) == narrow,
        signed(twos_complement_32(middle) as int, 32) == middle,
        signed(twos_complement_64(wide) as int, 64) == wide,
        twos_complement_16(narrow) < 0x1_0000,
        twos_complement_32(middle) < 0x1_0000_0000,
        twos_complement_64(wide) < 0x1_0000_0000_0000_0000,
{
    lemma_sign_ranges();
}

/// A `date` is its days in three bytes behind their length.
pub proof fn law_date_cell(date: MssqlDate)
    requires
        date.days < 0x100_0000,
    ensures
        ({
            let bytes = cell_bytes(DirectCellOf::Date(date));
            &&& bytes.len() == 4
            &&& bytes[0] == 3
            &&& number_at(bytes, 1, 3) == date.days
        }),
{
    let bytes = cell_bytes(DirectCellOf::Date(date));
    lemma_byte_ranges();
    lemma_le_bytes_len(date.days as nat, 3);
    assert forall|i: int| 0 <= i < 3 implies #[trigger] bytes[1 + i] == le_bytes(
        date.days as nat,
        3,
    )[i] by {}
    lemma_number_at(bytes, 1, date.days as nat, 3);
}

/// A `time` is its increments behind their length.
pub proof fn law_time_cell(time: MssqlTime)
    requires
        is_writable_time(time),
    ensures
        ({
            let bytes = cell_bytes(DirectCellOf::Time(time));
            let width = time_bytes_count(time.scale);
            &&& bytes.len() == 1 + width
            &&& bytes[0] == width
            &&& number_at(bytes, 1, width) == time.increments
        }),
{
    let bytes = cell_bytes(DirectCellOf::Time(time));
    let width = time_bytes_count(time.scale);
    lemma_byte_ranges();
    lemma_le_bytes_len(time.increments as nat, width);
    assert forall|i: int| 0 <= i < width implies #[trigger] bytes[1 + i] == le_bytes(
        time.increments as nat,
        width,
    )[i] by {}
    lemma_number_at(bytes, 1, time.increments as nat, width);
}

/// A `datetime` is its days and its fragments, four bytes each, behind their length.
pub proof fn law_datetime_cell(datetime: MssqlDateTime)
    ensures
        ({
            let bytes = cell_bytes(DirectCellOf::DateTime(datetime));
            &&& bytes.len() == 9
            &&& bytes[0] == 8
            &&& signed(number_at(bytes, 1, 4) as int, 32) == datetime.days
            &&& number_at(bytes, 5, 4) == datetime.seconds_fragments
        }),
{
    let bytes = datetime_cell_bytes(datetime);
    let days = twos_complement_32(datetime.days);
    let fragments = datetime.seconds_fragments as nat;
    lemma_byte_ranges();
    law_patterns_keep_the_sign(0, datetime.days, 0);
    lemma_le_bytes_len(days, 4);
    lemma_le_bytes_len(fragments, 4);
    assert forall|i: int| 0 <= i < 4 implies #[trigger] bytes[1 + i] == le_bytes(days, 4)[i] by {}
    assert forall|i: int| 0 <= i < 4 implies #[trigger] bytes[5 + i] == le_bytes(
        fragments,
        4,
    )[i] by {}
    lemma_number_at(bytes, 1, days, 4);
    lemma_number_at(bytes, 5, fragments, 4);
}

/// A `datetime2` is its time of day and its date behind their length.
pub proof fn law_datetime2_cell(datetime2: MssqlDateTime2)
    requires
        is_writable_time(datetime2.time),
        datetime2.date.days < 0x100_0000,
    ensures
        ({
            let bytes = cell_bytes(DirectCellOf::DateTime2(datetime2));
            let width = time_bytes_count(datetime2.time.scale);
            &&& bytes.len() == 4 + width
            &&& bytes[0] == 3 + width
            &&& number_at(bytes, 1, width) == datetime2.time.increments
            &&& number_at(bytes, 1 + width as int, 3) == datetime2.date.days
        }),
{
    let bytes = datetime2_cell_bytes(datetime2);
    let width = time_bytes_count(datetime2.time.scale);
    let increments = datetime2.time.increments as nat;
    let days = datetime2.date.days as nat;
    lemma_byte_ranges();
    lemma_le_bytes_len(increments, width);
    lemma_le_bytes_len(days, 3);
    assert forall|i: int| 0 <= i < width implies #[trigger] bytes[1 + i] == le_bytes(
        increments,
        width,
    )[i] by {}
    assert forall|i: int| 0 <= i < 3 implies #[trigger] bytes[(1 + width) + i] == le_bytes(
        days,
        3,
    )[i] by {}
    lemma_number_at(bytes, 1, increments, width);
    lemma_number_at(bytes, 1 + width as int, days, 3);
}

/// A `datetimeoffset` is its time of day, its date and its offset behind their length.
pub proof fn law_datetimeoffset_cell(datetimeoffset: MssqlDateTimeOffset)
    requires
        is_writable_time(datetimeoffset.datetime2.time),
        datetimeoffset.datetime2.date.days < 0x100_0000,
    ensures
        ({
            let bytes = cell_bytes(DirectCellOf::DateTimeOffset(datetimeoffset));
            let width = time_bytes_count(datetimeoffset.datetime2.time.scale);
            &&& bytes.len() == 6 + width
            &&& bytes[0] == 5 + width
            &&& number_at(bytes, 1, width) == datetimeoffset.datetime2.time.increments
            &&& number_at(bytes, 1 + width as int, 3) == datetimeoffset.datetime2.date.days
            &&& signed(number_at(bytes, 4 + width as int, 2) as int, 16)
                == datetimeoffset.offset_minutes
        }),
{
    let bytes = datetimeoffset_cell_bytes(datetimeoffset);
    let width = time_bytes_count(datetimeoffset.datetime2.time.scale);
    let increments = datetimeoffset.datetime2.time.increments as nat;
    let days = datetimeoffset.datetime2.date.days as nat;
    let offset = twos_complement_16(datetimeoffset.offset_minutes);
    lemma_byte_ranges();
    law_patterns_keep_the_sign(datetimeoffset.offset_minutes, 0, 0);
    lemma_le_bytes_len(increments, width);
    lemma_le_bytes_len(days, 3);
    lemma_le_bytes_len(offset, 2);
    assert forall|i: int| 0 <= i < width implies #[trigger] bytes[1 + i] == le_bytes(
        increments,
        width,
    )[i] by {}
    assert forall|i: int| 0 <= i < 3 implies #[trigger] bytes[(1 + width) + i] == le_bytes(
        days,
        3,
    )[i] by {}
    assert forall|i: int| 0 <= i < 2 implies #[trigger] bytes[(4 + width) + i] == le_bytes(
        offset,
        2,
    )[i] by {}
    lemma_number_at(bytes, 1, increments, width);
    lemma_number_at(bytes, 1 + width as int, days, 3);
    lemma_number_at(bytes, 4 + width as int, offset, 2);
}

/// The bytes of a decimal magnitude, by its decimal digits.
pub open spec fn magnitude_bytes_count(magnitude: int) -> nat {
    if magnitude < 1_000_000_000 {
        4
    } else if magnitude < 10_000_000_000_000_000_000 {
        8
    } else if magnitude < 10_000_000_000_000_000_000_000_000_000 {
        12
    } else {
        16
    }
}

/// The number of digits of a magnitude, by the powers of ten around it.
proof fn lemma_digit_count(magnitude: nat, digits: nat)
    requires
        digits > 0,
    ensures
        magnitude < pow(10, digits) <==> digit_count(magnitude) <= digits,
    decreases digits,
{
    assert(pow(10, digits) == 10 * pow(10, (digits - 1) as nat)) by {
        reveal(pow);
    }
    if digits == 1 {
        reveal_with_fuel(pow, 2);
        reveal_with_fuel(digit_count, 2);
        assert(digit_count(magnitude) <= 1 <==> magnitude < 10);
    } else if magnitude >= 10 {
        lemma_digit_count(magnitude / 10, (digits - 1) as nat);
    } else {
        vstd::arithmetic::power::lemma_pow_positive(10, (digits - 1) as nat);
    }
}

/// A `decimal` is the sign and the magnitude of its unscaled value behind their length: sign byte
/// 1 for a number that is not negative, and 4, 8, 12 or 16 bytes for at most 9, 19, 28 or more
/// digits.
pub proof fn law_decimal_cell(unscaled: i128)
    ensures
        ({
            let bytes = cell_bytes(DirectCellOf::Decimal { unscaled });
            let size = if unscaled < 0 {
                -unscaled
            } else {
                unscaled as int
            };
            let width = magnitude_bytes_count(size);
            &&& bytes.len() == 2 + width
            &&& bytes[0] == 1 + width
            &&& bytes[1] == if unscaled < 0 {
                0u8
            } else {
                1u8
            }
            &&& number_at(bytes, 2, width) == size
        }),
{
    let bytes = cell_bytes(DirectCellOf::Decimal { unscaled });
    let size = magnitude(unscaled);
    reveal_with_fuel(pow, 29);
    assert(pow(10, 9) == 1_000_000_000);
    assert(pow(10, 19) == 10_000_000_000_000_000_000);
    assert(pow(10, 28) == 10_000_000_000_000_000_000_000_000_000);
    lemma_digit_count(size, 9);
    lemma_digit_count(size, 19);
    lemma_digit_count(size, 28);
    let width = magnitude_len(size);
    assert(width == magnitude_bytes_count(size as int));
    lemma_byte_ranges();
    lemma_le_bytes_len(size, width);
    assert forall|i: int| 0 <= i < width implies #[trigger] bytes[2 + i] == le_bytes(
        size,
        width,
    )[i] by {}
    lemma_number_at(bytes, 2, size, width);
}

/// A bounded value is its length in two bytes and its data.
pub proof fn law_bounded_cell(data: Seq<u8>)
    requires
        data.len() < 0x1_0000,
    ensures
        ({
            let bytes = bounded_cell_bytes(data);
            &&& bytes.len() == 2 + data.len()
            &&& number_at(bytes, 0, 2) == data.len()
            &&& bytes.skip(2) == data
        }),
{
    let bytes = bounded_cell_bytes(data);
    lemma_byte_ranges();
    lemma_le_bytes_len(data.len(), 2);
    assert forall|i: int| 0 <= i < 2 implies #[trigger] bytes[0 + i] == le_bytes(
        data.len(),
        2,
    )[i] by {}
    lemma_number_at(bytes, 0, data.len(), 2);
    assert(bytes.skip(2) =~= data);
}

/// An unbounded value is the mark of an unknown total length, its length in four bytes and its
/// data, then four zero bytes that no data needs.
pub proof fn law_unbounded_cell(data: Seq<u8>)
    requires
        data.len() < 0x1_0000_0000,
    ensures
        ({
            let bytes = unbounded_cell_bytes(data);
            let end = 12 + data.len();
            &&& bytes.len() == if data.len() == 0 {
                end
            } else {
                end + 4
            }
            &&& number_at(bytes, 0, 8) == 0xFFFF_FFFF_FFFF_FFFE
            &&& number_at(bytes, 8, 4) == data.len()
            &&& bytes.subrange(12, end as int) == data
            &&& data.len() > 0 ==> number_at(bytes, end as int, 4) == 0
        }),
{
    let bytes = unbounded_cell_bytes(data);
    let mark = 0xFFFF_FFFF_FFFF_FFFEnat;
    let end = 12 + data.len();
    lemma_byte_ranges();
    lemma_le_bytes_len(mark, 8);
    lemma_le_bytes_len(data.len(), 4);
    lemma_le_bytes_len(0, 4);
    assert forall|i: int| 0 <= i < 8 implies #[trigger] bytes[0 + i] == le_bytes(mark, 8)[i] by {}
    lemma_number_at(bytes, 0, mark, 8);
    assert forall|i: int| 0 <= i < 4 implies #[trigger] bytes[8 + i] == le_bytes(
        data.len(),
        4,
    )[i] by {}
    lemma_number_at(bytes, 8, data.len(), 4);
    assert(bytes.subrange(12, end as int) =~= data);
    if data.len() > 0 {
        assert forall|i: int| 0 <= i < 4 implies #[trigger] bytes[end + i] == le_bytes(
            0,
            4,
        )[i] by {}
        lemma_number_at(bytes, end as int, 0, 4);
    }
}

/// The data of a variable-width cell, read from its bytes.
pub open spec fn cell_data(bytes: Seq<u8>, unbounded: bool) -> Seq<u8> {
    if unbounded {
        bytes.subrange(12, 12 + number_at(bytes, 8, 4) as int)
    } else {
        bytes.subrange(2, 2 + number_at(bytes, 0, 2) as int)
    }
}

/// Bytes are read back from their cell.
pub proof fn law_binary_cell(data: Seq<u8>, unbounded: bool)
    requires
        data.len() < 0x1_0000_0000,
        !unbounded ==> data.len() < 0x1_0000,
    ensures
        cell_data(cell_bytes(DirectCellOf::Binary { bytes: data, unbounded }), unbounded) == data,
{
    if unbounded {
        law_unbounded_cell(data);
    } else {
        law_bounded_cell(data);
        let bytes = bounded_cell_bytes(data);
        assert(bytes.subrange(2, 2 + data.len() as int) =~= bytes.skip(2));
    }
}

/// A text is read back from its cell, two bytes per code unit.
pub proof fn law_text_cell(text: Seq<char>, unbounded: bool)
    requires
        2 * unit_count(text) < 0x1_0000_0000,
        !unbounded ==> 2 * unit_count(text) < 0x1_0000,
    ensures
        ({
            let data = cell_data(cell_bytes(DirectCellOf::NVarChar { text, unbounded }), unbounded);
            &&& data.len() == 2 * unit_count(text)
            &&& code_points_from(data, 0) == code_points(text)
        }),
{
    law_utf16_reads_back(text, text);
    law_binary_cell(utf16_le(text), unbounded);
}

/// A null of a type with a length byte is a zero length; that of a variable-width type is all
/// ones.
pub proof fn law_null_cells()
    ensures
        cell_bytes(DirectCellOf::NullByte) == seq![0u8],
        cell_bytes(DirectCellOf::NullShort) == seq![255u8, 255],
        cell_bytes(DirectCellOf::NullLong) == seq![255u8, 255, 255, 255, 255, 255, 255, 255],
{
    assert(cell_bytes(DirectCellOf::NullShort) =~= seq![255u8, 255]);
    assert(cell_bytes(DirectCellOf::NullLong) =~= seq![255u8, 255, 255, 255, 255, 255, 255, 255]);
}

} // verus!
