//! Readers of numbers and texts.

use vstd::arithmetic::power::pow;
use vstd::prelude::*;

use crate::direct::wire::{byte_range, le_bytes, lemma_le_bytes_len};
use crate::utf16::{char_units, units_le, utf16_le, utf16_units};

verus! {

/// The number that `count` bytes from a place on stand for, the first of them weighing least.
pub open spec fn number_at(bytes: Seq<u8>, at: int, count: nat) -> nat
    decreases count,
{
    if count == 0 {
        0
    } else {
        bytes[at] as nat + 256 * number_at(bytes, at + 1, (count - 1) as nat)
    }
}

/// A number of `bits` bits in two's complement, read with its sign.
pub open spec fn signed(pattern: int, bits: nat) -> int {
    if 2 * pattern >= pow(2, bits) {
        pattern - pow(2, bits)
    } else {
        pattern
    }
}

/// A number that stands in bytes is read from them.
pub proof fn lemma_number_at(bytes: Seq<u8>, at: int, value: nat, width: nat)
    requires
        value < byte_range(width),
        0 <= at,
        at + width <= bytes.len(),
        forall|i: int| 0 <= i < width ==> #[trigger] bytes[at + i] == le_bytes(value, width)[i],
    ensures
        number_at(bytes, at, width) == value,
    decreases width,
{
    if width > 0 {
        let rest = le_bytes(value / 256, (width - 1) as nat);
        lemma_le_bytes_len(value / 256, (width - 1) as nat);
        assert(bytes[at + 0] == le_bytes(value, width)[0]);
        assert forall|i: int| 0 <= i < width - 1 implies #[trigger] bytes[(at + 1) + i]
            == rest[i] by {
            assert(bytes[at + (i + 1)] == le_bytes(value, width)[i + 1]);
        }
        lemma_number_at(bytes, at + 1, value / 256, (width - 1) as nat);
    }
}

/// The widths of numbers in bytes.
pub proof fn lemma_byte_ranges()
    ensures
        byte_range(1) == 0x100,
        byte_range(2) == 0x1_0000,
        byte_range(3) == 0x100_0000,
        byte_range(4) == 0x1_0000_0000,
        byte_range(5) == 0x100_0000_0000,
        byte_range(8) == 0x1_0000_0000_0000_0000,
        byte_range(12) == 0x1_0000_0000_0000_0000_0000_0000int,
        byte_range(16) == 0x1_0000_0000_0000_0000_0000_0000_0000_0000int,
{
    reveal_with_fuel(byte_range, 17);
}

/// The powers of two of numbers in bytes.
pub proof fn lemma_sign_ranges()
    ensures
        pow(2, 16) == 0x1_0000,
        pow(2, 32) == 0x1_0000_0000,
        pow(2, 64) == 0x1_0000_0000_0000_0000,
{
    reveal_with_fuel(pow, 17);
    vstd::arithmetic::power::lemma_pow_adds(2, 16, 16);
    vstd::arithmetic::power::lemma_pow_adds(2, 32, 32);
    assert(0x1_0000_0000int * 0x1_0000_0000int == 0x1_0000_0000_0000_0000int) by (nonlinear_arith);
}

/// The powers of ten of fractional seconds.
pub proof fn lemma_tens()
    ensures
        pow(10, 0) == 1,
        pow(10, 1) == 10,
        pow(10, 2) == 100,
        pow(10, 3) == 1_000,
        pow(10, 4) == 10_000,
        pow(10, 5) == 100_000,
        pow(10, 6) == 1_000_000,
        pow(10, 7) == 10_000_000,
{
    reveal_with_fuel(pow, 9);
}

/// The UTF-16 code unit at a place of little-endian bytes.
pub open spec fn unit_at(bytes: Seq<u8>, index: int) -> int {
    bytes[2 * index] + 256 * bytes[2 * index + 1]
}

/// The code points of UTF-16LE bytes from a code unit on.
///
/// A unit outside `0xD800..=0xDFFF` is a code point; any other starts a pair.
pub open spec fn code_points_from(bytes: Seq<u8>, index: int) -> Seq<int>
    decreases bytes.len() + 4 - 2 * index,
{
    if index < 0 || 2 * index + 2 > bytes.len() {
        Seq::empty()
    } else {
        let first = unit_at(bytes, index);
        if first < 0xD800 || first > 0xDFFF {
            seq![first] + code_points_from(bytes, index + 1)
        } else {
            seq![0x1_0000 + (first - 0xD800) * 0x400 + (unit_at(bytes, index + 1) - 0xDC00)]
                + code_points_from(bytes, index + 2)
        }
    }
}

/// The code points of a text.
pub open spec fn code_points(text: Seq<char>) -> Seq<int> {
    Seq::new(text.len(), |i: int| (text[i] as u32) as int)
}

/// The number of UTF-16 code units of a text: two for a character above `U+FFFF`, else one.
pub open spec fn unit_count(text: Seq<char>) -> nat
    decreases text.len(),
{
    if text.len() == 0 {
        0
    } else {
        unit_count(text.drop_first()) + if (text[0] as u32) > 0xFFFF {
            2nat
        } else {
            1
        }
    }
}

/// The code units of a text are those of its first character and those of the rest.
proof fn lemma_units_of_first(text: Seq<char>)
    requires
        text.len() > 0,
    ensures
        utf16_units(text) == char_units(text[0]) + utf16_units(text.drop_first()),
    decreases text.len(),
{
    if text.len() == 1 {
        assert(text.drop_last() =~= Seq::<char>::empty());
        assert(text.drop_first() =~= Seq::<char>::empty());
        assert(utf16_units(text) =~= char_units(text[0]) + utf16_units(text.drop_first()));
    } else {
        lemma_units_of_first(text.drop_last());
        assert(text.drop_last().drop_first() =~= text.drop_first().drop_last());
        assert(utf16_units(text) =~= char_units(text[0]) + utf16_units(text.drop_first()));
    }
}

/// The number of code units of a text.
pub proof fn lemma_unit_count(text: Seq<char>)
    ensures
        utf16_units(text).len() == unit_count(text),
        utf16_le(text).len() == 2 * unit_count(text),
    decreases text.len(),
{
    if text.len() > 0 {
        lemma_units_of_first(text);
        lemma_unit_count(text.drop_first());
    }
}

/// Code units that stand in bytes from a place on are read from there.
proof fn lemma_read_units(text: Seq<char>, bytes: Seq<u8>, index: int)
    requires
        0 <= index,
        bytes.len() == 2 * (index + utf16_units(text).len()),
        forall|i: int|
            0 <= i < 2 * utf16_units(text).len() ==> #[trigger] bytes[2 * index + i] == units_le(
                utf16_units(text),
            )[i],
    ensures
        code_points_from(bytes, index) == code_points(text),
    decreases text.len(),
{
    let units = utf16_units(text);
    if text.len() == 0 {
        assert(code_points_from(bytes, index) =~= code_points(text));
    } else {
        let rest = text.drop_first();
        let first = char_units(text[0]);
        let width = first.len() as int;
        lemma_units_of_first(text);
        vstd::utf8::char_is_scalar(text[0]);
        assert(units == first + utf16_units(rest));
        assert forall|i: int| 0 <= i < 2 * utf16_units(rest).len() implies #[trigger] bytes[2 * (
        index + width) + i] == units_le(utf16_units(rest))[i] by {
            assert(bytes[2 * index + (2 * width + i)] == units_le(units)[2 * width + i]);
            assert(units[(2 * width + i) / 2] == utf16_units(rest)[i / 2]);
        }
        lemma_read_units(rest, bytes, index + width);
        assert(bytes[2 * index + 0] == units_le(units)[0]);
        assert(bytes[2 * index + 1] == units_le(units)[1]);
        assert(units[0] == first[0]);
        assert(unit_at(bytes, index) == first[0]);
        let c = (text[0] as u32) as int;
        if c >= 0x1_0000 {
            assert(bytes[2 * index + 2] == units_le(units)[2]);
            assert(bytes[2 * index + 3] == units_le(units)[3]);
            assert(units[1] == first[1]);
            assert(unit_at(bytes, index + 1) == first[1]);
        }
        assert(code_points(text) =~= seq![c] + code_points(rest));
        assert(code_points_from(bytes, index) =~= code_points(text));
    }
}

/// UTF-16 loses nothing: the code points of a text are read back from its bytes, so different
/// texts have different bytes.
pub proof fn law_utf16_reads_back(text: Seq<char>, other: Seq<char>)
    ensures
        utf16_le(text).len() == 2 * unit_count(text),
        code_points_from(utf16_le(text), 0) == code_points(text),
        utf16_le(text) == utf16_le(other) ==> text == other,
{
    lemma_unit_count(text);
    lemma_unit_count(other);
    assert forall|i: int| 0 <= i < 2 * utf16_units(text).len() implies #[trigger] utf16_le(
        text,
    )[2 * 0 + i] == units_le(utf16_units(text))[i] by {}
    lemma_read_units(text, utf16_le(text), 0);
    assert forall|i: int| 0 <= i < 2 * utf16_units(other).len() implies #[trigger] utf16_le(
        other,
    )[2 * 0 + i] == units_le(utf16_units(other))[i] by {}
    lemma_read_units(other, utf16_le(other), 0);
    if utf16_le(text) == utf16_le(other) {
        assert(code_points(text).len() == code_points(other).len());
        assert forall|i: int| 0 <= i < text.len() implies text[i] == other[i] by {
            assert(code_points(text)[i] == code_points(other)[i]);
            vstd::utf8::char_u32_cast(text[i], text[i] as u32);
            vstd::utf8::char_u32_cast(other[i], other[i] as u32);
        }
        assert(text =~= other);
    }
}

} // verus!
