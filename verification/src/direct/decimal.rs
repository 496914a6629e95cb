//! SQL Server decimal/numeric cells of a TDS row payload.

use vstd::prelude::*;

use crate::decimal::pow10;
use crate::diagnostic::{invalid_payload, outcome, payload_error, Result};
use crate::direct::wire::{
    append_le, byte_range, law_le_bytes_round_trip, le_bytes, le_value, lemma_le_bytes_len, splice,
    write_le,
};
use crate::message::Fault;

verus! {

/// Length of a null decimal cell.
pub const NULL_DECIMAL_CELL_LEN: usize = 1;

/// Length of the sign of a decimal.
pub const DECIMAL_SIGN_LEN: usize = 1;

/// Sign byte of a negative decimal.
pub const DECIMAL_NEGATIVE_SIGN: u8 = 0;

/// Sign byte of any other decimal.
pub const DECIMAL_POSITIVE_SIGN: u8 = 1;

/// The number of decimal digits of a magnitude.
pub open spec fn digit_count(magnitude: nat) -> nat
    decreases magnitude,
{
    if magnitude < 10 {
        1
    } else {
        1 + digit_count(magnitude / 10)
    }
}

/// The number of bytes of a magnitude, by its number of decimal digits.
pub open spec fn magnitude_len(magnitude: nat) -> nat {
    let digits = digit_count(magnitude);
    if digits <= 9 {
        4
    } else if digits <= 19 {
        8
    } else if digits <= 28 {
        12
    } else {
        16
    }
}

/// The absolute value of an unscaled decimal.
pub open spec fn magnitude(unscaled: i128) -> nat {
    if unscaled < 0 {
        (-unscaled) as nat
    } else {
        unscaled as nat
    }
}

/// The sign byte of a decimal.
pub open spec fn sign_byte(unscaled: i128) -> u8 {
    if unscaled < 0 {
        DECIMAL_NEGATIVE_SIGN
    } else {
        DECIMAL_POSITIVE_SIGN
    }
}

/// The length byte value of a decimal: its sign and its magnitude.
pub open spec fn value_len(unscaled: i128) -> nat {
    1 + magnitude_len(magnitude(unscaled))
}

/// The bytes of a decimal cell: length, sign, magnitude.
pub open spec fn decimal_cell_bytes(unscaled: i128) -> Seq<u8> {
    seq![value_len(unscaled) as u8, sign_byte(unscaled)] + le_bytes(
        magnitude(unscaled),
        magnitude_len(magnitude(unscaled)),
    )
}

/// The bytes of a null decimal cell.
pub open spec fn null_decimal_cell_bytes() -> Seq<u8> {
    seq![0u8]
}

/// A magnitude is below the power of ten of its number of digits.
proof fn lemma_magnitude_below_power(magnitude: nat)
    ensures
        magnitude < pow10(digit_count(magnitude)),
    decreases magnitude,
{
    reveal(vstd::arithmetic::power::pow);
    if magnitude < 10 {
        reveal_with_fuel(vstd::arithmetic::power::pow, 2);
    } else {
        lemma_magnitude_below_power(magnitude / 10);
        assert(pow10(digit_count(magnitude)) == 10 * pow10(digit_count(magnitude / 10)));
    }
}

/// The powers of ten at which magnitudes grow.
proof fn lemma_pow10_values()
    ensures
        pow10(1) == 10,
        pow10(9) == 1_000_000_000,
        pow10(19) == 10_000_000_000_000_000_000,
        pow10(28) == 10_000_000_000_000_000_000_000_000_000,
        pow10(39) == 1_000_000_000_000_000_000_000_000_000_000_000_000_000int,
{
    reveal_with_fuel(vstd::arithmetic::power::pow, 40);
}

/// Powers of ten do not shrink with the exponent.
proof fn lemma_pow10_monotone(low: nat, high: nat)
    requires
        low <= high,
    ensures
        pow10(low) <= pow10(high),
{
    vstd::arithmetic::power::lemma_pow_increases(10, low, high);
}

/// The bytes of a magnitude can hold it.
pub proof fn lemma_magnitude_fits(value: u128)
    ensures
        value < byte_range(magnitude_len(value as nat)),
{
    lemma_magnitude_below_power(value as nat);
    let digits = digit_count(value as nat);
    lemma_pow10_values();
    reveal_with_fuel(byte_range, 17);
    if digits <= 9 {
        lemma_pow10_monotone(digits, 9);
    } else if digits <= 19 {
        lemma_pow10_monotone(digits, 19);
    } else if digits <= 28 {
        lemma_pow10_monotone(digits, 28);
    }
}

/// Returns the byte length of a non-null decimal cell in a TDS row payload.
pub fn decimal_cell_len(unscaled: i128) -> (len: usize)
    ensures
        len == decimal_cell_bytes(unscaled).len(),
        len == 1 + value_len(unscaled),
        6 <= len <= 18,
{
    proof {
        lemma_le_bytes_len(magnitude(unscaled), magnitude_len(magnitude(unscaled)));
    }
    NULL_DECIMAL_CELL_LEN + decimal_value_len(unscaled)
}

/// Writes a SQL Server NULL decimal cell into an exactly sized cell buffer.
pub fn write_null_decimal_cell(dst: &mut [u8]) -> (result: Result<()>)
    ensures
        old(dst)@.len() == NULL_DECIMAL_CELL_LEN ==> result is Ok && final(dst)@
            == null_decimal_cell_bytes(),
        old(dst)@.len() != NULL_DECIMAL_CELL_LEN ==> outcome(result) == Err::<(), _>(
            payload_error((Fault::NullDecimalLength { len: old(dst)@.len() as usize })),
        ) && final(dst)@ == old(dst)@,
{
    if dst.len() != NULL_DECIMAL_CELL_LEN {
        return Err(invalid_payload(Fault::NullDecimalLength { len: dst.len() }));
    }
    dst[0] = 0;
    assert(dst@ =~= null_decimal_cell_bytes());
    Ok(())
}

/// Writes a non-null SQL Server decimal cell into an exactly sized cell buffer.
pub fn write_decimal_cell(dst: &mut [u8], unscaled: i128) -> (result: Result<()>)
    ensures
        old(dst)@.len() == decimal_cell_bytes(unscaled).len() ==> result is Ok && final(dst)@
            == decimal_cell_bytes(unscaled),
        old(dst)@.len() != decimal_cell_bytes(unscaled).len() ==> outcome(result) == Err::<(), _>(
            payload_error(
                (Fault::DecimalLength {
                    len: old(dst)@.len() as usize,
                    expected: decimal_cell_bytes(unscaled).len() as usize,
                }),
            ),
        ) && final(dst)@ == old(dst)@,
{
    let expected: usize = decimal_cell_len(unscaled);
    if dst.len() != expected {
        return Err(invalid_payload(Fault::DecimalLength { len: dst.len(), expected }));
    }
    write_decimal_value(dst, unscaled)
}

/// Appends a SQL Server NULL decimal cell to a row buffer.
pub fn append_null_decimal_cell(buf: &mut Vec<u8>)
    ensures
        final(buf)@ == old(buf)@ + null_decimal_cell_bytes(),
{
    buf.push(0);
    assert(buf@ =~= old(buf)@ + null_decimal_cell_bytes());
}

/// Appends a non-null SQL Server decimal cell to a row buffer.
pub fn append_decimal_cell(buf: &mut Vec<u8>, unscaled: i128) -> (result: Result<()>)
    ensures
        result is Ok,
        final(buf)@ == old(buf)@ + decimal_cell_bytes(unscaled),
{
    let len: usize = decimal_value_len(unscaled);
    buf.push(len as u8);
    buf.push(decimal_sign(unscaled));
    let result = append_decimal_magnitude(buf, unsigned_magnitude(unscaled));
    assert(buf@ =~= old(buf)@ + decimal_cell_bytes(unscaled));
    result
}

/// Writes length, sign and magnitude of a decimal into a buffer of the cell's length.
pub fn write_decimal_value(dst: &mut [u8], unscaled: i128) -> (result: Result<()>)
    requires
        old(dst)@.len() == decimal_cell_bytes(unscaled).len(),
    ensures
        result is Ok,
        final(dst)@ == decimal_cell_bytes(unscaled),
{
    proof {
        lemma_le_bytes_len(magnitude(unscaled), magnitude_len(magnitude(unscaled)));
    }
    let len: usize = decimal_value_len(unscaled);
    dst[0] = len as u8;
    dst[1] = decimal_sign(unscaled);
    let result = write_decimal_magnitude(dst, 2, unsigned_magnitude(unscaled));
    assert(dst@ =~= decimal_cell_bytes(unscaled));
    result
}

/// Returns the absolute value of an unscaled decimal.
fn unsigned_magnitude(unscaled: i128) -> (result: u128)
    ensures
        result == magnitude(unscaled),
{
    if unscaled < 0 {
        (-(unscaled + 1)) as u128 + 1
    } else {
        unscaled as u128
    }
}

/// Returns the length of the sign and the magnitude of a decimal.
pub fn decimal_value_len(unscaled: i128) -> (len: usize)
    ensures
        len == value_len(unscaled),
        5 <= len <= 17,
{
    DECIMAL_SIGN_LEN + decimal_magnitude_len(unsigned_magnitude(unscaled))
}

/// Returns the sign byte of a decimal.
pub fn decimal_sign(unscaled: i128) -> (sign: u8)
    ensures
        sign == sign_byte(unscaled),
{
    if unscaled < 0 {
        DECIMAL_NEGATIVE_SIGN
    } else {
        DECIMAL_POSITIVE_SIGN
    }
}

/// Returns the number of bytes of a magnitude.
pub fn decimal_magnitude_len(magnitude: u128) -> (len: usize)
    ensures
        len == magnitude_len(magnitude as nat),
        4 <= len <= 16,
{
    let digits: u8 = decimal_precision(magnitude);
    if digits <= 9 {
        4
    } else if digits <= 19 {
        8
    } else if digits <= 28 {
        12
    } else {
        16
    }
}

/// Returns the number of decimal digits of a magnitude.
pub fn decimal_precision(magnitude: u128) -> (digits: u8)
    ensures
        digits == digit_count(magnitude as nat),
        1 <= digits <= 39,
{
    let mut rest: u128 = magnitude;
    let mut digits: u8 = 1;
    proof {
        lemma_pow10_values();
    }
    while rest >= 10
        invariant
            1 <= digits <= 39,
            rest < pow10((40 - digits) as nat),
            digits - 1 + digit_count(rest as nat) == digit_count(magnitude as nat),
        decreases rest,
    {
        proof {
            assert(pow10((40 - digits) as nat) == 10 * pow10((39 - digits) as nat)) by {
                reveal(vstd::arithmetic::power::pow);
            }
            lemma_pow10_values();
        }
        rest = rest / 10;
        digits += 1;
    }
    digits
}

/// Writes a magnitude into its bytes of a buffer.
pub fn write_decimal_magnitude(dst: &mut [u8], start: usize, magnitude: u128) -> (result: Result<
    (),
>)
    requires
        start + magnitude_len(magnitude as nat) <= old(dst)@.len(),
    ensures
        result is Ok,
        final(dst)@ == splice(
            old(dst)@,
            start as int,
            le_bytes(magnitude as nat, magnitude_len(magnitude as nat)),
        ),
{
    write_le(dst, start, magnitude, decimal_magnitude_len(magnitude));
    Ok(())
}

/// Appends a magnitude to a row buffer.
pub fn append_decimal_magnitude(buf: &mut Vec<u8>, magnitude: u128) -> (result: Result<()>)
    ensures
        result is Ok,
        final(buf)@ == old(buf)@ + le_bytes(magnitude as nat, magnitude_len(magnitude as nat)),
{
    append_le(buf, magnitude, decimal_magnitude_len(magnitude));
    Ok(())
}

/// The unscaled value that a decimal cell stands for.
pub open spec fn decode_decimal_cell(bytes: Seq<u8>) -> int {
    let magnitude = le_value(bytes.skip(2));
    if bytes[1] == DECIMAL_NEGATIVE_SIGN {
        -(magnitude as int)
    } else {
        magnitude as int
    }
}

/// A decimal cell holds its value: the length byte counts the bytes behind it, and sign and
/// magnitude give the unscaled value back.
pub proof fn law_decimal_cell_round_trip(unscaled: i128)
    ensures
        decimal_cell_bytes(unscaled).len() == 1 + decimal_cell_bytes(unscaled)[0],
        decode_decimal_cell(decimal_cell_bytes(unscaled)) == unscaled,
{
    let value = magnitude(unscaled);
    lemma_magnitude_fits(value as u128);
    law_le_bytes_round_trip(value, magnitude_len(value));
    assert(decimal_cell_bytes(unscaled).skip(2) =~= le_bytes(value, magnitude_len(value)));
}

/// No decimal is written as a null is.
pub proof fn law_null_decimal_is_no_value(unscaled: i128)
    ensures
        decimal_cell_bytes(unscaled) != null_decimal_cell_bytes(),
{
    lemma_le_bytes_len(magnitude(unscaled), magnitude_len(magnitude(unscaled)));
    assert(decimal_cell_bytes(unscaled).len() != null_decimal_cell_bytes().len());
}

} // verus!
