//! Rendering of numbers into diagnostic text.

use vstd::prelude::*;

verus! {

/// The character of one decimal digit.
pub open spec fn digit_char(digit: nat) -> char {
    ('0' as nat + digit) as char
}

/// The shortest decimal numeral of `n`.
pub open spec fn decimal_text(n: nat) -> Seq<char>
    decreases n,
{
    if n < 10 {
        seq![digit_char(n)]
    } else {
        decimal_text(n / 10).push(digit_char(n % 10))
    }
}

/// The shortest decimal numeral of `n`, with a leading `-` when it is negative.
pub open spec fn int_text(n: int) -> Seq<char> {
    if n < 0 {
        "-"@ + decimal_text((-n) as nat)
    } else {
        decimal_text(n as nat)
    }
}

/// The character of one upper-case hexadecimal digit.
pub open spec fn hex_char(digit: nat) -> char {
    if digit < 10 {
        digit_char(digit)
    } else {
        ('A' as nat + digit - 10) as char
    }
}

/// The two upper-case hexadecimal digits of a byte.
pub open spec fn hex_byte_text(byte: u8) -> Seq<char> {
    seq![hex_char((byte / 16) as nat), hex_char((byte % 16) as nat)]
}

/// The text of one hexadecimal digit.
fn hex_digit(digit: u8) -> (text: &'static str)
    requires
        digit < 16,
    ensures
        text@ == seq![hex_char(digit as nat)],
{
    proof {
        reveal_strlit("0");
        reveal_strlit("1");
        reveal_strlit("2");
        reveal_strlit("3");
        reveal_strlit("4");
        reveal_strlit("5");
        reveal_strlit("6");
        reveal_strlit("7");
        reveal_strlit("8");
        reveal_strlit("9");
        reveal_strlit("A");
        reveal_strlit("B");
        reveal_strlit("C");
        reveal_strlit("D");
        reveal_strlit("E");
        reveal_strlit("F");
    }
    match digit {
        0 => "0",
        1 => "1",
        2 => "2",
        3 => "3",
        4 => "4",
        5 => "5",
        6 => "6",
        7 => "7",
        8 => "8",
        9 => "9",
        10 => "A",
        11 => "B",
        12 => "C",
        13 => "D",
        14 => "E",
        _ => "F",
    }
}

/// Appends the decimal numeral of an unsigned number.
pub fn append_decimal(out: &mut String, n: u128)
    ensures
        final(out)@ == old(out)@ + decimal_text(n as nat),
    decreases n,
{
    if n >= 10 {
        append_decimal(out, n / 10);
    }
    let ghost prefix = out@;
    out.append(hex_digit((n % 10) as u8));
    proof {
        assert(out@ =~= prefix.push(digit_char((n % 10) as nat)));
        assert(out@ =~= old(out)@ + decimal_text(n as nat));
    }
}

/// Appends the decimal numeral of a length, an index or a count.
pub fn append_usize(out: &mut String, n: usize)
    ensures
        final(out)@ == old(out)@ + decimal_text(n as nat),
{
    append_decimal(out, n as u128);
}

/// Appends the decimal numeral of a signed number.
pub fn append_int(out: &mut String, n: i128)
    ensures
        final(out)@ == old(out)@ + int_text(n as int),
{
    if n < 0 {
        out.append("-");
        let magnitude: u128 = (-(n + 1)) as u128 + 1;
        append_decimal(out, magnitude);
        assert(old(out)@ + "-"@ + decimal_text((-n) as nat) =~= old(out)@ + int_text(n as int));
    } else {
        append_decimal(out, n as u128);
    }
}

/// Appends the two upper-case hexadecimal digits of a byte.
pub fn append_hex_byte(out: &mut String, byte: u8)
    ensures
        final(out)@ == old(out)@ + hex_byte_text(byte),
{
    out.append(hex_digit(byte / 16));
    out.append(hex_digit(byte % 16));
    assert(out@ =~= old(out)@ + hex_byte_text(byte));
}

/// The text of a truth value.
pub open spec fn bool_text(value: bool) -> Seq<char> {
    if value {
        "true"@
    } else {
        "false"@
    }
}

/// Appends the text of a truth value.
pub fn append_bool(out: &mut String, value: bool)
    ensures
        final(out)@ == old(out)@ + bool_text(value),
{
    if value {
        out.append("true");
    } else {
        out.append("false");
    }
}

/// The decimal numerals of bytes, separated by commas.
pub open spec fn byte_list_text(bytes: Seq<u8>) -> Seq<char>
    decreases bytes.len(),
{
    if bytes.len() == 0 {
        seq![]
    } else if bytes.len() == 1 {
        decimal_text(bytes[0] as nat)
    } else {
        byte_list_text(bytes.drop_last()) + ", "@ + decimal_text(bytes.last() as nat)
    }
}

/// The decimal numerals of bytes, in square brackets.
pub open spec fn bytes_text(bytes: Seq<u8>) -> Seq<char> {
    "["@ + byte_list_text(bytes) + "]"@
}

/// Appends the decimal numerals of bytes, in square brackets.
pub fn append_bytes(out: &mut String, bytes: &[u8])
    ensures
        final(out)@ == old(out)@ + bytes_text(bytes@),
{
    let ghost before = out@;
    out.append("[");
    let mut index: usize = 0;
    while index < bytes.len()
        invariant
            index <= bytes@.len(),
            before == old(out)@,
            out@ =~= before + "["@ + byte_list_text(bytes@.take(index as int)),
        decreases bytes@.len() - index,
    {
        let ghost shown = bytes@.take(index as int);
        if index > 0 {
            out.append(", ");
        }
        append_decimal(out, bytes[index] as u128);
        index += 1;
        proof {
            let longer = bytes@.take(index as int);
            assert(longer.drop_last() =~= shown);
            assert(longer.last() == bytes@[index - 1]);
        }
    }
    assert(bytes@.take(index as int) =~= bytes@);
    out.append("]");
    assert(out@ =~= before + bytes_text(bytes@));
}

/// The text of a string as [`std::fmt::Debug`] writes it: in double quotes, with escapes.
pub uninterp spec fn quoted_text(text: Seq<char>) -> Seq<char>;

/// The quoted, escaped form of a string.
///
/// Calls the `Debug` formatting of `str` in the standard library. The contract only names the
/// result, which depends on nothing but the text: which characters are escaped is left unsaid.
#[verifier::external_body]
pub(crate) fn quoted(text: &str) -> (result: String)
    ensures
        result@ == quoted_text(text@),
{
    format!("{text:?}")
}

} // verus!
