//! Laws of the texts of numbers and types.

use vstd::arithmetic::power::{lemma_pow_strictly_increases, pow};
use vstd::prelude::*;

use crate::arrow_type::{data_type_text, ArrowType, DataTypeView, TimeUnit};
use crate::decimal::{fits_precision, pow10_in_i128};
use crate::mssql_type::{
    mssql_type_debug_text, mssql_type_text, MssqlTimePrecision, MssqlType, MssqlTypeLength,
};
use crate::text::{byte_list_text, decimal_text, hex_byte_text, int_text};

verus! {

/// Whether a character is a decimal digit.
pub open spec fn is_digit(c: char) -> bool {
    48 <= c as int <= 57
}

/// The number that decimal digits stand for.
pub open spec fn number_of(digits: Seq<char>) -> int
    decreases digits.len(),
{
    if digits.len() == 0 {
        0
    } else {
        10 * number_of(digits.drop_last()) + (digits.last() as int - 48)
    }
}

/// The number that decimal digits stand for, below zero behind a minus sign.
pub open spec fn signed_number_of(text: Seq<char>) -> int {
    if text.len() > 0 && text[0] as int == 45 {
        -number_of(text.skip(1))
    } else {
        number_of(text)
    }
}

/// The number that a hexadecimal digit stands for.
pub open spec fn hex_value(c: char) -> int {
    if c as int >= 65 {
        c as int - 55
    } else {
        c as int - 48
    }
}

/// The numeral of a number is digits that stand for it, and starts with zero only for zero.
pub proof fn law_numerals_read_back(n: nat)
    ensures
        decimal_text(n).len() > 0,
        forall|i: int| 0 <= i < decimal_text(n).len() ==> is_digit(#[trigger] decimal_text(n)[i]),
        number_of(decimal_text(n)) == n,
        decimal_text(n)[0] as int == 48 ==> n == 0 && decimal_text(n).len() == 1,
    decreases n,
{
    let text = decimal_text(n);
    if n < 10 {
        assert(text.last() as int == 48 + n);
        assert(text.drop_last().len() == 0);
        reveal_with_fuel(number_of, 2);
    } else {
        law_numerals_read_back(n / 10);
        assert(text.drop_last() =~= decimal_text(n / 10));
        assert(text.last() as int == 48 + n % 10);
        assert forall|i: int| 0 <= i < text.len() implies is_digit(#[trigger] text[i]) by {
            if i < text.len() - 1 {
                assert(text[i] == decimal_text(n / 10)[i]);
            }
        }
        assert(text[0] == decimal_text(n / 10)[0]);
    }
}

/// The numeral of a signed number stands for it, with a minus sign exactly below zero.
pub proof fn law_signed_numerals_read_back(n: int)
    ensures
        signed_number_of(int_text(n)) == n,
        int_text(n).len() > 0,
        int_text(n)[0] as int == 45 <==> n < 0,
        forall|i: int| 1 <= i < int_text(n).len() ==> is_digit(#[trigger] int_text(n)[i]),
        is_digit(int_text(n)[0]) || int_text(n)[0] as int == 45,
{
    reveal_strlit("-");
    if n < 0 {
        law_numerals_read_back((-n) as nat);
        assert(int_text(n).skip(1) =~= decimal_text((-n) as nat));
        assert forall|i: int| 1 <= i < int_text(n).len() implies is_digit(
            #[trigger] int_text(n)[i],
        ) by {
            assert(int_text(n)[i] == decimal_text((-n) as nat)[i - 1]);
        }
    } else {
        law_numerals_read_back(n as nat);
    }
}

/// The hexadecimal digits of a byte stand for it.
pub proof fn law_hexadecimal_digits_read_back(byte: u8)
    ensures
        hex_byte_text(byte).len() == 2,
        16 * hex_value(hex_byte_text(byte)[0]) + hex_value(hex_byte_text(byte)[1]) == byte,
        forall|i: int|
            0 <= i < 2 ==> is_digit(#[trigger] hex_byte_text(byte)[i]) || 65 <= hex_byte_text(
                byte,
            )[i] as int <= 70,
{
}

/// Equal lists are of equal bytes.
pub proof fn law_byte_lists_tell_bytes_apart(left: Seq<u8>, right: Seq<u8>)
    ensures
        byte_list_text(left) == byte_list_text(right) ==> left == right,
    decreases left.len(),
{
    if byte_list_text(left) == byte_list_text(right) {
        lemma_byte_list(left);
        lemma_byte_list(right);
        if left.len() > 0 && right.len() > 0 {
            let text = byte_list_text(left);
            let l = decimal_text(left.last() as nat);
            let r = decimal_text(right.last() as nat);
            law_numerals_read_back(left.last() as nat);
            law_numerals_read_back(right.last() as nat);
            if l.len() < r.len() {
                let at = text.len() - l.len() - 1;
                assert(is_digit(r[at - (text.len() - r.len())]));
                assert(text[at] == r[at - (text.len() - r.len())]);
                if left.len() > 1 {
                    assert(text[at] as int == 32);
                }
                assert(false);
            }
            if r.len() < l.len() {
                let at = text.len() - r.len() - 1;
                assert(is_digit(l[at - (text.len() - l.len())]));
                assert(text[at] == l[at - (text.len() - l.len())]);
                if right.len() > 1 {
                    assert(text[at] as int == 32);
                }
                assert(false);
            }
            assert(l =~= r) by {
                assert forall|i: int| 0 <= i < l.len() implies l[i] == r[i] by {
                    assert(text[text.len() - l.len() + i] == l[i]);
                    assert(text[text.len() - l.len() + i] == r[i]);
                }
            }
            if left.len() > 1 && right.len() > 1 {
                let end = text.len() - l.len() - 2;
                assert(byte_list_text(left.drop_last()) =~= text.take(end));
                assert(byte_list_text(right.drop_last()) =~= text.take(end));
                law_byte_lists_tell_bytes_apart(left.drop_last(), right.drop_last());
            }
            assert(left =~= left.drop_last().push(left.last()));
            assert(right =~= right.drop_last().push(right.last()));
            if left.len() == 1 && right.len() > 1 {
                assert(text.len() == l.len());
                assert(false);
            }
            if right.len() == 1 && left.len() > 1 {
                assert(text.len() == r.len());
                assert(false);
            }
            if left.len() == 1 {
                assert(left.drop_last() =~= right.drop_last());
            }
        } else {
            assert(left =~= right);
        }
    }
}

/// The parts of a list of bytes.
proof fn lemma_byte_list(bytes: Seq<u8>)
    ensures
        bytes.len() == 0 ==> byte_list_text(bytes).len() == 0,
        bytes.len() == 1 ==> byte_list_text(bytes) == decimal_text(bytes.last() as nat),
        bytes.len() > 0 ==> byte_list_text(bytes).len() > 0,
        bytes.len() > 1 ==> ({
            let text = byte_list_text(bytes);
            let head = byte_list_text(bytes.drop_last());
            let tail = decimal_text(bytes.last() as nat);
            &&& text.len() == head.len() + 2 + tail.len()
            &&& text[head.len() as int] as int == 44
            &&& text[head.len() as int + 1] as int == 32
            &&& text.take(head.len() as int) == head
            &&& text.skip(head.len() as int + 2) == tail
            &&& forall|i: int|
                0 <= i < tail.len() ==> text[head.len() + 2 + i] == #[trigger] tail[i]
        }),
{
    reveal_strlit(", ");
    if bytes.len() > 0 {
        law_numerals_read_back(bytes.last() as nat);
    }
    if bytes.len() > 1 {
        let text = byte_list_text(bytes);
        let head = byte_list_text(bytes.drop_last());
        assert(text.take(head.len() as int) =~= head);
        assert(text.skip(head.len() as int + 2) =~= decimal_text(bytes.last() as nat));
    }
}

/// Powers of ten start at one and grow tenfold, and 128 bits hold them up to the 38th.
pub proof fn law_powers_of_ten(exponent: nat)
    ensures
        pow10_in_i128(0) == Some(1i128),
        pow10_in_i128(exponent) is Some <==> exponent <= 38,
        exponent < 38 ==> pow10_in_i128(exponent + 1)->0 == 10 * pow10_in_i128(exponent)->0,
{
    assert(pow(10, 0) == 1 && pow(10, 38) == 100_000_000_000_000_000_000_000_000_000_000_000_000
        && pow(10, 39) == 1_000_000_000_000_000_000_000_000_000_000_000_000_000) by {
        reveal_with_fuel(pow, 41);
    }
    if exponent < 38 {
        lemma_pow_strictly_increases(10, exponent, 38);
        if exponent + 1 < 38 {
            lemma_pow_strictly_increases(10, exponent + 1, 38);
        }
    }
    if exponent > 39 {
        lemma_pow_strictly_increases(10, 39, exponent);
    }
    vstd::arithmetic::power::lemma_pow_positive(10, exponent);
    vstd::arithmetic::power::lemma_pow_positive(10, exponent + 1);
    assert(pow(10, exponent + 1) == 10 * pow(10, exponent)) by {
        reveal(pow);
    }
}

/// A value fits a precision of 1 to 38 exactly when its numeral has at most so many digits.
pub proof fn law_precision_counts_digits(value: i128, precision: u8)
    ensures
        fits_precision(value, precision) <==> 1 <= precision <= 38 && decimal_text(
            if value < 0 {
                -value as nat
            } else {
                value as nat
            },
        ).len() <= precision,
{
    let n: nat = if value < 0 {
        -value as nat
    } else {
        value as nat
    };
    law_powers_of_ten(precision as nat);
    if precision > 0 {
        lemma_digits(n, precision as nat);
    }
}

/// A numeral has at most `count` digits below the power of ten.
proof fn lemma_digits(n: nat, count: nat)
    requires
        count > 0,
    ensures
        decimal_text(n).len() <= count <==> n < pow(10, count),
    decreases n,
{
    reveal(pow);
    vstd::arithmetic::power::lemma_pow_positive(10, (count - 1) as nat);
    if n < 10 {
        assert(pow(10, count) >= 10);
    } else if count == 1 {
        assert(pow(10, 0) == 1);
        law_numerals_read_back(n / 10);
    } else {
        lemma_digits(n / 10, (count - 1) as nat);
    }
}

/// The number in the text of a type of one number.
spec fn type_number(ty: MssqlType) -> Option<nat> {
    match ty {
        MssqlType::Time(precision) => Some(precision.digit_count() as nat),
        MssqlType::DateTime2 { precision } => Some(precision as nat),
        MssqlType::DateTimeOffset { precision } => Some(precision as nat),
        MssqlType::Float { precision } => Some(precision as nat),
        MssqlType::Binary(length) => Some(length as nat),
        MssqlType::NVarChar(MssqlTypeLength::Bounded(length)) => Some(length as nat),
        MssqlType::VarBinary(MssqlTypeLength::Bounded(length)) => Some(length as nat),
        _ => None,
    }
}

/// The place of a type in the list of types.
spec fn type_place(ty: MssqlType) -> int {
    match ty {
        MssqlType::Bit => 0,
        MssqlType::BigInt => 1,
        MssqlType::Binary(_) => 2,
        MssqlType::SmallInt => 3,
        MssqlType::Int => 4,
        MssqlType::TinyInt => 5,
        MssqlType::Time(_) => 6,
        MssqlType::Decimal { .. } => 7,
        MssqlType::Date => 8,
        MssqlType::DateTime => 9,
        MssqlType::DateTime2 { .. } => 10,
        MssqlType::DateTimeOffset { .. } => 11,
        MssqlType::Real => 12,
        MssqlType::Float { .. } => 13,
        MssqlType::NVarChar(_) => 14,
        MssqlType::VarBinary(_) => 15,
    }
}

/// The place in the list of types of the type that a text starts with, told by the characters that
/// differ between the names.
spec fn place_of(text: Seq<char>) -> int {
    let first = text[0] as int % 32;
    let third = text[2] as int;
    if first == 2 && third == 116 {
        0
    } else if first == 2 && third == 103 {
        1
    } else if first == 2 {
        2
    } else if first == 19 {
        3
    } else if first == 9 {
        4
    } else if first == 20 && third == 110 {
        5
    } else if first == 20 {
        6
    } else if first == 4 && text[1] as int == 101 {
        7
    } else if first == 4 && text.len() == 4 {
        8
    } else if first == 4 && text.len() == 8 {
        9
    } else if first == 4 && text[8] as int == 50 {
        10
    } else if first == 4 {
        11
    } else if first == 18 {
        12
    } else if first == 6 {
        13
    } else if first == 14 {
        14
    } else {
        15
    }
}

/// Whether a text has a numeral between two parts of given lengths.
spec fn is_numbered(text: Seq<char>, before: int, n: nat, after: int) -> bool {
    &&& 0 <= before
    &&& 0 <= after
    &&& text.len() == before + decimal_text(n).len() + after
    &&& text.subrange(before, text.len() - after) == decimal_text(n)
}

/// Equal texts have equal numbers at the same place.
proof fn lemma_equal_numbers(text: Seq<char>, before: int, left: nat, right: nat, after: int)
    requires
        is_numbered(text, before, left, after),
        is_numbered(text, before, right, after),
    ensures
        left == right,
{
    law_numerals_read_back(left);
    law_numerals_read_back(right);
}

/// Whether a text has two numerals, a comma behind the first.
spec fn is_twice_numbered(
    text: Seq<char>,
    before: int,
    n: nat,
    between: int,
    scale: int,
    after: int,
) -> bool {
    let count = decimal_text(n).len();
    &&& 0 <= before
    &&& 0 < between
    &&& 0 <= after
    &&& text.len() == before + count + between + int_text(scale).len() + after
    &&& text.subrange(before, before + count) == decimal_text(n)
    &&& text[before + count] as int == 44
    &&& text.subrange(before + count + between, text.len() - after) == int_text(scale)
}

/// The first of two numerals ends at the comma.
proof fn lemma_first_ends(
    text: Seq<char>,
    before: int,
    left: nat,
    right: nat,
    between: int,
    left_scale: int,
    right_scale: int,
    after: int,
)
    requires
        is_twice_numbered(text, before, left, between, left_scale, after),
        is_twice_numbered(text, before, right, between, right_scale, after),
    ensures
        decimal_text(left).len() >= decimal_text(right).len(),
{
    law_numerals_read_back(right);
    let count = decimal_text(left).len();
    if count < decimal_text(right).len() {
        assert(text.subrange(before, before + decimal_text(right).len())[count as int]
            == decimal_text(right)[count as int]);
        assert(is_digit(decimal_text(right)[count as int]));
    }
}

/// Equal texts have the same two numbers.
proof fn lemma_equal_pairs(
    text: Seq<char>,
    before: int,
    left: nat,
    right: nat,
    between: int,
    left_scale: int,
    right_scale: int,
    after: int,
)
    requires
        is_twice_numbered(text, before, left, between, left_scale, after),
        is_twice_numbered(text, before, right, between, right_scale, after),
    ensures
        left == right,
        left_scale == right_scale,
{
    lemma_first_ends(text, before, left, right, between, left_scale, right_scale, after);
    lemma_first_ends(text, before, right, left, between, right_scale, left_scale, after);
    law_numerals_read_back(left);
    law_numerals_read_back(right);
    law_signed_numerals_read_back(left_scale);
    law_signed_numerals_read_back(right_scale);
}

/// The length of the declaration of a type of one number before the number.
spec fn sql_before(ty: MssqlType) -> int {
    match ty {
        MssqlType::Time(_) => 5,
        MssqlType::DateTime2 { .. } => 10,
        MssqlType::DateTimeOffset { .. } => 15,
        MssqlType::Float { .. } => 6,
        MssqlType::NVarChar(_) => 9,
        MssqlType::VarBinary(_) => 10,
        MssqlType::Binary(_) => 7,
        _ => 0,
    }
}

/// What the declaration of a type holds.
proof fn lemma_sql_text(ty: MssqlType)
    ensures
        place_of(mssql_type_text(ty)) == type_place(ty),
        type_number(ty) matches Some(n) ==> is_numbered(
            mssql_type_text(ty),
            sql_before(ty),
            n,
            1,
        ),
        ty matches MssqlType::Decimal { precision, scale } ==> is_twice_numbered(
            mssql_type_text(ty),
            8,
            precision as nat,
            1,
            scale as int,
            1,
        ),
        ty matches MssqlType::NVarChar(length) ==> ((length is Max)
            <==> mssql_type_text(ty)[9] as int == 109),
        ty matches MssqlType::VarBinary(length) ==> ((length is Max)
            <==> mssql_type_text(ty)[10] as int == 109),
{
    reveal_strlit("bit");
    reveal_strlit("tinyint");
    reveal_strlit("smallint");
    reveal_strlit("int");
    reveal_strlit("bigint");
    reveal_strlit("decimal(");
    reveal_strlit(",");
    reveal_strlit(")");
    reveal_strlit("date");
    reveal_strlit("time(");
    reveal_strlit("datetime");
    reveal_strlit("datetime2(");
    reveal_strlit("datetimeoffset(");
    reveal_strlit("real");
    reveal_strlit("float(");
    reveal_strlit("nvarchar(");
    reveal_strlit("varbinary(");
    reveal_strlit("binary(");
    reveal_strlit("max");
    if let Some(n) = type_number(ty) {
        law_numerals_read_back(n);
        let text = mssql_type_text(ty);
        assert(text.subrange(sql_before(ty), text.len() - 1) =~= decimal_text(n));
    }
    if let MssqlType::Decimal { precision, scale } = ty {
        let text = mssql_type_text(ty);
        law_numerals_read_back(precision as nat);
        law_signed_numerals_read_back(scale as int);
        let count = decimal_text(precision as nat).len() as int;
        assert(text.subrange(8, 8 + count) =~= decimal_text(precision as nat));
        assert(text.subrange(8 + count + 1, text.len() - 1) =~= int_text(scale as int));
    }
}

/// Types with the same declaration are the same.
pub proof fn law_declarations_tell_types_apart(left: MssqlType, right: MssqlType)
    ensures
        mssql_type_text(left) == mssql_type_text(right) ==> left == right,
{
    let text = mssql_type_text(left);
    if text == mssql_type_text(right) {
        lemma_sql_text(left);
        lemma_sql_text(right);
        if let (Some(l), Some(r)) = (type_number(left), type_number(right)) {
            lemma_equal_numbers(text, sql_before(left), l, r, 1);
        }
        match (left, right) {
            (
                MssqlType::Decimal { precision: l, scale: left_scale },
                MssqlType::Decimal { precision: r, scale: right_scale },
            ) => {
                lemma_equal_pairs(
                    text,
                    8,
                    l as nat,
                    r as nat,
                    1,
                    left_scale as int,
                    right_scale as int,
                    1,
                );
            },
            _ => {},
        }
    }
}

/// The length of the debug form of a type of one number before the number.
spec fn debug_before(ty: MssqlType) -> int {
    match ty {
        MssqlType::Time(_) => 24,
        MssqlType::DateTime2 { .. } => 23,
        MssqlType::DateTimeOffset { .. } => 28,
        MssqlType::Float { .. } => 19,
        MssqlType::NVarChar(_) => 17,
        MssqlType::VarBinary(_) => 18,
        MssqlType::Binary(_) => 7,
        _ => 0,
    }
}

/// The length of the debug form of a type of one number behind the number.
spec fn debug_after(ty: MssqlType) -> int {
    if ty is Binary {
        1
    } else {
        2
    }
}

/// What the debug form of a type holds.
proof fn lemma_debug_text(ty: MssqlType)
    ensures
        place_of(mssql_type_debug_text(ty)) == type_place(ty),
        type_number(ty) matches Some(n) ==> is_numbered(
            mssql_type_debug_text(ty),
            debug_before(ty),
            n,
            debug_after(ty),
        ),
        ty matches MssqlType::Decimal { precision, scale } ==> is_twice_numbered(
            mssql_type_debug_text(ty),
            21,
            precision as nat,
            9,
            scale as int,
            2,
        ),
        ty matches MssqlType::NVarChar(length) ==> ((length is Max)
            <==> mssql_type_debug_text(ty)[9] as int == 77),
        ty matches MssqlType::VarBinary(length) ==> ((length is Max)
            <==> mssql_type_debug_text(ty)[10] as int == 77),
{
    reveal_strlit("Bit");
    reveal_strlit("TinyInt");
    reveal_strlit("SmallInt");
    reveal_strlit("Int");
    reveal_strlit("BigInt");
    reveal_strlit("Decimal { precision: ");
    reveal_strlit(", scale: ");
    reveal_strlit(" }");
    reveal_strlit("Date");
    reveal_strlit("Time(MssqlTimePrecision(");
    reveal_strlit("))");
    reveal_strlit("DateTime");
    reveal_strlit("DateTime2 { precision: ");
    reveal_strlit("DateTimeOffset { precision: ");
    reveal_strlit("Real");
    reveal_strlit("Float { precision: ");
    reveal_strlit("NVarChar(");
    reveal_strlit("VarBinary(");
    reveal_strlit("Binary(");
    reveal_strlit(")");
    reveal_strlit("Bounded(");
    reveal_strlit("Max");
    if let Some(n) = type_number(ty) {
        law_numerals_read_back(n);
        let text = mssql_type_debug_text(ty);
        assert(text.subrange(debug_before(ty), text.len() - debug_after(ty)) =~= decimal_text(n));
    }
    if let MssqlType::Decimal { precision, scale } = ty {
        let text = mssql_type_debug_text(ty);
        law_numerals_read_back(precision as nat);
        law_signed_numerals_read_back(scale as int);
        let count = decimal_text(precision as nat).len() as int;
        assert(text.subrange(21, 21 + count) =~= decimal_text(precision as nat));
        assert(text.subrange(21 + count + 9, text.len() - 2) =~= int_text(scale as int));
    }
}

/// Types with the same debug form are the same.
pub proof fn law_debug_forms_tell_types_apart(left: MssqlType, right: MssqlType)
    ensures
        mssql_type_debug_text(left) == mssql_type_debug_text(right) ==> left == right,
{
    let text = mssql_type_debug_text(left);
    if text == mssql_type_debug_text(right) {
        lemma_debug_text(left);
        lemma_debug_text(right);
        if let (Some(l), Some(r)) = (type_number(left), type_number(right)) {
            lemma_equal_numbers(text, debug_before(left), l, r, debug_after(left));
        }
        match (left, right) {
            (
                MssqlType::Decimal { precision: l, scale: left_scale },
                MssqlType::Decimal { precision: r, scale: right_scale },
            ) => {
                lemma_equal_pairs(
                    text,
                    21,
                    l as nat,
                    r as nat,
                    9,
                    left_scale as int,
                    right_scale as int,
                    2,
                );
            },
            _ => {},
        }
    }
}

/// The place of an Arrow type in the list of types.
spec fn arrow_place(data_type: DataTypeView) -> int {
    match data_type {
        ArrowType::Boolean => 0,
        ArrowType::Binary => 1,
        ArrowType::BinaryView => 2,
        ArrowType::Int8 => 3,
        ArrowType::Int16 => 4,
        ArrowType::Int32 => 5,
        ArrowType::Int64 => 6,
        ArrowType::UInt8 => 7,
        ArrowType::UInt16 => 8,
        ArrowType::UInt32 => 9,
        ArrowType::UInt64 => 10,
        ArrowType::Utf8 => 11,
        ArrowType::Utf8View => 12,
        ArrowType::Float16 => 13,
        ArrowType::Float32 => 14,
        ArrowType::Float64 => 15,
        ArrowType::FixedSizeBinary(_) => 16,
        ArrowType::Date32 => 17,
        ArrowType::Date64 => 18,
        ArrowType::Decimal32(_, _) => 19,
        ArrowType::Decimal64(_, _) => 20,
        ArrowType::Decimal128(_, _) => 21,
        ArrowType::Decimal256(_, _) => 22,
        ArrowType::LargeUtf8 => 23,
        ArrowType::LargeBinary => 24,
        ArrowType::Time32(_) => 25,
        ArrowType::Time64(_) => 26,
        ArrowType::Timestamp(_, _) => 27,
        ArrowType::Other(_) => -1,
    }
}

/// The place in the list of types of the Arrow type that a text starts with, told by the characters
/// that differ between the names.
spec fn arrow_place_of(text: Seq<char>) -> int {
    if text[0] as int == 66 && text[1] as int == 111 {
        0
    } else if text[0] as int == 66 && text.len() == 6 {
        1
    } else if text[0] as int == 66 {
        2
    } else if text[0] as int == 73 && text.len() == 4 {
        3
    } else if text[0] as int == 73 && text[3] as int == 49 {
        4
    } else if text[0] as int == 73 && text[3] as int == 51 {
        5
    } else if text[0] as int == 73 {
        6
    } else if text[0] as int == 85 && text[1] as int == 73 && text.len() == 5 {
        7
    } else if text[0] as int == 85 && text[1] as int == 73 && text[4] as int == 49 {
        8
    } else if text[0] as int == 85 && text[1] as int == 73 && text[4] as int == 51 {
        9
    } else if text[0] as int == 85 && text[1] as int == 73 {
        10
    } else if text[0] as int == 85 && text.len() == 4 {
        11
    } else if text[0] as int == 85 {
        12
    } else if text[0] as int == 70 && text[1] as int == 108 && text[5] as int == 49 {
        13
    } else if text[0] as int == 70 && text[1] as int == 108 && text[5] as int == 51 {
        14
    } else if text[0] as int == 70 && text[1] as int == 108 {
        15
    } else if text[0] as int == 70 {
        16
    } else if text[0] as int == 68 && text[1] as int == 97 && text[4] as int == 51 {
        17
    } else if text[0] as int == 68 && text[1] as int == 97 {
        18
    } else if text[0] as int == 68 && text[7] as int == 51 {
        19
    } else if text[0] as int == 68 && text[7] as int == 54 {
        20
    } else if text[0] as int == 68 && text[7] as int == 49 {
        21
    } else if text[0] as int == 68 {
        22
    } else if text[0] as int == 76 && text[5] as int == 85 {
        23
    } else if text[0] as int == 76 {
        24
    } else if text[4] as int == 51 {
        25
    } else if text[4] as int == 54 {
        26
    } else {
        27
    }
}

/// The place of a time unit in the list of units.
spec fn unit_place(unit: TimeUnit) -> int {
    match unit {
        TimeUnit::Second => 0,
        TimeUnit::Millisecond => 1,
        TimeUnit::Microsecond => 2,
        TimeUnit::Nanosecond => 3,
    }
}

/// The place in the list of units of the unit whose name stands at a place of a text.
spec fn unit_place_at(text: Seq<char>, at: int) -> int {
    if text[at] as int == 83 {
        0
    } else if text[at] as int == 78 {
        3
    } else if text[at + 2] as int == 108 {
        1
    } else {
        2
    }
}

/// Whether the name of a type holds its parameters.
spec fn holds_parameters(text: Seq<char>, data_type: DataTypeView) -> bool {
    match data_type {
        ArrowType::Decimal32(precision, scale) => is_twice_numbered(
            text,
            10,
            precision as nat,
            2,
            scale as int,
            1,
        ),
        ArrowType::Decimal64(precision, scale) => is_twice_numbered(
            text,
            10,
            precision as nat,
            2,
            scale as int,
            1,
        ),
        ArrowType::Decimal128(precision, scale) => is_twice_numbered(
            text,
            11,
            precision as nat,
            2,
            scale as int,
            1,
        ),
        ArrowType::Decimal256(precision, scale) => is_twice_numbered(
            text,
            11,
            precision as nat,
            2,
            scale as int,
            1,
        ),
        ArrowType::Time32(unit) => unit_place_at(text, 7) == unit_place(unit),
        ArrowType::Time64(unit) => unit_place_at(text, 7) == unit_place(unit),
        ArrowType::Timestamp(unit, _) => unit_place_at(text, 10) == unit_place(unit),
        ArrowType::FixedSizeBinary(length) => {
            &&& text.len() == 17 + int_text(length as int).len()
            &&& text.subrange(16, text.len() - 1) == int_text(length as int)
        },
        _ => true,
    }
}

/// What the name of an Arrow type holds.
proof fn lemma_arrow_text(data_type: DataTypeView)
    requires
        !(data_type is Other),
    ensures
        arrow_place_of(data_type_text(data_type)) == arrow_place(data_type),
        holds_parameters(data_type_text(data_type), data_type),
{
    reveal_strlit("Boolean");
    reveal_strlit("Binary");
    reveal_strlit("BinaryView");
    reveal_strlit("Int8");
    reveal_strlit("Int16");
    reveal_strlit("Int32");
    reveal_strlit("Int64");
    reveal_strlit("UInt8");
    reveal_strlit("UInt16");
    reveal_strlit("UInt32");
    reveal_strlit("UInt64");
    reveal_strlit("Utf8");
    reveal_strlit("Utf8View");
    reveal_strlit("Float16");
    reveal_strlit("Float32");
    reveal_strlit("Float64");
    reveal_strlit("FixedSizeBinary(");
    reveal_strlit("Date32");
    reveal_strlit("Date64");
    reveal_strlit("Decimal32(");
    reveal_strlit("Decimal64(");
    reveal_strlit("Decimal128(");
    reveal_strlit("Decimal256(");
    reveal_strlit("LargeUtf8");
    reveal_strlit("LargeBinary");
    reveal_strlit("Time32(");
    reveal_strlit("Time64(");
    reveal_strlit("Timestamp(");
    reveal_strlit("Second");
    reveal_strlit("Millisecond");
    reveal_strlit("Microsecond");
    reveal_strlit("Nanosecond");
    reveal_strlit(", ");
    reveal_strlit(")");
    reveal_strlit(", Some(");
    reveal_strlit("))");
    reveal_strlit(", None)");
    let text = data_type_text(data_type);
    match data_type {
        ArrowType::Decimal32(precision, scale) => {
            lemma_decimal_name("Decimal32("@, precision, scale);
        },
        ArrowType::Decimal64(precision, scale) => {
            lemma_decimal_name("Decimal64("@, precision, scale);
        },
        ArrowType::Decimal128(precision, scale) => {
            lemma_decimal_name("Decimal128("@, precision, scale);
        },
        ArrowType::Decimal256(precision, scale) => {
            lemma_decimal_name("Decimal256("@, precision, scale);
        },
        ArrowType::FixedSizeBinary(length) => {
            assert(text.subrange(16, text.len() - 1) =~= int_text(length as int));
        },
        _ => {},
    }
}

/// The name of a decimal type holds its precision and its scale.
proof fn lemma_decimal_name(prefix: Seq<char>, precision: u8, scale: i8)
    ensures
        is_twice_numbered(
            prefix + decimal_text(precision as nat) + ", "@ + int_text(scale as int) + ")"@,
            prefix.len() as int,
            precision as nat,
            2,
            scale as int,
            1,
        ),
{
    reveal_strlit(", ");
    reveal_strlit(")");
    law_numerals_read_back(precision as nat);
    law_signed_numerals_read_back(scale as int);
    let text = prefix + decimal_text(precision as nat) + ", "@ + int_text(scale as int) + ")"@;
    let before = prefix.len() as int;
    let count = decimal_text(precision as nat).len() as int;
    assert(text.subrange(before, before + count) =~= decimal_text(precision as nat));
    assert(text.subrange(before + count + 2, text.len() - 1) =~= int_text(scale as int));
}

/// Arrow types with the same name are the same, but for the timezone of a timestamp and for types
/// that are not converted.
pub proof fn law_names_tell_arrow_types_apart(left: DataTypeView, right: DataTypeView)
    requires
        !(left is Other),
        !(right is Other),
    ensures
        data_type_text(left) == data_type_text(right) ==> left == right || (left matches
            ArrowType::Timestamp(unit, _) && (right matches ArrowType::Timestamp(other, _) && unit
            == other)),
{
    let text = data_type_text(left);
    if text == data_type_text(right) {
        lemma_arrow_text(left);
        lemma_arrow_text(right);
        match (left, right) {
            (ArrowType::Decimal32(l, left_scale), ArrowType::Decimal32(r, right_scale)) => {
                lemma_equal_pairs(
                    text,
                    10,
                    l as nat,
                    r as nat,
                    2,
                    left_scale as int,
                    right_scale as int,
                    1,
                );
            },
            (ArrowType::Decimal64(l, left_scale), ArrowType::Decimal64(r, right_scale)) => {
                lemma_equal_pairs(
                    text,
                    10,
                    l as nat,
                    r as nat,
                    2,
                    left_scale as int,
                    right_scale as int,
                    1,
                );
            },
            (ArrowType::Decimal128(l, left_scale), ArrowType::Decimal128(r, right_scale)) => {
                lemma_equal_pairs(
                    text,
                    11,
                    l as nat,
                    r as nat,
                    2,
                    left_scale as int,
                    right_scale as int,
                    1,
                );
            },
            (ArrowType::Decimal256(l, left_scale), ArrowType::Decimal256(r, right_scale)) => {
                lemma_equal_pairs(
                    text,
                    11,
                    l as nat,
                    r as nat,
                    2,
                    left_scale as int,
                    right_scale as int,
                    1,
                );
            },
            (ArrowType::FixedSizeBinary(l), ArrowType::FixedSizeBinary(r)) => {
                law_signed_numerals_read_back(l as int);
                law_signed_numerals_read_back(r as int);
            },
            _ => {},
        }
    }
}

/// A `time` precision counts its fractional-second digits, and no two count the same.
pub proof fn law_precisions_count_their_digits(left: MssqlTimePrecision, right: MssqlTimePrecision)
    ensures
        left.digit_count() <= 7,
        left.digit_count() == right.digit_count() <==> left == right,
        left is Zero ==> left.digit_count() == 0,
        left is Three ==> left.digit_count() == 3,
        left is Six ==> left.digit_count() == 6,
        left is Seven ==> left.digit_count() == 7,
{
}

} // verus!
