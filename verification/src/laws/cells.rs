//! Laws of cells as messages show them.

use vstd::prelude::*;

use crate::cell::{cell_kind, cell_text, cell_value_text, ArrowCellOf, ArrowCellView};
use crate::laws::texts::{
    law_byte_lists_tell_bytes_apart, law_numerals_read_back, law_signed_numerals_read_back,
};
use crate::message::ArrowCellKind;
use crate::text::{bool_text, byte_list_text, bytes_text};

verus! {

/// The kind of a cell has its name.
pub proof fn law_kinds_are_those_of_the_cells(cell: ArrowCellView)
    ensures
        cell is Null <==> cell_kind(cell) is Null,
        cell is Boolean <==> cell_kind(cell) is Boolean,
        cell is Int8 <==> cell_kind(cell) is Int8,
        cell is Int16 <==> cell_kind(cell) is Int16,
        cell is Int32 <==> cell_kind(cell) is Int32,
        cell is Int64 <==> cell_kind(cell) is Int64,
        cell is UInt8 <==> cell_kind(cell) is UInt8,
        cell is UInt16 <==> cell_kind(cell) is UInt16,
        cell is UInt32 <==> cell_kind(cell) is UInt32,
        cell is UInt64 <==> cell_kind(cell) is UInt64,
        cell is Decimal32 <==> cell_kind(cell) is Decimal32,
        cell is Decimal64 <==> cell_kind(cell) is Decimal64,
        cell is Decimal128 <==> cell_kind(cell) is Decimal128,
        cell is Decimal256 <==> cell_kind(cell) is Decimal256,
        cell is Date32 <==> cell_kind(cell) is Date32,
        cell is Date64 <==> cell_kind(cell) is Date64,
        cell is TimestampSecond <==> cell_kind(cell) is TimestampSecond,
        cell is TimestampMillisecond <==> cell_kind(cell) is TimestampMillisecond,
        cell is TimestampMicrosecond <==> cell_kind(cell) is TimestampMicrosecond,
        cell is TimestampNanosecond <==> cell_kind(cell) is TimestampNanosecond,
        cell is Time32Second <==> cell_kind(cell) is Time32Second,
        cell is Time32Millisecond <==> cell_kind(cell) is Time32Millisecond,
        cell is Time64Microsecond <==> cell_kind(cell) is Time64Microsecond,
        cell is Time64Nanosecond <==> cell_kind(cell) is Time64Nanosecond,
        cell is Float16 <==> cell_kind(cell) is Float16,
        cell is Float32 <==> cell_kind(cell) is Float32,
        cell is Float64 <==> cell_kind(cell) is Float64,
        cell is Utf8 <==> cell_kind(cell) is Utf8,
        cell is Binary <==> cell_kind(cell) is Binary,
        cell is Other <==> cell_kind(cell) is Other,
{
}

/// The place of a kind in the list of kinds.
spec fn kind_place(kind: ArrowCellKind) -> int {
    match kind {
        ArrowCellKind::Null => 0,
        ArrowCellKind::Boolean => 1,
        ArrowCellKind::Int8 => 2,
        ArrowCellKind::Int16 => 3,
        ArrowCellKind::Int32 => 4,
        ArrowCellKind::Int64 => 5,
        ArrowCellKind::UInt8 => 6,
        ArrowCellKind::UInt16 => 7,
        ArrowCellKind::UInt32 => 8,
        ArrowCellKind::UInt64 => 9,
        ArrowCellKind::Decimal32 => 10,
        ArrowCellKind::Decimal64 => 11,
        ArrowCellKind::Decimal128 => 12,
        ArrowCellKind::Decimal256 => 13,
        ArrowCellKind::Date32 => 14,
        ArrowCellKind::Date64 => 15,
        ArrowCellKind::TimestampSecond => 16,
        ArrowCellKind::TimestampMillisecond => 17,
        ArrowCellKind::TimestampMicrosecond => 18,
        ArrowCellKind::TimestampNanosecond => 19,
        ArrowCellKind::Time32Second => 20,
        ArrowCellKind::Time32Millisecond => 21,
        ArrowCellKind::Time64Microsecond => 22,
        ArrowCellKind::Time64Nanosecond => 23,
        ArrowCellKind::Float16 => 24,
        ArrowCellKind::Float32 => 25,
        ArrowCellKind::Float64 => 26,
        ArrowCellKind::Utf8 => 27,
        ArrowCellKind::Binary => 28,
        ArrowCellKind::Other => 29,
    }
}

/// The place in the list of kinds of the kind that a text starts with, told by the characters that
/// differ between the names.
spec fn kind_place_of(text: Seq<char>) -> int {
    let first = text[0] as int;
    if first == 78 {
        0
    } else if first == 66 && text[1] as int == 111 {
        1
    } else if first == 66 {
        28
    } else if first == 73 && text[3] as int == 56 {
        2
    } else if first == 73 && text[3] as int == 49 {
        3
    } else if first == 73 && text[3] as int == 51 {
        4
    } else if first == 73 {
        5
    } else if first == 85 && text[1] as int == 116 {
        27
    } else if first == 85 && text[4] as int == 56 {
        6
    } else if first == 85 && text[4] as int == 49 {
        7
    } else if first == 85 && text[4] as int == 51 {
        8
    } else if first == 85 {
        9
    } else if first == 68 && text[1] as int == 97 && text[4] as int == 51 {
        14
    } else if first == 68 && text[1] as int == 97 {
        15
    } else if first == 68 && text[7] as int == 51 {
        10
    } else if first == 68 && text[7] as int == 54 {
        11
    } else if first == 68 && text[7] as int == 49 {
        12
    } else if first == 68 {
        13
    } else if first == 70 && text[5] as int == 49 {
        24
    } else if first == 70 && text[5] as int == 51 {
        25
    } else if first == 70 {
        26
    } else if first == 79 {
        29
    } else if text[4] as int == 51 && text[6] as int == 83 {
        20
    } else if text[4] as int == 51 {
        21
    } else if text[4] as int == 54 && text[6] as int == 77 {
        22
    } else if text[4] as int == 54 {
        23
    } else if text[9] as int == 83 {
        16
    } else if text[9] as int == 78 {
        19
    } else if text[11] as int == 108 {
        17
    } else {
        18
    }
}

/// The name of a kind tells its place.
proof fn lemma_kind_text(kind: ArrowCellKind, rest: Seq<char>)
    ensures
        kind_place_of(kind.text() + rest) == kind_place(kind),
        kind_place_of(kind.text()) == kind_place(kind),
{
    reveal_strlit("Null");
    reveal_strlit("Boolean");
    reveal_strlit("Int8");
    reveal_strlit("Int16");
    reveal_strlit("Int32");
    reveal_strlit("Int64");
    reveal_strlit("UInt8");
    reveal_strlit("UInt16");
    reveal_strlit("UInt32");
    reveal_strlit("UInt64");
    reveal_strlit("Decimal32");
    reveal_strlit("Decimal64");
    reveal_strlit("Decimal128");
    reveal_strlit("Decimal256");
    reveal_strlit("Date32");
    reveal_strlit("Date64");
    reveal_strlit("TimestampSecond");
    reveal_strlit("TimestampMillisecond");
    reveal_strlit("TimestampMicrosecond");
    reveal_strlit("TimestampNanosecond");
    reveal_strlit("Time32Second");
    reveal_strlit("Time32Millisecond");
    reveal_strlit("Time64Microsecond");
    reveal_strlit("Time64Nanosecond");
    reveal_strlit("Float16");
    reveal_strlit("Float32");
    reveal_strlit("Float64");
    reveal_strlit("Utf8");
    reveal_strlit("Binary");
    reveal_strlit("Other");
}

/// Kinds with the same name are the same.
pub proof fn law_names_tell_kinds_apart(left: ArrowCellKind, right: ArrowCellKind)
    ensures
        left.text() == right.text() <==> left == right,
{
    lemma_kind_text(left, Seq::empty());
    lemma_kind_text(right, Seq::empty());
}

/// Whether a message shows the value of a cell as a number, a truth value or bytes.
pub open spec fn is_shown(cell: ArrowCellView) -> bool {
    !(cell is Float16 || cell is Float32 || cell is Float64 || cell is Utf8)
}

/// Cells that a message shows alike are the same, but for texts, whose quoting is that of the
/// standard library, and for floats, which it does not show.
pub proof fn law_shown_cells_tell_cells_apart(left: ArrowCellView, right: ArrowCellView)
    requires
        is_shown(left),
        is_shown(right),
    ensures
        cell_text(left) == cell_text(right) ==> left == right,
{
    reveal_strlit("(");
    reveal_strlit(")");
    if cell_text(left) == cell_text(right) {
        lemma_cell_place(left);
        lemma_cell_place(right);
        assert(cell_kind(left) == cell_kind(right));
        if let (Some(l), Some(r)) = (cell_value_text(left), cell_value_text(right)) {
            let start = cell_kind(left).text().len() as int + 1;
            let end = cell_text(left).len() - 1;
            assert(l =~= cell_text(left).subrange(start, end));
            assert(r =~= cell_text(right).subrange(start, end));
            lemma_equal_values(left, right);
        }
    }
}

/// The text of a cell starts with the name of its kind.
proof fn lemma_cell_place(cell: ArrowCellView)
    ensures
        kind_place_of(cell_text(cell)) == kind_place(cell_kind(cell)),
{
    let kind = cell_kind(cell);
    match cell_value_text(cell) {
        Some(value) => {
            let rest = "("@ + value + ")"@;
            lemma_kind_text(kind, rest);
            assert(kind.text() + "("@ + value + ")"@ =~= kind.text() + rest);
        },
        None => {
            lemma_kind_text(kind, Seq::empty());
        },
    }
}

/// Values of one kind with the same text are the same.
proof fn lemma_equal_values(left: ArrowCellView, right: ArrowCellView)
    requires
        is_shown(left),
        is_shown(right),
        cell_kind(left) == cell_kind(right),
        cell_value_text(left) is Some,
        cell_value_text(left) == cell_value_text(right),
    ensures
        left == right,
{
    match (left, right) {
        (ArrowCellOf::Boolean(l), ArrowCellOf::Boolean(r)) => {
            reveal_strlit("true");
            reveal_strlit("false");
            assert(bool_text(l).len() == bool_text(r).len());
        },
        (ArrowCellOf::Binary(l), ArrowCellOf::Binary(r)) => {
            reveal_strlit("[");
            reveal_strlit("]");
            let text = bytes_text(l);
            assert(byte_list_text(l) =~= text.subrange(1, text.len() - 1));
            assert(byte_list_text(r) =~= bytes_text(r).subrange(1, text.len() - 1));
            law_byte_lists_tell_bytes_apart(l, r);
        },
        (ArrowCellOf::Decimal256(l), ArrowCellOf::Decimal256(r)) => {
            law_signed_numerals_read_back(
                l.high * 0x1_0000_0000_0000_0000_0000_0000_0000_0000 + l.low,
            );
            law_signed_numerals_read_back(
                r.high * 0x1_0000_0000_0000_0000_0000_0000_0000_0000 + r.low,
            );
        },
        (ArrowCellOf::Int8(l), ArrowCellOf::Int8(r)) => {
            law_signed_numerals_read_back(l as int);
            law_signed_numerals_read_back(r as int);
        },
        (ArrowCellOf::Int16(l), ArrowCellOf::Int16(r)) => {
            law_signed_numerals_read_back(l as int);
            law_signed_numerals_read_back(r as int);
        },
        (ArrowCellOf::Int32(l), ArrowCellOf::Int32(r)) => {
            law_signed_numerals_read_back(l as int);
            law_signed_numerals_read_back(r as int);
        },
        (ArrowCellOf::Int64(l), ArrowCellOf::Int64(r)) => {
            law_signed_numerals_read_back(l as int);
            law_signed_numerals_read_back(r as int);
        },
        (ArrowCellOf::Decimal32(l), ArrowCellOf::Decimal32(r)) => {
            law_signed_numerals_read_back(l as int);
            law_signed_numerals_read_back(r as int);
        },
        (ArrowCellOf::Decimal64(l), ArrowCellOf::Decimal64(r)) => {
            law_signed_numerals_read_back(l as int);
            law_signed_numerals_read_back(r as int);
        },
        (ArrowCellOf::Decimal128(l), ArrowCellOf::Decimal128(r)) => {
            law_signed_numerals_read_back(l as int);
            law_signed_numerals_read_back(r as int);
        },
        (ArrowCellOf::Date32(l), ArrowCellOf::Date32(r)) => {
            law_signed_numerals_read_back(l as int);
            law_signed_numerals_read_back(r as int);
        },
        (ArrowCellOf::Date64(l), ArrowCellOf::Date64(r)) => {
            law_signed_numerals_read_back(l as int);
            law_signed_numerals_read_back(r as int);
        },
        (ArrowCellOf::Time32Second(l), ArrowCellOf::Time32Second(r)) => {
            law_signed_numerals_read_back(l as int);
            law_signed_numerals_read_back(r as int);
        },
        (ArrowCellOf::Time32Millisecond(l), ArrowCellOf::Time32Millisecond(r)) => {
            law_signed_numerals_read_back(l as int);
            law_signed_numerals_read_back(r as int);
        },
        (ArrowCellOf::Time64Microsecond(l), ArrowCellOf::Time64Microsecond(r)) => {
            law_signed_numerals_read_back(l as int);
            law_signed_numerals_read_back(r as int);
        },
        (ArrowCellOf::Time64Nanosecond(l), ArrowCellOf::Time64Nanosecond(r)) => {
            law_signed_numerals_read_back(l as int);
            law_signed_numerals_read_back(r as int);
        },
        (ArrowCellOf::TimestampSecond(l), ArrowCellOf::TimestampSecond(r)) => {
            law_signed_numerals_read_back(l as int);
            law_signed_numerals_read_back(r as int);
        },
        (ArrowCellOf::TimestampMillisecond(l), ArrowCellOf::TimestampMillisecond(r)) => {
            law_signed_numerals_read_back(l as int);
            law_signed_numerals_read_back(r as int);
        },
        (ArrowCellOf::TimestampMicrosecond(l), ArrowCellOf::TimestampMicrosecond(r)) => {
            law_signed_numerals_read_back(l as int);
            law_signed_numerals_read_back(r as int);
        },
        (ArrowCellOf::TimestampNanosecond(l), ArrowCellOf::TimestampNanosecond(r)) => {
            law_signed_numerals_read_back(l as int);
            law_signed_numerals_read_back(r as int);
        },
        (ArrowCellOf::UInt8(l), ArrowCellOf::UInt8(r)) => {
            law_numerals_read_back(l as nat);
            law_numerals_read_back(r as nat);
        },
        (ArrowCellOf::UInt16(l), ArrowCellOf::UInt16(r)) => {
            law_numerals_read_back(l as nat);
            law_numerals_read_back(r as nat);
        },
        (ArrowCellOf::UInt32(l), ArrowCellOf::UInt32(r)) => {
            law_numerals_read_back(l as nat);
            law_numerals_read_back(r as nat);
        },
        (ArrowCellOf::UInt64(l), ArrowCellOf::UInt64(r)) => {
            law_numerals_read_back(l as nat);
            law_numerals_read_back(r as nat);
        },
        _ => {},
    }
}

} // verus!
