//! Laws of messages.

use vstd::prelude::*;

use crate::arrow_type::data_type_text;
use crate::message::{fault_text, message_text, Fault, MessageOf, MessageView};
use crate::mssql_type::mssql_type_text;
use crate::text::{decimal_text, hex_byte_text, int_text, quoted_text};

verus! {

/// Whether a text has a part at a place.
pub open spec fn has_at(text: Seq<char>, part: Seq<char>, at: int) -> bool {
    0 <= at && at + part.len() <= text.len() && text.subrange(at, at + part.len()) == part
}

/// Whether a text shows parts, one behind another.
pub open spec fn shows(text: Seq<char>, parts: Seq<Seq<char>>) -> bool
    decreases parts.len(),
{
    parts.len() == 0 || exists|at: int| #[trigger]
        has_at(text, parts[0], at) && shows(text.skip(at + parts[0].len()), parts.drop_first())
}

/// A part before what shows others.
proof fn lemma_shows(a: Seq<char>, x: Seq<char>, rest: Seq<char>, parts: Seq<Seq<char>>)
    requires
        shows(rest, parts),
    ensures
        shows(a + x + rest, seq![x] + parts),
{
    let text = a + x + rest;
    let all = seq![x] + parts;
    let at = a.len() as int;
    assert(all[0] == x);
    assert(all.drop_first() =~= parts);
    assert(text.subrange(at, at + x.len()) =~= x);
    assert(text.skip(at + x.len()) =~= rest);
    assert(has_at(text, all[0], at));
}

/// A text with one part.
proof fn lemma_one(a: Seq<char>, x: Seq<char>, b: Seq<char>)
    ensures
        shows(a + x + b, seq![x]),
        shows(a + x, seq![x]),
{
    lemma_shows(a, x, b, Seq::empty());
    lemma_shows(a, x, Seq::empty(), Seq::empty());
    assert(seq![x] + Seq::<Seq<char>>::empty() =~= seq![x]);
    assert(a + x + Seq::<char>::empty() =~= a + x);
}

/// A text with two parts.
proof fn lemma_two(a: Seq<char>, x: Seq<char>, b: Seq<char>, y: Seq<char>, c: Seq<char>)
    ensures
        shows(a + x + b + y + c, seq![x, y]),
        shows(a + x + b + y, seq![x, y]),
{
    lemma_one(b, y, c);
    lemma_shows(a, x, b + y + c, seq![y]);
    lemma_shows(a, x, b + y, seq![y]);
    assert(seq![x] + seq![y] =~= seq![x, y]);
    assert(a + x + (b + y + c) =~= a + x + b + y + c);
    assert(a + x + (b + y) =~= a + x + b + y);
}

/// A text with three parts.
proof fn lemma_three(
    a: Seq<char>,
    x: Seq<char>,
    b: Seq<char>,
    y: Seq<char>,
    c: Seq<char>,
    z: Seq<char>,
    d: Seq<char>,
)
    ensures
        shows(a + x + b + y + c + z + d, seq![x, y, z]),
        shows(a + x + b + y + c + z, seq![x, y, z]),
{
    lemma_two(b, y, c, z, d);
    lemma_shows(a, x, b + y + c + z + d, seq![y, z]);
    lemma_shows(a, x, b + y + c + z, seq![y, z]);
    assert(seq![x] + seq![y, z] =~= seq![x, y, z]);
    assert(a + x + (b + y + c + z + d) =~= a + x + b + y + c + z + d);
    assert(a + x + (b + y + c + z) =~= a + x + b + y + c + z);
}

/// A text with four parts.
proof fn lemma_four(
    a: Seq<char>,
    x: Seq<char>,
    b: Seq<char>,
    y: Seq<char>,
    c: Seq<char>,
    z: Seq<char>,
    d: Seq<char>,
    w: Seq<char>,
)
    ensures
        shows(a + x + b + y + c + z + d + w, seq![x, y, z, w]),
{
    lemma_three(b, y, c, z, d, w, d);
    lemma_shows(a, x, b + y + c + z + d + w, seq![y, z, w]);
    assert(seq![x] + seq![y, z, w] =~= seq![x, y, z, w]);
    assert(a + x + (b + y + c + z + d + w) =~= a + x + b + y + c + z + d + w);
}

/// What the message of a fault has to show, in order.
pub open spec fn fault_parts(fault: Fault) -> Seq<Seq<char>> {
    match fault {
        Fault::RowOutsideBatch { row_index, row_count } => {
            seq![decimal_text(row_index as nat), decimal_text(row_count as nat)]
        },
        Fault::BigIntOverflow { value } => {
            seq![decimal_text(value as nat)]
        },
        Fault::TargetUnsupported { ty } => {
            seq![mssql_type_text(ty)]
        },
        Fault::DecimalScaleTooLarge { scale } => {
            seq![int_text(scale as int)]
        },
        Fault::DecimalScaleMismatch { planned, expected } => {
            seq![decimal_text(planned as nat), decimal_text(expected as nat)]
        },
        Fault::DecimalTooWide { unscaled, precision } => {
            seq![int_text(unscaled as int), decimal_text(precision as nat)]
        },
        Fault::ScaleFactorOverflow { scale } => {
            seq![int_text(scale as int)]
        },
        Fault::ScaledDecimalOverflow { unscaled, scale } => {
            seq![int_text(unscaled as int), int_text(scale as int)]
        },
        Fault::DateOutOfRange { days } => {
            seq![int_text(days as int)]
        },
        Fault::Date64OutOfRange { milliseconds } => {
            seq![int_text(milliseconds as int)]
        },
        Fault::LossyNanoseconds { nanoseconds } => {
            seq![int_text(nanoseconds as int)]
        },
        Fault::NanosecondsOutOfRange { nanoseconds } => {
            seq![int_text(nanoseconds as int)]
        },
        Fault::TimeOutOfRange { value } => {
            seq![int_text(value as int)]
        },
        Fault::DateTimeOutOfRange { value } => {
            seq![int_text(value as int)]
        },
        Fault::InstantUnrepresentable { seconds } => {
            seq![int_text(seconds as int)]
        },
        Fault::OffsetUnrepresentable { seconds } => {
            seq![int_text(seconds as int)]
        },
        Fault::NonFiniteFloat { value } => {
            seq![value.text()]
        },
        Fault::StringTooLong { code_units, ty } => {
            seq![decimal_text(code_units as nat), mssql_type_text(ty)]
        },
        Fault::BinaryTooLong { bytes, ty } => {
            seq![decimal_text(bytes as nat), mssql_type_text(ty)]
        },
        Fault::BinaryLengthMismatch { bytes, length } => {
            seq![decimal_text(bytes as nat), decimal_text(length as nat)]
        },
        Fault::MissingColumn { index, column_count } => {
            seq![decimal_text(index as nat), decimal_text(column_count as nat)]
        },
        Fault::ExtraColumns { column_count, mapping_count } => {
            seq![decimal_text(column_count as nat), decimal_text(mapping_count as nat)]
        },
        Fault::MappingPosition { position, index } => {
            seq![decimal_text(position as nat), decimal_text(index as nat)]
        },
        Fault::RowCountMismatch { offset_count, length_count } => {
            seq![decimal_text(offset_count as nat), decimal_text(length_count as nat)]
        },
        Fault::EmptyLayoutPayload { payload_len } => {
            seq![decimal_text(payload_len as nat)]
        },
        Fault::FirstRowOffset { offset } => {
            seq![decimal_text(offset as nat)]
        },
        Fault::RowOverflow { index, offset, len } => {
            seq![decimal_text(index as nat), decimal_text(offset as nat), decimal_text(len as nat)]
        },
        Fault::RowOutsidePayload { index, end, payload_len } => {
            seq![
                decimal_text(index as nat),
                decimal_text(end as nat),
                decimal_text(payload_len as nat),
            ]
        },
        Fault::RowGap { index, end, next_offset } => {
            seq![
                decimal_text(index as nat),
                decimal_text(end as nat),
                decimal_text(next_offset as nat),
            ]
        },
        Fault::LastRowEnd { end, payload_len } => {
            seq![decimal_text(end as nat), decimal_text(payload_len as nat)]
        },
        Fault::CellRow { row_index, row_count } => {
            seq![decimal_text(row_index as nat), decimal_text(row_count as nat)]
        },
        Fault::CellOverflow { offset, len } => {
            seq![decimal_text(offset as nat), decimal_text(len as nat)]
        },
        Fault::CellOutsidePayload { row_index, column_index, end, payload_len } => {
            seq![
                decimal_text(row_index as nat),
                decimal_text(column_index as nat),
                decimal_text(end as nat),
                decimal_text(payload_len as nat),
            ]
        },
        Fault::TokenOffsetOutside { offset, payload_len } => {
            seq![decimal_text(offset as nat), decimal_text(payload_len as nat)]
        },
        Fault::TokenOffsetOrder { offset, previous } => {
            seq![decimal_text(offset as nat), decimal_text(previous as nat)]
        },
        Fault::NotRowToken { offset, byte } => {
            seq![decimal_text(offset as nat), hex_byte_text(byte)]
        },
        Fault::CellCountMismatch { count, row_count, column_count } => {
            seq![
                decimal_text(count as nat),
                decimal_text(row_count as nat),
                decimal_text(column_count as nat),
            ]
        },
        Fault::MeasuredColumn { column_index, column_count } => {
            seq![decimal_text(column_index as nat), decimal_text(column_count as nat)]
        },
        Fault::MeasuredRange { start, end, row_count } => {
            seq![
                decimal_text(start as nat),
                decimal_text(end as nat),
                decimal_text(row_count as nat),
            ]
        },
        Fault::BatchRange { start, end, row_count } => {
            seq![
                decimal_text(start as nat),
                decimal_text(end as nat),
                decimal_text(row_count as nat),
            ]
        },
        Fault::MeasuredBatchShape { row_count, column_count } => {
            seq![decimal_text(row_count as nat), decimal_text(column_count as nat)]
        },
        Fault::NullDecimalLength { len } => {
            seq![decimal_text(len as nat)]
        },
        Fault::DecimalLength { len, expected } => {
            seq![decimal_text(len as nat), decimal_text(expected as nat)]
        },
        Fault::TemporalLength { len, expected } => {
            seq![decimal_text(len as nat), decimal_text(expected as nat)]
        },
        Fault::TimeScale { scale } => {
            seq![decimal_text(scale as nat)]
        },
        Fault::TimeWidth { increments, scale } => {
            seq![decimal_text(increments as nat), decimal_text(scale as nat)]
        },
        Fault::DateWidth { days } => {
            seq![decimal_text(days as nat)]
        },
        Fault::MeasuredNullLength { row_index, column_index, len } => {
            seq![
                decimal_text(row_index as nat),
                decimal_text(column_index as nat),
                decimal_text(len as nat),
            ]
        },
        Fault::MeasuredCellLength { row_index, column_index, len, expected } => {
            seq![
                decimal_text(row_index as nat),
                decimal_text(column_index as nat),
                decimal_text(len as nat),
                decimal_text(expected as nat),
            ]
        },
        Fault::NullCellLength { row_index, column_index, len } => {
            seq![
                decimal_text(row_index as nat),
                decimal_text(column_index as nat),
                decimal_text(len as nat),
            ]
        },
        Fault::NullableCellLength { row_index, column_index, len, expected } => {
            seq![
                decimal_text(row_index as nat),
                decimal_text(column_index as nat),
                decimal_text(len as nat),
                decimal_text(expected as nat),
            ]
        },
        Fault::FixedCellLength { row_index, column_index, len, expected } => {
            seq![
                decimal_text(row_index as nat),
                decimal_text(column_index as nat),
                decimal_text(len as nat),
                decimal_text(expected as nat),
            ]
        },
        Fault::PrimitiveLayout { class } => {
            seq![class.text()]
        },
        Fault::VariableWidthLayout { class } => {
            seq![class.text()]
        },
        Fault::MappingIndex { index, count } => {
            seq![decimal_text(index as nat), decimal_text(count as nat)]
        },
        _ => seq![],
    }
}

/// The message of a fault shows its numbers and types, in order.
pub proof fn law_faults_show_their_parts(fault: Fault)
    ensures
        shows(fault_text(fault), fault_parts(fault)),
{
    match fault {
        Fault::RowOutsideBatch { row_index, row_count } => {
            lemma_two(
                "row index "@,
                decimal_text(row_index as nat),
                " is outside runtime batch with "@,
                decimal_text(row_count as nat),
                " row(s)"@,
            );
        },
        Fault::BigIntOverflow { value } => {
            lemma_one(
                "Arrow UInt64 value "@,
                decimal_text(value as nat),
                " does not fit planned SQL Server bigint"@,
            );
        },
        Fault::TargetUnsupported { ty } => {
            lemma_one(
                "planned SQL Server type "@,
                mssql_type_text(ty),
                " is not supported yet"@,
            );
        },
        Fault::DecimalScaleTooLarge { scale } => {
            lemma_one(
                "planned SQL Server decimal scale "@,
                int_text(scale as int),
                " cannot be represented by Tiberius Numeric"@,
            );
        },
        Fault::DecimalScaleMismatch { planned, expected } => {
            lemma_two(
                "planned SQL Server decimal scale "@,
                decimal_text(planned as nat),
                " is incompatible with Arrow decimal scale "@,
                decimal_text(expected as nat),
                Seq::empty(),
            );
        },
        Fault::DecimalTooWide { unscaled, precision } => {
            lemma_two(
                "decimal value "@,
                int_text(unscaled as int),
                " does not fit planned precision "@,
                decimal_text(precision as nat),
                Seq::empty(),
            );
        },
        Fault::ScaleFactorOverflow { scale } => {
            lemma_one(
                "negative decimal scale "@,
                int_text(scale as int),
                " normalization factor overflows"@,
            );
        },
        Fault::ScaledDecimalOverflow { unscaled, scale } => {
            lemma_two(
                "decimal value "@,
                int_text(unscaled as int),
                " overflows while normalizing scale "@,
                int_text(scale as int),
                Seq::empty(),
            );
        },
        Fault::DateOutOfRange { days } => {
            lemma_one(
                "Arrow Date32 day offset "@,
                int_text(days as int),
                " is outside SQL Server date range"@,
            );
        },
        Fault::Date64OutOfRange { milliseconds } => {
            lemma_one(
                "Arrow Date64 millisecond value "@,
                int_text(milliseconds as int),
                " is outside SQL Server datetime2 range"@,
            );
        },
        Fault::LossyNanoseconds { nanoseconds } => {
            lemma_one(
                "Arrow timestamp nanosecond value "@,
                int_text(nanoseconds as int),
                " is not divisible by 100ns"@,
            );
        },
        Fault::NanosecondsOutOfRange { nanoseconds } => {
            lemma_one(
                "timestamp nanosecond component "@,
                int_text(nanoseconds as int),
                " is outside valid range"@,
            );
        },
        Fault::TimeOutOfRange { value } => {
            lemma_one(
                "Arrow time value "@,
                int_text(value as int),
                " is outside SQL Server time range"@,
            );
        },
        Fault::DateTimeOutOfRange { value } => {
            lemma_one(
                "Arrow timestamp value "@,
                int_text(value as int),
                " is outside SQL Server datetime range"@,
            );
        },
        Fault::InstantUnrepresentable { seconds } => {
            lemma_one(
                "Arrow timestamp second value "@,
                int_text(seconds as int),
                " cannot be represented in the planned timezone"@,
            );
        },
        Fault::OffsetUnrepresentable { seconds } => {
            lemma_one(
                "resolved timezone offset "@,
                int_text(seconds as int),
                " second(s) cannot be represented as a SQL Server datetimeoffset minute offset"@,
            );
        },
        Fault::NonFiniteFloat { value } => {
            lemma_one(
                "non-finite floating point value "@,
                value.text(),
                " is not supported"@,
            );
        },
        Fault::StringTooLong { code_units, ty } => {
            lemma_two(
                "string value has "@,
                decimal_text(code_units as nat),
                " UTF-16 code unit(s), exceeding planned "@,
                mssql_type_text(ty),
                Seq::empty(),
            );
        },
        Fault::BinaryTooLong { bytes, ty } => {
            lemma_two(
                "binary value has "@,
                decimal_text(bytes as nat),
                " byte(s), exceeding planned "@,
                mssql_type_text(ty),
                Seq::empty(),
            );
        },
        Fault::BinaryLengthMismatch { bytes, length } => {
            lemma_two(
                "fixed-size binary value has "@,
                decimal_text(bytes as nat),
                " byte(s), expected "@,
                decimal_text(length as nat),
                Seq::empty(),
            );
        },
        Fault::MissingColumn { index, column_count } => {
            lemma_two(
                "planned column index "@,
                decimal_text(index as nat),
                " is outside runtime batch with "@,
                decimal_text(column_count as nat),
                " column(s)"@,
            );
        },
        Fault::ExtraColumns { column_count, mapping_count } => {
            lemma_two(
                "runtime batch has "@,
                decimal_text(column_count as nat),
                " column(s) but mappings contain "@,
                decimal_text(mapping_count as nat),
                " column(s)"@,
            );
        },
        Fault::MappingPosition { position, index } => {
            lemma_two(
                "mapping position "@,
                decimal_text(position as nat),
                " does not match planned Arrow field index "@,
                decimal_text(index as nat),
                Seq::empty(),
            );
        },
        Fault::RowCountMismatch { offset_count, length_count } => {
            lemma_two(
                "row layout has "@,
                decimal_text(offset_count as nat),
                " row-token offset(s) but "@,
                decimal_text(length_count as nat),
                " row length(s)"@,
            );
        },
        Fault::EmptyLayoutPayload { payload_len } => {
            lemma_one(
                "empty row layout cannot describe non-empty payload length "@,
                decimal_text(payload_len as nat),
                Seq::empty(),
            );
        },
        Fault::FirstRowOffset { offset } => {
            lemma_one(
                "first row token offset must be 0, got "@,
                decimal_text(offset as nat),
                Seq::empty(),
            );
        },
        Fault::RowOverflow { index, offset, len } => {
            lemma_three(
                "row "@,
                decimal_text(index as nat),
                " offset "@,
                decimal_text(offset as nat),
                " plus length "@,
                decimal_text(len as nat),
                " overflows usize"@,
            );
        },
        Fault::RowOutsidePayload { index, end, payload_len } => {
            lemma_three(
                "row "@,
                decimal_text(index as nat),
                " ends at "@,
                decimal_text(end as nat),
                ", outside payload length "@,
                decimal_text(payload_len as nat),
                Seq::empty(),
            );
        },
        Fault::RowGap { index, end, next_offset } => {
            lemma_three(
                "row "@,
                decimal_text(index as nat),
                " ends at "@,
                decimal_text(end as nat),
                ", but next row token offset is "@,
                decimal_text(next_offset as nat),
                Seq::empty(),
            );
        },
        Fault::LastRowEnd { end, payload_len } => {
            lemma_two(
                "last row ends at "@,
                decimal_text(end as nat),
                ", but payload length is "@,
                decimal_text(payload_len as nat),
                Seq::empty(),
            );
        },
        Fault::CellRow { row_index, row_count } => {
            lemma_two(
                "cell row index "@,
                decimal_text(row_index as nat),
                " is outside row count "@,
                decimal_text(row_count as nat),
                Seq::empty(),
            );
        },
        Fault::CellOverflow { offset, len } => {
            lemma_two(
                "cell offset "@,
                decimal_text(offset as nat),
                " plus length "@,
                decimal_text(len as nat),
                " overflows usize"@,
            );
        },
        Fault::CellOutsidePayload { row_index, column_index, end, payload_len } => {
            lemma_four(
                "cell at row "@,
                decimal_text(row_index as nat),
                " column "@,
                decimal_text(column_index as nat),
                " ends at "@,
                decimal_text(end as nat),
                ", outside payload length "@,
                decimal_text(payload_len as nat),
            );
        },
        Fault::TokenOffsetOutside { offset, payload_len } => {
            lemma_two(
                "row token offset "@,
                decimal_text(offset as nat),
                " is outside payload length "@,
                decimal_text(payload_len as nat),
                Seq::empty(),
            );
        },
        Fault::TokenOffsetOrder { offset, previous } => {
            lemma_two(
                "row token offsets must be strictly increasing: "@,
                decimal_text(offset as nat),
                " followed "@,
                decimal_text(previous as nat),
                Seq::empty(),
            );
        },
        Fault::NotRowToken { offset, byte } => {
            lemma_two(
                "row token offset "@,
                decimal_text(offset as nat),
                " points to byte 0x"@,
                hex_byte_text(byte),
                ", not 0xD1"@,
            );
        },
        Fault::CellCountMismatch { count, row_count, column_count } => {
            lemma_three(
                "measured cell length count "@,
                decimal_text(count as nat),
                " does not match row count "@,
                decimal_text(row_count as nat),
                " and column count "@,
                decimal_text(column_count as nat),
                Seq::empty(),
            );
        },
        Fault::MeasuredColumn { column_index, column_count } => {
            lemma_two(
                "direct measured column index "@,
                decimal_text(column_index as nat),
                " is outside measured column count "@,
                decimal_text(column_count as nat),
                Seq::empty(),
            );
        },
        Fault::MeasuredRange { start, end, row_count } => {
            lemma_three(
                "direct measured row range "@,
                decimal_text(start as nat),
                ".."@,
                decimal_text(end as nat),
                " is outside measured row count "@,
                decimal_text(row_count as nat),
                Seq::empty(),
            );
        },
        Fault::BatchRange { start, end, row_count } => {
            lemma_three(
                "direct row range "@,
                decimal_text(start as nat),
                ".."@,
                decimal_text(end as nat),
                " is outside batch row count "@,
                decimal_text(row_count as nat),
                Seq::empty(),
            );
        },
        Fault::MeasuredBatchShape { row_count, column_count } => {
            lemma_two(
                "measured batch has "@,
                decimal_text(row_count as nat),
                " row(s) and "@,
                decimal_text(column_count as nat),
                " column(s), unlike the runtime batch"@,
            );
        },
        Fault::NullDecimalLength { len } => {
            lemma_one(
                "null decimal cell has length "@,
                decimal_text(len as nat),
                ", expected 1"@,
            );
        },
        Fault::DecimalLength { len, expected } => {
            lemma_two(
                "decimal cell has length "@,
                decimal_text(len as nat),
                ", expected "@,
                decimal_text(expected as nat),
                Seq::empty(),
            );
        },
        Fault::TemporalLength { len, expected } => {
            lemma_two(
                "temporal cell has length "@,
                decimal_text(len as nat),
                ", expected "@,
                decimal_text(expected as nat),
                Seq::empty(),
            );
        },
        Fault::TimeScale { scale } => {
            lemma_one(
                "time scale "@,
                decimal_text(scale as nat),
                " is not supported"@,
            );
        },
        Fault::TimeWidth { increments, scale } => {
            lemma_two(
                "time value "@,
                decimal_text(increments as nat),
                " does not fit scale "@,
                decimal_text(scale as nat),
                Seq::empty(),
            );
        },
        Fault::DateWidth { days } => {
            lemma_one(
                "date value "@,
                decimal_text(days as nat),
                " does not fit three bytes"@,
            );
        },
        Fault::MeasuredNullLength { row_index, column_index, len } => {
            lemma_three(
                "measured null primitive cell at row "@,
                decimal_text(row_index as nat),
                " column "@,
                decimal_text(column_index as nat),
                " has length "@,
                decimal_text(len as nat),
                ", expected 1"@,
            );
        },
        Fault::MeasuredCellLength { row_index, column_index, len, expected } => {
            lemma_four(
                "measured cell at row "@,
                decimal_text(row_index as nat),
                " column "@,
                decimal_text(column_index as nat),
                " has length "@,
                decimal_text(len as nat),
                ", expected "@,
                decimal_text(expected as nat),
            );
        },
        Fault::NullCellLength { row_index, column_index, len } => {
            lemma_three(
                "null cell at row "@,
                decimal_text(row_index as nat),
                " column "@,
                decimal_text(column_index as nat),
                " has length "@,
                decimal_text(len as nat),
                ", expected 1"@,
            );
        },
        Fault::NullableCellLength { row_index, column_index, len, expected } => {
            lemma_four(
                "nullable primitive cell at row "@,
                decimal_text(row_index as nat),
                " column "@,
                decimal_text(column_index as nat),
                " has length "@,
                decimal_text(len as nat),
                ", expected "@,
                decimal_text(expected as nat),
            );
        },
        Fault::FixedCellLength { row_index, column_index, len, expected } => {
            lemma_four(
                "fixed-width cell at row "@,
                decimal_text(row_index as nat),
                " column "@,
                decimal_text(column_index as nat),
                " has length "@,
                decimal_text(len as nat),
                ", expected "@,
                decimal_text(expected as nat),
            );
        },
        Fault::PrimitiveLayout { class } => {
            lemma_one(
                "direct primitive layout is not implemented yet for "@,
                class.text(),
                Seq::empty(),
            );
        },
        Fault::VariableWidthLayout { class } => {
            lemma_one(
                "direct primitive layout is not implemented for variable-width mapping "@,
                class.text(),
                Seq::empty(),
            );
        },
        Fault::MappingIndex { index, count } => {
            lemma_two(
                "direct mapping index "@,
                decimal_text(index as nat),
                " is outside mapping count "@,
                decimal_text(count as nat),
                Seq::empty(),
            );
        },
        _ => {},
    }
}

/// What a message has to show, in order.
pub open spec fn message_parts(message: MessageView) -> Seq<Seq<char>> {
    match message {
        MessageOf::Fault(fault) => fault_parts(fault),
        MessageOf::Reason { text } => seq![text],
        MessageOf::PayloadMismatch { expected, got } => seq![expected.text(), got],
        MessageOf::ExtractionUnsupported { data_type } => seq![data_type_text(data_type)],
        MessageOf::ArrayTypeMismatch { runtime, planned } => {
            seq![data_type_text(runtime), data_type_text(planned)]
        },
        MessageOf::DirectTypeMismatch { runtime } => seq![data_type_text(runtime)],
        MessageOf::BindingUnsupported { data_type, family } => {
            seq![data_type_text(data_type), family.text()]
        },
        MessageOf::FieldName { runtime, planned } => seq![runtime, planned],
        MessageOf::TimezoneUnsupported { timezone } => seq![quoted_text(timezone)],
        MessageOf::TimestampOutOfRange { unit, value } => seq![unit, int_text(value as int)],
        MessageOf::OffsetOverflow { unit, value, offset_minutes } => {
            seq![unit, int_text(value as int), int_text(offset_minutes as int)]
        },
        MessageOf::MeasuredNullableLength { column, len, expected } => {
            seq![column, decimal_text(len as nat), decimal_text(expected as nat)]
        },
        MessageOf::MeasuredFixedLength { column, len, expected } => {
            seq![column, decimal_text(len as nat), decimal_text(expected as nat)]
        },
    }
}

/// A message shows its names, numbers and types, in order.
pub proof fn law_messages_show_their_parts(message: MessageView)
    ensures
        shows(message_text(message), message_parts(message)),
{
    match message {
        MessageOf::Fault(fault) => {
            law_faults_show_their_parts(fault);
        },
        MessageOf::Reason { text } => {
            lemma_one(Seq::empty(), text, Seq::empty());
            assert(Seq::<char>::empty() + text =~= text);
        },
        MessageOf::PayloadMismatch { expected, got } => {
            lemma_two("expected "@, expected.text(), ", got "@, got, Seq::empty());
        },
        MessageOf::ExtractionUnsupported { data_type } => {
            lemma_one(
                "Arrow value extraction for "@,
                data_type_text(data_type),
                " is not supported yet"@,
            );
        },
        MessageOf::ArrayTypeMismatch { runtime, planned } => {
            lemma_two(
                "runtime Arrow type "@,
                data_type_text(runtime),
                " does not match planned Arrow type "@,
                data_type_text(planned),
                Seq::empty(),
            );
        },
        MessageOf::DirectTypeMismatch { runtime } => {
            lemma_one(
                "runtime Arrow type "@,
                data_type_text(runtime),
                " does not match planned direct column type"@,
            );
        },
        MessageOf::BindingUnsupported { data_type, family } => {
            lemma_two(
                "planned Arrow type "@,
                data_type_text(data_type),
                " is not supported by direct "@,
                family.text(),
                " binding"@,
            );
        },
        MessageOf::FieldName { runtime, planned } => {
            lemma_two(
                "runtime Arrow field name "@,
                runtime,
                " does not match planned Arrow field name "@,
                planned,
                Seq::empty(),
            );
        },
        MessageOf::TimezoneUnsupported { timezone } => {
            lemma_one(
                "Arrow timestamp timezone "@,
                quoted_text(timezone),
                " is not a valid Arrow timezone name or fixed offset"@,
            );
        },
        MessageOf::TimestampOutOfRange { unit, value } => {
            lemma_two(
                "Arrow timestamp "@,
                unit,
                " value "@,
                int_text(value as int),
                " is outside SQL Server datetime2 range"@,
            );
        },
        MessageOf::OffsetOverflow { unit, value, offset_minutes } => {
            lemma_three(
                "Arrow timestamp "@,
                unit,
                " value "@,
                int_text(value as int),
                " overflows while applying timezone offset "@,
                int_text(offset_minutes as int),
                " minute(s)"@,
            );
        },
        MessageOf::MeasuredNullableLength { column, len, expected } => {
            lemma_three(
                "measured nullable primitive cell for column "@,
                column,
                " has length "@,
                decimal_text(len as nat),
                ", expected "@,
                decimal_text(expected as nat),
                Seq::empty(),
            );
        },
        MessageOf::MeasuredFixedLength { column, len, expected } => {
            lemma_three(
                "measured fixed-width primitive cell for column "@,
                column,
                " has length "@,
                decimal_text(len as nat),
                ", expected "@,
                decimal_text(expected as nat),
                Seq::empty(),
            );
        },
    }
}

} // verus!
