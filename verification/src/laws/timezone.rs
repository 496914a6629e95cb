//! Laws of timezone offsets.

use vstd::prelude::*;
use vstd::utf8::{encode_utf8, is_ascii_chars};

use crate::diagnostic::{DiagnosticCode, ErrorView};
use crate::mapping::SchemaMappingView;
use crate::timezone::{
    arrow_timezone_offset, is_arrow_timezone, metadata_error, offset_outcome, resolution_outcome,
    TimezoneResolutionOf, TimezoneResolutionView,
};

verus! {

/// How an offset is spelled.
pub enum OffsetForm {
    /// `±HH`.
    Hours,
    /// `±HHMM`.
    Plain,
    /// `±HH:MM`.
    Colon,
}

/// The character of a decimal digit.
pub open spec fn digit(n: int) -> char {
    if n == 0 {
        '0'
    } else if n == 1 {
        '1'
    } else if n == 2 {
        '2'
    } else if n == 3 {
        '3'
    } else if n == 4 {
        '4'
    } else if n == 5 {
        '5'
    } else if n == 6 {
        '6'
    } else if n == 7 {
        '7'
    } else if n == 8 {
        '8'
    } else {
        '9'
    }
}

/// The spelling of an offset of hours and minutes.
pub open spec fn offset_spelling(
    negative: bool,
    hours: int,
    minutes: int,
    form: OffsetForm,
) -> Seq<char> {
    let sign = if negative {
        '-'
    } else {
        '+'
    };
    match form {
        OffsetForm::Hours => seq![sign, digit(hours / 10), digit(hours % 10)],
        OffsetForm::Plain => seq![
            sign,
            digit(hours / 10),
            digit(hours % 10),
            digit(minutes / 10),
            digit(minutes % 10),
        ],
        OffsetForm::Colon => seq![
            sign,
            digit(hours / 10),
            digit(hours % 10),
            ':',
            digit(minutes / 10),
            digit(minutes % 10),
        ],
    }
}

/// Whether hours and minutes are an offset of at most 14 hours that a form can spell.
pub open spec fn is_spelled_offset(hours: int, minutes: int, form: OffsetForm) -> bool {
    &&& 0 <= hours
    &&& 0 <= minutes < 60
    &&& 60 * hours + minutes <= 840
    &&& form is Hours ==> minutes == 0
}

/// The minutes of an offset.
pub open spec fn total_minutes(negative: bool, hours: int, minutes: int) -> int {
    if negative {
        -(60 * hours + minutes)
    } else {
        60 * hours + minutes
    }
}

/// Whether a text is `Z` or `UTC` in any case.
pub open spec fn names_utc(text: Seq<char>) -> bool {
    ||| text.len() == 1 && (text[0] == 'Z' || text[0] == 'z')
    ||| text.len() == 3 && (text[0] == 'U' || text[0] == 'u') && (text[1] == 'T' || text[1] == 't')
        && (text[2] == 'C' || text[2] == 'c')
}

/// Whether a text starts with a sign.
pub open spec fn is_signed(text: Seq<char>) -> bool {
    text.len() > 0 && (text[0] == '+' || text[0] == '-')
}

/// Whether a text spells an offset of some minutes.
pub open spec fn spells_offset(
    text: Seq<char>,
    offset: int,
    negative: bool,
    hours: int,
    minutes: int,
    form: OffsetForm,
) -> bool {
    &&& is_spelled_offset(hours, minutes, form)
    &&& text == offset_spelling(negative, hours, minutes, form)
    &&& offset == total_minutes(negative, hours, minutes)
}

/// Whether a text spells an offset, in any form.
pub open spec fn is_offset_text(text: Seq<char>, offset: int) -> bool {
    exists|negative: bool, hours: int, minutes: int, form: OffsetForm| #[trigger]
        spells_offset(text, offset, negative, hours, minutes, form)
}

/// The error of one diagnostic at a row of a mapping.
pub open spec fn is_row_error(
    error: ErrorView,
    mapping: SchemaMappingView,
    row: usize,
    code: DiagnosticCode,
) -> bool {
    &&& error matches ErrorView::ValueConversion(diagnostics) && diagnostics.len() == 1
        && diagnostics[0].code == code && diagnostics[0].row == Some(row) && diagnostics[0].field
        == Some((mapping.arrow.index, mapping.arrow.name))
}

/// Bytes that are all ASCII are the characters of the text.
proof fn lemma_ascii_text(text: Seq<char>)
    requires
        forall|i: int| 0 <= i < encode_utf8(text).len() ==> #[trigger] encode_utf8(text)[i] < 128,
    ensures
        text.len() == encode_utf8(text).len(),
        forall|i: int|
            0 <= i < text.len() ==> #[trigger] text[i] == encode_utf8(text)[i] as char,
{
    let bytes = encode_utf8(text);
    let ascii = Seq::new(bytes.len(), |i: int| bytes[i] as char);
    assert(is_ascii_chars(ascii));
    vstd::utf8::is_ascii_chars_encode_utf8(ascii);
    assert forall|i: int| 0 <= i < bytes.len() implies #[trigger] encode_utf8(ascii)[i]
        == bytes[i] by {
        assert(ascii[i] as u8 == encode_utf8(ascii)[i]);
    }
    assert(encode_utf8(ascii) =~= bytes);
    vstd::utf8::encode_utf8_decode_utf8(text);
    vstd::utf8::encode_utf8_decode_utf8(ascii);
    assert(text == ascii);
}

/// The first byte of a text is its first character where that is ASCII, and no ASCII byte else.
proof fn lemma_first_byte(text: Seq<char>)
    requires
        text.len() > 0,
    ensures
        encode_utf8(text).len() > 0,
        (text[0] as u32) < 128 ==> encode_utf8(text)[0] as char == text[0],
        (text[0] as u32) >= 128 ==> encode_utf8(text)[0] >= 128,
{
    let c = text[0] as u32;
    vstd::utf8::char_is_scalar(text[0]);
    vstd::utf8::char_u32_cast(text[0], c);
    if c < 128 {
        assert(vstd::utf8::leading_byte_width_1(c) as u32 == c) by (bit_vector)
            requires
                c < 128,
        ;
    }
    assert(vstd::utf8::leading_byte_width_2(c) >= 128) by (bit_vector);
    assert(vstd::utf8::leading_byte_width_3(c) >= 128) by (bit_vector);
    assert(vstd::utf8::leading_byte_width_4(c) >= 128) by (bit_vector);
}

/// Every offset of at most 14 hours resolves, in every spelling, to its minutes, at every instant.
pub proof fn law_offset_spellings_resolve(
    mapping: SchemaMappingView,
    row: usize,
    negative: bool,
    hours: int,
    minutes: int,
    form: OffsetForm,
    known: bool,
    instant: (i64, u32),
)
    requires
        is_spelled_offset(hours, minutes, form),
    ensures
        ({
            let text = offset_spelling(negative, hours, minutes, form);
            let resolved = resolution_outcome(mapping, row, text, known);
            &&& resolved is Ok
            &&& resolved->Ok_0 matches TimezoneResolutionOf::FixedOffset { offset_minutes }
                && offset_minutes == total_minutes(negative, hours, minutes)
            &&& offset_outcome(resolved->Ok_0, mapping, row, instant.0, instant.1) matches Ok(found)
                && found == total_minutes(negative, hours, minutes)
            &&& metadata_error(mapping, row, Some(text)) is None
        }),
{
    let text = offset_spelling(negative, hours, minutes, form);
    let bytes = encode_utf8(text);
    assert(is_ascii_chars(text));
    vstd::utf8::is_ascii_chars_encode_utf8(text);
    assert(text[0] as u8 == bytes[0]);
    assert(text[1] as u8 == bytes[1]);
    assert(text[2] as u8 == bytes[2]);
    if !(form is Hours) {
        assert(text[3] as u8 == bytes[3]);
        assert(text[4] as u8 == bytes[4]);
    }
    if form is Colon {
        assert(text[5] as u8 == bytes[5]);
    }
}

/// `Z` and `UTC` resolve to offset zero.
pub proof fn law_utc_is_offset_zero(
    mapping: SchemaMappingView,
    row: usize,
    text: Seq<char>,
    known: bool,
)
    requires
        names_utc(text),
    ensures
        resolution_outcome(mapping, row, text, known) matches Ok(
            TimezoneResolutionOf::FixedOffset { offset_minutes },
        ) && offset_minutes == 0,
{
    assert(is_ascii_chars(text));
    vstd::utf8::is_ascii_chars_encode_utf8(text);
    assert(text[0] as u8 == encode_utf8(text)[0]);
    if text.len() == 3 {
        assert(text[1] as u8 == encode_utf8(text)[1]);
        assert(text[2] as u8 == encode_utf8(text)[2]);
    }
}

/// The number of a digit byte.
proof fn lemma_digit(byte: u8)
    requires
        0x30 <= byte <= 0x39,
    ensures
        digit(byte - 0x30) == byte as char,
{
}

/// Nothing else resolves to a fixed offset: the text is `Z`, `UTC` or the spelling of that offset.
pub proof fn law_fixed_offsets_are_spelled(
    mapping: SchemaMappingView,
    row: usize,
    text: Seq<char>,
    known: bool,
)
    ensures
        resolution_outcome(mapping, row, text, known) matches Ok(
            TimezoneResolutionOf::FixedOffset { offset_minutes },
        ) ==> names_utc(text) && offset_minutes == 0 || is_offset_text(text, offset_minutes as int),
{
    let bytes = encode_utf8(text);
    if let Ok(TimezoneResolutionOf::FixedOffset { offset_minutes }) = resolution_outcome(
        mapping,
        row,
        text,
        known,
    ) {
        assert(bytes.len() == 1 || bytes.len() == 3 || bytes.len() == 5 || bytes.len() == 6);
        let digits = crate::timezone::offset_digits(bytes);
        if crate::timezone::is_utc_spelling(bytes) {
            assert(forall|i: int| 0 <= i < bytes.len() ==> #[trigger] bytes[i] < 128);
            lemma_ascii_text(text);
            assert(text[0] == bytes[0] as char);
            if bytes.len() == 3 {
                assert(text[1] == bytes[1] as char);
                assert(text[2] == bytes[2] as char);
            }
            assert(names_utc(text));
        } else {
            assert(digits is Some);
            let d = digits->0;
            assert(d[0] >= 0x30 && d[1] >= 0x30 && d[2] >= 0x30 && d[3] >= 0x30);
            assert(d[0] <= 0x39 && d[1] <= 0x39 && d[2] <= 0x39 && d[3] <= 0x39);
            assert(forall|i: int| 0 <= i < bytes.len() ==> #[trigger] bytes[i] < 128);
            lemma_ascii_text(text);
            let hours = (d[0] - 0x30) * 10 + (d[1] - 0x30);
            let minutes = (d[2] - 0x30) * 10 + (d[3] - 0x30);
            let negative = bytes[0] == 0x2D;
            let form = if bytes.len() == 3 {
                OffsetForm::Hours
            } else if bytes.len() == 5 {
                OffsetForm::Plain
            } else {
                OffsetForm::Colon
            };
            lemma_digit(d[0]);
            lemma_digit(d[1]);
            lemma_digit(d[2]);
            lemma_digit(d[3]);
            assert(hours / 10 == d[0] - 0x30 && hours % 10 == d[1] - 0x30);
            assert(minutes / 10 == d[2] - 0x30 && minutes % 10 == d[3] - 0x30);
            assert(text[0] == bytes[0] as char && text[1] == bytes[1] as char && text[2]
                == bytes[2] as char);
            if bytes.len() > 3 {
                assert(text[3] == bytes[3] as char && text[4] == bytes[4] as char);
            }
            if bytes.len() > 5 {
                assert(text[5] == bytes[5] as char);
            }
            assert(text =~= offset_spelling(negative, hours, minutes, form));
            assert(spells_offset(text, offset_minutes as int, negative, hours, minutes, form));
        }
    }
}

/// A text without a sign, other than `Z` and `UTC`, is the name of a timezone: it resolves to that
/// name exactly when Arrow knows it. What starts with a sign is never a name.
pub proof fn law_names_resolve_by_lookup(
    mapping: SchemaMappingView,
    row: usize,
    text: Seq<char>,
    known: bool,
)
    ensures
        !names_utc(text) && !is_signed(text) && known ==> resolution_outcome(
            mapping,
            row,
            text,
            known,
        ) == Ok::<TimezoneResolutionView, ErrorView>(
            TimezoneResolutionOf::Named { timezone: text },
        ),
        !names_utc(text) && !is_signed(text) && !known ==> resolution_outcome(
            mapping,
            row,
            text,
            known,
        ) is Err,
        is_signed(text) ==> !(resolution_outcome(mapping, row, text, known) matches Ok(
            TimezoneResolutionOf::Named { .. },
        )),
        resolution_outcome(mapping, row, text, known) matches Err(error) ==> is_row_error(
            error,
            mapping,
            row,
            DiagnosticCode::TimezoneUnsupported,
        ),
{
    let bytes = encode_utf8(text);
    if text.len() > 0 {
        lemma_first_byte(text);
    }
    if crate::timezone::is_utc_spelling(bytes) {
        assert(forall|i: int| 0 <= i < bytes.len() ==> #[trigger] bytes[i] < 128);
        lemma_ascii_text(text);
        assert(text[0] == bytes[0] as char);
        if bytes.len() == 3 {
            assert(text[1] == bytes[1] as char);
            assert(text[2] == bytes[2] as char);
        }
    }
}

/// The offset of a named timezone at an instant is what the timezone database holds for that
/// instant: whole minutes, at most 14 hours from UTC; any other offset is refused.
pub proof fn law_named_offsets_are_looked_up(
    mapping: SchemaMappingView,
    row: usize,
    timezone: Seq<char>,
    seconds: i64,
    nanoseconds: u32,
)
    ensures
        ({
            let found = offset_outcome(
                TimezoneResolutionOf::Named { timezone },
                mapping,
                row,
                seconds,
                nanoseconds,
            );
            let looked_up = arrow_timezone_offset(timezone, seconds, nanoseconds);
            &&& found matches Ok(minutes) ==> looked_up == Some((60 * minutes) as i32) && -840
                <= minutes <= 840
            &&& looked_up matches Some(offset) ==> (found is Ok <==> (offset as int) % 60 == 0
                && -50_400 <= offset <= 50_400)
            &&& found matches Err(error) ==> is_row_error(
                error,
                mapping,
                row,
                if looked_up is Some {
                    DiagnosticCode::TimezoneUnsupported
                } else {
                    DiagnosticCode::TimestampOutOfRange
                },
            )
        }),
{
}

/// Timezone metadata is refused exactly when it is there, not empty, and names no timezone.
pub proof fn law_metadata_is_checked(
    mapping: SchemaMappingView,
    row: usize,
    timezone: Option<Seq<char>>,
)
    ensures
        timezone is None ==> metadata_error(mapping, row, timezone) is None,
        timezone matches Some(text) ==> (metadata_error(mapping, row, timezone) is None <==> text
            =~= Seq::<char>::empty() || resolution_outcome(
            mapping,
            row,
            text,
            is_arrow_timezone(text),
        ) is Ok),
        metadata_error(mapping, row, timezone) matches Some(error) ==> is_row_error(
            error,
            mapping,
            row,
            DiagnosticCode::TimezoneUnsupported,
        ),
{
    if let Some(text) = timezone {
        law_names_resolve_by_lookup(mapping, row, text, is_arrow_timezone(text));
    }
}

} // verus!
