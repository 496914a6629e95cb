//! UTF-16 encoding of strings.

use vstd::prelude::*;
use vstd::string::StringSliceAdditionalSpecFns;
use vstd::utf8::encode_utf8;

verus! {

/// First code point that UTF-16 encodes as a surrogate pair.
pub const FIRST_SUPPLEMENTARY: u32 = 0x1_0000;

/// First high surrogate.
pub const HIGH_SURROGATES: u32 = 0xD800;

/// First low surrogate.
pub const LOW_SURROGATES: u32 = 0xDC00;

/// Code points of one high surrogate.
pub const SURROGATE_SPAN: u32 = 0x400;

/// The UTF-16 code units of a character.
pub open spec fn char_units(c: char) -> Seq<u16> {
    if (c as u32) < FIRST_SUPPLEMENTARY {
        seq![(c as u32) as u16]
    } else {
        seq![
            (HIGH_SURROGATES + (c as u32 - FIRST_SUPPLEMENTARY) / SURROGATE_SPAN as int) as u16,
            (LOW_SURROGATES + (c as u32 - FIRST_SUPPLEMENTARY) % SURROGATE_SPAN as int) as u16,
        ]
    }
}

/// The UTF-16 code units of a string.
pub open spec fn utf16_units(text: Seq<char>) -> Seq<u16>
    decreases text.len(),
{
    if text.len() == 0 {
        Seq::empty()
    } else {
        utf16_units(text.drop_last()) + char_units(text.last())
    }
}

/// UTF-16 needs no more code units than UTF-8 needs bytes.
pub proof fn lemma_utf16_not_longer_than_utf8(text: Seq<char>)
    ensures
        utf16_units(text).len() <= encode_utf8(text).len(),
    decreases text.len(),
{
    if text.len() > 0 {
        lemma_utf16_not_longer_than_utf8(text.drop_first());
        lemma_utf16_units_prepend(text);
        vstd::utf8::encode_utf8_first_scalar(text);
        vstd::utf8::char_is_scalar(text[0]);
    }
}

/// The code units of a string are those of its first character followed by those of the rest.
proof fn lemma_utf16_units_prepend(text: Seq<char>)
    requires
        text.len() > 0,
    ensures
        utf16_units(text) == char_units(text[0]) + utf16_units(text.drop_first()),
    decreases text.len(),
{
    if text.len() == 1 {
        assert(text.drop_last() =~= Seq::<char>::empty());
        assert(text.drop_first() =~= Seq::<char>::empty());
        assert(utf16_units(text) =~= char_units(text[0]) + utf16_units(text.drop_first()));
    } else {
        lemma_utf16_units_prepend(text.drop_last());
        assert(text.drop_last().drop_first() =~= text.drop_first().drop_last());
        assert(utf16_units(text) =~= char_units(text[0]) + utf16_units(text.drop_first()));
    }
}

/// Returns the number of UTF-16 code units of a string.
pub fn utf16_len(text: &str) -> (len: usize)
    ensures
        len == utf16_units(text@).len(),
{
    let bytes = text.as_bytes();
    let ghost byte_count = bytes.len();
    let mut len: usize = 0;
    for c in iter: text.chars()
        invariant
            iter.seq() == text@,
            len == utf16_units(text@.take(iter.index() as int)).len(),
            byte_count == encode_utf8(text@).len(),
            byte_count <= usize::MAX,
    {
        proof {
            let prefix = text@.take(iter.index() as int);
            let next = text@.take(iter.index() as int + 1);
            assert(next.drop_last() =~= prefix);
            assert(next.last() == c);
            lemma_utf16_prefix_shorter(text@, iter.index() as int + 1);
            lemma_utf16_not_longer_than_utf8(text@);
        }
        if (c as u32) < FIRST_SUPPLEMENTARY {
            len = len + 1;
        } else {
            len = len + 2;
        }
    }
    assert(text@.take(text@.len() as int) =~= text@);
    len
}

/// A prefix has no more code units than the string.
proof fn lemma_utf16_prefix_shorter(text: Seq<char>, end: int)
    requires
        0 <= end <= text.len(),
    ensures
        utf16_units(text.take(end)).len() <= utf16_units(text).len(),
    decreases text.len() - end,
{
    if end == text.len() {
        assert(text.take(end) =~= text);
    } else {
        lemma_utf16_prefix_shorter(text, end + 1);
        assert(text.take(end + 1).drop_last() =~= text.take(end));
    }
}

/// The little-endian bytes of code units.
pub open spec fn units_le(units: Seq<u16>) -> Seq<u8> {
    Seq::new(
        units.len() * 2,
        |i: int|
            if i % 2 == 0 {
                (units[i / 2] % 256) as u8
            } else {
                (units[i / 2] / 256) as u8
            },
    )
}

/// The UTF-16LE bytes of a string.
pub open spec fn utf16_le(text: Seq<char>) -> Seq<u8> {
    units_le(utf16_units(text))
}

/// Appends the little-endian bytes of a code unit.
fn append_unit(buf: &mut Vec<u8>, unit: u16)
    ensures
        final(buf)@ == old(buf)@ + units_le(seq![unit]),
{
    buf.push((unit % 256) as u8);
    buf.push((unit / 256) as u8);
    assert(buf@ =~= old(buf)@ + units_le(seq![unit]));
}

/// The bytes of code units that follow others.
proof fn lemma_units_le_append(first: Seq<u16>, second: Seq<u16>)
    ensures
        units_le(first + second) == units_le(first) + units_le(second),
{
    assert(units_le(first + second) =~= units_le(first) + units_le(second));
}

/// Appends the UTF-16LE bytes of a string.
pub fn append_utf16_le(buf: &mut Vec<u8>, text: &str)
    ensures
        final(buf)@ == old(buf)@ + utf16_le(text@),
{
    let ghost start = buf@;
    assert(utf16_le(text@.take(0)) =~= Seq::empty());
    assert(buf@ =~= start + utf16_le(text@.take(0)));
    for c in iter: text.chars()
        invariant
            iter.seq() == text@,
            buf@ == start + utf16_le(text@.take(iter.index() as int)),
    {
        proof {
            let prefix = text@.take(iter.index() as int);
            let next = text@.take(iter.index() as int + 1);
            assert(next.drop_last() =~= prefix);
            assert(next.last() == c);
            lemma_units_le_append(utf16_units(prefix), char_units(c));
        }
        let ghost before = buf@;
        let code_point: u32 = c as u32;
        if code_point < FIRST_SUPPLEMENTARY {
            append_unit(buf, code_point as u16);
            assert(buf@ =~= before + units_le(char_units(c)));
        } else {
            let rest: u32 = code_point - FIRST_SUPPLEMENTARY;
            let high: u16 = (HIGH_SURROGATES + rest / SURROGATE_SPAN) as u16;
            let low: u16 = (LOW_SURROGATES + rest % SURROGATE_SPAN) as u16;
            append_unit(buf, high);
            append_unit(buf, low);
            proof {
                lemma_units_le_append(seq![high], seq![low]);
                assert(seq![high] + seq![low] =~= char_units(c));
                assert(buf@ =~= before + units_le(char_units(c)));
            }
        }
        assert(buf@ =~= start + utf16_le(text@.take(iter.index() as int + 1)));
    }
    assert(text@.take(text@.len() as int) =~= text@);
}

} // verus!
