//! Little-endian bytes.

use vstd::prelude::*;

verus! {

/// The low `width` bytes of a number, least significant first.
pub open spec fn le_bytes(value: nat, width: nat) -> Seq<u8>
    decreases width,
{
    if width == 0 {
        Seq::empty()
    } else {
        seq![(value % 256) as u8] + le_bytes(value / 256, (width - 1) as nat)
    }
}

/// The number that bytes stand for, least significant first.
pub open spec fn le_value(bytes: Seq<u8>) -> nat
    decreases bytes.len(),
{
    if bytes.len() == 0 {
        0
    } else {
        bytes[0] as nat + 256 * le_value(bytes.drop_first())
    }
}

/// `256^width`.
pub open spec fn byte_range(width: nat) -> nat
    decreases width,
{
    if width == 0 {
        1
    } else {
        256 * byte_range((width - 1) as nat)
    }
}

/// `width` bytes are written.
pub proof fn lemma_le_bytes_len(value: nat, width: nat)
    ensures
        le_bytes(value, width).len() == width,
    decreases width,
{
    if width > 0 {
        lemma_le_bytes_len(value / 256, (width - 1) as nat);
    }
}

/// Reading what was written gives the number back, where the bytes can hold it.
pub proof fn law_le_bytes_round_trip(value: nat, width: nat)
    requires
        value < byte_range(width),
    ensures
        le_bytes(value, width).len() == width,
        le_value(le_bytes(value, width)) == value,
    decreases width,
{
    lemma_le_bytes_len(value, width);
    if width > 0 {
        law_le_bytes_round_trip(value / 256, (width - 1) as nat);
        assert(le_bytes(value, width).drop_first() =~= le_bytes(value / 256, (width - 1) as nat));
    }
}

/// Appends the low `width` bytes of a number.
pub fn append_le(buf: &mut Vec<u8>, value: u128, width: usize)
    ensures
        final(buf)@ == old(buf)@ + le_bytes(value as nat, width as nat),
    decreases width,
{
    if width > 0 {
        buf.push((value % 256) as u8);
        append_le(buf, value / 256, width - 1);
        assert(buf@ =~= old(buf)@ + le_bytes(value as nat, width as nat));
    } else {
        assert(buf@ =~= old(buf)@ + le_bytes(value as nat, width as nat));
    }
}

/// A sequence with the elements from an index on replaced.
pub open spec fn splice(bytes: Seq<u8>, start: int, part: Seq<u8>) -> Seq<u8> {
    bytes.take(start) + part + bytes.skip(start + part.len())
}

/// Overwrites a range of bytes.
pub fn write_bytes(bytes: &mut [u8], start: usize, part: &[u8])
    requires
        start + part@.len() <= old(bytes)@.len(),
    ensures
        final(bytes)@ == splice(old(bytes)@, start as int, part@),
{
    let len: usize = bytes.len();
    let mut index: usize = 0;
    assert(bytes@ =~= splice(old(bytes)@, start as int, part@.take(0)));
    while index < part.len()
        invariant
            index <= part.len(),
            len == bytes@.len(),
            start + part@.len() <= len,
            bytes@ == splice(old(bytes)@, start as int, part@.take(index as int)),
            bytes@.len() == old(bytes)@.len(),
        decreases part.len() - index,
    {
        bytes[start + index] = part[index];
        index += 1;
        assert(bytes@ =~= splice(old(bytes)@, start as int, part@.take(index as int)));
    }
    assert(part@.take(part@.len() as int) =~= part@);
}

/// Overwrites a range of bytes with the low `width` bytes of a number.
pub fn write_le(bytes: &mut [u8], start: usize, value: u128, width: usize)
    requires
        start + width <= old(bytes)@.len(),
    ensures
        final(bytes)@ == splice(old(bytes)@, start as int, le_bytes(value as nat, width as nat)),
{
    let mut part: Vec<u8> = Vec::with_capacity(width);
    append_le(&mut part, value, width);
    proof {
        lemma_le_bytes_len(value as nat, width as nat);
        assert(part@ =~= le_bytes(value as nat, width as nat));
    }
    write_bytes(bytes, start, part.as_slice());
}

} // verus!
