//! Encoded direct raw TDS row payloads.

use vstd::prelude::*;

use crate::diagnostic::{invalid_payload, outcome, payload_error, Result};
use crate::direct::layout::fault_outcome;
use crate::message::Fault;

verus! {

/// SQL Server TDS ROW token used at the start of each bulk row payload.
pub const TDS_ROW_TOKEN: u8 = 0xD1;

/// Complete direct-encoded TDS rows plus row-token offsets.
#[derive(Debug, PartialEq, Eq)]
pub struct EncodedRowsPayload {
    bytes: Vec<u8>,
    row_token_offsets: Vec<usize>,
}

/// What contracts know of an [`EncodedRowsPayload`].
#[verifier::ext_equal]
pub struct PayloadView {
    /// Encoded rows.
    pub bytes: Seq<u8>,
    /// First byte of every row.
    pub row_token_offsets: Seq<usize>,
}

impl View for EncodedRowsPayload {
    type V = PayloadView;

    closed spec fn view(&self) -> PayloadView {
        PayloadView { bytes: self.bytes@, row_token_offsets: self.row_token_offsets@ }
    }
}

/// The fault of one row-token offset, after the one before it.
pub open spec fn token_offset_fault(
    bytes: Seq<u8>,
    row_token_offsets: Seq<usize>,
    index: int,
) -> Option<Fault> {
    let offset = row_token_offsets[index];
    if offset >= bytes.len() {
        Some(Fault::TokenOffsetOutside { offset, payload_len: bytes.len() as usize })
    } else if index > 0 && offset <= row_token_offsets[index - 1] {
        Some(Fault::TokenOffsetOrder { offset, previous: row_token_offsets[index - 1] })
    } else if bytes[offset as int] != TDS_ROW_TOKEN {
        Some(Fault::NotRowToken { offset, byte: bytes[offset as int] })
    } else {
        None
    }
}

/// The fault of the first bad row-token offset, from an index on.
pub open spec fn first_token_fault(
    bytes: Seq<u8>,
    row_token_offsets: Seq<usize>,
    index: int,
) -> Option<Fault>
    decreases row_token_offsets.len() - index,
{
    if index < 0 || index >= row_token_offsets.len() {
        None
    } else {
        match token_offset_fault(bytes, row_token_offsets, index) {
            Some(fault) => Some(fault),
            None => first_token_fault(bytes, row_token_offsets, index + 1),
        }
    }
}

/// The fault of a payload.
pub open spec fn payload_fault(payload: PayloadView) -> Option<Fault> {
    match first_token_fault(payload.bytes, payload.row_token_offsets, 0) {
        Some(fault) => Some(fault),
        None => if payload.row_token_offsets.len() == 0 && payload.bytes.len() > 0 {
            Some(Fault::MissingTokenOffsets)
        } else {
            None
        },
    }
}

/// Whether offsets increase strictly and each points at a ROW token, and a payload with bytes has
/// rows.
pub open spec fn tokens_in_place(payload: PayloadView) -> bool {
    &&& payload.row_token_offsets.len() == 0 ==> payload.bytes.len() == 0
    &&& forall|i: int|
        0 <= i < payload.row_token_offsets.len() ==> (#[trigger] payload.row_token_offsets[i])
            < payload.bytes.len() && payload.bytes[payload.row_token_offsets[i] as int]
            == TDS_ROW_TOKEN
    &&& forall|i: int, j: int|
        0 <= i < j < payload.row_token_offsets.len() ==> (#[trigger] payload.row_token_offsets[i])
            < (#[trigger] payload.row_token_offsets[j])
}

impl EncodedRowsPayload {
    /// Every row-token offset is in place.
    #[verifier::type_invariant]
    pub open spec fn well_formed(self) -> bool {
        payload_fault(self@) is None
    }

    /// Creates an encoded rows payload after validating row-token offsets.
    pub fn new(bytes: Vec<u8>, row_token_offsets: Vec<usize>) -> (result: Result<Self>)
        ensures
            ({
                let payload = PayloadView {
                    bytes: bytes@,
                    row_token_offsets: row_token_offsets@,
                };
                match payload_fault(payload) {
                    Some(fault) => result matches Err(error) && error@ == payload_error(fault),
                    None => result matches Ok(found) && found@ == payload,
                }
            }),
    {
        match validate_row_token_offsets(bytes.as_slice(), row_token_offsets.as_slice()) {
            Ok(()) => Ok(EncodedRowsPayload { bytes, row_token_offsets }),
            Err(error) => Err(error),
        }
    }

    /// Returns the encoded bytes.
    pub fn bytes(&self) -> (bytes: &[u8])
        ensures
            bytes@ == self@.bytes,
    {
        self.bytes.as_slice()
    }

    /// Returns offsets where each TDS ROW token begins.
    pub fn row_token_offsets(&self) -> (offsets: &[usize])
        ensures
            offsets@ == self@.row_token_offsets,
    {
        self.row_token_offsets.as_slice()
    }

    /// Returns the number of encoded rows.
    pub fn row_count(&self) -> (count: usize)
        ensures
            count == self@.row_token_offsets.len(),
    {
        self.row_token_offsets.len()
    }

    /// Returns true when there are no encoded rows and no encoded bytes.
    pub fn is_empty(&self) -> (result: bool)
        ensures
            result == (self@.bytes.len() == 0 && self@.row_token_offsets.len() == 0),
    {
        self.bytes.len() == 0 && self.row_token_offsets.len() == 0
    }

    /// Consumes this payload into encoded bytes and row-token offsets.
    pub fn into_parts(self) -> (parts: (Vec<u8>, Vec<usize>))
        ensures
            parts.0@ == self@.bytes,
            parts.1@ == self@.row_token_offsets,
    {
        (self.bytes, self.row_token_offsets)
    }
}

/// Checks that row-token offsets increase strictly and point at ROW tokens.
pub fn validate_row_token_offsets(bytes: &[u8], row_token_offsets: &[usize]) -> (result: Result<()>)
    ensures
        outcome(result) == fault_outcome(
            payload_fault(
                (PayloadView { bytes: bytes@, row_token_offsets: row_token_offsets@ }),
            ),
        ),
{
    let mut index: usize = 0;
    while index < row_token_offsets.len()
        invariant
            index <= row_token_offsets.len(),
            first_token_fault(bytes@, row_token_offsets@, 0) == first_token_fault(
                bytes@,
                row_token_offsets@,
                index as int,
            ),
        decreases row_token_offsets.len() - index,
    {
        let offset: usize = row_token_offsets[index];
        if offset >= bytes.len() {
            return Err(
                invalid_payload(Fault::TokenOffsetOutside { offset, payload_len: bytes.len() }),
            );
        }
        if index > 0 && offset <= row_token_offsets[index - 1] {
            return Err(
                invalid_payload(
                    Fault::TokenOffsetOrder { offset, previous: row_token_offsets[index - 1] },
                ),
            );
        }
        if bytes[offset] != TDS_ROW_TOKEN {
            return Err(invalid_payload(Fault::NotRowToken { offset, byte: bytes[offset] }));
        }
        index += 1;
    }
    if row_token_offsets.len() == 0 && bytes.len() > 0 {
        return Err(invalid_payload(Fault::MissingTokenOffsets));
    }
    Ok(())
}

/// No offset from an index on has a fault exactly when every one of them has none.
proof fn lemma_first_token_fault(bytes: Seq<u8>, row_token_offsets: Seq<usize>, index: int)
    requires
        0 <= index <= row_token_offsets.len(),
    ensures
        first_token_fault(bytes, row_token_offsets, index) is None <==> (forall|i: int|
            index <= i < row_token_offsets.len() ==> #[trigger] token_offset_fault(
                bytes,
                row_token_offsets,
                i,
            ) is None),
    decreases row_token_offsets.len() - index,
{
    if index < row_token_offsets.len() {
        lemma_first_token_fault(bytes, row_token_offsets, index + 1);
        assert(token_offset_fault(bytes, row_token_offsets, index) is None || !(token_offset_fault(
            bytes,
            row_token_offsets,
            index,
        ) is None));
    }
}

/// Offsets that each exceed the one before them increase strictly.
proof fn lemma_offsets_increase(row_token_offsets: Seq<usize>, low: int, high: int)
    requires
        0 <= low < high < row_token_offsets.len(),
        forall|i: int|
            #![trigger row_token_offsets[i]]
            0 < i < row_token_offsets.len() ==> row_token_offsets[i - 1] < row_token_offsets[i],
    ensures
        row_token_offsets[low] < row_token_offsets[high],
    decreases high - low,
{
    if low + 1 < high {
        lemma_offsets_increase(row_token_offsets, low, high - 1);
    }
}

/// A payload is accepted exactly when its row-token offsets are in place.
pub proof fn law_payload_accepted_iff_tokens_in_place(payload: PayloadView)
    ensures
        payload_fault(payload) is None <==> tokens_in_place(payload),
{
    let bytes = payload.bytes;
    let offsets = payload.row_token_offsets;
    lemma_first_token_fault(bytes, offsets, 0);
    if payload_fault(payload) is None {
        assert forall|i: int| 0 <= i < offsets.len() implies (#[trigger] offsets[i]) < bytes.len()
            && bytes[offsets[i] as int] == TDS_ROW_TOKEN by {
            assert(token_offset_fault(bytes, offsets, i) is None);
        }
        assert forall|i: int|
            #![trigger offsets[i]]
            0 < i < offsets.len() implies offsets[i - 1] < offsets[i] by {
            assert(token_offset_fault(bytes, offsets, i) is None);
        }
        assert forall|i: int, j: int| 0 <= i < j < offsets.len() implies (#[trigger] offsets[i]) < (
        #[trigger] offsets[j]) by {
            lemma_offsets_increase(offsets, i, j);
        }
    }
    if tokens_in_place(payload) {
        assert forall|i: int| 0 <= i < offsets.len() implies #[trigger] token_offset_fault(
            bytes,
            offsets,
            i,
        ) is None by {
            assert(offsets[i] < bytes.len());
            if i > 0 {
                assert(offsets[i - 1] < offsets[i]);
            }
        }
    }
}

} // verus!
