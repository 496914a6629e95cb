//! Encoded row payloads.

use arrow_tds::diagnostic::{DiagnosticCode, Error};
use arrow_tds::direct::payload::{EncodedRowsPayload, TDS_ROW_TOKEN};

#[test]
fn accepts_empty_payload() {
    let payload = EncodedRowsPayload::new(Vec::new(), Vec::new()).expect("empty is valid");

    assert!(payload.is_empty());
    assert_eq!(payload.row_count(), 0);
    assert_eq!(payload.bytes(), []);
    assert_eq!(payload.row_token_offsets(), []);
}

#[test]
fn accepts_multi_row_payload_with_token_offsets() {
    let bytes = vec![TDS_ROW_TOKEN, 0x01, 0x02, TDS_ROW_TOKEN, 0x03];
    let payload =
        EncodedRowsPayload::new(bytes.clone(), vec![0, 3]).expect("offsets are valid");

    assert_eq!(payload.row_count(), 2);
    assert_eq!(payload.bytes(), bytes);
    assert_eq!(payload.row_token_offsets(), [0, 3]);
    assert_eq!(payload.into_parts(), (bytes, vec![0, 3]));
}

#[test]
fn rejects_non_empty_payload_without_offsets() {
    let err = EncodedRowsPayload::new(vec![TDS_ROW_TOKEN], Vec::new())
        .expect_err("non-empty payload without offsets is invalid");

    assert_invalid_payload(err);
}

#[test]
fn rejects_offset_outside_payload() {
    let err = EncodedRowsPayload::new(vec![TDS_ROW_TOKEN], vec![1])
        .expect_err("outside offset is invalid");

    assert_invalid_payload(err);
}

#[test]
fn rejects_offsets_that_do_not_point_at_row_tokens() {
    let err = EncodedRowsPayload::new(vec![TDS_ROW_TOKEN, 0x00], vec![1])
        .expect_err("offset must point to row token");

    assert_invalid_payload(err);
}

#[test]
fn rejects_duplicate_or_unsorted_offsets() {
    let duplicate = EncodedRowsPayload::new(vec![TDS_ROW_TOKEN, TDS_ROW_TOKEN], vec![0, 0])
        .expect_err("duplicate offsets are invalid");
    assert_invalid_payload(duplicate);

    let unsorted = EncodedRowsPayload::new(vec![TDS_ROW_TOKEN, TDS_ROW_TOKEN], vec![1, 0])
        .expect_err("unsorted offsets are invalid");
    assert_invalid_payload(unsorted);
}

fn assert_invalid_payload(err: Error) {
    let Error::DirectEncoding { diagnostics } = err else {
        panic!("expected direct encoding error");
    };

    assert_eq!(diagnostics.len(), 1);
    assert_eq!(
        diagnostics.all()[0].code(),
        DiagnosticCode::DirectEncodingInvalidPayload
    );
}
