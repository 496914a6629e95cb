//! Row payload measurement.

use arrow_tds::diagnostic::{DiagnosticCode, Error};
use arrow_tds::direct::measure::{MeasuredDirectBatch, MeasuredRowRange};

#[test]
fn measured_direct_batch_builds_payload_lengths() {
    let measured = MeasuredDirectBatch::new(2, 3, vec![4, 1, 8, 4, 5, 1]).unwrap();

    assert_eq!(measured.row_count(), 2);
    assert_eq!(measured.column_count(), 3);
    assert_eq!(measured.payload_len(), 25);
    assert_eq!(measured.range_payload_len(0, 1).unwrap(), 14);
    assert_eq!(measured.range_payload_len(1, 1).unwrap(), 11);
    assert_eq!(measured.cell_len(1, 1).unwrap(), 5);
}

#[test]
fn measured_direct_batch_ranges_split_by_payload_byte_limit() {
    let measured = MeasuredDirectBatch::new(4, 1, vec![4, 4, 4, 4]).unwrap();

    assert_eq!(measured.payload_len(), 20);
    assert_eq!(
        measured.row_ranges(10).unwrap(),
        [
            MeasuredRowRange { start: 0, len: 2 },
            MeasuredRowRange { start: 2, len: 2 },
        ]
    );
    assert_eq!(
        measured.row_ranges(4).unwrap(),
        [
            MeasuredRowRange { start: 0, len: 1 },
            MeasuredRowRange { start: 1, len: 1 },
            MeasuredRowRange { start: 2, len: 1 },
            MeasuredRowRange { start: 3, len: 1 },
        ]
    );
}

#[test]
fn measured_direct_batch_rejects_invalid_cell_length_count() {
    let err = MeasuredDirectBatch::new(2, 2, vec![1, 2, 3])
        .expect_err("cell length count must match shape");

    assert_direct_encoding_invalid_payload(err);
}

#[test]
fn measured_direct_batch_rejects_invalid_ranges() {
    let measured = MeasuredDirectBatch::new(2, 1, vec![4, 4]).unwrap();

    assert_direct_encoding_invalid_payload(
        measured
            .range_payload_len(1, 2)
            .expect_err("range past measured rows must fail"),
    );
    assert_direct_encoding_invalid_payload(
        measured
            .row_ranges(0)
            .expect_err("zero byte limit must fail"),
    );
}

fn assert_direct_encoding_invalid_payload(err: Error) {
    let Error::DirectEncoding { diagnostics } = err else {
        panic!("expected direct encoding error");
    };

    assert_eq!(diagnostics.len(), 1);
    assert_eq!(
        diagnostics.all()[0].code(),
        DiagnosticCode::DirectEncodingInvalidPayload
    );
}
