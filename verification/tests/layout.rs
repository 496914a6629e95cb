//! Row-major payload layouts.

use arrow_tds::diagnostic::{DiagnosticCode, Error};
use arrow_tds::direct::layout::{CellPosition, RowLayout};

#[test]
fn accepts_empty_layout() {
    let layout =
        RowLayout::new(Vec::new(), Vec::new(), Vec::new(), 0).expect("empty layout is valid");

    assert_eq!(layout.row_count(), 0);
    assert_eq!(layout.row_token_offsets(), []);
    assert_eq!(layout.row_lengths(), []);
    assert_eq!(layout.cell_positions(), []);
    assert_eq!(layout.payload_len(), 0);
}

#[test]
fn accepts_contiguous_multi_row_layout_with_cells() {
    let cells = vec![CellPosition::new(0, 0, 1, 4), CellPosition::new(1, 0, 7, 4)];
    let layout = RowLayout::new(vec![0, 6], vec![6, 6], cells.clone(), 12)
        .expect("contiguous layout is valid");

    assert_eq!(layout.row_count(), 2);
    assert_eq!(layout.row_token_offsets(), [0, 6]);
    assert_eq!(layout.row_lengths(), [6, 6]);
    assert_eq!(layout.cell_positions(), cells);
    assert_eq!(layout.cell_positions()[0].row_index(), 0);
    assert_eq!(layout.cell_positions()[0].column_index(), 0);
    assert_eq!(layout.cell_positions()[0].offset(), 1);
    assert_eq!(layout.cell_positions()[0].len(), 4);
    assert!(!layout.cell_positions()[0].is_empty());
}

#[test]
fn rejects_row_count_mismatch() {
    let err = RowLayout::new(vec![0], Vec::new(), Vec::new(), 1)
        .expect_err("row offsets and lengths must match");

    assert_invalid_layout(err);
}

#[test]
fn rejects_non_zero_first_row_offset() {
    let err = RowLayout::new(vec![1], vec![1], Vec::new(), 2)
        .expect_err("first row must start at zero");

    assert_invalid_layout(err);
}

#[test]
fn rejects_gaps_between_rows() {
    let err = RowLayout::new(vec![0, 3], vec![2, 1], Vec::new(), 4)
        .expect_err("rows must be contiguous");

    assert_invalid_layout(err);
}

#[test]
fn rejects_layout_that_does_not_cover_payload() {
    let err = RowLayout::new(vec![0], vec![1], Vec::new(), 2)
        .expect_err("layout must cover payload exactly");

    assert_invalid_layout(err);
}

#[test]
fn rejects_cell_outside_row_count() {
    let err = RowLayout::new(vec![0], vec![1], vec![CellPosition::new(1, 0, 0, 1)], 1)
        .expect_err("cell row must exist");

    assert_invalid_layout(err);
}

#[test]
fn rejects_cell_outside_payload() {
    let err = RowLayout::new(vec![0], vec![1], vec![CellPosition::new(0, 0, 0, 2)], 1)
        .expect_err("cell must fit payload");

    assert_invalid_layout(err);
}

fn assert_invalid_layout(err: Error) {
    let Error::DirectEncoding { diagnostics } = err else {
        panic!("expected direct encoding error");
    };

    assert_eq!(diagnostics.len(), 1);
    assert_eq!(
        diagnostics.all()[0].code(),
        DiagnosticCode::DirectEncodingInvalidPayload
    );
}
