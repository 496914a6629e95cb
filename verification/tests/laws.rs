//! What holds across calls, on concrete values.

use arrow_tds::arrow_type::{DataType, TimeUnit};
use arrow_tds::batch::{ColumnArray, RecordBatch};
use arrow_tds::cell::{
    MssqlDate, MssqlDateTime, MssqlDateTime2, MssqlDateTimeOffset, MssqlDecimal, MssqlTime,
};
use arrow_tds::context::{NanosecondPolicy, PlanOptions};
use arrow_tds::convert::RecordBatchView;
use arrow_tds::diagnostic::{DiagnosticCode, Error};
use arrow_tds::direct::bound::BoundDirectBatch;
use arrow_tds::direct::decimal::{decimal_cell_len, write_decimal_cell, write_null_decimal_cell};
use arrow_tds::direct::encode::encode_general_rows;
use arrow_tds::direct::encoder::DirectEncoder;
use arrow_tds::direct::layout::{CellPosition, RowLayout};
use arrow_tds::direct::measure::MeasuredDirectBatch;
use arrow_tds::direct::payload::EncodedRowsPayload;
use arrow_tds::direct::plan::{CurrentDirectMappings, DirectEncoderPlan};
use arrow_tds::direct::primitive_rows::try_encode_fixed_width_primitive_rows;
use arrow_tds::direct::rows::build_fixed_width_row_layout;
use arrow_tds::direct::temporal::{
    write_datetime2_cell, write_datetime_cell, write_datetimeoffset_cell, write_time_cell,
};
use arrow_tds::float::float32_from_float16;
use arrow_tds::mapping::{ArrowFieldRef, MssqlColumn, SchemaMapping};
use arrow_tds::mssql_type::{MssqlType, MssqlTypeLength};
use arrow_tds::temporal::{
    mssql_datetime2_at_precision, mssql_datetime2_from_arrow_timestamp_nanosecond,
    mssql_datetime2_from_arrow_timestamp_second, mssql_datetime_from_arrow_timestamp,
    mssql_datetimeoffset_from_utc_100ns_ticks, nanoseconds_to_100ns_ticks,
};
use arrow_tds::timezone::{sql_server_offset_minutes, timezone_resolution_from_metadata};
use arrow_tds::token_row::TiberiusCell;

fn mapping(index: usize, data_type: DataType, mssql_type: MssqlType, nullable: bool) -> SchemaMapping {
    SchemaMapping::new(
        ArrowFieldRef::new(index, format!("c{index}"), nullable, data_type),
        MssqlColumn::new(format!("c{index}"), mssql_type, nullable),
    )
}

fn batch(columns: Vec<ColumnArray>) -> RecordBatch {
    let row_count = columns.first().map_or(0, ColumnArray::len);
    let names = (0..columns.len()).map(|index| format!("c{index}")).collect();
    RecordBatch::try_new(names, columns, row_count).unwrap()
}

/// Mappings and a batch of fixed-width and variable-width columns.
fn mixed() -> (Vec<SchemaMapping>, RecordBatch) {
    let mappings = vec![
        mapping(0, DataType::Int32, MssqlType::Int, false),
        mapping(1, DataType::Boolean, MssqlType::Bit, true),
        mapping(
            2,
            DataType::Utf8,
            MssqlType::NVarChar(MssqlTypeLength::Bounded(10)),
            true,
        ),
        mapping(
            3,
            DataType::Decimal128(20, 2),
            MssqlType::Decimal { precision: 20, scale: 2 },
            true,
        ),
    ];
    let batch = batch(vec![
        ColumnArray::Int32(vec![Some(1), Some(-2), Some(3)]),
        ColumnArray::Boolean(vec![Some(true), None, Some(false)]),
        ColumnArray::Utf8(vec![Some("a".to_owned()), Some("😀".to_owned()), None]),
        ColumnArray::Decimal128 {
            precision: 20,
            scale: 2,
            values: vec![None, Some(-100_000_000_000), Some(7)],
        },
    ]);
    (mappings, batch)
}

fn concatenated(payloads: Vec<EncodedRowsPayload>) -> Vec<u8> {
    payloads
        .into_iter()
        .flat_map(|payload| payload.into_parts().0)
        .collect()
}

#[test]
fn a_batch_encodes_to_its_tokens_and_cells() {
    let (mappings, batch) = mixed();
    let encoder = DirectEncoder::new(&mappings).unwrap();

    let payload = encoder.encode_batch(&batch).unwrap();

    let mut expected = vec![0xD1, 1, 0, 0, 0, 1, 1, 2, 0, b'a', 0, 0];
    expected.extend([0xD1, 0xFE, 0xFF, 0xFF, 0xFF, 0, 4, 0, 0x3D, 0xD8, 0x00, 0xDE]);
    expected.extend([9, 0, 0x00, 0xE8, 0x76, 0x48, 0x17, 0, 0, 0]);
    expected.extend([0xD1, 3, 0, 0, 0, 1, 0, 0xFF, 0xFF, 5, 1, 7, 0, 0, 0]);
    assert_eq!(payload.bytes(), expected);
    assert_eq!(payload.row_token_offsets(), [0, 12, 34]);
    assert!(EncodedRowsPayload::new(expected, vec![0, 12, 34]).is_ok());
}

#[test]
fn every_way_of_encoding_gives_the_same_bytes() {
    let (mappings, batch) = mixed();
    let encoder = DirectEncoder::new(&mappings).unwrap();
    let whole = encoder.encode_batch(&batch).unwrap();
    let measured = encoder.measure_batch(&batch).unwrap();

    assert_eq!(measured.payload_len(), whole.bytes().len());
    assert_eq!(encoder.encode_batch_range(&batch, 0, 3).unwrap(), whole);
    assert_eq!(
        encoder
            .encode_measured_batch_range(&batch, &measured, 0, 3)
            .unwrap(),
        whole
    );
    let bound = BoundDirectBatch::new(&encoder, &batch).unwrap();
    assert_eq!(encode_general_rows(&bound).unwrap(), whole);

    for split in 0..=3 {
        let ranges = vec![
            encoder.encode_batch_range(&batch, 0, split).unwrap(),
            encoder.encode_batch_range(&batch, split, 3 - split).unwrap(),
        ];
        assert_eq!(concatenated(ranges), whole.bytes());
        let ranges = vec![
            encoder
                .encode_measured_batch_range(&batch, &measured, 0, split)
                .unwrap(),
            encoder
                .encode_measured_batch_range(&batch, &measured, split, 3 - split)
                .unwrap(),
        ];
        assert_eq!(concatenated(ranges), whole.bytes());
    }
}

#[test]
fn measured_ranges_count_their_bytes() {
    let (mappings, batch) = mixed();
    let encoder = DirectEncoder::new(&mappings).unwrap();
    let measured = encoder.measure_batch(&batch).unwrap();

    for start in 0..=3 {
        for count in 0..=3 - start {
            let range = encoder
                .encode_measured_batch_range(&batch, &measured, start, count)
                .unwrap();
            assert_eq!(
                measured.range_payload_len(start, count).unwrap(),
                range.bytes().len()
            );
            assert_eq!(range.row_count(), count);
        }
    }
    assert_eq!(
        measured.range_payload_len(0, 3).unwrap(),
        measured.range_payload_len(0, 1).unwrap() + measured.range_payload_len(1, 2).unwrap()
    );
}

#[test]
fn row_ranges_cover_the_batch_within_the_limit() {
    let (mappings, batch) = mixed();
    let encoder = DirectEncoder::new(&mappings).unwrap();
    let measured = encoder.measure_batch(&batch).unwrap();
    let whole = encoder.encode_batch(&batch).unwrap();

    for limit in [1, 12, 22, 33, 34, 48, 49, usize::MAX] {
        let mut next = 0;
        let mut bytes = Vec::new();
        for range in measured.row_ranges(limit).unwrap() {
            assert_eq!(range.start, next);
            assert!(range.len >= 1);
            let len = measured.range_payload_len(range.start, range.len).unwrap();
            assert!(len <= limit || range.len == 1);
            next += range.len;
            if next < 3 {
                let longer = measured.range_payload_len(range.start, range.len + 1).unwrap();
                assert!(longer > limit);
            }
            bytes.extend_from_slice(
                encoder
                    .encode_batch_range(&batch, range.start, range.len)
                    .unwrap()
                    .bytes(),
            );
        }
        assert_eq!(next, 3);
        assert_eq!(bytes, whole.bytes());
    }
}

#[test]
fn appended_rows_are_encoded_rows() {
    let (mappings, batch) = mixed();
    let encoder = DirectEncoder::new(&mappings).unwrap();
    let measured = encoder.measure_batch(&batch).unwrap();
    let whole = encoder.encode_batch(&batch).unwrap();
    let mut buf = vec![0xAA];

    let first = encoder
        .encode_measured_batch_range_into(&batch, &measured, 0, 1, &mut buf)
        .unwrap();
    let rest = encoder
        .encode_measured_batch_range_into(&batch, &measured, 1, 2, &mut buf)
        .unwrap();

    assert_eq!(buf[0], 0xAA);
    assert_eq!(&buf[1..], whole.bytes());
    assert_eq!(first.byte_len + rest.byte_len, whole.bytes().len());
    assert_eq!(first.row_token_offsets, [0]);
    assert_eq!(rest.row_token_offsets, [0, 22]);
}

#[test]
fn refused_appends_leave_the_buffer_alone() {
    let (mappings, batch) = mixed();
    let encoder = DirectEncoder::new(&mappings).unwrap();
    let other = MeasuredDirectBatch::new(3, 4, vec![4; 12]).unwrap();
    let mut buf = vec![1, 2, 3];

    let err = encoder
        .encode_measured_batch_range_into(&batch, &other, 0, 3, &mut buf)
        .unwrap_err();

    assert!(matches!(err, Error::DirectEncoding { .. }));
    assert_eq!(buf, [1, 2, 3]);
}

#[test]
fn the_first_error_is_that_of_the_first_column() {
    let mappings = vec![
        mapping(0, DataType::Float64, MssqlType::Float { precision: 53 }, true),
        mapping(1, DataType::Int32, MssqlType::Int, false),
    ];
    let encoder = DirectEncoder::new(&mappings).unwrap();
    let batch = batch(vec![
        ColumnArray::Float64(vec![
            Some(1.5_f64.to_bits()),
            Some(f64::NAN.to_bits()),
            Some(f64::INFINITY.to_bits()),
        ]),
        ColumnArray::Int32(vec![None, Some(1), Some(2)]),
    ]);

    for err in [
        encoder.encode_batch(&batch).unwrap_err(),
        encoder.measure_batch(&batch).unwrap_err(),
    ] {
        let Error::ValueConversion { diagnostics } = err else {
            panic!("expected value conversion error");
        };
        assert_eq!(diagnostics.all()[0].code(), DiagnosticCode::NonFiniteFloat);
        assert_eq!(diagnostics.all()[0].row(), Some(1));
        assert_eq!(diagnostics.all()[0].field().unwrap().index(), 0);
    }
}

#[test]
fn the_primitive_path_agrees_with_the_general_path() {
    let mappings = vec![
        mapping(0, DataType::Boolean, MssqlType::Bit, true),
        mapping(1, DataType::Int32, MssqlType::Int, false),
        mapping(2, DataType::Int64, MssqlType::BigInt, true),
        mapping(3, DataType::Float64, MssqlType::Float { precision: 53 }, false),
    ];
    let encoder = DirectEncoder::new(&mappings).unwrap();
    let plan = DirectEncoderPlan::new(&mappings, &CurrentDirectMappings).unwrap();
    let batch = batch(vec![
        ColumnArray::Boolean(vec![Some(true), None]),
        ColumnArray::Int32(vec![Some(1), Some(2)]),
        ColumnArray::Int64(vec![None, Some(-1)]),
        ColumnArray::Float64(vec![Some(1.25_f64.to_bits()), Some(0)]),
    ]);

    let fast = try_encode_fixed_width_primitive_rows(&batch, plan.columns())
        .unwrap()
        .expect("all columns are primitive");

    assert_eq!(fast, encoder.encode_batch(&batch).unwrap());
}

#[test]
fn variable_width_columns_have_no_primitive_path() {
    let (mappings, batch) = mixed();
    let plan = DirectEncoderPlan::new(&mappings, &CurrentDirectMappings).unwrap();

    assert!(try_encode_fixed_width_primitive_rows(&batch, plan.columns())
        .unwrap()
        .is_none());
}

#[test]
fn empty_batches_encode_to_nothing() {
    let (mappings, _) = mixed();
    let encoder = DirectEncoder::new(&mappings).unwrap();
    let empty = batch(vec![
        ColumnArray::Int32(Vec::new()),
        ColumnArray::Boolean(Vec::new()),
        ColumnArray::Utf8(Vec::new()),
        ColumnArray::Decimal128 {
            precision: 20,
            scale: 2,
            values: Vec::new(),
        },
    ]);

    assert!(encoder.encode_batch(&empty).unwrap().is_empty());
    let measured = encoder.measure_batch(&empty).unwrap();
    assert_eq!(measured.payload_len(), 0);
    assert_eq!(measured.row_ranges(1).unwrap(), []);
    assert!(encoder
        .encode_measured_batch_range(&empty, &measured, 0, 0)
        .unwrap()
        .is_empty());
}

#[test]
fn built_layouts_tile_their_payload() {
    let layout = build_fixed_width_row_layout(2, 3, &[1, 0, 4, 2, 8, 1]).unwrap();

    assert_eq!(layout.row_token_offsets(), [0, 6]);
    assert_eq!(layout.row_lengths(), [6, 12]);
    assert_eq!(layout.payload_len(), 18);
    assert_eq!(
        layout.cell_positions()[4],
        CellPosition::new(1, 1, 9, 8)
    );
    assert!(RowLayout::new(
        layout.row_token_offsets().to_vec(),
        layout.row_lengths().to_vec(),
        layout.cell_positions().to_vec(),
        layout.payload_len(),
    )
    .is_ok());
}

#[test]
fn decimals_are_read_back_from_their_cells() {
    for unscaled in [
        0_i128,
        1,
        -1,
        999_999_999,
        1_000_000_000,
        -9_999_999_999_999_999_999,
        10_000_000_000_000_000_000,
        i128::from(u64::MAX),
        99_999_999_999_999_999_999_999_999_999_999_999_999,
        -99_999_999_999_999_999_999_999_999_999_999_999_999,
    ] {
        let mut bytes = vec![0; decimal_cell_len(unscaled)];
        write_decimal_cell(&mut bytes, unscaled).unwrap();
        assert_eq!(usize::from(bytes[0]), bytes.len() - 1);
        let magnitude = bytes[2..]
            .iter()
            .rev()
            .fold(0_u128, |value, byte| value << 8 | u128::from(*byte));
        let sign = if bytes[1] == 1 { 1 } else { -1 };
        assert_eq!(sign * magnitude as i128, unscaled);
        let mut null = [9];
        write_null_decimal_cell(&mut null).unwrap();
        assert_ne!(bytes, null);
    }
}

#[test]
fn temporal_cells_hold_their_values() {
    let date = MssqlDate::new(0x01_02_03);
    let mut time = [0; 6];
    write_time_cell(&mut time, MssqlTime::new(0x0A_0B_0C_0D_0E, 7)).unwrap();
    assert_eq!(time, [5, 0x0E, 0x0D, 0x0C, 0x0B, 0x0A]);

    let mut datetime = [0; 9];
    write_datetime_cell(&mut datetime, MssqlDateTime::new(-1, 300)).unwrap();
    assert_eq!(datetime, [8, 0xFF, 0xFF, 0xFF, 0xFF, 0x2C, 0x01, 0, 0]);

    let datetime2 = MssqlDateTime2::new(date, MssqlTime::new(5, 3));
    let mut bytes = [0; 8];
    write_datetime2_cell(&mut bytes, datetime2).unwrap();
    assert_eq!(bytes, [7, 5, 0, 0, 0, 0x03, 0x02, 0x01]);

    let mut bytes = [0; 10];
    write_datetimeoffset_cell(&mut bytes, MssqlDateTimeOffset::new(datetime2, -60)).unwrap();
    assert_eq!(bytes, [9, 5, 0, 0, 0, 0x03, 0x02, 0x01, 0xC4, 0xFF]);
}

#[test]
fn datetime2_keeps_the_instant() {
    let any = mapping(0, DataType::Date32, MssqlType::Date, true);

    for seconds in [0_i64, 1, -1, 86_399, -86_401, 1_750_593_600, -62_135_596_800] {
        let found = mssql_datetime2_from_arrow_timestamp_second(&any, 0, seconds).unwrap();
        let ticks = (i128::from(found.date().days()) - 719_162) * 864_000_000_000
            + i128::from(found.time().increments());
        assert_eq!(ticks, i128::from(seconds) * 10_000_000);
    }
    assert!(mssql_datetime2_from_arrow_timestamp_second(&any, 0, -62_135_596_801).is_err());
    assert!(mssql_datetime2_from_arrow_timestamp_second(&any, 0, 253_402_300_799).is_ok());
    assert!(mssql_datetime2_from_arrow_timestamp_second(&any, 0, 253_402_300_800).is_err());
}

#[test]
fn lower_precisions_round_to_the_nearest_increment() {
    let any = mapping(0, DataType::Date32, MssqlType::Date, true);
    let at = |microseconds, precision| {
        mssql_datetime2_at_precision(
            &any,
            0,
            TimeUnit::Microsecond,
            microseconds,
            NanosecondPolicy::RejectNon100ns,
            precision,
        )
        .unwrap()
    };

    assert_eq!(at(1_499, 3).time(), MssqlTime::new(1, 3));
    assert_eq!(at(1_500, 3).time(), MssqlTime::new(2, 3));
    assert_eq!(at(1_499, 7).time(), MssqlTime::new(14_990, 7));
    let midnight = at(86_399_999_999, 0);
    assert_eq!(midnight.date(), MssqlDate::new(719_163));
    assert_eq!(midnight.time(), MssqlTime::new(0, 0));
}

#[test]
fn datetime_rounds_to_the_nearest_three_hundredth() {
    let any = mapping(0, DataType::Date32, MssqlType::Date, true);
    let at = |milliseconds| {
        mssql_datetime_from_arrow_timestamp(
            &any,
            0,
            TimeUnit::Millisecond,
            milliseconds,
            NanosecondPolicy::RejectNon100ns,
        )
        .unwrap()
    };

    assert_eq!(at(0), MssqlDateTime::new(25_567, 0));
    assert_eq!(at(1), MssqlDateTime::new(25_567, 0));
    assert_eq!(at(2), MssqlDateTime::new(25_567, 1));
    assert_eq!(at(1_000), MssqlDateTime::new(25_567, 300));
    assert_eq!(at(86_399_999), MssqlDateTime::new(25_568, 0));
}

#[test]
fn whole_ticks_need_no_policy() {
    let any = mapping(0, DataType::Date32, MssqlType::Date, true);
    let policies = [
        NanosecondPolicy::RejectNon100ns,
        NanosecondPolicy::TruncateTo100ns,
        NanosecondPolicy::RoundTo100ns,
    ];

    for nanoseconds in [0_i64, 100, -100, 9_223_372_036_854_775_800] {
        for policy in policies {
            assert_eq!(
                nanoseconds_to_100ns_ticks(&any, 0, nanoseconds, policy).unwrap(),
                i128::from(nanoseconds) / 100
            );
        }
    }
    let ticks =
        |nanoseconds, policy| nanoseconds_to_100ns_ticks(&any, 0, nanoseconds, policy).unwrap();
    assert_eq!(ticks(149, NanosecondPolicy::RoundTo100ns), 1);
    assert_eq!(ticks(150, NanosecondPolicy::RoundTo100ns), 2);
    assert_eq!(ticks(-150, NanosecondPolicy::RoundTo100ns), -1);
    assert_eq!(ticks(-151, NanosecondPolicy::RoundTo100ns), -2);
    assert_eq!(ticks(199, NanosecondPolicy::TruncateTo100ns), 1);
    assert_eq!(ticks(-1, NanosecondPolicy::TruncateTo100ns), -1);
    let rounded = mssql_datetime2_from_arrow_timestamp_nanosecond(
        &any,
        0,
        250,
        NanosecondPolicy::RoundTo100ns,
    )
    .unwrap();
    assert_eq!(rounded.time(), MssqlTime::new(3, 7));
}

#[test]
fn offsets_shift_the_local_time() {
    let any = mapping(0, DataType::Date32, MssqlType::Date, true);

    let found =
        mssql_datetimeoffset_from_utc_100ns_ticks(&any, 0, 0, -90, "second", 0).unwrap();

    assert_eq!(found.offset_minutes(), -90);
    assert_eq!(found.datetime2().date(), MssqlDate::new(719_161));
    assert_eq!(
        found.datetime2().time(),
        MssqlTime::new((86_400 - 5_400) * 10_000_000, 7)
    );
}

#[test]
fn timezones_are_looked_up_by_name_and_instant() {
    let any = mapping(
        0,
        DataType::Timestamp(TimeUnit::Second, Some("America/New_York".to_owned())),
        MssqlType::DateTimeOffset { precision: 7 },
        true,
    );
    let offset = |timezone: &str, seconds| {
        timezone_resolution_from_metadata(&any, 0, timezone)
            .unwrap()
            .offset_for_instant(&any, 0, seconds, 0)
            .unwrap()
    };

    assert_eq!(offset("America/New_York", 1_735_732_800), -300);
    assert_eq!(offset("America/New_York", 1_750_593_600), -240);
    assert_eq!(offset("Asia/Kolkata", 1_750_593_600), 330);
    for timezone in ["+05:30", "+0530"] {
        assert_eq!(offset(timezone, 0), 330);
        assert_eq!(offset(timezone, 1_750_593_600), 330);
    }
    assert_eq!(offset("-07", 0), -420);
    assert_eq!(offset("UTC", 0), 0);
    assert!(timezone_resolution_from_metadata(&any, 0, "+14:01").is_err());
    assert!(timezone_resolution_from_metadata(&any, 0, "Mars/Olympus").is_err());
    assert!(timezone_resolution_from_metadata(&any, 0, "").is_err());

    assert_eq!(sql_server_offset_minutes(&any, 0, 50_400).unwrap(), 840);
    assert_eq!(sql_server_offset_minutes(&any, 0, -50_400).unwrap(), -840);
    assert!(sql_server_offset_minutes(&any, 0, 50_460).is_err());
    assert!(sql_server_offset_minutes(&any, 0, 30).is_err());
}

#[test]
fn half_precision_floats_widen_exactly() {
    let cases: [(u16, f32); 9] = [
        (0x0000, 0.0),
        (0x8000, -0.0),
        (0x3C00, 1.0),
        (0xC000, -2.0),
        (0x3555, 0.333_251_95),
        (0x7BFF, 65_504.0),
        (0x0400, 0.000_061_035_156_25),
        (0x0001, 5.960_464_5e-8),
        (0x03FF, 6.097_555e-5),
    ];
    for (bits, value) in cases {
        assert_eq!(float32_from_float16(bits), value.to_bits());
    }
}

#[test]
fn converted_rows_reach_the_client_unchanged() {
    let mappings = vec![
        mapping(
            0,
            DataType::Decimal128(10, 2),
            MssqlType::Decimal { precision: 10, scale: 2 },
            true,
        ),
        mapping(1, DataType::Date32, MssqlType::Date, true),
        mapping(
            2,
            DataType::Timestamp(TimeUnit::Second, Some("+01:00".to_owned())),
            MssqlType::DateTimeOffset { precision: 7 },
            true,
        ),
        mapping(3, DataType::Float32, MssqlType::Real, true),
    ];
    let batch = batch(vec![
        ColumnArray::Decimal128 {
            precision: 10,
            scale: 2,
            values: vec![Some(-12_345)],
        },
        ColumnArray::Date32(vec![Some(0)]),
        ColumnArray::Timestamp {
            unit: TimeUnit::Second,
            timezone: Some("+01:00".to_owned()),
            values: vec![Some(0)],
        },
        ColumnArray::Float32(vec![Some(1.5_f32.to_bits())]),
    ]);
    let view =
        RecordBatchView::new_with_options(&batch, &mappings, &PlanOptions::default()).unwrap();

    let row = view.tiberius_row_owned(0).unwrap();

    let TiberiusCell::Data(tiberius::ColumnData::Numeric(Some(numeric))) = &row[0] else {
        panic!("expected a decimal");
    };
    assert_eq!((numeric.value(), numeric.scale()), (-12_345, 2));
    let TiberiusCell::Data(tiberius::ColumnData::Date(Some(date))) = &row[1] else {
        panic!("expected a date");
    };
    assert_eq!(date.days(), 719_162);
    let TiberiusCell::Data(tiberius::ColumnData::DateTimeOffset(Some(found))) = &row[2] else {
        panic!("expected a datetimeoffset");
    };
    assert_eq!(found.offset(), 60);
    assert_eq!(found.datetime2().date().days(), 719_162);
    assert_eq!(found.datetime2().time().scale(), 7);
    assert!(matches!(row[3], TiberiusCell::Real(Some(bits)) if bits == 1.5_f32.to_bits()));

    let numeric = MssqlDecimal::new(7, 3).to_tiberius_numeric();
    assert_eq!((numeric.value(), numeric.scale()), (7, 3));
}

#[test]
fn bound_columns_hold_the_planned_column_at_their_position() {
    let mappings = vec![
        mapping(0, DataType::Int32, MssqlType::Int, false),
        mapping(1, DataType::Int32, MssqlType::Int, true),
    ];
    let encoder = DirectEncoder::new(&mappings).unwrap();
    let batch = batch(vec![
        ColumnArray::Int32(vec![Some(1)]),
        ColumnArray::Int32(vec![None]),
    ]);

    let bound = BoundDirectBatch::new(&encoder, &batch).unwrap();

    assert_eq!(bound.columns().len(), 2);
    for (index, column) in bound.columns().iter().enumerate() {
        let plan = column.column().plan;
        assert_eq!(plan, &encoder.plan().columns()[index]);
        assert_eq!(plan.source_index(), index);
        assert_eq!(plan.source_name(), format!("c{index}"));
        assert_eq!(plan.nullable(), index == 1);
        assert_eq!(column.mapping(), &mappings[index]);
    }
}
