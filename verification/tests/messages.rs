//! Texts of the diagnostics.

use arrow_tds::arrow_type::{arrow_type_debug, arrow_type_name, DataType, OtherType, TimeUnit};
use arrow_tds::batch::{ColumnArray, RecordBatch};
use arrow_tds::cell::{ArrowCell, Int256, MssqlDate, MssqlDateTime2, MssqlTime};
use arrow_tds::classify::{
    FixedSizeBinaryArrowToMssql, PrimitiveArrowToMssql, VariableWidthArrowToMssql,
};
use arrow_tds::context::{NanosecondPolicy, PlanOptions};
use arrow_tds::convert::{
    mssql_bigint_value, mssql_bit_value, mssql_date_value, mssql_datetime2_value,
    mssql_datetimeoffset_value, mssql_float_value, mssql_int_value, mssql_nvarchar_value,
    mssql_real_value, mssql_smallint_value, mssql_tinyint_value, mssql_varbinary_value,
    ArrowToMssqlRuntimeMapping, RecordBatchView,
};
use arrow_tds::decimal::mssql_decimal_value;
use arrow_tds::diagnostic::{DiagnosticCode, Error};
use arrow_tds::direct::binding::{bind_direct_column, BoundColumn};
use arrow_tds::direct::decimal::{write_decimal_cell, write_null_decimal_cell};
use arrow_tds::direct::encoder::DirectEncoder;
use arrow_tds::direct::layout::{CellPosition, RowLayout};
use arrow_tds::direct::measure::MeasuredDirectBatch;
use arrow_tds::direct::payload::EncodedRowsPayload;
use arrow_tds::direct::plan::{DirectColumnEncoding, DirectColumnPlan};
use arrow_tds::direct::primitive::{
    append_boolean_cell, append_int32_cell, append_null_cell, append_primitive_cell,
    primitive_value_len, write_fixed_width_cell, write_null_cell, write_nullable_primitive_cell,
};
use arrow_tds::direct::primitive_rows::add_nullable_fixed_width_column_lengths;
use arrow_tds::direct::rows::cell_position;
use arrow_tds::direct::temporal::{write_datetime2_cell, write_time_cell};
use arrow_tds::mapping::{ArrowFieldRef, MssqlColumn, SchemaMapping};
use arrow_tds::mssql_type::{MssqlTimePrecision, MssqlType, MssqlTypeLength};
use arrow_tds::temporal::{
    epoch_parts, mssql_date_from_arrow_date32, mssql_datetime2_from_arrow_date64,
    mssql_datetime2_from_arrow_timestamp_second, mssql_datetime_from_arrow_timestamp,
    mssql_time_from_arrow_time, nanoseconds_to_100ns_ticks,
};
use arrow_tds::timezone::{sql_server_offset_minutes, timezone_resolution_from_metadata};

fn mapping(data_type: DataType, mssql_type: MssqlType, nullable: bool) -> SchemaMapping {
    SchemaMapping::new(
        ArrowFieldRef::new(0, "value".to_owned(), nullable, data_type),
        MssqlColumn::new("value".to_owned(), mssql_type, nullable),
    )
}

fn batch(name: &str, array: ColumnArray) -> RecordBatch {
    let row_count = array.len();
    RecordBatch::try_new(vec![name.to_owned()], vec![array], row_count).unwrap()
}

/// A type that is not converted, with its name and its identity.
fn other_type(name: &str, identity: &str) -> OtherType<String> {
    OtherType {
        name: name.to_owned(),
        debug: format!("{name}, in full"),
        identity: identity.to_owned(),
    }
}

/// The code and the text of the only diagnostic of an error.
fn diagnostic_of(error: Error) -> (DiagnosticCode, String) {
    let diagnostics = match error {
        Error::ValueConversion { diagnostics } => diagnostics,
        Error::DirectEncoding { diagnostics } => diagnostics,
    };
    assert_eq!(diagnostics.len(), 1);
    let diagnostic = &diagnostics.all()[0];
    (diagnostic.code(), diagnostic.message())
}

fn text_of(error: Error) -> String {
    diagnostic_of(error).1
}

#[test]
fn payload_mismatches_show_the_cell() {
    let mapping = mapping(DataType::Int32, MssqlType::Int, false);

    assert_eq!(
        text_of(mssql_bit_value(&mapping, 0, ArrowCell::Int32(-7)).unwrap_err()),
        "expected Arrow boolean payload, got Int32(-7)"
    );
    assert_eq!(
        text_of(mssql_tinyint_value(&mapping, 0, ArrowCell::Boolean(true)).unwrap_err()),
        "expected Arrow UInt8 payload, got Boolean(true)"
    );
    assert_eq!(
        text_of(mssql_smallint_value(&mapping, 0, ArrowCell::UInt64(u64::MAX)).unwrap_err()),
        "expected Arrow Int8 or Int16 payload, got UInt64(18446744073709551615)"
    );
    assert_eq!(
        text_of(mssql_int_value(&mapping, 0, ArrowCell::Utf8("a\"b\n")).unwrap_err()),
        "expected Arrow Int32 or UInt16 payload, got Utf8(\"a\\\"b\\n\")"
    );
    assert_eq!(
        text_of(mssql_bigint_value(&mapping, 0, ArrowCell::Binary(&[1, 20, 255])).unwrap_err()),
        "expected Arrow Int64, UInt32, or UInt64 payload, got Binary([1, 20, 255])"
    );
    assert_eq!(
        text_of(mssql_bigint_value(&mapping, 0, ArrowCell::Binary(&[])).unwrap_err()),
        "expected Arrow Int64, UInt32, or UInt64 payload, got Binary([])"
    );
    assert_eq!(
        text_of(mssql_date_value(&mapping, 0, ArrowCell::Null).unwrap_err()),
        "expected Arrow Date32 payload, got (Null, Int32)"
    );
    assert_eq!(
        text_of(mssql_real_value(&mapping, 0, ArrowCell::Date64(5)).unwrap_err()),
        "expected Arrow Float32 payload, got Date64(5)"
    );
    assert_eq!(
        text_of(mssql_float_value(&mapping, 0, ArrowCell::TimestampSecond(-1)).unwrap_err()),
        "expected Arrow Float64 payload, got TimestampSecond(-1)"
    );
    assert_eq!(
        text_of(mssql_nvarchar_value(&mapping, 0, ArrowCell::Decimal128(i128::MIN)).unwrap_err()),
        "expected Arrow UTF-8 payload, got Decimal128(-170141183460469231731687303715884105728)"
    );
    let (code, text) =
        diagnostic_of(mssql_varbinary_value(&mapping, 0, ArrowCell::Int8(1)).unwrap_err());
    assert_eq!(code, DiagnosticCode::ValueTypeMismatch);
    assert_eq!(text, "expected Arrow binary payload, got Int8(1)");
}

#[test]
fn payload_mismatches_show_the_planned_types_that_decide() {
    let date = mapping(DataType::Date64, MssqlType::Date, false);
    assert_eq!(
        text_of(mssql_date_value(&date, 0, ArrowCell::Date32(4)).unwrap_err()),
        "expected Arrow Date32 payload, got (Date32(4), Date64)"
    );

    let options = PlanOptions::default();
    let datetime2 = mapping(DataType::Date64, MssqlType::DateTime2 { precision: 7 }, false);
    assert_eq!(
        text_of(
            mssql_datetime2_value(
                ArrowToMssqlRuntimeMapping::new(&datetime2, &options),
                0,
                ArrowCell::Date64(-1),
            )
            .unwrap_err()
        ),
        "expected Arrow Date64 or timestamp payload planned as datetime2, got (Date64(-1), Date64, DateTime2 { precision: 7 })"
    );

    let datetimeoffset = mapping(
        DataType::Timestamp(TimeUnit::Second, Some("UTC".to_owned())),
        MssqlType::DateTimeOffset { precision: 3 },
        false,
    );
    assert_eq!(
        text_of(
            mssql_datetimeoffset_value(
                ArrowToMssqlRuntimeMapping::new(&datetimeoffset, &options),
                0,
                ArrowCell::TimestampSecond(5),
            )
            .unwrap_err()
        ),
        "expected timezone-aware Arrow timestamp payload planned as datetimeoffset, got (TimestampSecond(5), Timestamp(Second, Some(\"UTC\")), DateTimeOffset { precision: 3 })"
    );

    let nested = mapping(
        DataType::Other(other_type("Struct(a Int32)", "1")),
        MssqlType::Decimal { precision: 5, scale: 2 },
        false,
    );
    assert_eq!(
        text_of(mssql_decimal_value(&nested, 0, ArrowCell::Null).unwrap_err()),
        "expected Arrow decimal-compatible payload, got (Null, Struct(a Int32), in full)"
    );
}

#[test]
fn types_of_one_name_are_told_apart_by_identity() {
    let lists = |identity: &str| ColumnArray::Other {
        data_type: other_type("Struct(a Int32)", identity),
        nulls: vec![true],
    };
    let mappings = vec![mapping(
        DataType::Other(other_type("Struct(a Int32)", "nullable")),
        MssqlType::Int,
        true,
    )];

    let same = batch("value", lists("nullable"));
    assert!(RecordBatchView::new(&same, &mappings).is_ok());
    let other = batch("value", lists("required"));
    assert_eq!(
        diagnostic_of(RecordBatchView::new(&other, &mappings).unwrap_err()),
        (
            DiagnosticCode::SchemaMismatch,
            "runtime Arrow type Struct(a Int32) does not match planned Arrow type Struct(a Int32)"
                .to_owned()
        )
    );
    assert_eq!(other_type("a", "1"), other_type("b", "1"));
    assert_ne!(other_type("a", "1"), other_type("a", "2"));
    assert!(DataType::Other(other_type("a", "1")).same_as(&DataType::Other(other_type("b", "1"))));
    assert!(!DataType::Other(other_type("a", "1")).same_as(&DataType::Int32));
    assert_eq!(
        arrow_type_debug(&DataType::Other(other_type("a", "1"))),
        "a, in full"
    );
    assert_eq!(arrow_type_debug(&DataType::Decimal128(5, 2)), "Decimal128(5, 2)");
}

#[test]
fn sql_types_have_a_debug_form() {
    let cases = [
        (MssqlType::Bit, "Bit"),
        (
            MssqlType::Decimal { precision: 20, scale: -1 },
            "Decimal { precision: 20, scale: -1 }",
        ),
        (
            MssqlType::DateTimeOffset { precision: 7 },
            "DateTimeOffset { precision: 7 }",
        ),
        (MssqlType::Float { precision: 53 }, "Float { precision: 53 }"),
        (MssqlType::NVarChar(MssqlTypeLength::Max), "NVarChar(Max)"),
        (
            MssqlType::VarBinary(MssqlTypeLength::Bounded(8)),
            "VarBinary(Bounded(8))",
        ),
        (MssqlType::Binary(3), "Binary(3)"),
    ];
    for (ty, text) in cases {
        assert_eq!(ty.to_debug_text(), text);
        assert_eq!(format!("{ty:?}"), text);
    }
}

#[test]
fn cell_lengths_above_the_address_range_are_refused() {
    let array = ColumnArray::Int32(vec![None, Some(1)]);
    let mut lengths = vec![1, 1];
    assert_eq!(
        text_of(
            add_nullable_fixed_width_column_lengths(&array, usize::MAX, &mut lengths).unwrap_err()
        ),
        "direct primitive row layout length overflowed usize"
    );
    assert_eq!(lengths, [2, 1]);

    let mut lengths = vec![1, 1];
    add_nullable_fixed_width_column_lengths(&array, 4, &mut lengths).unwrap();
    assert_eq!(lengths, [2, 6]);
}

#[test]
fn payload_mismatches_write_wide_decimals_in_full() {
    let mapping = mapping(DataType::Int32, MssqlType::Int, false);
    let cases = [
        (Int256 { low: 0, high: 1 }, "340282366920938463463374607431768211456"),
        (Int256 { low: u128::MAX, high: -1 }, "-1"),
        (Int256 { low: 0, high: 0 }, "0"),
    ];

    for (value, text) in cases {
        assert_eq!(
            text_of(mssql_int_value(&mapping, 0, ArrowCell::Decimal256(value)).unwrap_err()),
            format!("expected Arrow Int32 or UInt16 payload, got Decimal256({text})")
        );
    }
}

#[test]
fn decimal_diagnostics_name_value_precision_and_scale() {
    let decimal = |precision, scale, arrow| {
        mapping(arrow, MssqlType::Decimal { precision, scale }, false)
    };

    assert_eq!(
        diagnostic_of(
            mssql_decimal_value(
                &decimal(5, 2, DataType::Decimal128(5, 2)),
                0,
                ArrowCell::Decimal128(100_000),
            )
            .unwrap_err()
        ),
        (
            DiagnosticCode::DecimalOutOfRange,
            "decimal value 100000 does not fit planned precision 5".to_owned()
        )
    );
    assert_eq!(
        text_of(
            mssql_decimal_value(
                &decimal(5, 1, DataType::Decimal128(5, 2)),
                0,
                ArrowCell::Decimal128(1),
            )
            .unwrap_err()
        ),
        "planned SQL Server decimal scale 1 is incompatible with Arrow decimal scale 2"
    );
    assert_eq!(
        text_of(
            mssql_decimal_value(
                &decimal(38, 0, DataType::Decimal128(5, -39)),
                0,
                ArrowCell::Decimal128(1),
            )
            .unwrap_err()
        ),
        "negative decimal scale -39 normalization factor overflows"
    );
    assert_eq!(
        text_of(
            mssql_decimal_value(
                &decimal(38, 0, DataType::Decimal128(38, -38)),
                0,
                ArrowCell::Decimal128(2),
            )
            .unwrap_err()
        ),
        "decimal value 2 overflows while normalizing scale -38"
    );
    assert_eq!(
        text_of(
            mssql_decimal_value(
                &decimal(38, 0, DataType::Decimal256(38, 0)),
                0,
                ArrowCell::Decimal256(Int256 { low: 0, high: 1 }),
            )
            .unwrap_err()
        ),
        "Arrow Decimal256 value does not fit runtime i128 decimal representation"
    );
    assert_eq!(
        text_of(
            mssql_decimal_value(
                &mapping(DataType::Decimal128(5, 2), MssqlType::Int, false),
                0,
                ArrowCell::Decimal128(1),
            )
            .unwrap_err()
        ),
        "planned SQL Server type is not decimal"
    );
    assert_eq!(
        text_of(
            mssql_decimal_value(
                &decimal(38, 38, DataType::Decimal128(38, 38)),
                0,
                ArrowCell::Decimal128(1),
            )
            .unwrap_err()
        ),
        "planned SQL Server decimal scale 38 cannot be represented by Tiberius Numeric"
    );
    assert_eq!(
        text_of(
            mssql_decimal_value(
                &decimal(5, 2, DataType::Decimal128(5, 2)),
                0,
                ArrowCell::Decimal64(1),
            )
            .unwrap_err()
        ),
        "expected Arrow decimal-compatible payload, got (Decimal64(1), Decimal128(5, 2))"
    );
}

#[test]
fn narrowed_wide_decimals_keep_their_number() {
    let wide = mapping(
        DataType::Decimal256(38, 0),
        MssqlType::Decimal { precision: 38, scale: 0 },
        false,
    );
    for value in [0_i128, 1, -1, 123_456_789_012_345_678_901_234_567_890, -42] {
        let cell = ArrowCell::Decimal256(Int256 {
            low: value as u128,
            high: if value < 0 { -1 } else { 0 },
        });
        let decimal = mssql_decimal_value(&wide, 0, cell).unwrap();
        assert_eq!((decimal.unscaled(), decimal.scale()), (value, 0));
    }
}

#[test]
fn temporal_diagnostics_name_the_value() {
    let any = mapping(DataType::Date32, MssqlType::Date, false);

    assert_eq!(
        text_of(mssql_date_from_arrow_date32(&any, 0, i32::MAX).unwrap_err()),
        "Arrow Date32 day offset 2147483647 is outside SQL Server date range"
    );
    assert_eq!(
        text_of(mssql_datetime2_from_arrow_date64(&any, 0, i64::MIN).unwrap_err()),
        "Arrow Date64 millisecond value -9223372036854775808 is outside SQL Server datetime2 range"
    );
    assert_eq!(
        text_of(mssql_datetime2_from_arrow_timestamp_second(&any, 0, i64::MAX).unwrap_err()),
        "Arrow timestamp second value 9223372036854775807 is outside SQL Server datetime2 range"
    );
    assert_eq!(
        diagnostic_of(
            nanoseconds_to_100ns_ticks(&any, 0, 150, NanosecondPolicy::RejectNon100ns).unwrap_err()
        ),
        (
            DiagnosticCode::LossyConversionRequiresPolicy,
            "Arrow timestamp nanosecond value 150 is not divisible by 100ns".to_owned()
        )
    );
    assert_eq!(
        text_of(epoch_parts(&any, 0, 1, -1).unwrap_err()),
        "timestamp nanosecond component -1 is outside valid range"
    );
    assert_eq!(
        epoch_parts(&any, 0, 1, 999_999_999).unwrap(),
        (1, 999_999_999)
    );
    assert!(mssql_time_from_arrow_time(
        &any,
        0,
        TimeUnit::Second,
        86_400,
        NanosecondPolicy::RejectNon100ns,
    )
    .is_err());
    assert!(mssql_datetime_from_arrow_timestamp(
        &any,
        0,
        TimeUnit::Second,
        i64::MIN,
        NanosecondPolicy::RejectNon100ns,
    )
    .is_err());
}

#[test]
fn timezone_diagnostics_quote_the_metadata() {
    let any = mapping(
        DataType::Timestamp(TimeUnit::Second, Some("x".to_owned())),
        MssqlType::DateTimeOffset { precision: 7 },
        false,
    );

    assert_eq!(
        diagnostic_of(timezone_resolution_from_metadata(&any, 0, "Nowhere/\"Tab\t").unwrap_err()),
        (
            DiagnosticCode::TimezoneUnsupported,
            "Arrow timestamp timezone \"Nowhere/\\\"Tab\\t\" is not a valid Arrow timezone name or fixed offset"
                .to_owned()
        )
    );
    assert_eq!(
        text_of(sql_server_offset_minutes(&any, 0, 61).unwrap_err()),
        "resolved timezone offset 61 second(s) cannot be represented as a SQL Server datetimeoffset minute offset"
    );
}

#[test]
fn batch_diagnostics_name_positions_names_and_types() {
    let mappings = vec![mapping(DataType::Int32, MssqlType::Int, false)];
    let int32 = || ColumnArray::Int32(vec![Some(1)]);

    let wrong_name = batch("other", int32());
    assert_eq!(
        text_of(RecordBatchView::new(&wrong_name, &mappings).unwrap_err()),
        "runtime Arrow field name other does not match planned Arrow field name value"
    );
    let wrong_type = batch("value", ColumnArray::Int64(vec![Some(1)]));
    assert_eq!(
        text_of(RecordBatchView::new(&wrong_type, &mappings).unwrap_err()),
        "runtime Arrow type Int64 does not match planned Arrow type Int32"
    );
    let no_columns = RecordBatch::try_new(Vec::new(), Vec::new(), 1).unwrap();
    assert_eq!(
        text_of(RecordBatchView::new(&no_columns, &mappings).unwrap_err()),
        "planned column index 0 is outside runtime batch with 0 column(s)"
    );
    let two_columns = RecordBatch::try_new(
        vec!["value".to_owned(), "more".to_owned()],
        vec![int32(), int32()],
        1,
    )
    .unwrap();
    assert_eq!(
        text_of(RecordBatchView::new(&two_columns, &mappings).unwrap_err()),
        "runtime batch has 2 column(s) but mappings contain 1 column(s)"
    );
    let misplaced = vec![SchemaMapping::new(
        ArrowFieldRef::new(3, "value".to_owned(), false, DataType::Int32),
        MssqlColumn::new("value".to_owned(), MssqlType::Int, false),
    )];
    let right = batch("value", int32());
    assert_eq!(
        text_of(RecordBatchView::new(&right, &misplaced).unwrap_err()),
        "mapping position 0 does not match planned Arrow field index 3"
    );
    let view = RecordBatchView::new(&right, &mappings).unwrap();
    assert_eq!(
        text_of(view.check_row_index(9).unwrap_err()),
        "row index 9 is outside runtime batch with 1 row(s)"
    );
    assert_eq!(
        text_of(view.arrow_cell(&misplaced[0], 0).unwrap_err()),
        "planned column index is outside the runtime batch"
    );
}

#[test]
fn batches_need_one_name_and_one_length_per_column() {
    let int32 = |count: usize| ColumnArray::Int32(vec![Some(1); count]);

    assert!(RecordBatch::try_new(vec!["a".to_owned()], Vec::new(), 0).is_none());
    assert!(RecordBatch::try_new(vec!["a".to_owned()], vec![int32(2)], 1).is_none());
    let batch = RecordBatch::try_new(vec!["a".to_owned()], vec![int32(2)], 2).unwrap();
    assert_eq!((batch.num_rows(), batch.num_columns()), (2, 1));
    assert_eq!(batch.name(0), "a");
}

#[test]
fn unsupported_values_name_the_type() {
    let list = mapping(
        DataType::Other(other_type("List(Int32)", "List(Int32)")),
        MssqlType::Int,
        true,
    );
    let mappings = vec![list];
    let lists = batch(
        "value",
        ColumnArray::Other {
            data_type: other_type("List(Int32)", "List(Int32)"),
            nulls: vec![false],
        },
    );
    let view = RecordBatchView::new(&lists, &mappings).unwrap();

    assert_eq!(
        text_of(view.arrow_cell(&mappings[0], 0).unwrap_err()),
        "Arrow value extraction for List(Int32) is not supported yet"
    );

    let mappings = vec![mapping(DataType::Int32, MssqlType::DateTime, true)];
    let ints = batch("value", ColumnArray::Int32(vec![Some(1)]));
    let view = RecordBatchView::new(&ints, &mappings).unwrap();
    assert_eq!(
        diagnostic_of(view.mssql_cell(&mappings[0], 0).unwrap_err()),
        (
            DiagnosticCode::ValueConversionUnsupported,
            "planned SQL Server type datetime is not supported yet".to_owned()
        )
    );
}

#[test]
fn long_values_name_their_length_and_the_planned_type() {
    let mappings = vec![mapping(
        DataType::Utf8,
        MssqlType::NVarChar(MssqlTypeLength::Bounded(2)),
        true,
    )];
    let texts = batch(
        "value",
        ColumnArray::Utf8(vec![Some("a😀".to_owned()), Some("😀".to_owned()), None]),
    );
    let view = RecordBatchView::new(&texts, &mappings).unwrap();
    assert_eq!(
        text_of(view.mssql_cell(&mappings[0], 0).unwrap_err()),
        "string value has 3 UTF-16 code unit(s), exceeding planned nvarchar(2)"
    );
    view.mssql_cell(&mappings[0], 1).unwrap();

    let mappings = vec![mapping(
        DataType::Binary,
        MssqlType::VarBinary(MssqlTypeLength::Bounded(2)),
        true,
    )];
    let bytes = batch("value", ColumnArray::Binary(vec![Some(vec![1, 2, 3])]));
    let view = RecordBatchView::new(&bytes, &mappings).unwrap();
    assert_eq!(
        text_of(view.mssql_cell(&mappings[0], 0).unwrap_err()),
        "binary value has 3 byte(s), exceeding planned varbinary(2)"
    );
}

#[test]
fn null_non_finite_and_overflowing_values_are_named() {
    let mappings = vec![mapping(DataType::UInt64, MssqlType::BigInt, false)];
    let huge = batch(
        "value",
        ColumnArray::UInt64(vec![Some(9_223_372_036_854_775_808), None]),
    );
    let view = RecordBatchView::new(&huge, &mappings).unwrap();
    assert_eq!(
        text_of(view.mssql_cell(&mappings[0], 0).unwrap_err()),
        "Arrow UInt64 value 9223372036854775808 does not fit planned SQL Server bigint"
    );
    assert_eq!(
        text_of(view.mssql_cell(&mappings[0], 1).unwrap_err()),
        "null value in non-nullable planned column"
    );

    let mappings = vec![mapping(DataType::Float32, MssqlType::Real, false)];
    let floats = batch(
        "value",
        ColumnArray::Float32(vec![
            Some(f32::NAN.to_bits()),
            Some(f32::INFINITY.to_bits()),
            Some(f32::NEG_INFINITY.to_bits()),
        ]),
    );
    let view = RecordBatchView::new(&floats, &mappings).unwrap();
    for (row, name) in ["NaN", "inf", "-inf"].into_iter().enumerate() {
        assert_eq!(
            text_of(view.mssql_cell(&mappings[0], row).unwrap_err()),
            format!("non-finite floating point value {name} is not supported")
        );
    }
}

#[test]
fn layout_faults_are_named() {
    let layout = |offsets: Vec<usize>, lengths: Vec<usize>, cells, len| {
        text_of(RowLayout::new(offsets, lengths, cells, len).unwrap_err())
    };

    assert_eq!(
        layout(vec![0], vec![], vec![], 1),
        "row layout has 1 row-token offset(s) but 0 row length(s)"
    );
    assert_eq!(
        layout(vec![], vec![], vec![], 1),
        "empty row layout cannot describe non-empty payload length 1"
    );
    assert_eq!(
        layout(vec![1], vec![1], vec![], 2),
        "first row token offset must be 0, got 1"
    );
    assert_eq!(
        layout(vec![0], vec![3], vec![], 2),
        "row 0 ends at 3, outside payload length 2"
    );
    assert_eq!(
        layout(vec![0, 3], vec![2, 1], vec![], 4),
        "row 0 ends at 2, but next row token offset is 3"
    );
    assert_eq!(
        layout(vec![0], vec![2], vec![], 3),
        "last row ends at 2, but payload length is 3"
    );
    assert_eq!(
        layout(vec![0], vec![2], vec![CellPosition::new(1, 0, 1, 1)], 2),
        "cell row index 1 is outside row count 1"
    );
    assert_eq!(
        layout(vec![0], vec![2], vec![CellPosition::new(0, 0, 1, usize::MAX)], 2),
        format!("cell offset 1 plus length {} overflows usize", usize::MAX)
    );
    assert_eq!(
        layout(vec![0], vec![2], vec![CellPosition::new(0, 4, 1, 2)], 2),
        "cell at row 0 column 4 ends at 3, outside payload length 2"
    );
}

#[test]
fn payload_faults_are_named() {
    let payload = |bytes: Vec<u8>, offsets: Vec<usize>| {
        text_of(EncodedRowsPayload::new(bytes, offsets).unwrap_err())
    };

    assert_eq!(
        payload(vec![0xD1], vec![]),
        "non-empty direct payload must include at least one row token offset"
    );
    assert_eq!(
        payload(vec![0xD1], vec![1]),
        "row token offset 1 is outside payload length 1"
    );
    assert_eq!(
        payload(vec![0xD1, 0xD1], vec![1, 0]),
        "row token offsets must be strictly increasing: 0 followed 1"
    );
    assert_eq!(
        payload(vec![0x0A], vec![0]),
        "row token offset 0 points to byte 0x0A, not 0xD1"
    );
}

#[test]
fn measurement_faults_are_named() {
    let new = |rows, columns, lengths| {
        text_of(MeasuredDirectBatch::new(rows, columns, lengths).unwrap_err())
    };
    assert_eq!(
        new(2, 2, vec![1]),
        "measured cell length count 1 does not match row count 2 and column count 2"
    );
    assert_eq!(
        new(usize::MAX, 2, vec![]),
        "measured cell count overflowed usize"
    );
    assert_eq!(
        new(1, 1, vec![usize::MAX]),
        "measured row length overflowed usize"
    );
    assert_eq!(
        new(2, 1, vec![usize::MAX - 1, 1]),
        "measured payload length overflowed usize"
    );

    let measured = MeasuredDirectBatch::new(2, 1, vec![4, 1]).unwrap();
    assert_eq!(
        text_of(measured.row_ranges(0).unwrap_err()),
        "direct row range byte limit must be greater than zero"
    );
    assert_eq!(
        text_of(measured.range_payload_len(1, usize::MAX).unwrap_err()),
        "direct row range end overflowed usize"
    );
    assert_eq!(
        text_of(measured.range_payload_len(1, 2).unwrap_err()),
        "direct measured row range 1..3 is outside measured row count 2"
    );
    assert_eq!(
        text_of(measured.cell_len(0, 1).unwrap_err()),
        "direct measured column index 1 is outside measured column count 1"
    );
}

#[test]
fn cell_writers_name_wrong_places() {
    let mut bytes = vec![7_u8; 4];
    let at = |offset, len| CellPosition::new(2, 3, offset, len);

    assert_eq!(
        text_of(write_null_cell(&mut bytes, &at(0, 2)).unwrap_err()),
        "null cell at row 2 column 3 has length 2, expected 1"
    );
    assert_eq!(
        text_of(write_null_cell(&mut bytes, &at(4, 1)).unwrap_err()),
        "null cell offset is outside payload"
    );
    assert_eq!(
        text_of(write_fixed_width_cell(&mut bytes, &at(0, 2), &[1]).unwrap_err()),
        "fixed-width cell at row 2 column 3 has length 2, expected 1"
    );
    assert_eq!(
        text_of(write_fixed_width_cell(&mut bytes, &at(usize::MAX, 1), &[1]).unwrap_err()),
        "fixed-width cell end overflowed usize"
    );
    assert_eq!(
        text_of(write_fixed_width_cell(&mut bytes, &at(3, 2), &[1, 2]).unwrap_err()),
        "fixed-width cell range is outside payload"
    );
    assert_eq!(
        text_of(write_nullable_primitive_cell(&mut bytes, &at(0, 2), &[1, 2]).unwrap_err()),
        "nullable primitive cell at row 2 column 3 has length 2, expected 3"
    );
    assert!(write_nullable_primitive_cell(&mut bytes, &at(0, 301), &[0; 300]).is_err());
    assert_eq!(bytes, [7, 7, 7, 7]);

    write_nullable_primitive_cell(&mut bytes, &at(1, 3), &[8, 9]).unwrap();
    assert_eq!(bytes, [7, 2, 8, 9]);
    write_null_cell(&mut bytes, &at(0, 1)).unwrap();
    write_fixed_width_cell(&mut bytes, &at(2, 2), &[5, 6]).unwrap();
    assert_eq!(bytes, [0, 2, 5, 6]);

    let layout = RowLayout::new(vec![0], vec![2], vec![CellPosition::new(0, 0, 1, 1)], 2).unwrap();
    assert_eq!(cell_position(&layout, 0, 0, 1).unwrap().offset(), 1);
    assert_eq!(
        text_of(cell_position(&layout, 1, 0, 1).unwrap_err()),
        "cell position is outside measured row layout"
    );
    assert_eq!(
        text_of(cell_position(&layout, usize::MAX, 0, 2).unwrap_err()),
        "cell position index overflowed usize"
    );
}

#[test]
fn decimal_and_temporal_writers_name_wrong_lengths() {
    let mut bytes = vec![0_u8; 5];

    assert_eq!(
        text_of(write_null_decimal_cell(&mut bytes).unwrap_err()),
        "null decimal cell has length 5, expected 1"
    );
    assert_eq!(
        text_of(write_decimal_cell(&mut bytes, 1).unwrap_err()),
        "decimal cell has length 5, expected 6"
    );
    assert_eq!(
        text_of(write_time_cell(&mut bytes, MssqlTime::new(1, 7)).unwrap_err()),
        "temporal cell has length 5, expected 6"
    );
    assert!(write_time_cell(&mut bytes, MssqlTime::new(1, 8)).is_err());
    assert!(write_time_cell(&mut bytes, MssqlTime::new(1 << 32, 3)).is_err());
    let mut nine = vec![0_u8; 9];
    assert!(write_datetime2_cell(
        &mut nine,
        MssqlDateTime2::new(MssqlDate::new(1 << 24), MssqlTime::new(0, 7)),
    )
    .is_err());
}

#[test]
fn primitive_layouts_name_the_conversion() {
    assert_eq!(
        text_of(
            primitive_value_len(DirectColumnEncoding::Primitive(
                PrimitiveArrowToMssql::Float32ToReal
            ))
            .unwrap_err()
        ),
        "direct primitive layout is not implemented yet for Float32ToReal"
    );
    assert_eq!(
        text_of(
            primitive_value_len(DirectColumnEncoding::VariableWidth(
                VariableWidthArrowToMssql::StringToNVarChar {
                    length: MssqlTypeLength::Bounded(40)
                }
            ))
            .unwrap_err()
        ),
        "direct primitive layout is not implemented for variable-width mapping StringToNVarChar { length: Bounded(40) }"
    );
    assert_eq!(
        text_of(
            primitive_value_len(DirectColumnEncoding::VariableWidth(
                VariableWidthArrowToMssql::BytesToVarBinary {
                    length: MssqlTypeLength::Max
                }
            ))
            .unwrap_err()
        ),
        "direct primitive layout is not implemented for variable-width mapping BytesToVarBinary { length: Max }"
    );
    assert!(primitive_value_len(DirectColumnEncoding::FixedSizeBinary(
        FixedSizeBinaryArrowToMssql::FixedSizeBinaryToBinary { length: 3 }
    ))
    .is_err());
    assert_eq!(
        primitive_value_len(DirectColumnEncoding::Primitive(
            PrimitiveArrowToMssql::Int32ToInt
        ))
        .unwrap(),
        4
    );
}

#[test]
fn appended_cells_are_checked_against_their_measured_length() {
    let column = |nullable| {
        DirectColumnPlan::from_mapping(
            &mapping(DataType::Int32, MssqlType::Int, nullable),
            DirectColumnEncoding::Primitive(PrimitiveArrowToMssql::Int32ToInt),
        )
    };
    let mut buf = vec![9_u8];

    assert_eq!(
        text_of(append_null_cell(&mut buf, &column(false), 2, 1).unwrap_err()),
        "null value in non-nullable direct primitive column"
    );
    assert_eq!(
        text_of(append_null_cell(&mut buf, &column(true), 2, 5).unwrap_err()),
        "measured null primitive cell at row 2 column 0 has length 5, expected 1"
    );
    assert_eq!(
        text_of(append_primitive_cell(&mut buf, &column(true), 4, &[1, 0, 0, 0]).unwrap_err()),
        "measured nullable primitive cell for column value has length 4, expected 5"
    );
    assert_eq!(
        text_of(append_primitive_cell(&mut buf, &column(false), 5, &[1, 0, 0, 0]).unwrap_err()),
        "measured fixed-width primitive cell for column value has length 5, expected 4"
    );
    assert_eq!(buf, [9]);

    append_int32_cell(&mut buf, &vec![Some(-2)], &column(false), 0, 4).unwrap();
    append_int32_cell(&mut buf, &vec![None], &column(true), 0, 1).unwrap();
    append_boolean_cell(&mut buf, &vec![Some(true)], &column(true), 0, 2).unwrap();
    assert_eq!(buf, [9, 0xFE, 0xFF, 0xFF, 0xFF, 0, 1, 1]);
}

#[test]
fn bindings_name_the_type_they_cannot_read() {
    let mappings = vec![mapping(DataType::Int32, MssqlType::Int, false)];
    let encoder = DirectEncoder::new(&mappings).unwrap();
    let column = BoundColumn {
        plan: &encoder.plan().columns()[0],
        mapping: &mappings[0],
        nanosecond_policy: NanosecondPolicy::RejectNon100ns,
    };

    let err = bind_direct_column(&ColumnArray::Utf8(vec![None]), column).unwrap_err();
    assert_eq!(
        diagnostic_of(err),
        (
            DiagnosticCode::ValueTypeMismatch,
            "runtime Arrow type Utf8 does not match planned direct column type".to_owned()
        )
    );
    assert_eq!(
        text_of(encoder.mapping_for_column_index(1).unwrap_err()),
        "direct mapping index 1 is outside mapping count 1"
    );
}

#[test]
fn ranges_and_measurements_of_other_batches_are_refused() {
    let mappings = vec![mapping(DataType::Int32, MssqlType::Int, false)];
    let encoder = DirectEncoder::new_with_options(&mappings, PlanOptions::default()).unwrap();
    let two = batch("value", ColumnArray::Int32(vec![Some(1), Some(2)]));
    let one = batch("value", ColumnArray::Int32(vec![Some(1)]));
    let measured = encoder.measure_batch(&one).unwrap();

    assert_eq!(
        text_of(encoder.encode_batch_range(&two, 1, 2).unwrap_err()),
        "direct row range 1..3 is outside batch row count 2"
    );
    assert_eq!(
        text_of(encoder.encode_batch_range(&two, 1, usize::MAX).unwrap_err()),
        "direct row range end overflowed usize"
    );
    let err = encoder
        .encode_measured_batch_range(&two, &measured, 0, 1)
        .unwrap_err();
    assert_eq!(diagnostic_of(err).0, DiagnosticCode::DirectEncodingInvalidPayload);
}

#[test]
fn type_names_are_those_of_arrow() {
    let second = arrow_schema::TimeUnit::Second;
    let cases = [
        (DataType::Boolean, arrow_schema::DataType::Boolean),
        (DataType::UInt64, arrow_schema::DataType::UInt64),
        (DataType::Float16, arrow_schema::DataType::Float16),
        (
            DataType::Decimal128(10, -2),
            arrow_schema::DataType::Decimal128(10, -2),
        ),
        (
            DataType::Decimal256(76, 3),
            arrow_schema::DataType::Decimal256(76, 3),
        ),
        (DataType::Date64, arrow_schema::DataType::Date64),
        (
            DataType::Time32(TimeUnit::Second),
            arrow_schema::DataType::Time32(second),
        ),
        (
            DataType::Time64(TimeUnit::Nanosecond),
            arrow_schema::DataType::Time64(arrow_schema::TimeUnit::Nanosecond),
        ),
        (
            DataType::Timestamp(TimeUnit::Second, None),
            arrow_schema::DataType::Timestamp(second, None),
        ),
        (
            DataType::Timestamp(TimeUnit::Microsecond, Some("Europe/\"Paris".to_owned())),
            arrow_schema::DataType::Timestamp(
                arrow_schema::TimeUnit::Microsecond,
                Some("Europe/\"Paris".into()),
            ),
        ),
        (DataType::LargeUtf8, arrow_schema::DataType::LargeUtf8),
        (DataType::BinaryView, arrow_schema::DataType::BinaryView),
        (
            DataType::FixedSizeBinary(16),
            arrow_schema::DataType::FixedSizeBinary(16),
        ),
    ];
    for (planned, arrow) in cases {
        assert_eq!(arrow_type_name(&planned), arrow.to_string());
    }
}

#[test]
fn sql_types_are_written_as_declared() {
    let cases = [
        (MssqlType::Bit, "bit"),
        (MssqlType::TinyInt, "tinyint"),
        (MssqlType::SmallInt, "smallint"),
        (MssqlType::Int, "int"),
        (MssqlType::BigInt, "bigint"),
        (MssqlType::Decimal { precision: 20, scale: 0 }, "decimal(20,0)"),
        (MssqlType::Date, "date"),
        (MssqlType::Time(MssqlTimePrecision::Three), "time(3)"),
        (MssqlType::DateTime, "datetime"),
        (MssqlType::DateTime2 { precision: 7 }, "datetime2(7)"),
        (MssqlType::DateTimeOffset { precision: 7 }, "datetimeoffset(7)"),
        (MssqlType::Real, "real"),
        (MssqlType::Float { precision: 53 }, "float(53)"),
        (MssqlType::NVarChar(MssqlTypeLength::Max), "nvarchar(max)"),
        (MssqlType::VarBinary(MssqlTypeLength::Bounded(8)), "varbinary(8)"),
        (MssqlType::Binary(3), "binary(3)"),
    ];
    for (ty, text) in cases {
        assert_eq!(ty.to_sql(), text);
    }
}
