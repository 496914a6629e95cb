//! Columns bound for raw row encoding.

use std::sync::Arc;

use arrow_buffer::i256;
use arrow_schema::{DataType, Field, Schema, TimeUnit};
use arrow_array::types::{
    ArrowPrimitiveType, Date32Type, Date64Type, Decimal128Type, Decimal256Type, Decimal32Type,
    Decimal64Type, Float16Type, Float32Type, Float64Type, Int16Type, Int32Type, Int64Type, Int8Type,
    Time32MillisecondType, Time32SecondType, Time64MicrosecondType, Time64NanosecondType,
    TimestampMicrosecondType, TimestampMillisecondType, TimestampNanosecondType,
    TimestampSecondType, UInt16Type, UInt32Type, UInt64Type, UInt8Type,
};
use arrow_array::{
    Array, ArrayRef, BinaryArray, BinaryViewArray, BooleanArray, FixedSizeBinaryArray, Int32Array,
    LargeBinaryArray, LargeStringArray, PrimitiveArray, StringArray, StringViewArray,
};
use arrow_tds::arrow_type::{DataType as PlannedType, OtherType, TimeUnit as PlannedUnit};
use arrow_tds::batch::{ColumnArray, RecordBatch};
use arrow_tds::cell::Int256;
use arrow_tds::classify::FixedSizeBinaryArrowToMssql;
use arrow_tds::direct::binding::BoundDirectColumn;
use arrow_tds::direct::bound::BoundDirectBatch;
use arrow_tds::direct::encoder::DirectEncoder;
use arrow_tds::mapping::{ArrowFieldRef, MssqlColumn, SchemaMapping};
use arrow_tds::mssql_type::{MssqlType, MssqlTypeLength};

#[test]
fn binds_large_variable_width_arrays_to_large_runtime_variants() {
    let mappings = vec![
        mapping(0, "id", DataType::Int32, MssqlType::Int, false),
        mapping(
            1,
            "large_text",
            DataType::LargeUtf8,
            MssqlType::NVarChar(MssqlTypeLength::Max),
            true,
        ),
        mapping(
            2,
            "large_bytes",
            DataType::LargeBinary,
            MssqlType::VarBinary(MssqlTypeLength::Max),
            true,
        ),
    ];
    let encoder = DirectEncoder::new(&mappings).unwrap();
    let batch = runtime_batch(
        Arc::new(Schema::new(vec![
            Field::new("id", DataType::Int32, false),
            Field::new("large_text", DataType::LargeUtf8, true),
            Field::new("large_bytes", DataType::LargeBinary, true),
        ])),
        vec![
            Arc::new(Int32Array::from(vec![7])) as ArrayRef,
            Arc::new(LargeStringArray::from(vec![Some("large")])) as ArrayRef,
            Arc::new(LargeBinaryArray::from_iter(vec![Some(&b"bytes"[..])])) as ArrayRef,
        ],
    )
    .unwrap();

    let bound = BoundDirectBatch::new(&encoder, &batch).unwrap();

    assert!(matches!(
        bound.columns()[0],
        BoundDirectColumn::Int32 { .. }
    ));
    let BoundDirectColumn::LargeUtf8 { array, .. } = bound.columns()[1] else {
        panic!("LargeUtf8 mapping should bind to LargeStringArray");
    };
    assert_eq!(array[0].as_deref().unwrap(), "large");
    let BoundDirectColumn::LargeBinary { array, .. } = bound.columns()[2] else {
        panic!("LargeBinary mapping should bind to LargeBinaryArray");
    };
    assert_eq!(array[0].as_deref().unwrap(), b"bytes");
}

#[test]
fn binds_string_view_arrays_to_string_runtime_variant() {
    let mappings = vec![
        mapping(0, "id", DataType::Int32, MssqlType::Int, false),
        mapping(
            1,
            "text",
            DataType::Utf8,
            MssqlType::NVarChar(MssqlTypeLength::Max),
            true,
        ),
    ];
    let encoder = DirectEncoder::new(&mappings).unwrap();
    let batch = runtime_batch(
        Arc::new(Schema::new(vec![
            Field::new("id", DataType::Int32, false),
            Field::new("text", DataType::Utf8View, true),
        ])),
        vec![
            Arc::new(Int32Array::from(vec![7])) as ArrayRef,
            Arc::new(StringViewArray::from(vec![Some("view")])) as ArrayRef,
        ],
    )
    .unwrap();

    let bound = BoundDirectBatch::new(&encoder, &batch).unwrap();

    let BoundDirectColumn::Utf8View { array, .. } = bound.columns()[1] else {
        panic!("string-family mapping should bind to StringViewArray");
    };
    assert_eq!(array[0].as_deref().unwrap(), "view");
}

#[test]
fn binds_binary_view_arrays_to_binary_runtime_variant() {
    let mappings = vec![
        mapping(0, "id", DataType::Int32, MssqlType::Int, false),
        mapping(
            1,
            "bytes",
            DataType::Binary,
            MssqlType::VarBinary(MssqlTypeLength::Max),
            true,
        ),
    ];
    let encoder = DirectEncoder::new(&mappings).unwrap();
    let batch = runtime_batch(
        Arc::new(Schema::new(vec![
            Field::new("id", DataType::Int32, false),
            Field::new("bytes", DataType::BinaryView, true),
        ])),
        vec![
            Arc::new(Int32Array::from(vec![7])) as ArrayRef,
            Arc::new(BinaryViewArray::from(vec![Some(&b"view"[..])])) as ArrayRef,
        ],
    )
    .unwrap();

    let bound = BoundDirectBatch::new(&encoder, &batch).unwrap();

    let BoundDirectColumn::BinaryView { array, .. } = bound.columns()[1] else {
        panic!("binary-family mapping should bind to BinaryViewArray");
    };
    assert_eq!(array[0].as_deref().unwrap(), b"view");
}

#[test]
fn binds_fixed_size_binary_arrays_to_runtime_variant() {
    let mappings = vec![
        mapping(0, "id", DataType::Int32, MssqlType::Int, false),
        mapping(
            1,
            "digest",
            DataType::FixedSizeBinary(3),
            MssqlType::Binary(3),
            true,
        ),
    ];
    let encoder = DirectEncoder::new(&mappings).unwrap();
    let batch = runtime_batch(
        Arc::new(Schema::new(vec![
            Field::new("id", DataType::Int32, false),
            Field::new("digest", DataType::FixedSizeBinary(3), true),
        ])),
        vec![
            Arc::new(Int32Array::from(vec![7])) as ArrayRef,
            Arc::new(
                FixedSizeBinaryArray::try_from_sparse_iter_with_size(
                    [Some(&b"abc"[..])].into_iter(),
                    3,
                )
                .unwrap(),
            ) as ArrayRef,
        ],
    )
    .unwrap();

    let bound = BoundDirectBatch::new(&encoder, &batch).unwrap();

    let BoundDirectColumn::FixedSizeBinary {
        classification,
        array,
        ..
    } = bound.columns()[1]
    else {
        panic!("FixedSizeBinary mapping should bind to FixedSizeBinaryArray");
    };
    assert_eq!(
        classification,
        FixedSizeBinaryArrowToMssql::FixedSizeBinaryToBinary { length: 3 }
    );
    assert_eq!(array[0].as_deref().unwrap(), b"abc");
}

fn mapping(
    index: usize,
    name: &str,
    arrow_type: DataType,
    mssql_type: MssqlType,
    nullable: bool,
) -> SchemaMapping {
    SchemaMapping::new(
        ArrowFieldRef::new(index, name.to_owned(), nullable, planned_type(&arrow_type)),
        MssqlColumn::new(name.to_owned(), mssql_type, nullable),
    )
}

/// A type that is not converted. Fields without metadata are told apart by their debug form.
fn other_type(data_type: &DataType) -> OtherType<String> {
    OtherType {
        name: data_type.to_string(),
        debug: format!("{data_type:?}"),
        identity: format!("{data_type:?}"),
    }
}

/// The planned type of an Arrow type.
fn planned_type(data_type: &DataType) -> PlannedType {
    fn unit(unit: &TimeUnit) -> PlannedUnit {
        match unit {
            TimeUnit::Second => PlannedUnit::Second,
            TimeUnit::Millisecond => PlannedUnit::Millisecond,
            TimeUnit::Microsecond => PlannedUnit::Microsecond,
            TimeUnit::Nanosecond => PlannedUnit::Nanosecond,
        }
    }
    match data_type {
        DataType::Boolean => PlannedType::Boolean,
        DataType::Int8 => PlannedType::Int8,
        DataType::Int16 => PlannedType::Int16,
        DataType::Int32 => PlannedType::Int32,
        DataType::Int64 => PlannedType::Int64,
        DataType::UInt8 => PlannedType::UInt8,
        DataType::UInt16 => PlannedType::UInt16,
        DataType::UInt32 => PlannedType::UInt32,
        DataType::UInt64 => PlannedType::UInt64,
        DataType::Float16 => PlannedType::Float16,
        DataType::Float32 => PlannedType::Float32,
        DataType::Float64 => PlannedType::Float64,
        DataType::Decimal32(precision, scale) => PlannedType::Decimal32(*precision, *scale),
        DataType::Decimal64(precision, scale) => PlannedType::Decimal64(*precision, *scale),
        DataType::Decimal128(precision, scale) => PlannedType::Decimal128(*precision, *scale),
        DataType::Decimal256(precision, scale) => PlannedType::Decimal256(*precision, *scale),
        DataType::Date32 => PlannedType::Date32,
        DataType::Date64 => PlannedType::Date64,
        DataType::Time32(time) => PlannedType::Time32(unit(time)),
        DataType::Time64(time) => PlannedType::Time64(unit(time)),
        DataType::Timestamp(time, timezone) => {
            PlannedType::Timestamp(unit(time), timezone.as_ref().map(|name| name.to_string()))
        }
        DataType::Utf8 => PlannedType::Utf8,
        DataType::LargeUtf8 => PlannedType::LargeUtf8,
        DataType::Utf8View => PlannedType::Utf8View,
        DataType::Binary => PlannedType::Binary,
        DataType::LargeBinary => PlannedType::LargeBinary,
        DataType::BinaryView => PlannedType::BinaryView,
        DataType::FixedSizeBinary(size) => PlannedType::FixedSizeBinary(*size),
        other => PlannedType::Other(other_type(other)),
    }
}

/// The values of a primitive array.
fn values<T: ArrowPrimitiveType>(array: &dyn Array) -> Vec<Option<T::Native>> {
    array
        .as_any()
        .downcast_ref::<PrimitiveArray<T>>()
        .unwrap()
        .iter()
        .collect()
}

/// The values of a string array.
fn texts<'a>(values: impl Iterator<Item = Option<&'a str>>) -> Vec<Option<String>> {
    values.map(|value| value.map(str::to_owned)).collect()
}

/// The values of a byte string array.
fn blobs<'a>(values: impl Iterator<Item = Option<&'a [u8]>>) -> Vec<Option<Vec<u8>>> {
    values.map(|value| value.map(<[u8]>::to_vec)).collect()
}

/// The parts of a 256-bit integer.
fn int256(value: i256) -> Int256 {
    let (low, high) = value.to_parts();
    Int256 { low, high }
}

/// The column of an Arrow array.
fn column_of(array: &dyn Array) -> ColumnArray {
    let any = array.as_any();
    match array.data_type() {
        DataType::Boolean => {
            ColumnArray::Boolean(any.downcast_ref::<BooleanArray>().unwrap().iter().collect())
        }
        DataType::Int8 => ColumnArray::Int8(values::<Int8Type>(array)),
        DataType::Int16 => ColumnArray::Int16(values::<Int16Type>(array)),
        DataType::Int32 => ColumnArray::Int32(values::<Int32Type>(array)),
        DataType::Int64 => ColumnArray::Int64(values::<Int64Type>(array)),
        DataType::UInt8 => ColumnArray::UInt8(values::<UInt8Type>(array)),
        DataType::UInt16 => ColumnArray::UInt16(values::<UInt16Type>(array)),
        DataType::UInt32 => ColumnArray::UInt32(values::<UInt32Type>(array)),
        DataType::UInt64 => ColumnArray::UInt64(values::<UInt64Type>(array)),
        DataType::Float16 => ColumnArray::Float16(
            values::<Float16Type>(array)
                .into_iter()
                .map(|value| value.map(|value| value.to_bits()))
                .collect(),
        ),
        DataType::Float32 => ColumnArray::Float32(
            values::<Float32Type>(array)
                .into_iter()
                .map(|value| value.map(f32::to_bits))
                .collect(),
        ),
        DataType::Float64 => ColumnArray::Float64(
            values::<Float64Type>(array)
                .into_iter()
                .map(|value| value.map(f64::to_bits))
                .collect(),
        ),
        DataType::Decimal32(precision, scale) => ColumnArray::Decimal32 {
            precision: *precision,
            scale: *scale,
            values: values::<Decimal32Type>(array),
        },
        DataType::Decimal64(precision, scale) => ColumnArray::Decimal64 {
            precision: *precision,
            scale: *scale,
            values: values::<Decimal64Type>(array),
        },
        DataType::Decimal128(precision, scale) => ColumnArray::Decimal128 {
            precision: *precision,
            scale: *scale,
            values: values::<Decimal128Type>(array),
        },
        DataType::Decimal256(precision, scale) => ColumnArray::Decimal256 {
            precision: *precision,
            scale: *scale,
            values: values::<Decimal256Type>(array)
                .into_iter()
                .map(|value| value.map(int256))
                .collect(),
        },
        DataType::Date32 => ColumnArray::Date32(values::<Date32Type>(array)),
        DataType::Date64 => ColumnArray::Date64(values::<Date64Type>(array)),
        DataType::Time32(TimeUnit::Second) => {
            ColumnArray::Time32Second(values::<Time32SecondType>(array))
        }
        DataType::Time32(TimeUnit::Millisecond) => {
            ColumnArray::Time32Millisecond(values::<Time32MillisecondType>(array))
        }
        DataType::Time64(TimeUnit::Microsecond) => {
            ColumnArray::Time64Microsecond(values::<Time64MicrosecondType>(array))
        }
        DataType::Time64(TimeUnit::Nanosecond) => {
            ColumnArray::Time64Nanosecond(values::<Time64NanosecondType>(array))
        }
        DataType::Timestamp(unit, timezone) => {
            let timezone = timezone.as_ref().map(|name| name.to_string());
            let (unit, values) = match unit {
                TimeUnit::Second => (PlannedUnit::Second, values::<TimestampSecondType>(array)),
                TimeUnit::Millisecond => (
                    PlannedUnit::Millisecond,
                    values::<TimestampMillisecondType>(array),
                ),
                TimeUnit::Microsecond => (
                    PlannedUnit::Microsecond,
                    values::<TimestampMicrosecondType>(array),
                ),
                TimeUnit::Nanosecond => (
                    PlannedUnit::Nanosecond,
                    values::<TimestampNanosecondType>(array),
                ),
            };
            ColumnArray::Timestamp {
                unit,
                timezone,
                values,
            }
        }
        DataType::Utf8 => {
            ColumnArray::Utf8(texts(any.downcast_ref::<StringArray>().unwrap().iter()))
        }
        DataType::LargeUtf8 => ColumnArray::LargeUtf8(texts(
            any.downcast_ref::<LargeStringArray>().unwrap().iter(),
        )),
        DataType::Utf8View => {
            ColumnArray::Utf8View(texts(any.downcast_ref::<StringViewArray>().unwrap().iter()))
        }
        DataType::Binary => {
            ColumnArray::Binary(blobs(any.downcast_ref::<BinaryArray>().unwrap().iter()))
        }
        DataType::LargeBinary => ColumnArray::LargeBinary(blobs(
            any.downcast_ref::<LargeBinaryArray>().unwrap().iter(),
        )),
        DataType::BinaryView => ColumnArray::BinaryView(blobs(
            any.downcast_ref::<BinaryViewArray>().unwrap().iter(),
        )),
        DataType::FixedSizeBinary(size) => ColumnArray::FixedSizeBinary {
            size: *size,
            values: blobs(
                any.downcast_ref::<FixedSizeBinaryArray>().unwrap().iter(),
            ),
        },
        other => ColumnArray::Other {
            data_type: other_type(other),
            nulls: (0..array.len()).map(|row| array.is_null(row)).collect(),
        },
    }
}

/// The batch of named arrays, whatever types a schema declares for them.
fn unchecked_batch(fields: &[Field], arrays: &[ArrayRef], row_count: usize) -> RecordBatch {
    RecordBatch::try_new(
        fields.iter().map(|field| field.name().to_owned()).collect(),
        arrays.iter().map(|array| column_of(array.as_ref())).collect(),
        row_count,
    )
    .unwrap()
}

/// The batch of arrays that match a schema.
fn runtime_batch(
    schema: Arc<Schema>,
    arrays: Vec<ArrayRef>,
) -> Result<RecordBatch, arrow_schema::ArrowError> {
    let batch = arrow_array::RecordBatch::try_new(schema.clone(), arrays)?;
    let fields: Vec<Field> = schema
        .fields()
        .iter()
        .map(|field| field.as_ref().clone())
        .collect();
    Ok(unchecked_batch(&fields, batch.columns(), batch.num_rows()))
}
