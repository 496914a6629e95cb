//! Arrow data types.

use vstd::prelude::*;
use vstd::std_specs::cmp::{PartialEqSpec, PartialEqSpecImpl};

use crate::text::{append_decimal, append_int, decimal_text, int_text, quoted, quoted_text};

verus! {

/// Unit of an Arrow time or timestamp.
#[derive(Debug, Clone, Copy, PartialEq, Eq, Hash, Structural)]
pub enum TimeUnit {
    /// Seconds.
    Second,
    /// Milliseconds.
    Millisecond,
    /// Microseconds.
    Microsecond,
    /// Nanoseconds.
    Nanosecond,
}

/// Arrow data type that no conversion reads, over the representation `S` of text.
///
/// Types of one identity are one type, whatever else their texts say.
#[derive(Debug)]
pub struct OtherType<S> {
    /// Text that Arrow displays.
    pub name: S,
    /// Text of Arrow's debug form.
    pub debug: S,
    /// Text that two types share exactly when Arrow holds them equal.
    pub identity: S,
}

impl View for OtherType<String> {
    type V = OtherType<Seq<char>>;

    open spec fn view(&self) -> OtherType<Seq<char>> {
        OtherType { name: self.name@, debug: self.debug@, identity: self.identity@ }
    }
}

impl Clone for OtherType<String> {
    fn clone(&self) -> (result: Self)
        ensures
            result@ == self@,
    {
        OtherType {
            name: self.name.clone(),
            debug: self.debug.clone(),
            identity: self.identity.clone(),
        }
    }
}

impl<S: PartialEq> PartialEq for OtherType<S> {
    fn eq(&self, other: &Self) -> (result: bool) {
        self.identity == other.identity
    }
}

impl<S: PartialEq> PartialEqSpecImpl for OtherType<S> {
    open spec fn obeys_eq_spec() -> bool {
        S::obeys_eq_spec()
    }

    open spec fn eq_spec(&self, other: &Self) -> bool {
        self.identity.eq_spec(&other.identity)
    }
}

impl<S: Eq> Eq for OtherType<S> {

}

/// Arrow data type, over the representation `S` of the text that it carries.
///
/// Executable code works on [`DataType`]; contracts speak of [`DataTypeView`].
#[derive(Debug, PartialEq, Eq)]
pub enum ArrowType<S> {
    /// Boolean.
    Boolean,
    /// Signed 8-bit integer.
    Int8,
    /// Signed 16-bit integer.
    Int16,
    /// Signed 32-bit integer.
    Int32,
    /// Signed 64-bit integer.
    Int64,
    /// Unsigned 8-bit integer.
    UInt8,
    /// Unsigned 16-bit integer.
    UInt16,
    /// Unsigned 32-bit integer.
    UInt32,
    /// Unsigned 64-bit integer.
    UInt64,
    /// 16-bit floating point number.
    Float16,
    /// 32-bit floating point number.
    Float32,
    /// 64-bit floating point number.
    Float64,
    /// 32-bit decimal of a precision and a scale.
    Decimal32(u8, i8),
    /// 64-bit decimal of a precision and a scale.
    Decimal64(u8, i8),
    /// 128-bit decimal of a precision and a scale.
    Decimal128(u8, i8),
    /// 256-bit decimal of a precision and a scale.
    Decimal256(u8, i8),
    /// Days from the Unix epoch.
    Date32,
    /// Milliseconds from the Unix epoch.
    Date64,
    /// 32-bit time of day.
    Time32(TimeUnit),
    /// 64-bit time of day.
    Time64(TimeUnit),
    /// Timestamp from the Unix epoch, with optional timezone metadata.
    Timestamp(TimeUnit, Option<S>),
    /// UTF-8 string with 32-bit offsets.
    Utf8,
    /// UTF-8 string with 64-bit offsets.
    LargeUtf8,
    /// UTF-8 string view.
    Utf8View,
    /// Bytes with 32-bit offsets.
    Binary,
    /// Bytes with 64-bit offsets.
    LargeBinary,
    /// Byte view.
    BinaryView,
    /// Bytes of a fixed length.
    FixedSizeBinary(i32),
    /// Any other type. No value of it is converted.
    Other(OtherType<S>),
}

/// Arrow data type.
pub type DataType = ArrowType<String>;

/// Arrow data type as contracts speak of it.
pub type DataTypeView = ArrowType<Seq<char>>;

impl View for ArrowType<String> {
    type V = ArrowType<Seq<char>>;

    open spec fn view(&self) -> ArrowType<Seq<char>> {
        match *self {
            ArrowType::Boolean => ArrowType::Boolean,
            ArrowType::Int8 => ArrowType::Int8,
            ArrowType::Int16 => ArrowType::Int16,
            ArrowType::Int32 => ArrowType::Int32,
            ArrowType::Int64 => ArrowType::Int64,
            ArrowType::UInt8 => ArrowType::UInt8,
            ArrowType::UInt16 => ArrowType::UInt16,
            ArrowType::UInt32 => ArrowType::UInt32,
            ArrowType::UInt64 => ArrowType::UInt64,
            ArrowType::Float16 => ArrowType::Float16,
            ArrowType::Float32 => ArrowType::Float32,
            ArrowType::Float64 => ArrowType::Float64,
            ArrowType::Date32 => ArrowType::Date32,
            ArrowType::Date64 => ArrowType::Date64,
            ArrowType::Utf8 => ArrowType::Utf8,
            ArrowType::LargeUtf8 => ArrowType::LargeUtf8,
            ArrowType::Utf8View => ArrowType::Utf8View,
            ArrowType::Binary => ArrowType::Binary,
            ArrowType::LargeBinary => ArrowType::LargeBinary,
            ArrowType::BinaryView => ArrowType::BinaryView,
            ArrowType::Decimal32(precision, scale) => ArrowType::Decimal32(precision, scale),
            ArrowType::Decimal64(precision, scale) => ArrowType::Decimal64(precision, scale),
            ArrowType::Decimal128(precision, scale) => ArrowType::Decimal128(precision, scale),
            ArrowType::Decimal256(precision, scale) => ArrowType::Decimal256(precision, scale),
            ArrowType::Time32(unit) => ArrowType::Time32(unit),
            ArrowType::Time64(unit) => ArrowType::Time64(unit),
            ArrowType::Timestamp(unit, Some(timezone)) => ArrowType::Timestamp(
                unit,
                Some(timezone@),
            ),
            ArrowType::Timestamp(unit, None) => ArrowType::Timestamp(unit, None),
            ArrowType::FixedSizeBinary(length) => ArrowType::FixedSizeBinary(length),
            ArrowType::Other(other) => ArrowType::Other(other@),
        }
    }
}

impl Clone for ArrowType<String> {
    fn clone(&self) -> (result: Self)
        ensures
            result@ == self@,
    {
        match self {
            ArrowType::Boolean => ArrowType::Boolean,
            ArrowType::Int8 => ArrowType::Int8,
            ArrowType::Int16 => ArrowType::Int16,
            ArrowType::Int32 => ArrowType::Int32,
            ArrowType::Int64 => ArrowType::Int64,
            ArrowType::UInt8 => ArrowType::UInt8,
            ArrowType::UInt16 => ArrowType::UInt16,
            ArrowType::UInt32 => ArrowType::UInt32,
            ArrowType::UInt64 => ArrowType::UInt64,
            ArrowType::Float16 => ArrowType::Float16,
            ArrowType::Float32 => ArrowType::Float32,
            ArrowType::Float64 => ArrowType::Float64,
            ArrowType::Date32 => ArrowType::Date32,
            ArrowType::Date64 => ArrowType::Date64,
            ArrowType::Utf8 => ArrowType::Utf8,
            ArrowType::LargeUtf8 => ArrowType::LargeUtf8,
            ArrowType::Utf8View => ArrowType::Utf8View,
            ArrowType::Binary => ArrowType::Binary,
            ArrowType::LargeBinary => ArrowType::LargeBinary,
            ArrowType::BinaryView => ArrowType::BinaryView,
            ArrowType::Decimal32(precision, scale) => ArrowType::Decimal32(*precision, *scale),
            ArrowType::Decimal64(precision, scale) => ArrowType::Decimal64(*precision, *scale),
            ArrowType::Decimal128(precision, scale) => ArrowType::Decimal128(*precision, *scale),
            ArrowType::Decimal256(precision, scale) => ArrowType::Decimal256(*precision, *scale),
            ArrowType::Time32(unit) => ArrowType::Time32(*unit),
            ArrowType::Time64(unit) => ArrowType::Time64(*unit),
            ArrowType::Timestamp(unit, timezone) => match timezone {
                Some(timezone) => ArrowType::Timestamp(*unit, Some(timezone.clone())),
                None => ArrowType::Timestamp(*unit, None),
            },
            ArrowType::FixedSizeBinary(length) => ArrowType::FixedSizeBinary(*length),
            ArrowType::Other(other) => ArrowType::Other(other.clone()),
        }
    }
}

/// Whether two types are the same.
pub open spec fn same_type(left: DataTypeView, right: DataTypeView) -> bool {
    match (left, right) {
        (ArrowType::Other(left), ArrowType::Other(right)) => left.identity == right.identity,
        _ => left == right,
    }
}

impl ArrowType<String> {
    /// Whether two types are the same.
    pub fn same_as(&self, other: &Self) -> (result: bool)
        ensures
            result == same_type(self@, other@),
    {
        match self {
            ArrowType::Boolean => matches!(other, ArrowType::Boolean),
            ArrowType::Int8 => matches!(other, ArrowType::Int8),
            ArrowType::Int16 => matches!(other, ArrowType::Int16),
            ArrowType::Int32 => matches!(other, ArrowType::Int32),
            ArrowType::Int64 => matches!(other, ArrowType::Int64),
            ArrowType::UInt8 => matches!(other, ArrowType::UInt8),
            ArrowType::UInt16 => matches!(other, ArrowType::UInt16),
            ArrowType::UInt32 => matches!(other, ArrowType::UInt32),
            ArrowType::UInt64 => matches!(other, ArrowType::UInt64),
            ArrowType::Float16 => matches!(other, ArrowType::Float16),
            ArrowType::Float32 => matches!(other, ArrowType::Float32),
            ArrowType::Float64 => matches!(other, ArrowType::Float64),
            ArrowType::Date32 => matches!(other, ArrowType::Date32),
            ArrowType::Date64 => matches!(other, ArrowType::Date64),
            ArrowType::Utf8 => matches!(other, ArrowType::Utf8),
            ArrowType::LargeUtf8 => matches!(other, ArrowType::LargeUtf8),
            ArrowType::Utf8View => matches!(other, ArrowType::Utf8View),
            ArrowType::Binary => matches!(other, ArrowType::Binary),
            ArrowType::LargeBinary => matches!(other, ArrowType::LargeBinary),
            ArrowType::BinaryView => matches!(other, ArrowType::BinaryView),
            ArrowType::Decimal32(precision, scale) => match other {
                ArrowType::Decimal32(other_precision, other_scale) => *precision == *other_precision
                    && *scale == *other_scale,
                _ => false,
            },
            ArrowType::Decimal64(precision, scale) => match other {
                ArrowType::Decimal64(other_precision, other_scale) => *precision == *other_precision
                    && *scale == *other_scale,
                _ => false,
            },
            ArrowType::Decimal128(precision, scale) => match other {
                ArrowType::Decimal128(other_precision, other_scale) => *precision == *other_precision
                    && *scale == *other_scale,
                _ => false,
            },
            ArrowType::Decimal256(precision, scale) => match other {
                ArrowType::Decimal256(other_precision, other_scale) => *precision == *other_precision
                    && *scale == *other_scale,
                _ => false,
            },
            ArrowType::Time32(unit) => match other {
                ArrowType::Time32(other_unit) => *unit == *other_unit,
                _ => false,
            },
            ArrowType::Time64(unit) => match other {
                ArrowType::Time64(other_unit) => *unit == *other_unit,
                _ => false,
            },
            ArrowType::Timestamp(unit, timezone) => match other {
                ArrowType::Timestamp(other_unit, other_timezone) => *unit == *other_unit
                    && same_timezone(timezone, other_timezone),
                _ => false,
            },
            ArrowType::FixedSizeBinary(length) => match other {
                ArrowType::FixedSizeBinary(other_length) => *length == *other_length,
                _ => false,
            },
            ArrowType::Other(own) => match other {
                ArrowType::Other(other) => own.identity == other.identity,
                _ => false,
            },
        }
    }
}

/// Whether two timezone metadata values are the same.
fn same_timezone(left: &Option<String>, right: &Option<String>) -> (result: bool)
    ensures
        result == (match (*left, *right) {
            (Some(left), Some(right)) => left@ == right@,
            (None, None) => true,
            _ => false,
        }),
{
    match left {
        Some(left) => match right {
            Some(right) => *left == *right,
            None => false,
        },
        None => right.is_none(),
    }
}

/// The name of a time unit.
pub open spec fn time_unit_text(unit: TimeUnit) -> Seq<char> {
    match unit {
        TimeUnit::Second => "Second"@,
        TimeUnit::Millisecond => "Millisecond"@,
        TimeUnit::Microsecond => "Microsecond"@,
        TimeUnit::Nanosecond => "Nanosecond"@,
    }
}

/// The name of a data type.
pub open spec fn data_type_text(data_type: DataTypeView) -> Seq<char> {
    match data_type {
        ArrowType::Boolean => "Boolean"@,
        ArrowType::Int8 => "Int8"@,
        ArrowType::Int16 => "Int16"@,
        ArrowType::Int32 => "Int32"@,
        ArrowType::Int64 => "Int64"@,
        ArrowType::UInt8 => "UInt8"@,
        ArrowType::UInt16 => "UInt16"@,
        ArrowType::UInt32 => "UInt32"@,
        ArrowType::UInt64 => "UInt64"@,
        ArrowType::Float16 => "Float16"@,
        ArrowType::Float32 => "Float32"@,
        ArrowType::Float64 => "Float64"@,
        ArrowType::Date32 => "Date32"@,
        ArrowType::Date64 => "Date64"@,
        ArrowType::Utf8 => "Utf8"@,
        ArrowType::LargeUtf8 => "LargeUtf8"@,
        ArrowType::Utf8View => "Utf8View"@,
        ArrowType::Binary => "Binary"@,
        ArrowType::LargeBinary => "LargeBinary"@,
        ArrowType::BinaryView => "BinaryView"@,
        ArrowType::Decimal32(precision, scale) => "Decimal32("@ + decimal_text(precision as nat)
            + ", "@ + int_text(scale as int) + ")"@,
        ArrowType::Decimal64(precision, scale) => "Decimal64("@ + decimal_text(precision as nat)
            + ", "@ + int_text(scale as int) + ")"@,
        ArrowType::Decimal128(precision, scale) => "Decimal128("@ + decimal_text(precision as nat)
            + ", "@ + int_text(scale as int) + ")"@,
        ArrowType::Decimal256(precision, scale) => "Decimal256("@ + decimal_text(precision as nat)
            + ", "@ + int_text(scale as int) + ")"@,
        ArrowType::Time32(unit) => "Time32("@ + time_unit_text(unit) + ")"@,
        ArrowType::Time64(unit) => "Time64("@ + time_unit_text(unit) + ")"@,
        ArrowType::Timestamp(unit, Some(timezone)) => "Timestamp("@ + time_unit_text(unit)
            + ", Some("@ + quoted_text(timezone) + "))"@,
        ArrowType::Timestamp(unit, None) => "Timestamp("@ + time_unit_text(unit) + ", None)"@,
        ArrowType::FixedSizeBinary(length) => "FixedSizeBinary("@ + int_text(length as int)
            + ")"@,
        ArrowType::Other(other) => other.name,
    }
}

/// The debug form of a data type: its name, for every type that a conversion reads.
pub open spec fn data_type_debug_text(data_type: DataTypeView) -> Seq<char> {
    match data_type {
        ArrowType::Other(other) => other.debug,
        _ => data_type_text(data_type),
    }
}

/// The name of a time unit.
fn time_unit_name(unit: TimeUnit) -> (text: &'static str)
    ensures
        text@ == time_unit_text(unit),
{
    match unit {
        TimeUnit::Second => "Second",
        TimeUnit::Millisecond => "Millisecond",
        TimeUnit::Microsecond => "Microsecond",
        TimeUnit::Nanosecond => "Nanosecond",
    }
}

/// The name of a decimal type of a precision and a scale.
fn decimal_type_name(prefix: &str, precision: u8, scale: i8) -> (text: String)
    ensures
        text@ == prefix@ + decimal_text(precision as nat) + ", "@ + int_text(scale as int)
            + ")"@,
{
    let mut text = String::from_str(prefix);
    append_decimal(&mut text, precision as u128);
    text.append(", ");
    append_int(&mut text, scale as i128);
    text.append(")");
    text
}

/// The name of an Arrow data type, as Arrow displays it.
pub fn arrow_type_name(data_type: &DataType) -> (text: String)
    ensures
        text@ == data_type_text(data_type@),
{
    match data_type {
        ArrowType::Boolean => String::from_str("Boolean"),
        ArrowType::Int8 => String::from_str("Int8"),
        ArrowType::Int16 => String::from_str("Int16"),
        ArrowType::Int32 => String::from_str("Int32"),
        ArrowType::Int64 => String::from_str("Int64"),
        ArrowType::UInt8 => String::from_str("UInt8"),
        ArrowType::UInt16 => String::from_str("UInt16"),
        ArrowType::UInt32 => String::from_str("UInt32"),
        ArrowType::UInt64 => String::from_str("UInt64"),
        ArrowType::Float16 => String::from_str("Float16"),
        ArrowType::Float32 => String::from_str("Float32"),
        ArrowType::Float64 => String::from_str("Float64"),
        ArrowType::Date32 => String::from_str("Date32"),
        ArrowType::Date64 => String::from_str("Date64"),
        ArrowType::Utf8 => String::from_str("Utf8"),
        ArrowType::LargeUtf8 => String::from_str("LargeUtf8"),
        ArrowType::Utf8View => String::from_str("Utf8View"),
        ArrowType::Binary => String::from_str("Binary"),
        ArrowType::LargeBinary => String::from_str("LargeBinary"),
        ArrowType::BinaryView => String::from_str("BinaryView"),
        ArrowType::Decimal32(precision, scale) => decimal_type_name("Decimal32(", *precision, *scale),
        ArrowType::Decimal64(precision, scale) => decimal_type_name("Decimal64(", *precision, *scale),
        ArrowType::Decimal128(precision, scale) => decimal_type_name("Decimal128(", *precision, *scale),
        ArrowType::Decimal256(precision, scale) => decimal_type_name("Decimal256(", *precision, *scale),
        ArrowType::Time32(unit) => {
            let mut text = String::from_str("Time32(");
            text.append(time_unit_name(*unit));
            text.append(")");
            text
        },
        ArrowType::Time64(unit) => {
            let mut text = String::from_str("Time64(");
            text.append(time_unit_name(*unit));
            text.append(")");
            text
        },
        ArrowType::Timestamp(unit, timezone) => {
            let mut text = String::from_str("Timestamp(");
            text.append(time_unit_name(*unit));
            match timezone {
                Some(timezone) => {
                    text.append(", Some(");
                    text.append(quoted(timezone.as_str()).as_str());
                    text.append("))");
                },
                None => {
                    text.append(", None)");
                },
            }
            text
        },
        ArrowType::FixedSizeBinary(length) => {
            let mut text = String::from_str("FixedSizeBinary(");
            append_int(&mut text, *length as i128);
            text.append(")");
            text
        },
        ArrowType::Other(other) => other.name.clone(),
    }
}

/// The debug form of an Arrow data type.
pub fn arrow_type_debug(data_type: &DataType) -> (text: String)
    ensures
        text@ == data_type_debug_text(data_type@),
{
    match data_type {
        ArrowType::Other(other) => other.debug.clone(),
        _ => arrow_type_name(data_type),
    }
}

} // verus!
