//! SQL Server column types.

use vstd::prelude::*;

use crate::text::{append_decimal, append_int, append_usize, decimal_text, int_text};

verus! {

/// Declared length of a variable-width SQL Server type.
#[derive(Debug, Clone, Copy, PartialEq, Eq, Hash, Structural)]
pub enum MssqlTypeLength {
    /// At most this many UTF-16 code units or bytes.
    Bounded(usize),
    /// The `max` form.
    Max,
}

/// Fractional-second digits of a SQL Server `time`.
#[derive(Debug, Clone, Copy, PartialEq, Eq, Hash, Structural)]
pub enum MssqlTimePrecision {
    /// Whole seconds.
    Zero,
    /// Tenths of a second.
    One,
    /// Hundredths of a second.
    Two,
    /// Milliseconds.
    Three,
    /// Tenths of a millisecond.
    Four,
    /// Hundredths of a millisecond.
    Five,
    /// Microseconds.
    Six,
    /// Ticks of 100 ns.
    Seven,
}

impl MssqlTimePrecision {
    /// The number of fractional-second digits.
    pub open spec fn digit_count(self) -> u8 {
        match self {
            MssqlTimePrecision::Zero => 0,
            MssqlTimePrecision::One => 1,
            MssqlTimePrecision::Two => 2,
            MssqlTimePrecision::Three => 3,
            MssqlTimePrecision::Four => 4,
            MssqlTimePrecision::Five => 5,
            MssqlTimePrecision::Six => 6,
            MssqlTimePrecision::Seven => 7,
        }
    }

    /// Returns the number of fractional-second digits.
    pub fn digits(self) -> (digits: u8)
        ensures
            digits == self.digit_count(),
            digits <= 7,
    {
        match self {
            MssqlTimePrecision::Zero => 0,
            MssqlTimePrecision::One => 1,
            MssqlTimePrecision::Two => 2,
            MssqlTimePrecision::Three => 3,
            MssqlTimePrecision::Four => 4,
            MssqlTimePrecision::Five => 5,
            MssqlTimePrecision::Six => 6,
            MssqlTimePrecision::Seven => 7,
        }
    }
}

/// Planned SQL Server column type.
#[derive(Debug, Clone, Copy, PartialEq, Eq, Hash, Structural)]
pub enum MssqlType {
    /// `bit`.
    Bit,
    /// `tinyint`.
    TinyInt,
    /// `smallint`.
    SmallInt,
    /// `int`.
    Int,
    /// `bigint`.
    BigInt,
    /// `decimal(precision,scale)`.
    Decimal {
        /// Number of decimal digits.
        precision: u8,
        /// Number of digits after the decimal point.
        scale: i8,
    },
    /// `date`.
    Date,
    /// `time(precision)`.
    Time(MssqlTimePrecision),
    /// `datetime`.
    DateTime,
    /// `datetime2(precision)`.
    DateTime2 {
        /// Number of fractional-second digits.
        precision: u8,
    },
    /// `datetimeoffset(precision)`.
    DateTimeOffset {
        /// Number of fractional-second digits.
        precision: u8,
    },
    /// `real`.
    Real,
    /// `float(precision)`.
    Float {
        /// Number of bits of the significand.
        precision: u8,
    },
    /// `nvarchar(length)`.
    NVarChar(MssqlTypeLength),
    /// `varbinary(length)`.
    VarBinary(MssqlTypeLength),
    /// `binary(length)`.
    Binary(usize),
}

/// The length of a variable-width type as it is declared.
pub open spec fn type_length_text(length: MssqlTypeLength) -> Seq<char> {
    match length {
        MssqlTypeLength::Bounded(length) => decimal_text(length as nat),
        MssqlTypeLength::Max => "max"@,
    }
}

/// The SQL declaration of a column type.
pub open spec fn mssql_type_text(ty: MssqlType) -> Seq<char> {
    match ty {
        MssqlType::Bit => "bit"@,
        MssqlType::TinyInt => "tinyint"@,
        MssqlType::SmallInt => "smallint"@,
        MssqlType::Int => "int"@,
        MssqlType::BigInt => "bigint"@,
        MssqlType::Decimal { precision, scale } => "decimal("@ + decimal_text(precision as nat)
            + ","@ + int_text(scale as int) + ")"@,
        MssqlType::Date => "date"@,
        MssqlType::Time(precision) => "time("@ + decimal_text(precision.digit_count() as nat)
            + ")"@,
        MssqlType::DateTime => "datetime"@,
        MssqlType::DateTime2 { precision } => "datetime2("@ + decimal_text(precision as nat)
            + ")"@,
        MssqlType::DateTimeOffset { precision } => "datetimeoffset("@ + decimal_text(
            precision as nat,
        ) + ")"@,
        MssqlType::Real => "real"@,
        MssqlType::Float { precision } => "float("@ + decimal_text(precision as nat) + ")"@,
        MssqlType::NVarChar(length) => "nvarchar("@ + type_length_text(length) + ")"@,
        MssqlType::VarBinary(length) => "varbinary("@ + type_length_text(length) + ")"@,
        MssqlType::Binary(length) => "binary("@ + decimal_text(length as nat) + ")"@,
    }
}

/// The debug form of a declared length.
pub open spec fn length_debug_text(length: MssqlTypeLength) -> Seq<char> {
    match length {
        MssqlTypeLength::Bounded(length) => "Bounded("@ + decimal_text(length as nat) + ")"@,
        MssqlTypeLength::Max => "Max"@,
    }
}

/// The debug form of a type.
pub open spec fn mssql_type_debug_text(ty: MssqlType) -> Seq<char> {
    match ty {
        MssqlType::Bit => "Bit"@,
        MssqlType::TinyInt => "TinyInt"@,
        MssqlType::SmallInt => "SmallInt"@,
        MssqlType::Int => "Int"@,
        MssqlType::BigInt => "BigInt"@,
        MssqlType::Decimal { precision, scale } => "Decimal { precision: "@ + decimal_text(
            precision as nat,
        ) + ", scale: "@ + int_text(scale as int) + " }"@,
        MssqlType::Date => "Date"@,
        MssqlType::Time(precision) => "Time(MssqlTimePrecision("@ + decimal_text(
            precision.digit_count() as nat,
        ) + "))"@,
        MssqlType::DateTime => "DateTime"@,
        MssqlType::DateTime2 { precision } => "DateTime2 { precision: "@ + decimal_text(
            precision as nat,
        ) + " }"@,
        MssqlType::DateTimeOffset { precision } => "DateTimeOffset { precision: "@ + decimal_text(
            precision as nat,
        ) + " }"@,
        MssqlType::Real => "Real"@,
        MssqlType::Float { precision } => "Float { precision: "@ + decimal_text(precision as nat)
            + " }"@,
        MssqlType::NVarChar(length) => "NVarChar("@ + length_debug_text(length) + ")"@,
        MssqlType::VarBinary(length) => "VarBinary("@ + length_debug_text(length) + ")"@,
        MssqlType::Binary(length) => "Binary("@ + decimal_text(length as nat) + ")"@,
    }
}

/// Appends the debug form of a declared length.
pub fn append_length_debug(out: &mut String, length: MssqlTypeLength)
    ensures
        final(out)@ == old(out)@ + length_debug_text(length),
{
    let ghost before = out@;
    match length {
        MssqlTypeLength::Bounded(length) => {
            out.append("Bounded(");
            append_usize(out, length);
            out.append(")");
        },
        MssqlTypeLength::Max => {
            out.append("Max");
        },
    }
    assert(out@ =~= before + length_debug_text(length));
}

/// A text with one number between two parts.
fn numbered(prefix: &str, number: usize, suffix: &str) -> (text: String)
    ensures
        text@ == prefix@ + decimal_text(number as nat) + suffix@,
{
    let mut text = String::from_str(prefix);
    append_usize(&mut text, number);
    text.append(suffix);
    text
}

/// The debug form of a variable-width type.
fn variable_width_debug(prefix: &str, length: MssqlTypeLength) -> (text: String)
    ensures
        text@ == prefix@ + length_debug_text(length) + ")"@,
{
    let mut text = String::from_str(prefix);
    append_length_debug(&mut text, length);
    text.append(")");
    text
}

/// A type name with one number in brackets.
fn sized_type(prefix: &str, size: usize) -> (text: String)
    ensures
        text@ == prefix@ + decimal_text(size as nat) + ")"@,
{
    let mut text = String::from_str(prefix);
    append_usize(&mut text, size);
    text.append(")");
    text
}

/// A type name with a declared length in brackets.
fn variable_width_type(prefix: &str, length: MssqlTypeLength) -> (text: String)
    ensures
        text@ == prefix@ + type_length_text(length) + ")"@,
{
    match length {
        MssqlTypeLength::Bounded(length) => sized_type(prefix, length),
        MssqlTypeLength::Max => {
            let mut text = String::from_str(prefix);
            text.append("max");
            text.append(")");
            text
        },
    }
}

impl MssqlType {
    /// Returns the debug form of the type.
    pub fn to_debug_text(self) -> (text: String)
        ensures
            text@ == mssql_type_debug_text(self),
    {
        match self {
            MssqlType::Bit => String::from_str("Bit"),
            MssqlType::TinyInt => String::from_str("TinyInt"),
            MssqlType::SmallInt => String::from_str("SmallInt"),
            MssqlType::Int => String::from_str("Int"),
            MssqlType::BigInt => String::from_str("BigInt"),
            MssqlType::Decimal { precision, scale } => {
                let mut text = numbered("Decimal { precision: ", precision as usize, ", scale: ");
                append_int(&mut text, scale as i128);
                text.append(" }");
                text
            },
            MssqlType::Date => String::from_str("Date"),
            MssqlType::Time(precision) => numbered(
                "Time(MssqlTimePrecision(",
                precision.digits() as usize,
                "))",
            ),
            MssqlType::DateTime => String::from_str("DateTime"),
            MssqlType::DateTime2 { precision } => numbered(
                "DateTime2 { precision: ",
                precision as usize,
                " }",
            ),
            MssqlType::DateTimeOffset { precision } => numbered(
                "DateTimeOffset { precision: ",
                precision as usize,
                " }",
            ),
            MssqlType::Real => String::from_str("Real"),
            MssqlType::Float { precision } => numbered(
                "Float { precision: ",
                precision as usize,
                " }",
            ),
            MssqlType::NVarChar(length) => variable_width_debug("NVarChar(", length),
            MssqlType::VarBinary(length) => variable_width_debug("VarBinary(", length),
            MssqlType::Binary(length) => numbered("Binary(", length, ")"),
        }
    }

    /// Returns the SQL declaration of the type.
    pub fn to_sql(self) -> (text: String)
        ensures
            text@ == mssql_type_text(self),
    {
        match self {
            MssqlType::Bit => String::from_str("bit"),
            MssqlType::TinyInt => String::from_str("tinyint"),
            MssqlType::SmallInt => String::from_str("smallint"),
            MssqlType::Int => String::from_str("int"),
            MssqlType::BigInt => String::from_str("bigint"),
            MssqlType::Decimal { precision, scale } => {
                let mut text = String::from_str("decimal(");
                append_decimal(&mut text, precision as u128);
                text.append(",");
                append_int(&mut text, scale as i128);
                text.append(")");
                text
            },
            MssqlType::Date => String::from_str("date"),
            MssqlType::Time(precision) => sized_type("time(", precision.digits() as usize),
            MssqlType::DateTime => String::from_str("datetime"),
            MssqlType::DateTime2 { precision } => sized_type("datetime2(", precision as usize),
            MssqlType::DateTimeOffset { precision } => sized_type(
                "datetimeoffset(",
                precision as usize,
            ),
            MssqlType::Real => String::from_str("real"),
            MssqlType::Float { precision } => sized_type("float(", precision as usize),
            MssqlType::NVarChar(length) => variable_width_type("nvarchar(", length),
            MssqlType::VarBinary(length) => variable_width_type("varbinary(", length),
            MssqlType::Binary(length) => sized_type("binary(", length),
        }
    }
}

} // verus!
