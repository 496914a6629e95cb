//! Laws of numbers, texts, byte strings and nulls.

use vstd::arithmetic::power::pow;
use vstd::arithmetic::power2::pow2;
use vstd::prelude::*;

use crate::arrow_type::{ArrowType, DataTypeView};
use crate::cell::{ArrowCellOf, ArrowCellView, MssqlCellOf, MssqlCellView};
use crate::context::NanosecondPolicy;
use crate::convert::mssql_cell_outcome;
use crate::diagnostic::DiagnosticCode;
use crate::direct::cell::cell_bytes;
use crate::direct::plan::current_encoding;
use crate::direct::value::direct_cell_outcome;
use crate::float::widened_float16;
use crate::laws::reading::{
    code_points, code_points_from, lemma_unit_count, number_at, signed, unit_count,
};
use crate::laws::timezone::is_row_error;
use crate::laws::wire::{
    cell_data, law_binary_cell, law_bounded_cell, law_decimal_cell, law_null_cells,
    law_number_cell, law_patterns_keep_the_sign, law_text_cell, law_unbounded_cell,
    magnitude_bytes_count,
};
use crate::mapping::SchemaMappingView;
use crate::mssql_type::{MssqlType, MssqlTypeLength};
use crate::utf16::utf16_le;

verus! {

/// Whether a cell of a decimal type stands for an integer, to be divided by a power of ten.
pub open spec fn is_decimal_of(
    data_type: DataTypeView,
    cell: ArrowCellView,
    value: int,
    scale: i8,
) -> bool {
    match (data_type, cell) {
        (ArrowType::Decimal32(_, found), ArrowCellOf::Decimal32(number)) => found == scale
            && number == value,
        (ArrowType::Decimal64(_, found), ArrowCellOf::Decimal64(number)) => found == scale
            && number == value,
        (ArrowType::Decimal128(_, found), ArrowCellOf::Decimal128(number)) => found == scale
            && number == value,
        (ArrowType::Decimal256(_, found), ArrowCellOf::Decimal256(number)) => found == scale
            && number.high * 0x1_0000_0000_0000_0000_0000_0000_0000_0000int + number.low == value,
        _ => false,
    }
}

/// The factor that brings a decimal of a negative scale to scale zero.
pub open spec fn scale_factor(scale: i8) -> int {
    if scale < 0 {
        pow(10, (-scale) as nat)
    } else {
        1
    }
}

/// Whether a decimal of a value and a scale has a cell of a planned precision and scale: the
/// planned scale is its own, zero in place of a negative one, and the digits suffice.
pub open spec fn fits_decimal(value: int, scale: i8, planned: u8, planned_scale: i8) -> bool {
    &&& 0 <= planned_scale <= 37
    &&& planned_scale == if scale < 0 {
        0
    } else {
        scale as int
    }
    &&& planned > 0
    &&& pow(10, planned as nat) <= i128::MAX
    &&& i128::MIN <= value <= i128::MAX
    &&& scale_factor(scale) <= i128::MAX
    &&& -pow(10, planned as nat) < value * scale_factor(scale) < pow(10, planned as nat)
}

/// A decimal of any width keeps its number: at a scale that is not negative the unscaled value is
/// the same, at a negative one it is multiplied up to scale zero. It is refused exactly when the
/// planned type has another scale or too few digits.
pub proof fn law_decimals_keep_their_number(
    mapping: SchemaMappingView,
    policy: NanosecondPolicy,
    row: usize,
    cell: ArrowCellView,
    value: int,
    scale: i8,
    precision: u8,
    planned_scale: i8,
)
    requires
        mapping.mssql.ty == (MssqlType::Decimal { precision, scale: planned_scale }),
        is_decimal_of(mapping.arrow.data_type, cell, value, scale),
    ensures
        ({
            let found = mssql_cell_outcome(mapping, policy, row, cell);
            &&& found is Ok <==> fits_decimal(value, scale, precision, planned_scale)
            &&& found matches Ok(cell) ==> cell matches MssqlCellOf::Decimal(Some(decimal))
                && decimal.scale == planned_scale && decimal.unscaled == value * scale_factor(
                scale,
            )
        }),
        current_encoding(mapping) is Some <==> 0 <= planned_scale <= 37 && planned_scale == (
        if scale < 0 {
            0
        } else {
            scale as int
        }),
        current_encoding(mapping) matches Some(encoding) ==> {
            let found = direct_cell_outcome(encoding, mapping, policy, row, cell);
            let number = value * scale_factor(scale);
            let size = if number < 0 {
                -number
            } else {
                number
            };
            let width = magnitude_bytes_count(size);
            &&& found is Ok <==> fits_decimal(value, scale, precision, planned_scale)
            &&& found matches Ok(cell) ==> {
                let bytes = cell_bytes(cell);
                &&& bytes.len() == 2 + width
                &&& bytes[0] == 1 + width
                &&& bytes[1] == if number < 0 {
                    0u8
                } else {
                    1u8
                }
                &&& number_at(bytes, 2, width) == size
            }
        },
{
    if scale < 0 {
        vstd::arithmetic::power::lemma_pow_positive(10, (-scale) as nat);
    }
    if i128::MIN <= value <= i128::MAX {
        lemma_scaled(value, scale_factor(scale));
    }
    if let Some(encoding) = current_encoding(mapping) {
        if let Ok(found) = direct_cell_outcome(encoding, mapping, policy, row, cell) {
            assert(found is Decimal);
            law_decimal_cell(found->unscaled);
        }
    }
}

/// A product by one is the number.
proof fn lemma_scaled(value: int, factor: int)
    ensures
        factor == 1 ==> value * factor == value,
{
    assert(value * 1 == value);
}

/// An unsigned 64-bit integer becomes the `decimal(20,0)` of the same number, always.
pub proof fn law_uint64_decimals_keep_their_number(
    mapping: SchemaMappingView,
    policy: NanosecondPolicy,
    row: usize,
    value: u64,
)
    requires
        mapping.arrow.data_type is UInt64,
        mapping.mssql.ty == (MssqlType::Decimal { precision: 20, scale: 0 }),
    ensures
        mssql_cell_outcome(mapping, policy, row, ArrowCellOf::UInt64(value)) matches Ok(cell)
            && cell matches MssqlCellOf::Decimal(Some(decimal)) && decimal.unscaled == value
            && decimal.scale == 0,
        current_encoding(mapping) is Some,
        direct_cell_outcome(
            current_encoding(mapping)->0,
            mapping,
            policy,
            row,
            ArrowCellOf::UInt64(value),
        ) matches Ok(cell) && {
            let bytes = cell_bytes(cell);
            let width = magnitude_bytes_count(value as int);
            &&& bytes.len() == 2 + width
            &&& bytes[0] == 1 + width
            &&& bytes[1] == 1
            &&& number_at(bytes, 2, width) == value
        },
{
    reveal_with_fuel(pow, 21);
    assert(pow(10, 20) == 100_000_000_000_000_000_000);
    law_decimal_cell(value as i128);
}

/// Whether a mapping writes integers of an Arrow type to a SQL Server type that holds them.
pub open spec fn writes_integers(data_type: DataTypeView, ty: MssqlType) -> bool {
    match ty {
        MssqlType::TinyInt => data_type is UInt8,
        MssqlType::SmallInt => data_type is Int8 || data_type is Int16,
        MssqlType::Int => data_type is Int32 || data_type is UInt16,
        MssqlType::BigInt => data_type is Int64 || data_type is UInt32 || data_type is UInt64,
        _ => false,
    }
}

/// Whether a cell of an integer type is a number.
pub open spec fn is_integer_of(
    data_type: DataTypeView,
    cell: ArrowCellView,
    value: int,
) -> bool {
    match (data_type, cell) {
        (ArrowType::Int8, ArrowCellOf::Int8(number)) => number == value,
        (ArrowType::Int16, ArrowCellOf::Int16(number)) => number == value,
        (ArrowType::Int32, ArrowCellOf::Int32(number)) => number == value,
        (ArrowType::Int64, ArrowCellOf::Int64(number)) => number == value,
        (ArrowType::UInt8, ArrowCellOf::UInt8(number)) => number == value,
        (ArrowType::UInt16, ArrowCellOf::UInt16(number)) => number == value,
        (ArrowType::UInt32, ArrowCellOf::UInt32(number)) => number == value,
        (ArrowType::UInt64, ArrowCellOf::UInt64(number)) => number == value,
        _ => false,
    }
}

/// The number of a SQL Server integer cell.
pub open spec fn integer_in(cell: MssqlCellView) -> Option<int> {
    match cell {
        MssqlCellOf::TinyInt(Some(number)) => Some(number as int),
        MssqlCellOf::SmallInt(Some(number)) => Some(number as int),
        MssqlCellOf::Int(Some(number)) => Some(number as int),
        MssqlCellOf::BigInt(Some(number)) => Some(number as int),
        _ => None,
    }
}

/// Whether a SQL Server cell is of a type.
pub open spec fn is_cell_of(cell: MssqlCellView, ty: MssqlType) -> bool {
    match ty {
        MssqlType::Bit => cell is Bit,
        MssqlType::TinyInt => cell is TinyInt,
        MssqlType::SmallInt => cell is SmallInt,
        MssqlType::Int => cell is Int,
        MssqlType::BigInt => cell is BigInt,
        MssqlType::Decimal { .. } => cell is Decimal,
        MssqlType::Date => cell is Date,
        MssqlType::DateTime2 { .. } => cell is DateTime2,
        MssqlType::DateTimeOffset { .. } => cell is DateTimeOffset,
        MssqlType::Real => cell is Real,
        MssqlType::Float { .. } => cell is Float,
        MssqlType::NVarChar(_) => cell is NVarChar,
        MssqlType::VarBinary(_) => cell is VarBinary,
        _ => false,
    }
}

/// The bytes of an integer of a SQL Server type.
pub open spec fn integer_bytes(ty: MssqlType) -> nat {
    match ty {
        MssqlType::TinyInt => 1,
        MssqlType::SmallInt => 2,
        MssqlType::Int => 4,
        _ => 8,
    }
}

/// Where a fixed-width value starts in its cell: behind a length byte in a nullable column.
pub open spec fn value_start(mapping: SchemaMappingView) -> int {
    if mapping.mssql.nullable {
        1
    } else {
        0
    }
}

/// Whether a cell holds a value of a width, behind a length byte in a nullable column.
pub open spec fn has_width(bytes: Seq<u8>, mapping: SchemaMappingView, width: nat) -> bool {
    &&& bytes.len() == value_start(mapping) + width
    &&& mapping.mssql.nullable ==> bytes[0] == width
}

/// An integer keeps its number, converted or encoded. Only an unsigned 64-bit integer that a
/// `bigint` cannot hold is refused.
pub proof fn law_integers_keep_their_number(
    mapping: SchemaMappingView,
    policy: NanosecondPolicy,
    row: usize,
    cell: ArrowCellView,
    value: int,
)
    requires
        writes_integers(mapping.arrow.data_type, mapping.mssql.ty),
        is_integer_of(mapping.arrow.data_type, cell, value),
    ensures
        ({
            let found = mssql_cell_outcome(mapping, policy, row, cell);
            &&& found is Ok <==> value < 0x8000_0000_0000_0000
            &&& found matches Ok(cell) ==> integer_in(cell) == Some(value) && is_cell_of(
                cell,
                mapping.mssql.ty,
            )
            &&& found matches Err(error) ==> is_row_error(
                error,
                mapping,
                row,
                DiagnosticCode::IntegerOutOfRange,
            )
        }),
        current_encoding(mapping) is Some,
        ({
            let found = direct_cell_outcome(
                current_encoding(mapping)->0,
                mapping,
                policy,
                row,
                cell,
            );
            let width = integer_bytes(mapping.mssql.ty);
            &&& found is Ok <==> value < 0x8000_0000_0000_0000
            &&& found matches Ok(cell) ==> {
                let bytes = cell_bytes(cell);
                let pattern = number_at(bytes, value_start(mapping), width) as int;
                &&& has_width(bytes, mapping, width)
                &&& if width == 1 {
                    pattern == value
                } else {
                    signed(pattern, 8 * width) == value
                }
            }
            &&& found matches Err(error) ==> is_row_error(
                error,
                mapping,
                row,
                DiagnosticCode::IntegerOutOfRange,
            )
        }),
{
    let found = direct_cell_outcome(current_encoding(mapping)->0, mapping, policy, row, cell);
    if value < 0x8000_0000_0000_0000 {
        law_patterns_keep_the_sign(value as i16, value as i32, value as i64);
    }
    if let Ok(found) = found {
        assert(found is Fixed);
        law_number_cell(found->value, found->width, found->prefixed);
    }
}

/// A boolean is the `bit` 1 or 0.
pub proof fn law_booleans_are_bits(
    mapping: SchemaMappingView,
    policy: NanosecondPolicy,
    row: usize,
    value: bool,
)
    requires
        mapping.arrow.data_type is Boolean,
        mapping.mssql.ty is Bit,
    ensures
        mssql_cell_outcome(mapping, policy, row, ArrowCellOf::Boolean(value)) matches Ok(cell)
            && cell == MssqlCellView::Bit(Some(value)),
        current_encoding(mapping) is Some,
        direct_cell_outcome(
            current_encoding(mapping)->0,
            mapping,
            policy,
            row,
            ArrowCellOf::Boolean(value),
        ) matches Ok(cell) && has_width(cell_bytes(cell), mapping, 1) && number_at(
            cell_bytes(cell),
            value_start(mapping),
            1,
        ) == if value {
            1nat
        } else {
            0
        },
{
    let found = direct_cell_outcome(
        current_encoding(mapping)->0,
        mapping,
        policy,
        row,
        ArrowCellOf::Boolean(value),
    )->Ok_0;
    assert(found is Fixed);
    law_number_cell(found->value, found->width, found->prefixed);
}

/// A 32-bit float keeps its bit pattern as a `real`, and is refused exactly when its exponent is
/// all ones, which is when it is not finite.
pub proof fn law_float32_keeps_its_pattern(
    mapping: SchemaMappingView,
    policy: NanosecondPolicy,
    row: usize,
    bits: u32,
)
    requires
        mapping.arrow.data_type is Float32,
        mapping.mssql.ty is Real,
    ensures
        current_encoding(mapping) is Some,
        ({
            let cell = ArrowCellOf::Float32(bits);
            let finite = (bits as int / 0x80_0000) % 0x100 != 0xFF;
            let found = mssql_cell_outcome(mapping, policy, row, cell);
            let encoded = direct_cell_outcome(
                current_encoding(mapping)->0,
                mapping,
                policy,
                row,
                cell,
            );
            &&& found is Ok <==> finite
            &&& encoded is Ok <==> finite
            &&& found matches Ok(cell) ==> cell == MssqlCellView::Real(Some(bits))
            &&& encoded matches Ok(cell) ==> has_width(cell_bytes(cell), mapping, 4) && number_at(
                cell_bytes(cell),
                value_start(mapping),
                4,
            ) == bits
            &&& found matches Err(error) ==> is_row_error(
                error,
                mapping,
                row,
                DiagnosticCode::NonFiniteFloat,
            )
        }),
{
    let encoded = direct_cell_outcome(
        current_encoding(mapping)->0,
        mapping,
        policy,
        row,
        ArrowCellOf::Float32(bits),
    );
    if let Ok(found) = encoded {
        assert(found is Fixed);
        law_number_cell(found->value, found->width, found->prefixed);
    }
}

/// A 64-bit float keeps its bit pattern as a `float`, and is refused exactly when its exponent is
/// all ones, which is when it is not finite.
pub proof fn law_float64_keeps_its_pattern(
    mapping: SchemaMappingView,
    policy: NanosecondPolicy,
    row: usize,
    bits: u64,
)
    requires
        mapping.arrow.data_type is Float64,
        mapping.mssql.ty == (MssqlType::Float { precision: 53 }),
    ensures
        current_encoding(mapping) is Some,
        ({
            let cell = ArrowCellOf::Float64(bits);
            let finite = (bits as int / 0x10_0000_0000_0000) % 0x800 != 0x7FF;
            let found = mssql_cell_outcome(mapping, policy, row, cell);
            let encoded = direct_cell_outcome(
                current_encoding(mapping)->0,
                mapping,
                policy,
                row,
                cell,
            );
            &&& found is Ok <==> finite
            &&& encoded is Ok <==> finite
            &&& found matches Ok(cell) ==> cell == MssqlCellView::Float(Some(bits))
            &&& encoded matches Ok(cell) ==> has_width(cell_bytes(cell), mapping, 8) && number_at(
                cell_bytes(cell),
                value_start(mapping),
                8,
            ) == bits
            &&& found matches Err(error) ==> is_row_error(
                error,
                mapping,
                row,
                DiagnosticCode::NonFiniteFloat,
            )
        }),
{
    let encoded = direct_cell_outcome(
        current_encoding(mapping)->0,
        mapping,
        policy,
        row,
        ArrowCellOf::Float64(bits),
    );
    if let Ok(found) = encoded {
        assert(found is Fixed);
        law_number_cell(found->value, found->width, found->prefixed);
    }
}

/// Whether a 32-bit float is a 16-bit one: the sign is the same; a normal number has its exponent
/// moved by 112 and thirteen more zero bits of fraction; a number below those, whose highest bit
/// is bit `top`, is normalized; and zero is zero.
pub open spec fn is_widened(wide: u32, narrow: u16, top: nat) -> bool {
    let exponent = (narrow as int / 0x400) % 0x20;
    let fraction = narrow as int % 0x400;
    let wide_exponent = (wide as int / 0x80_0000) % 0x100;
    let wide_fraction = wide as int % 0x80_0000;
    &&& wide as int / 0x8000_0000 == narrow as int / 0x8000
    &&& if exponent > 0 {
        wide_exponent == exponent + 112 && wide_fraction == fraction * 0x2000
    } else if fraction == 0 {
        wide_exponent == 0 && wide_fraction == 0
    } else {
        top < 10 && pow2(top) <= fraction < 2 * pow2(top) ==> wide_exponent == 103 + top
            && 0x80_0000 + wide_fraction == fraction * pow2((23 - top) as nat)
    }
}

/// A 16-bit float becomes the `real` of the same value, and is refused exactly when its exponent
/// is all ones, which is when it is not finite.
pub proof fn law_float16_keeps_its_value(
    mapping: SchemaMappingView,
    policy: NanosecondPolicy,
    row: usize,
    bits: u16,
    top: nat,
)
    requires
        mapping.arrow.data_type is Float16,
        mapping.mssql.ty is Real,
    ensures
        current_encoding(mapping) is Some,
        ({
            let encoded = direct_cell_outcome(
                current_encoding(mapping)->0,
                mapping,
                policy,
                row,
                ArrowCellOf::Float16(bits),
            );
            &&& encoded is Ok <==> (bits as int / 0x400) % 0x20 != 0x1F
            &&& encoded matches Ok(cell) ==> {
                let pattern = number_at(cell_bytes(cell), value_start(mapping), 4);
                &&& has_width(cell_bytes(cell), mapping, 4)
                &&& pattern < 0x1_0000_0000
                &&& is_widened(pattern as u32, bits, top)
            }
            &&& encoded matches Err(error) ==> is_row_error(
                error,
                mapping,
                row,
                DiagnosticCode::NonFiniteFloat,
            )
        }),
{
    let encoded = direct_cell_outcome(
        current_encoding(mapping)->0,
        mapping,
        policy,
        row,
        ArrowCellOf::Float16(bits),
    );
    if let Ok(found) = encoded {
        assert(found is Fixed);
        law_number_cell(found->value, found->width, found->prefixed);
        lemma_widened(bits, top);
    }
}

/// The 32-bit float that a finite 16-bit float is widened to.
proof fn lemma_widened(bits: u16, top: nat)
    requires
        (bits as int / 0x400) % 0x20 != 0x1F,
    ensures
        is_widened(widened_float16(bits), bits, top),
{
    crate::float::lemma_widened_fields(bits, top);
}

/// Whether an Arrow type is a layout of strings.
pub open spec fn is_text_type(data_type: DataTypeView) -> bool {
    data_type is Utf8 || data_type is LargeUtf8 || data_type is Utf8View
}

/// Whether an Arrow type is a layout of byte strings of any length.
pub open spec fn is_bytes_type(data_type: DataTypeView) -> bool {
    data_type is Binary || data_type is LargeBinary || data_type is BinaryView
}

/// Whether a length is within a declared one.
pub open spec fn is_within(count: nat, length: MssqlTypeLength) -> bool {
    length matches MssqlTypeLength::Bounded(limit) ==> count <= limit
}

/// Whether the length of a variable-width cell can describe its data, and the cell fits memory.
pub open spec fn is_describable(count: nat, length: MssqlTypeLength) -> bool {
    match length {
        MssqlTypeLength::Bounded(_) => count < 0xFFFF,
        MssqlTypeLength::Max => count < 0x1_0000_0000 && count + 16 <= usize::MAX,
    }
}

/// Whether a cell is framed as a variable-width one: the length in two bytes, or the mark of an
/// unknown total length, one chunk where there is data, and a terminator.
pub open spec fn is_framed(bytes: Seq<u8>, count: nat, length: MssqlTypeLength) -> bool {
    match length {
        MssqlTypeLength::Bounded(_) => bytes.len() == 2 + count && number_at(bytes, 0, 2) == count,
        MssqlTypeLength::Max => {
            &&& bytes.len() == if count == 0 {
                12
            } else {
                16 + count
            }
            &&& number_at(bytes, 0, 8) == 0xFFFF_FFFF_FFFF_FFFE
            &&& number_at(bytes, 8, 4) == count
            &&& count > 0 ==> number_at(bytes, 12 + count as int, 4) == 0
        },
    }
}

/// A text becomes an `nvarchar` of the same text, exactly when it has no more UTF-16 code units
/// than declared; encoded, its code points are read back from the data of the cell.
pub proof fn law_texts_are_kept(
    mapping: SchemaMappingView,
    policy: NanosecondPolicy,
    row: usize,
    text: Seq<char>,
    length: MssqlTypeLength,
)
    requires
        mapping.mssql.ty == MssqlType::NVarChar(length),
    ensures
        ({
            let found = mssql_cell_outcome(mapping, policy, row, ArrowCellOf::Utf8(text));
            &&& found is Ok <==> is_within(unit_count(text), length)
            &&& found matches Ok(cell) ==> cell == MssqlCellView::NVarChar(Some(text))
            &&& found matches Err(error) ==> is_row_error(
                error,
                mapping,
                row,
                DiagnosticCode::ValueTooLong,
            )
        }),
        current_encoding(mapping) is Some <==> is_text_type(mapping.arrow.data_type),
        current_encoding(mapping) matches Some(encoding) ==> {
            let found = direct_cell_outcome(
                encoding,
                mapping,
                policy,
                row,
                ArrowCellOf::Utf8(text),
            );
            let count = 2 * unit_count(text);
            &&& found is Ok <==> is_within(unit_count(text), length) && is_describable(
                count,
                length,
            )
            &&& found matches Ok(cell) ==> {
                let data = cell_data(cell_bytes(cell), length is Max);
                &&& is_framed(cell_bytes(cell), count, length)
                &&& data.len() == count
                &&& code_points_from(data, 0) == code_points(text)
            }
        },
{
    lemma_unit_count(text);
    if let Some(encoding) = current_encoding(mapping) {
        if let Ok(found) = direct_cell_outcome(
            encoding,
            mapping,
            policy,
            row,
            ArrowCellOf::Utf8(text),
        ) {
            assert(found is NVarChar);
            law_text_cell(text, length is Max);
            if length is Max {
                law_unbounded_cell(utf16_le(text));
            } else {
                law_bounded_cell(utf16_le(text));
            }
        }
    }
}

/// A byte string becomes a `varbinary` of the same bytes, exactly when it has no more of them than
/// declared; encoded, it is the data of the cell.
pub proof fn law_byte_strings_are_kept(
    mapping: SchemaMappingView,
    policy: NanosecondPolicy,
    row: usize,
    data: Seq<u8>,
    length: MssqlTypeLength,
)
    requires
        mapping.mssql.ty == MssqlType::VarBinary(length),
    ensures
        ({
            let found = mssql_cell_outcome(mapping, policy, row, ArrowCellOf::Binary(data));
            &&& found is Ok <==> is_within(data.len(), length)
            &&& found matches Ok(cell) ==> cell == MssqlCellView::VarBinary(Some(data))
            &&& found matches Err(error) ==> is_row_error(
                error,
                mapping,
                row,
                DiagnosticCode::ValueTooLong,
            )
        }),
        current_encoding(mapping) is Some <==> is_bytes_type(mapping.arrow.data_type),
        current_encoding(mapping) matches Some(encoding) ==> {
            let found = direct_cell_outcome(
                encoding,
                mapping,
                policy,
                row,
                ArrowCellOf::Binary(data),
            );
            &&& found is Ok <==> is_within(data.len(), length) && is_describable(
                data.len(),
                length,
            )
            &&& found matches Ok(cell) ==> is_framed(cell_bytes(cell), data.len(), length)
                && cell_data(cell_bytes(cell), length is Max) == data
        },
{
    if let Some(encoding) = current_encoding(mapping) {
        if let Ok(found) = direct_cell_outcome(
            encoding,
            mapping,
            policy,
            row,
            ArrowCellOf::Binary(data),
        ) {
            assert(found is Binary);
            law_binary_cell(data, length is Max);
            if length is Max {
                law_unbounded_cell(data);
            } else {
                law_bounded_cell(data);
            }
        }
    }
}

/// A byte string of a fixed size of at most 8000 bytes is encoded as a `binary` of that size and
/// the same bytes; one of another size is refused.
pub proof fn law_fixed_size_byte_strings_are_kept(
    mapping: SchemaMappingView,
    policy: NanosecondPolicy,
    row: usize,
    size: i32,
    length: usize,
    data: Seq<u8>,
)
    requires
        mapping.arrow.data_type == ArrowType::<Seq<char>>::FixedSizeBinary(size),
        mapping.mssql.ty == MssqlType::Binary(length),
    ensures
        current_encoding(mapping) is Some <==> 0 < size <= 8000 && size == length,
        current_encoding(mapping) matches Some(encoding) ==> {
            let found = direct_cell_outcome(
                encoding,
                mapping,
                policy,
                row,
                ArrowCellOf::Binary(data),
            );
            &&& found is Ok <==> data.len() == length
            &&& found matches Ok(cell) ==> is_framed(
                cell_bytes(cell),
                length as nat,
                MssqlTypeLength::Bounded(length),
            ) && cell_data(cell_bytes(cell), false) == data
        },
{
    if data.len() == length && length <= 8000 {
        law_binary_cell(data, false);
        law_bounded_cell(data);
    }
}

/// Whether a SQL Server cell holds no value.
pub open spec fn is_null_cell(cell: MssqlCellView) -> bool {
    match cell {
        MssqlCellOf::Bit(value) => value is None,
        MssqlCellOf::TinyInt(value) => value is None,
        MssqlCellOf::SmallInt(value) => value is None,
        MssqlCellOf::Int(value) => value is None,
        MssqlCellOf::BigInt(value) => value is None,
        MssqlCellOf::Decimal(value) => value is None,
        MssqlCellOf::Date(value) => value is None,
        MssqlCellOf::DateTime2(value) => value is None,
        MssqlCellOf::DateTimeOffset(value) => value is None,
        MssqlCellOf::Real(value) => value is None,
        MssqlCellOf::Float(value) => value is None,
        MssqlCellOf::NVarChar(value) => value is None,
        MssqlCellOf::VarBinary(value) => value is None,
    }
}

/// Nulls stay nulls and values stay values: a converted cell is of the planned type, and holds no
/// value exactly when the Arrow cell is null. A null is refused where the column allows none.
pub proof fn law_nulls_stay_nulls(
    mapping: SchemaMappingView,
    policy: NanosecondPolicy,
    row: usize,
    cell: ArrowCellView,
)
    ensures
        mssql_cell_outcome(mapping, policy, row, cell) matches Ok(found) ==> is_cell_of(
            found,
            mapping.mssql.ty,
        ) && (is_null_cell(found) <==> cell is Null),
        cell is Null && !mapping.mssql.nullable ==> (mssql_cell_outcome(
            mapping,
            policy,
            row,
            cell,
        ) matches Err(error) && is_row_error(
            error,
            mapping,
            row,
            DiagnosticCode::NullInNonNullableColumn,
        )),
        cell is Null && mapping.mssql.nullable ==> (mssql_cell_outcome(
            mapping,
            policy,
            row,
            cell,
        ) is Ok <==> takes_null(mapping)),
{
}

/// Whether a null of an Arrow type has a cell of a SQL Server type.
pub open spec fn takes_null(mapping: SchemaMappingView) -> bool {
    let data_type = mapping.arrow.data_type;
    match mapping.mssql.ty {
        MssqlType::Decimal { .. } => data_type is UInt64 || data_type is Decimal32 || data_type
            is Decimal64 || data_type is Decimal128 || data_type is Decimal256,
        MssqlType::DateTime2 { precision } => data_type is Date64 && precision == 3 || data_type
            is Timestamp && precision == 7,
        MssqlType::DateTimeOffset { precision } => data_type matches ArrowType::Timestamp(
            _,
            Some(_),
        ) && precision == 7,
        MssqlType::Time(_) | MssqlType::DateTime | MssqlType::Binary(_) => false,
        _ => true,
    }
}

/// The bytes of a null of a SQL Server type.
pub open spec fn null_bytes(ty: MssqlType) -> Seq<u8> {
    match ty {
        MssqlType::NVarChar(MssqlTypeLength::Max) | MssqlType::VarBinary(
            MssqlTypeLength::Max,
        ) => seq![255u8, 255, 255, 255, 255, 255, 255, 255],
        MssqlType::NVarChar(_) | MssqlType::VarBinary(_) | MssqlType::Binary(_) => {
            seq![255u8, 255]
        },
        _ => seq![0u8],
    }
}

/// A null is encoded as that of its type, exactly when the column allows nulls and its timezone
/// metadata is valid.
pub proof fn law_encoded_nulls(
    mapping: SchemaMappingView,
    policy: NanosecondPolicy,
    row: usize,
)
    requires
        current_encoding(mapping) is Some,
    ensures
        ({
            let found = direct_cell_outcome(
                current_encoding(mapping)->0,
                mapping,
                policy,
                row,
                ArrowCellOf::Null,
            );
            let metadata = match mapping.arrow.data_type {
                ArrowType::Timestamp(_, timezone) => crate::timezone::metadata_error(
                    mapping,
                    row,
                    timezone,
                ),
                _ => None,
            };
            &&& found is Ok <==> mapping.mssql.nullable && metadata is None
            &&& found matches Ok(cell) ==> cell_bytes(cell) == null_bytes(mapping.mssql.ty)
            &&& metadata is None && !mapping.mssql.nullable ==> is_row_error(
                found->Err_0,
                mapping,
                row,
                DiagnosticCode::NullInNonNullableColumn,
            )
        }),
{
    law_null_cells();
}

} // verus!
