//! Conversion of Arrow decimals to SQL Server decimals.

use vstd::arithmetic::power::{lemma_pow_strictly_increases, pow};
use vstd::prelude::*;

use crate::arrow_type::{ArrowType, DataTypeView};
use crate::cell::{ArrowCell, ArrowCellOf, ArrowCellView, Int256, MssqlDecimal};
use crate::classify::MAX_DECIMAL_SCALE;
use crate::diagnostic::{outcome, DiagnosticCode, ErrorView, Result};
use crate::mapping::{SchemaMapping, SchemaMappingView};
use crate::message::{ExpectedPayload, Fault};
use crate::mssql_type::MssqlType;
use crate::value_error::{
    payload_mismatch, payload_mismatch_error, row_fault, row_mapping_fault,
};

verus! {

/// `10^exponent`.
pub open spec fn pow10(exponent: nat) -> int {
    pow(10, exponent)
}

/// `10^exponent`, where 128 bits hold it.
pub open spec fn pow10_in_i128(exponent: nat) -> Option<i128> {
    if pow10(exponent) <= i128::MAX {
        Some(pow10(exponent) as i128)
    } else {
        None
    }
}

/// Powers of ten grow with the exponent.
proof fn lemma_pow10_grows(low: nat, high: nat)
    requires
        low < high,
    ensures
        pow10(low) < pow10(high),
{
    lemma_pow_strictly_increases(10, low, high);
}

/// Powers of ten are positive.
pub proof fn lemma_pow10_positive(exponent: nat)
    ensures
        pow10(exponent) > 0,
{
    vstd::arithmetic::power::lemma_pow_positive(10, exponent);
}

/// Computes `10^exponent`, where 128 bits hold it.
pub fn checked_pow10(exponent: u8) -> (result: Option<i128>)
    ensures
        result == pow10_in_i128(exponent as nat),
{
    let mut power: i128 = 1;
    let mut index: u8 = 0;
    proof {
        vstd::arithmetic::power::lemma_pow0(10);
    }
    while index < exponent
        invariant
            index <= exponent,
            power == pow10(index as nat),
            power > 0,
        decreases exponent - index,
    {
        proof {
            assert(pow10((index + 1) as nat) == 10 * pow10(index as nat)) by {
                reveal(pow);
            }
        }
        match power.checked_mul(10) {
            Some(next) => {
                power = next;
            },
            None => {
                proof {
                    if index + 1 < exponent {
                        lemma_pow10_grows((index + 1) as nat, exponent as nat);
                    }
                }
                return None;
            },
        }
        index += 1;
    }
    Some(power)
}

/// Whether an unscaled value has at most `precision` decimal digits.
pub open spec fn fits_precision(value: i128, precision: u8) -> bool {
    &&& precision > 0
    &&& pow10(precision as nat) <= i128::MAX
    &&& -pow10(precision as nat) < value < pow10(precision as nat)
}

/// Returns true when an unscaled value has at most `precision` decimal digits.
///
/// No value fits precision zero, nor one whose largest value 128 bits cannot hold.
pub fn decimal_unscaled_fits_precision(value: i128, precision: u8) -> (result: bool)
    ensures
        result == fits_precision(value, precision),
{
    if precision == 0 {
        return false;
    }
    proof {
        lemma_pow10_positive(precision as nat);
    }
    match decimal_max_unscaled(precision) {
        Some(max) => value <= max && value >= -max,
        None => false,
    }
}

/// Returns the largest unscaled value of a precision, where 128 bits hold one more.
pub fn decimal_max_unscaled(precision: u8) -> (result: Option<i128>)
    ensures
        result == (match pow10_in_i128(precision as nat) {
            Some(power) => Some((power - 1) as i128),
            None => None,
        }),
{
    proof {
        lemma_pow10_positive(precision as nat);
    }
    match checked_pow10(precision) {
        Some(power) => Some(power - 1),
        None => None,
    }
}

/// The planned decimal scale, where a TDS numeric can have it.
pub open spec fn decimal_scale_outcome(
    mapping: SchemaMappingView,
    row_index: usize,
) -> core::result::Result<u8, ErrorView> {
    match mapping.mssql.ty {
        MssqlType::Decimal { scale, .. } => if 0 <= scale <= MAX_DECIMAL_SCALE {
            Ok(scale as u8)
        } else {
            Err(
                row_fault(
                    mapping,
                    row_index,
                    DiagnosticCode::DecimalOutOfRange,
                    Fault::DecimalScaleTooLarge { scale },
                ),
            )
        },
        _ => Err(
            row_fault(
                mapping,
                row_index,
                DiagnosticCode::ValueTypeMismatch,
                Fault::TargetNotDecimal,
            ),
        ),
    }
}

/// Returns the planned decimal scale, where a TDS numeric can have it.
pub fn decimal_scale(mapping: &SchemaMapping, row_index: usize) -> (result: Result<u8>)
    ensures
        outcome(result) == decimal_scale_outcome(mapping@, row_index),
{
    match *mapping.mssql().ty() {
        MssqlType::Decimal { scale, .. } => {
            if scale < 0 || scale > MAX_DECIMAL_SCALE {
                return Err(
                    row_mapping_fault(
                        mapping,
                        row_index,
                        DiagnosticCode::DecimalOutOfRange,
                        Fault::DecimalScaleTooLarge { scale },
                    ),
                );
            }
            Ok(scale as u8)
        },
        _ => Err(
            row_mapping_fault(
                mapping,
                row_index,
                DiagnosticCode::ValueTypeMismatch,
                Fault::TargetNotDecimal,
            ),
        ),
    }
}

/// Whether a mapping writes unsigned 64-bit integers to `decimal(20,0)`.
pub open spec fn is_uint64_decimal20_0(mapping: SchemaMappingView) -> bool {
    mapping.arrow.data_type is UInt64 && mapping.mssql.ty == (MssqlType::Decimal {
        precision: 20,
        scale: 0,
    })
}

/// Returns true when a mapping writes unsigned 64-bit integers to `decimal(20,0)`.
pub fn is_uint64_decimal20_0_mapping(mapping: &SchemaMapping) -> (result: bool)
    ensures
        result == is_uint64_decimal20_0(mapping@),
{
    matches!(mapping.arrow().data_type(), ArrowType::UInt64) && *mapping.mssql().ty() == (
    MssqlType::Decimal { precision: 20, scale: 0 })
}

/// The Arrow scale of a decimal type.
pub open spec fn arrow_decimal_scale(data_type: DataTypeView) -> Option<i8> {
    match data_type {
        ArrowType::Decimal32(_, scale) => Some(scale),
        ArrowType::Decimal64(_, scale) => Some(scale),
        ArrowType::Decimal128(_, scale) => Some(scale),
        ArrowType::Decimal256(_, scale) => Some(scale),
        _ => None,
    }
}

/// The scale that a mapping must be planned at, where its Arrow type fixes one: that of the Arrow
/// type, zero in place of a negative one.
pub open spec fn required_scale(mapping: SchemaMappingView) -> Option<u8> {
    if is_uint64_decimal20_0(mapping) {
        Some(0u8)
    } else {
        match arrow_decimal_scale(mapping.arrow.data_type) {
            Some(scale) => Some(
                if scale < 0 {
                    0u8
                } else {
                    scale as u8
                },
            ),
            None => None,
        }
    }
}

/// The error of a planned scale that differs from the Arrow scale.
pub open spec fn scale_compatibility_error(
    mapping: SchemaMappingView,
    row_index: usize,
    planned_scale: u8,
) -> Option<ErrorView> {
    match required_scale(mapping) {
        Some(expected_scale) => if planned_scale == expected_scale {
            None
        } else {
            Some(
                row_fault(
                    mapping,
                    row_index,
                    DiagnosticCode::SchemaMismatch,
                    Fault::DecimalScaleMismatch {
                        planned: planned_scale,
                        expected: expected_scale,
                    },
                ),
            )
        },
        None => None,
    }
}

/// Checks that values of the Arrow scale can be written at the planned scale.
pub fn validate_decimal_scale_compatibility(
    mapping: &SchemaMapping,
    row_index: usize,
    planned_scale: u8,
) -> (result: Result<()>)
    ensures
        outcome(result) == (match scale_compatibility_error(mapping@, row_index, planned_scale) {
            Some(error) => Err(error),
            None => Ok(()),
        }),
{
    let arrow_scale: i8 = match mapping.arrow().data_type() {
        ArrowType::UInt64 if is_uint64_decimal20_0_mapping(mapping) => 0,
        ArrowType::Decimal32(_, scale) => *scale,
        ArrowType::Decimal64(_, scale) => *scale,
        ArrowType::Decimal128(_, scale) => *scale,
        ArrowType::Decimal256(_, scale) => *scale,
        _ => {
            return Ok(());
        },
    };
    let expected_scale: u8 = if arrow_scale < 0 {
        0
    } else {
        arrow_scale as u8
    };
    if planned_scale == expected_scale {
        return Ok(());
    }
    Err(
        row_mapping_fault(
            mapping,
            row_index,
            DiagnosticCode::SchemaMismatch,
            Fault::DecimalScaleMismatch { planned: planned_scale, expected: expected_scale },
        ),
    )
}

/// The SQL Server decimal of an unscaled value at the planned precision.
pub open spec fn decimal_outcome(
    mapping: SchemaMappingView,
    row_index: usize,
    unscaled: i128,
    scale: u8,
) -> core::result::Result<MssqlDecimal, ErrorView> {
    match mapping.mssql.ty {
        MssqlType::Decimal { precision, .. } => if fits_precision(unscaled, precision) {
            Ok(MssqlDecimal { unscaled, scale })
        } else {
            Err(
                row_fault(
                    mapping,
                    row_index,
                    DiagnosticCode::DecimalOutOfRange,
                    Fault::DecimalTooWide { unscaled, precision },
                ),
            )
        },
        _ => Err(
            row_fault(
                mapping,
                row_index,
                DiagnosticCode::ValueTypeMismatch,
                Fault::TargetNotDecimal,
            ),
        ),
    }
}

/// Creates a SQL Server decimal of the planned precision.
pub fn mssql_decimal(mapping: &SchemaMapping, row_index: usize, unscaled: i128, scale: u8) -> (
    result: Result<MssqlDecimal>)
    ensures
        outcome(result) == decimal_outcome(mapping@, row_index, unscaled, scale),
{
    match *mapping.mssql().ty() {
        MssqlType::Decimal { precision, .. } => {
            if decimal_unscaled_fits_precision(unscaled, precision) {
                return Ok(MssqlDecimal::new(unscaled, scale));
            }
            Err(
                row_mapping_fault(
                    mapping,
                    row_index,
                    DiagnosticCode::DecimalOutOfRange,
                    Fault::DecimalTooWide { unscaled, precision },
                ),
            )
        },
        _ => Err(
            row_mapping_fault(
                mapping,
                row_index,
                DiagnosticCode::ValueTypeMismatch,
                Fault::TargetNotDecimal,
            ),
        ),
    }
}

/// The unscaled value at scale zero of a value at a negative scale, where 128 bits hold it and
/// the power of ten. A value at another scale is kept.
pub open spec fn normalized_outcome(
    mapping: SchemaMappingView,
    row_index: usize,
    unscaled: i128,
    arrow_scale: i8,
) -> core::result::Result<i128, ErrorView> {
    if arrow_scale >= 0 {
        Ok(unscaled)
    } else {
        match pow10_in_i128((-arrow_scale) as nat) {
            Some(factor) => if i128::MIN <= unscaled * factor <= i128::MAX {
                Ok((unscaled * factor) as i128)
            } else {
                Err(
                    row_fault(
                        mapping,
                        row_index,
                        DiagnosticCode::DecimalOutOfRange,
                        Fault::ScaledDecimalOverflow { unscaled, scale: arrow_scale },
                    ),
                )
            },
            None => Err(
                row_fault(
                    mapping,
                    row_index,
                    DiagnosticCode::DecimalOutOfRange,
                    Fault::ScaleFactorOverflow { scale: arrow_scale },
                ),
            ),
        }
    }
}

/// Multiplies a value at a negative scale up to scale zero.
pub fn normalize_negative_scale(
    mapping: &SchemaMapping,
    row_index: usize,
    unscaled: i128,
    arrow_scale: i8,
) -> (result: Result<i128>)
    ensures
        outcome(result) == normalized_outcome(mapping@, row_index, unscaled, arrow_scale),
{
    if arrow_scale >= 0 {
        return Ok(unscaled);
    }
    let exponent: u8 = (-(arrow_scale as i16)) as u8;
    match checked_pow10(exponent) {
        Some(factor) => match unscaled.checked_mul(factor) {
            Some(value) => Ok(value),
            None => Err(
                row_mapping_fault(
                    mapping,
                    row_index,
                    DiagnosticCode::DecimalOutOfRange,
                    Fault::ScaledDecimalOverflow { unscaled, scale: arrow_scale },
                ),
            ),
        },
        None => Err(
            row_mapping_fault(
                mapping,
                row_index,
                DiagnosticCode::DecimalOutOfRange,
                Fault::ScaleFactorOverflow { scale: arrow_scale },
            ),
        ),
    }
}

/// The 128-bit integer of a 256-bit one, where it fits.
pub open spec fn narrowed(value: Int256) -> Option<i128> {
    if i128::MIN <= value.value() <= i128::MAX {
        Some(value.value() as i128)
    } else {
        None
    }
}

/// Narrows a 256-bit integer to 128 bits.
///
/// Calls `arrow_buffer::i256::to_i128` on the integer of the two parts. The contract says that it
/// returns the same number, or `None` when 128 bits cannot hold it.
#[verifier::external_body]
pub(crate) fn narrow_int256(value: Int256) -> (result: Option<i128>)
    ensures
        result == narrowed(value),
{
    arrow_buffer::i256::from_parts(value.low, value.high).to_i128()
}

/// The SQL Server decimal of an unscaled Arrow value, multiplied up to scale zero first where its
/// Arrow scale is negative.
pub open spec fn scaled_decimal_outcome(
    mapping: SchemaMappingView,
    row_index: usize,
    unscaled: i128,
    arrow_scale: i8,
    scale: u8,
) -> core::result::Result<MssqlDecimal, ErrorView> {
    match normalized_outcome(mapping, row_index, unscaled, arrow_scale) {
        Ok(value) => decimal_outcome(mapping, row_index, value, scale),
        Err(error) => Err(error),
    }
}

/// The unscaled value and the Arrow scale of a decimal cell: `None` for a cell that is no decimal
/// of the planned type, `Some(None)` for one that 128 bits cannot hold.
pub open spec fn unscaled_cell(mapping: SchemaMappingView, cell: ArrowCellView) -> Option<
    Option<(i128, i8)>,
> {
    match (cell, mapping.arrow.data_type) {
        (ArrowCellOf::UInt64(value), ArrowType::UInt64) => if is_uint64_decimal20_0(mapping) {
            Some(Some((value as i128, 0i8)))
        } else {
            None
        },
        (ArrowCellOf::Decimal32(value), ArrowType::Decimal32(_, arrow_scale)) => Some(
            Some((value as i128, arrow_scale)),
        ),
        (ArrowCellOf::Decimal64(value), ArrowType::Decimal64(_, arrow_scale)) => Some(
            Some((value as i128, arrow_scale)),
        ),
        (ArrowCellOf::Decimal128(value), ArrowType::Decimal128(_, arrow_scale)) => Some(
            Some((value, arrow_scale)),
        ),
        (ArrowCellOf::Decimal256(value), ArrowType::Decimal256(_, arrow_scale)) => Some(
            match narrowed(value) {
                Some(value) => Some((value, arrow_scale)),
                None => None,
            },
        ),
        _ => None,
    }
}

/// The SQL Server decimal of an Arrow cell.
pub open spec fn decimal_value_outcome(
    mapping: SchemaMappingView,
    row_index: usize,
    cell: ArrowCellView,
) -> core::result::Result<MssqlDecimal, ErrorView> {
    match decimal_scale_outcome(mapping, row_index) {
        Ok(scale) => match scale_compatibility_error(mapping, row_index, scale) {
            Some(error) => Err(error),
            None => match unscaled_cell(mapping, cell) {
                Some(Some((unscaled, arrow_scale))) => scaled_decimal_outcome(
                    mapping,
                    row_index,
                    unscaled,
                    arrow_scale,
                    scale,
                ),
                Some(None) => Err(
                    row_fault(
                        mapping,
                        row_index,
                        DiagnosticCode::DecimalOutOfRange,
                        Fault::Decimal256TooWide,
                    ),
                ),
                None => Err(payload_mismatch(mapping, row_index, ExpectedPayload::Decimal, cell)),
            },
        },
        Err(error) => Err(error),
    }
}

/// Converts an unscaled Arrow value, multiplied up to scale zero first where needed.
fn scaled_decimal(
    mapping: &SchemaMapping,
    row_index: usize,
    unscaled: i128,
    arrow_scale: i8,
    scale: u8,
) -> (result: Result<MssqlDecimal>)
    ensures
        outcome(result) == scaled_decimal_outcome(
            mapping@,
            row_index,
            unscaled,
            arrow_scale,
            scale,
        ),
{
    match normalize_negative_scale(mapping, row_index, unscaled, arrow_scale) {
        Ok(value) => mssql_decimal(mapping, row_index, value, scale),
        Err(error) => Err(error),
    }
}

/// Converts an Arrow cell to a SQL Server decimal.
pub fn mssql_decimal_value(mapping: &SchemaMapping, row_index: usize, cell: ArrowCell<'_>) -> (
    result: Result<MssqlDecimal>)
    ensures
        outcome(result) == decimal_value_outcome(mapping@, row_index, cell@),
{
    let scale: u8 = match decimal_scale(mapping, row_index) {
        Ok(scale) => scale,
        Err(error) => {
            return Err(error);
        },
    };
    match validate_decimal_scale_compatibility(mapping, row_index, scale) {
        Ok(()) => {},
        Err(error) => {
            return Err(error);
        },
    }
    match (cell, mapping.arrow().data_type()) {
        (ArrowCellOf::UInt64(value), ArrowType::UInt64) if is_uint64_decimal20_0_mapping(
            mapping,
        ) => scaled_decimal(mapping, row_index, value as i128, 0, scale),
        (ArrowCellOf::Decimal32(value), ArrowType::Decimal32(_, arrow_scale)) => scaled_decimal(
            mapping,
            row_index,
            value as i128,
            *arrow_scale,
            scale,
        ),
        (ArrowCellOf::Decimal64(value), ArrowType::Decimal64(_, arrow_scale)) => scaled_decimal(
            mapping,
            row_index,
            value as i128,
            *arrow_scale,
            scale,
        ),
        (ArrowCellOf::Decimal128(value), ArrowType::Decimal128(_, arrow_scale)) => scaled_decimal(
            mapping,
            row_index,
            value,
            *arrow_scale,
            scale,
        ),
        (ArrowCellOf::Decimal256(value), ArrowType::Decimal256(_, arrow_scale)) => {
            match narrow_int256(value) {
                Some(value) => scaled_decimal(mapping, row_index, value, *arrow_scale, scale),
                None => Err(
                    row_mapping_fault(
                        mapping,
                        row_index,
                        DiagnosticCode::DecimalOutOfRange,
                        Fault::Decimal256TooWide,
                    ),
                ),
            }
        },
        _ => Err(payload_mismatch_error(mapping, row_index, ExpectedPayload::Decimal, cell)),
    }
}

} // verus!
