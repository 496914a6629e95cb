//! Laws of dates, times and timestamps.

use vstd::arithmetic::power::pow;
use vstd::prelude::*;

use crate::arrow_type::{ArrowType, TimeUnit};
use crate::cell::{ArrowCellOf, ArrowCellView, MssqlCellOf, MssqlDateTime2};
use crate::context::NanosecondPolicy;
use crate::convert::{datetimeoffset_value_outcome, mssql_cell_outcome};
use crate::diagnostic::DiagnosticCode;
use crate::direct::cell::{cell_bytes, DirectCellOf};
use crate::direct::plan::current_encoding;
use crate::direct::value::direct_cell_outcome;
use crate::laws::reading::{lemma_tens, number_at, signed};
use crate::laws::timezone::is_row_error;
use crate::laws::wire::{
    law_date_cell, law_datetime2_cell, law_datetime_cell, law_datetimeoffset_cell, law_time_cell,
    time_bytes_count,
};
use crate::mapping::SchemaMappingView;
use crate::mssql_type::{MssqlTimePrecision, MssqlType};
use crate::temporal::{
    datetime2_at_precision, datetime2_outcome, datetime_of_ticks, datetimeoffset_outcome,
    epoch_parts_outcome, nanosecond_ticks, timestamp_ticks_outcome, utc_datetimeoffset_outcome,
};
use crate::timezone::{is_arrow_timezone, metadata_error, offset_outcome, resolution_outcome};

verus! {

/// The nanoseconds of one unit.
pub open spec fn unit_nanoseconds(unit: TimeUnit) -> int {
    match unit {
        TimeUnit::Second => 1_000_000_000,
        TimeUnit::Millisecond => 1_000_000,
        TimeUnit::Microsecond => 1_000,
        TimeUnit::Nanosecond => 1,
    }
}

/// The cell of a timestamp value in a unit.
pub open spec fn timestamp_of(unit: TimeUnit, value: i64) -> ArrowCellView {
    match unit {
        TimeUnit::Second => ArrowCellOf::TimestampSecond(value),
        TimeUnit::Millisecond => ArrowCellOf::TimestampMillisecond(value),
        TimeUnit::Microsecond => ArrowCellOf::TimestampMicrosecond(value),
        TimeUnit::Nanosecond => ArrowCellOf::TimestampNanosecond(value),
    }
}

/// Whether a number of 100 ns ticks is that of some nanoseconds: exactly, the ticks that have
/// passed, or the nearest with half a tick upwards.
pub open spec fn is_tick_of(ticks: int, nanoseconds: int, policy: NanosecondPolicy) -> bool {
    match policy {
        NanosecondPolicy::RejectNon100ns => 100 * ticks == nanoseconds,
        NanosecondPolicy::TruncateTo100ns => 100 * ticks <= nanoseconds < 100 * ticks + 100,
        NanosecondPolicy::RoundTo100ns => -50 <= nanoseconds - 100 * ticks < 50,
    }
}

/// Whether the part of a tick is lost without a policy that allows it.
pub open spec fn is_lossy(nanoseconds: int, policy: NanosecondPolicy) -> bool {
    policy is RejectNon100ns && nanoseconds % 100 != 0
}

/// Whether an instant lies from 0001-01-01 to the end of 9999-12-31.
pub open spec fn in_years_1_to_9999(ticks: int) -> bool {
    0 <= ticks + 719_162 * 864_000_000_000 < 3_652_059 * 864_000_000_000
}

/// Whether a `datetime2(7)` is an instant in ticks from the Unix epoch.
pub open spec fn is_at(datetime2: MssqlDateTime2, ticks: int) -> bool {
    &&& datetime2.time.scale == 7
    &&& datetime2.time.increments < 864_000_000_000
    &&& (datetime2.date.days - 719_162) * 864_000_000_000 + datetime2.time.increments == ticks
}

/// Ticks of a number of nanoseconds.
proof fn lemma_ticks(nanoseconds: int, policy: NanosecondPolicy, ticks: int)
    requires
        is_tick_of(ticks, nanoseconds, policy),
    ensures
        nanosecond_ticks(nanoseconds, policy) == Some(ticks),
{
}

/// A timestamp becomes the `datetime2(7)` of its instant, whatever its unit, exactly when its
/// timezone metadata is valid and the instant lies in the years 1 to 9999.
pub proof fn law_datetime2_is_the_instant(
    mapping: SchemaMappingView,
    policy: NanosecondPolicy,
    row: usize,
    unit: TimeUnit,
    timezone: Option<Seq<char>>,
    value: i64,
    ticks: int,
)
    requires
        mapping.arrow.data_type == ArrowType::Timestamp(unit, timezone),
        mapping.mssql.ty == (MssqlType::DateTime2 { precision: 7 }),
        is_tick_of(ticks, value * unit_nanoseconds(unit), policy),
    ensures
        ({
            let found = mssql_cell_outcome(mapping, policy, row, timestamp_of(unit, value));
            &&& found is Ok <==> metadata_error(mapping, row, timezone) is None
                && in_years_1_to_9999(ticks)
            &&& found matches Ok(cell) ==> cell matches MssqlCellOf::DateTime2(Some(datetime2))
                && is_at(datetime2, ticks)
            &&& found matches Err(error) ==> metadata_error(mapping, row, timezone) == Some(error)
                || is_row_error(error, mapping, row, DiagnosticCode::TimestampOutOfRange)
        }),
{
    lemma_unit_ticks(unit, value, policy, ticks);
}

/// The ticks of a timestamp in each unit.
proof fn lemma_unit_ticks(unit: TimeUnit, value: i64, policy: NanosecondPolicy, ticks: int)
    requires
        is_tick_of(ticks, value * unit_nanoseconds(unit), policy),
    ensures
        unit is Second ==> ticks == value * 10_000_000,
        unit is Millisecond ==> ticks == value * 10_000,
        unit is Microsecond ==> ticks == value * 10,
        unit is Nanosecond ==> nanosecond_ticks(value as int, policy) == Some(ticks),
        -93_000_000_000_000_000_000_000_000 < ticks < 93_000_000_000_000_000_000_000_000,
{
    lemma_ticks(value * unit_nanoseconds(unit), policy, ticks);
}

/// Nanoseconds that are not whole ticks are refused unless a policy allows it.
pub proof fn law_lossy_timestamps_are_refused(
    mapping: SchemaMappingView,
    policy: NanosecondPolicy,
    row: usize,
    timezone: Option<Seq<char>>,
    value: i64,
)
    requires
        mapping.arrow.data_type == ArrowType::Timestamp(TimeUnit::Nanosecond, timezone),
        mapping.mssql.ty == (MssqlType::DateTime2 { precision: 7 }) || mapping.mssql.ty == (
        MssqlType::DateTimeOffset { precision: 7 }),
        is_lossy(value as int, policy),
    ensures
        mssql_cell_outcome(mapping, policy, row, ArrowCellOf::TimestampNanosecond(value)) is Err,
        mapping.mssql.ty is DateTime2 && metadata_error(mapping, row, timezone) is None
            ==> is_row_error(
            mssql_cell_outcome(
                mapping,
                policy,
                row,
                ArrowCellOf::TimestampNanosecond(value),
            )->Err_0,
            mapping,
            row,
            DiagnosticCode::LossyConversionRequiresPolicy,
        ),
        current_encoding(mapping) matches Some(encoding) ==> direct_cell_outcome(
            encoding,
            mapping,
            policy,
            row,
            ArrowCellOf::TimestampNanosecond(value),
        ) is Err,
{
}

/// Whether an instant rounds to a number of increments, half of one upwards.
pub open spec fn rounds_to(ticks: int, increments: int, increment: int) -> bool {
    -increment <= 2 * (ticks - increments * increment) && 2 * (ticks - increments * increment)
        < increment
}

/// The days and the time of day of increments from the Unix epoch.
proof fn lemma_rounded(ticks: int, precision: u8, increments: int)
    requires
        precision <= 7,
        rounds_to(ticks, increments, pow(10, (7 - precision) as nat)),
    ensures
        ({
            let per_day = 86_400 * pow(10, precision as nat);
            let found = datetime2_at_precision(ticks, precision);
            &&& found is Some <==> 0 <= increments + 719_162 * per_day < 3_652_059 * per_day
            &&& found matches Some(datetime2) ==> datetime2.time.scale == precision
                && datetime2.date.days <= 3_652_058 && datetime2.time.increments < per_day && (
            datetime2.date.days - 719_162) * per_day + datetime2.time.increments == increments
        }),
{
    lemma_tens();
    let per_day = 86_400 * pow(10, precision as nat);
    let unit = pow(10, (7 - precision) as nat);
    assert(crate::temporal::increment_ticks(precision) == unit);
    assert(864_000_000_000int / unit == per_day && (ticks + unit / 2) / unit == increments) by {
        if precision == 0 {
            assert((ticks + 5_000_000) / 10_000_000 == increments);
        } else if precision == 1 {
            assert((ticks + 500_000) / 1_000_000 == increments);
        } else if precision == 2 {
            assert((ticks + 50_000) / 100_000 == increments);
        } else if precision == 3 {
            assert((ticks + 5_000) / 10_000 == increments);
        } else if precision == 4 {
            assert((ticks + 500) / 1_000 == increments);
        } else if precision == 5 {
            assert((ticks + 50) / 100 == increments);
        } else if precision == 6 {
            assert((ticks + 5) / 10 == increments);
        } else {
            assert(ticks == increments);
        }
    }
    assert(86_400 <= per_day <= 864_000_000_000);
    lemma_split(increments, per_day);
}

/// A number of increments is the days that it makes up and the rest of a day.
proof fn lemma_split(increments: int, per_day: int)
    requires
        per_day > 0,
    ensures
        0 <= increments / per_day + 719_162 <= 3_652_058 <==> 0 <= increments + 719_162 * per_day
            < 3_652_059 * per_day,
        0 <= increments % per_day < per_day,
        (increments / per_day) * per_day + increments % per_day == increments,
{
    vstd::arithmetic::div_mod::lemma_fundamental_div_mod(increments, per_day);
    vstd::arithmetic::div_mod::lemma_mod_bound(increments, per_day);
    let days = increments / per_day;
    let rest = increments % per_day;
    assert((days + 719_162) * per_day + rest == increments + 719_162 * per_day) by (nonlinear_arith)
        requires
            increments == per_day * days + rest,
    ;
    let shifted = days + 719_162;
    assert(0 <= shifted ==> 0 <= shifted * per_day) by (nonlinear_arith)
        requires
            per_day > 0,
    ;
    assert(shifted <= 3_652_058 ==> shifted * per_day <= 3_652_058 * per_day) by (nonlinear_arith)
        requires
            per_day > 0,
    ;
    assert(shifted < 0 ==> shifted * per_day <= -per_day) by (nonlinear_arith)
        requires
            per_day > 0,
    ;
    assert(shifted > 3_652_058 ==> shifted * per_day >= 3_652_059 * per_day) by (nonlinear_arith)
        requires
            per_day > 0,
    ;
    assert(days * per_day == per_day * days) by (nonlinear_arith);
}

/// A timestamp is encoded as the `datetime2` nearest to its instant, half an increment upwards,
/// at every precision: the bytes hold the increments since midnight and the days since
/// 0001-01-01. It is refused exactly when its timezone metadata is not valid, or when the nearest
/// increment lies outside the years 1 to 9999.
pub proof fn law_encoded_datetime2_is_the_instant(
    mapping: SchemaMappingView,
    policy: NanosecondPolicy,
    row: usize,
    unit: TimeUnit,
    timezone: Option<Seq<char>>,
    precision: u8,
    value: i64,
    ticks: int,
    increments: int,
)
    requires
        mapping.arrow.data_type == ArrowType::Timestamp(unit, timezone),
        mapping.mssql.ty == (MssqlType::DateTime2 { precision }),
        precision <= 7,
        is_tick_of(ticks, value * unit_nanoseconds(unit), policy),
        rounds_to(ticks, increments, pow(10, (7 - precision) as nat)),
    ensures
        current_encoding(mapping) is Some,
        ({
            let per_day = 86_400 * pow(10, precision as nat);
            let width = time_bytes_count(precision);
            let found = direct_cell_outcome(
                current_encoding(mapping)->0,
                mapping,
                policy,
                row,
                timestamp_of(unit, value),
            );
            &&& found is Ok <==> metadata_error(mapping, row, timezone) is None && 0 <= increments
                + 719_162 * per_day < 3_652_059 * per_day
            &&& found matches Ok(cell) ==> {
                let bytes = cell_bytes(cell);
                &&& bytes.len() == 4 + width
                &&& bytes[0] == 3 + width
                &&& number_at(bytes, 1, width) < per_day
                &&& (number_at(bytes, 1 + width as int, 3) - 719_162) * per_day + number_at(
                    bytes,
                    1,
                    width,
                ) == increments
            }
            &&& found matches Err(error) ==> metadata_error(mapping, row, timezone) == Some(error)
                || is_row_error(error, mapping, row, DiagnosticCode::TimestampOutOfRange)
        }),
{
    lemma_unit_ticks(unit, value, policy, ticks);
    lemma_rounded(ticks, precision, increments);
    lemma_tens();
    let found = direct_cell_outcome(
        current_encoding(mapping)->0,
        mapping,
        policy,
        row,
        timestamp_of(unit, value),
    );
    if let Ok(cell) = found {
        assert(cell is DateTime2);
        law_datetime2_cell(cell->DateTime2_0);
    }
}

/// Where the columns are `datetime2(7)`, encoding and converting a timestamp agree.
pub proof fn law_both_paths_agree_on_datetime2(
    mapping: SchemaMappingView,
    policy: NanosecondPolicy,
    row: usize,
    unit: TimeUnit,
    timezone: Option<Seq<char>>,
    value: i64,
)
    requires
        mapping.arrow.data_type == ArrowType::Timestamp(unit, timezone),
        mapping.mssql.ty == (MssqlType::DateTime2 { precision: 7 }),
        current_encoding(mapping) is Some,
    ensures
        ({
            let encoded = direct_cell_outcome(
                current_encoding(mapping)->0,
                mapping,
                policy,
                row,
                timestamp_of(unit, value),
            );
            match mssql_cell_outcome(mapping, policy, row, timestamp_of(unit, value)) {
                Ok(cell) => encoded matches Ok(found) && found matches DirectCellOf::DateTime2(
                    datetime2,
                ) && cell == MssqlCellOf::<Seq<char>, Seq<u8>>::DateTime2(Some(datetime2)),
                Err(error) => encoded matches Err(found) && found == error,
            }
        }),
{
    crate::temporal::law_datetime2_keeps_instant(0);
    match unit {
        TimeUnit::Second => {
            crate::temporal::law_datetime2_keeps_instant(value * 10_000_000);
        },
        TimeUnit::Millisecond => {
            crate::temporal::law_datetime2_keeps_instant(value * 10_000);
        },
        TimeUnit::Microsecond => {
            crate::temporal::law_datetime2_keeps_instant(value * 10);
        },
        TimeUnit::Nanosecond => {
            if let Some(ticks) = nanosecond_ticks(value as int, policy) {
                crate::temporal::law_datetime2_keeps_instant(ticks);
            }
        },
    }
}

/// The fragments of 1/300 second of a `datetime` from the Unix epoch.
proof fn lemma_fragments(ticks: int, fragments: int)
    requires
        rounds_to(3 * ticks, fragments, 100_000),
    ensures
        ({
            let found = datetime_of_ticks(ticks);
            &&& found is Some <==> -53_690 * 25_920_000 <= fragments + 25_567 * 25_920_000
                < 2_958_464 * 25_920_000
            &&& found matches Some(datetime) ==> datetime.seconds_fragments < 25_920_000 && (
            datetime.days - 25_567) * 25_920_000 + datetime.seconds_fragments == fragments
        }),
{
    assert((ticks * 3 + 50_000) / 100_000 == fragments);
}

/// A timestamp is encoded as the `datetime` nearest to its instant, half of 1/300 second upwards:
/// the bytes hold the days since 1900-01-01 and the fragments since midnight. It is refused
/// exactly when its timezone metadata is not valid, or when that lies outside the years 1753 to
/// 9999.
pub proof fn law_encoded_datetime_is_the_instant(
    mapping: SchemaMappingView,
    policy: NanosecondPolicy,
    row: usize,
    unit: TimeUnit,
    timezone: Option<Seq<char>>,
    value: i64,
    ticks: int,
    fragments: int,
)
    requires
        mapping.arrow.data_type == ArrowType::Timestamp(unit, timezone),
        mapping.mssql.ty == MssqlType::DateTime,
        is_tick_of(ticks, value * unit_nanoseconds(unit), policy),
        rounds_to(3 * ticks, fragments, 100_000),
    ensures
        current_encoding(mapping) is Some,
        ({
            let found = direct_cell_outcome(
                current_encoding(mapping)->0,
                mapping,
                policy,
                row,
                timestamp_of(unit, value),
            );
            &&& found is Ok <==> metadata_error(mapping, row, timezone) is None && -53_690
                * 25_920_000 <= fragments + 25_567 * 25_920_000 < 2_958_464 * 25_920_000
            &&& found matches Ok(cell) ==> {
                let bytes = cell_bytes(cell);
                &&& bytes.len() == 9
                &&& bytes[0] == 8
                &&& number_at(bytes, 5, 4) < 25_920_000
                &&& (signed(number_at(bytes, 1, 4) as int, 32) - 25_567) * 25_920_000 + number_at(
                    bytes,
                    5,
                    4,
                ) == fragments
            }
            &&& found matches Err(error) ==> metadata_error(mapping, row, timezone) == Some(error)
                || is_row_error(error, mapping, row, DiagnosticCode::TimestampOutOfRange)
        }),
{
    lemma_unit_ticks(unit, value, policy, ticks);
    lemma_fragments(ticks, fragments);
    let found = direct_cell_outcome(
        current_encoding(mapping)->0,
        mapping,
        policy,
        row,
        timestamp_of(unit, value),
    );
    if let Ok(cell) = found {
        assert(cell is DateTime);
        law_datetime_cell(cell->DateTime_0);
    }
}

/// An Arrow Date32 becomes the `date` of its day, converted or encoded, exactly when that lies in
/// the years 1 to 9999.
pub proof fn law_date_is_the_day(
    mapping: SchemaMappingView,
    policy: NanosecondPolicy,
    row: usize,
    value: i32,
)
    requires
        mapping.arrow.data_type is Date32,
        mapping.mssql.ty is Date,
    ensures
        current_encoding(mapping) is Some,
        ({
            let cell = ArrowCellOf::Date32(value);
            let found = mssql_cell_outcome(mapping, policy, row, cell);
            let encoded = direct_cell_outcome(
                current_encoding(mapping)->0,
                mapping,
                policy,
                row,
                cell,
            );
            &&& found is Ok <==> 0 <= value + 719_162 < 3_652_059
            &&& encoded is Ok <==> 0 <= value + 719_162 < 3_652_059
            &&& found matches Ok(cell) ==> cell matches MssqlCellOf::Date(Some(date)) && date.days
                == value + 719_162
            &&& encoded matches Ok(cell) ==> {
                let bytes = cell_bytes(cell);
                &&& bytes.len() == 4
                &&& bytes[0] == 3
                &&& number_at(bytes, 1, 3) == value + 719_162
            }
            &&& found matches Err(error) ==> is_row_error(
                error,
                mapping,
                row,
                DiagnosticCode::TimestampOutOfRange,
            )
            &&& encoded matches Err(error) ==> is_row_error(
                error,
                mapping,
                row,
                DiagnosticCode::TimestampOutOfRange,
            )
        }),
{
    let encoded = direct_cell_outcome(
        current_encoding(mapping)->0,
        mapping,
        policy,
        row,
        ArrowCellOf::Date32(value),
    );
    if let Ok(cell) = encoded {
        assert(cell is Date);
        law_date_cell(cell->Date_0);
    }
}

/// An Arrow Date64 becomes the `datetime2(3)` of its instant, converted or encoded, exactly when
/// that lies in the years 1 to 9999.
pub proof fn law_date64_is_the_instant(
    mapping: SchemaMappingView,
    policy: NanosecondPolicy,
    row: usize,
    value: i64,
)
    requires
        mapping.arrow.data_type is Date64,
        mapping.mssql.ty == (MssqlType::DateTime2 { precision: 3 }),
    ensures
        current_encoding(mapping) is Some,
        ({
            let cell = ArrowCellOf::Date64(value);
            let found = mssql_cell_outcome(mapping, policy, row, cell);
            let encoded = direct_cell_outcome(
                current_encoding(mapping)->0,
                mapping,
                policy,
                row,
                cell,
            );
            let in_range = 0 <= value + 719_162 * 86_400_000 < 3_652_059 * 86_400_000;
            &&& found is Ok <==> in_range
            &&& encoded is Ok <==> in_range
            &&& found matches Ok(cell) ==> cell matches MssqlCellOf::DateTime2(Some(datetime2))
                && datetime2.time.scale == 3 && datetime2.time.increments < 86_400_000 && (
            datetime2.date.days - 719_162) * 86_400_000 + datetime2.time.increments == value
            &&& encoded matches Ok(cell) ==> {
                let bytes = cell_bytes(cell);
                &&& bytes.len() == 8
                &&& bytes[0] == 7
                &&& number_at(bytes, 1, 4) < 86_400_000
                &&& (number_at(bytes, 5, 3) - 719_162) * 86_400_000 + number_at(bytes, 1, 4)
                    == value
            }
            &&& found matches Err(error) ==> is_row_error(
                error,
                mapping,
                row,
                DiagnosticCode::TimestampOutOfRange,
            )
        }),
{
    let encoded = direct_cell_outcome(
        current_encoding(mapping)->0,
        mapping,
        policy,
        row,
        ArrowCellOf::Date64(value),
    );
    if let Ok(cell) = encoded {
        assert(cell is DateTime2);
        law_datetime2_cell(cell->DateTime2_0);
    }
}

/// The fractional-second digits of a unit.
pub open spec fn unit_digits(unit: TimeUnit) -> nat {
    match unit {
        TimeUnit::Second => 0,
        TimeUnit::Millisecond => 3,
        TimeUnit::Microsecond => 6,
        TimeUnit::Nanosecond => 7,
    }
}

/// Whether a mapping writes times of day in a unit at the digits of that unit.
pub open spec fn writes_times(mapping: SchemaMappingView, unit: TimeUnit) -> bool {
    match unit {
        TimeUnit::Second => mapping.arrow.data_type == ArrowType::<Seq<char>>::Time32(
            TimeUnit::Second,
        ) && mapping.mssql.ty == MssqlType::Time(MssqlTimePrecision::Zero),
        TimeUnit::Millisecond => mapping.arrow.data_type == ArrowType::<Seq<char>>::Time32(
            TimeUnit::Millisecond,
        ) && mapping.mssql.ty == MssqlType::Time(MssqlTimePrecision::Three),
        TimeUnit::Microsecond => mapping.arrow.data_type == ArrowType::<Seq<char>>::Time64(
            TimeUnit::Microsecond,
        ) && mapping.mssql.ty == MssqlType::Time(MssqlTimePrecision::Six),
        TimeUnit::Nanosecond => mapping.arrow.data_type == ArrowType::<Seq<char>>::Time64(
            TimeUnit::Nanosecond,
        ) && mapping.mssql.ty == MssqlType::Time(MssqlTimePrecision::Seven),
    }
}

/// Whether a cell is a time of day of some units.
pub open spec fn is_time_of(cell: ArrowCellView, unit: TimeUnit, value: int) -> bool {
    match unit {
        TimeUnit::Second => cell matches ArrowCellOf::Time32Second(found) && found == value,
        TimeUnit::Millisecond => cell matches ArrowCellOf::Time32Millisecond(found) && found
            == value,
        TimeUnit::Microsecond => cell matches ArrowCellOf::Time64Microsecond(found) && found
            == value,
        TimeUnit::Nanosecond => cell matches ArrowCellOf::Time64Nanosecond(found) && found
            == value,
    }
}

/// Every time of day of one day is encoded, in every unit, as what has passed since midnight, and
/// no other value is. Nanoseconds become ticks under the policy; other units stay as they are.
pub proof fn law_times_of_one_day_are_encoded(
    mapping: SchemaMappingView,
    policy: NanosecondPolicy,
    row: usize,
    unit: TimeUnit,
    cell: ArrowCellView,
    value: int,
    increments: int,
)
    requires
        writes_times(mapping, unit),
        is_time_of(cell, unit, value),
        if unit is Nanosecond {
            is_tick_of(increments, value, policy)
        } else {
            increments == value
        },
    ensures
        current_encoding(mapping) is Some,
        ({
            let found = direct_cell_outcome(
                current_encoding(mapping)->0,
                mapping,
                policy,
                row,
                cell,
            );
            let width = time_bytes_count(unit_digits(unit) as u8);
            &&& found is Ok <==> 0 <= increments < 86_400 * pow(10, unit_digits(unit))
            &&& found matches Ok(cell) ==> {
                let bytes = cell_bytes(cell);
                &&& bytes.len() == 1 + width
                &&& bytes[0] == width
                &&& number_at(bytes, 1, width) == increments
            }
            &&& found matches Err(error) ==> is_row_error(
                error,
                mapping,
                row,
                DiagnosticCode::TimestampOutOfRange,
            )
        }),
{
    lemma_tens();
    if unit is Nanosecond {
        lemma_ticks(value, policy, increments);
    }
    let found = direct_cell_outcome(current_encoding(mapping)->0, mapping, policy, row, cell);
    if let Ok(cell) = found {
        assert(cell is Time);
        law_time_cell(cell->Time_0);
    }
}

/// Nanoseconds of a time of day that are not whole ticks are refused unless a policy allows it.
pub proof fn law_lossy_times_are_refused(
    mapping: SchemaMappingView,
    policy: NanosecondPolicy,
    row: usize,
    value: i64,
)
    requires
        writes_times(mapping, TimeUnit::Nanosecond),
        is_lossy(value as int, policy),
    ensures
        current_encoding(mapping) is Some,
        direct_cell_outcome(
            current_encoding(mapping)->0,
            mapping,
            policy,
            row,
            ArrowCellOf::Time64Nanosecond(value),
        ) matches Err(error) && is_row_error(
            error,
            mapping,
            row,
            DiagnosticCode::LossyConversionRequiresPolicy,
        ),
{
}

/// Whether seconds and nanoseconds are the instant of a timestamp.
pub open spec fn is_instant(unit: TimeUnit, value: i64, seconds: i64, nanoseconds: u32) -> bool {
    &&& nanoseconds < 1_000_000_000
    &&& seconds * 1_000_000_000 + nanoseconds == value * unit_nanoseconds(unit)
}

/// The offset of timezone metadata at an instant, where it has one.
pub open spec fn offset_at(
    mapping: SchemaMappingView,
    row: usize,
    timezone: Seq<char>,
    seconds: i64,
    nanoseconds: u32,
) -> Option<i16> {
    match resolution_outcome(mapping, row, timezone, is_arrow_timezone(timezone)) {
        Ok(resolution) => match offset_outcome(resolution, mapping, row, seconds, nanoseconds) {
            Ok(offset) => Some(offset),
            Err(_) => None,
        },
        Err(_) => None,
    }
}

/// A timestamp with a timezone becomes the `datetimeoffset(7)` of its instant: the offset is that
/// of the timezone at the instant, and the date and time are local, so that they lie the offset
/// ahead of the instant. That is refused exactly when there is no such offset, or when the local
/// time lies outside the years 1 to 9999.
pub proof fn law_datetimeoffset_is_the_instant(
    mapping: SchemaMappingView,
    policy: NanosecondPolicy,
    row: usize,
    unit: TimeUnit,
    timezone: Seq<char>,
    value: i64,
    ticks: int,
    seconds: i64,
    nanoseconds: u32,
)
    requires
        mapping.arrow.data_type == ArrowType::Timestamp(unit, Some(timezone)),
        mapping.mssql.ty == (MssqlType::DateTimeOffset { precision: 7 }),
        is_tick_of(ticks, value * unit_nanoseconds(unit), policy),
        is_instant(unit, value, seconds, nanoseconds),
    ensures
        ({
            let found = mssql_cell_outcome(mapping, policy, row, timestamp_of(unit, value));
            let offset = offset_at(mapping, row, timezone, seconds, nanoseconds);
            &&& found is Ok <==> offset is Some && in_years_1_to_9999(
                ticks + offset->0 * 600_000_000,
            )
            &&& found matches Ok(cell) ==> cell matches MssqlCellOf::DateTimeOffset(Some(value))
                && Some(value.offset_minutes) == offset && is_at(
                value.datetime2,
                ticks + offset->0 * 600_000_000,
            )
        }),
{
    lemma_zoned(mapping, policy, row, unit, timezone, value, ticks, seconds, nanoseconds);
}

/// The `datetimeoffset(7)` of a timestamp with a timezone.
proof fn lemma_zoned(
    mapping: SchemaMappingView,
    policy: NanosecondPolicy,
    row: usize,
    unit: TimeUnit,
    timezone: Seq<char>,
    value: i64,
    ticks: int,
    seconds: i64,
    nanoseconds: u32,
)
    requires
        mapping.arrow.data_type == ArrowType::Timestamp(unit, Some(timezone)),
        mapping.mssql.ty == (MssqlType::DateTimeOffset { precision: 7 }),
        is_tick_of(ticks, value * unit_nanoseconds(unit), policy),
        is_instant(unit, value, seconds, nanoseconds),
    ensures
        ({
            let found = datetimeoffset_value_outcome(
                mapping,
                policy,
                row,
                timestamp_of(unit, value),
            );
            let offset = offset_at(mapping, row, timezone, seconds, nanoseconds);
            &&& found is Ok <==> offset is Some && in_years_1_to_9999(
                ticks + offset->0 * 600_000_000,
            )
            &&& found matches Ok(value) ==> Some(value.offset_minutes) == offset && is_at(
                value.datetime2,
                ticks + offset->0 * 600_000_000,
            )
        }),
{
    lemma_unit_ticks(unit, value, policy, ticks);
    match unit {
        TimeUnit::Second => {
            assert(seconds == value && nanoseconds == 0);
        },
        TimeUnit::Millisecond => {
            assert(seconds == value as int / 1_000);
            assert(nanoseconds == value as int % 1_000 * 1_000_000);
        },
        TimeUnit::Microsecond => {
            assert(seconds == value as int / 1_000_000);
            assert(nanoseconds == value as int % 1_000_000 * 1_000);
        },
        TimeUnit::Nanosecond => {
            assert(seconds == value as int / 1_000_000_000);
            assert(nanoseconds == value as int % 1_000_000_000);
        },
    }
}

/// A timestamp with a timezone is encoded as the `datetimeoffset(7)` of its instant: the bytes hold
/// the date and time in UTC, and the offset of the timezone at the instant. That is refused exactly
/// when there is no such offset, when the timezone metadata is not valid, or when the local or the
/// UTC time lies outside the years 1 to 9999.
pub proof fn law_encoded_datetimeoffset_is_the_instant(
    mapping: SchemaMappingView,
    policy: NanosecondPolicy,
    row: usize,
    unit: TimeUnit,
    timezone: Seq<char>,
    value: i64,
    ticks: int,
    seconds: i64,
    nanoseconds: u32,
)
    requires
        mapping.arrow.data_type == ArrowType::Timestamp(unit, Some(timezone)),
        mapping.mssql.ty == (MssqlType::DateTimeOffset { precision: 7 }),
        is_tick_of(ticks, value * unit_nanoseconds(unit), policy),
        is_instant(unit, value, seconds, nanoseconds),
    ensures
        current_encoding(mapping) is Some,
        ({
            let found = direct_cell_outcome(
                current_encoding(mapping)->0,
                mapping,
                policy,
                row,
                timestamp_of(unit, value),
            );
            let offset = offset_at(mapping, row, timezone, seconds, nanoseconds);
            &&& found is Ok <==> metadata_error(mapping, row, Some(timezone)) is None && offset
                is Some && in_years_1_to_9999(ticks + offset->0 * 600_000_000)
                && in_years_1_to_9999(ticks)
            &&& found matches Ok(cell) ==> {
                let bytes = cell_bytes(cell);
                &&& bytes.len() == 11
                &&& bytes[0] == 10
                &&& number_at(bytes, 1, 5) < 864_000_000_000
                &&& (number_at(bytes, 6, 3) - 719_162) * 864_000_000_000 + number_at(bytes, 1, 5)
                    == ticks
                &&& signed(number_at(bytes, 9, 2) as int, 16) == offset->0
            }
        }),
{
    lemma_zoned(mapping, policy, row, unit, timezone, value, ticks, seconds, nanoseconds);
    lemma_unit_ticks(unit, value, policy, ticks);
    let found = direct_cell_outcome(
        current_encoding(mapping)->0,
        mapping,
        policy,
        row,
        timestamp_of(unit, value),
    );
    if let Ok(cell) = found {
        assert(cell is DateTimeOffset);
        law_datetimeoffset_cell(cell->DateTimeOffset_0);
    }
}

/// Ticks are those of their nanoseconds, in every unit and under every policy; only what is lossy
/// is refused.
pub proof fn law_ticks_are_those_of_the_timestamp(
    mapping: SchemaMappingView,
    row: usize,
    unit: TimeUnit,
    value: i64,
    policy: NanosecondPolicy,
)
    ensures
        ({
            let found = timestamp_ticks_outcome(mapping, row, unit, value, policy);
            &&& found is Ok <==> !is_lossy(value * unit_nanoseconds(unit), policy)
            &&& found matches Ok(ticks) ==> is_tick_of(
                ticks as int,
                value * unit_nanoseconds(unit),
                policy,
            )
        }),
{
    let v = value as int;
    match unit {
        TimeUnit::Second => {
            assert((v * 1_000_000_000) % 100 == 0);
        },
        TimeUnit::Millisecond => {
            assert((v * 1_000_000) % 100 == 0);
        },
        TimeUnit::Microsecond => {
            assert((v * 1_000) % 100 == 0);
        },
        TimeUnit::Nanosecond => {
            if !is_lossy(v, policy) {
                let ticks = nanosecond_ticks(v, policy)->0;
                assert(is_tick_of(ticks, v, policy));
                assert(ticks as i128 == ticks);
            }
        },
    }
}

/// Every instant of the years 1 to 9999 has its `datetime2(7)`, and no other has one.
pub proof fn law_instants_have_their_datetime2(
    mapping: SchemaMappingView,
    row: usize,
    ticks: i128,
    unit: Seq<char>,
    value: i64,
)
    ensures
        ({
            let found = datetime2_outcome(mapping, row, ticks, unit, value);
            &&& found is Ok <==> in_years_1_to_9999(ticks as int)
            &&& found matches Ok(datetime2) ==> is_at(datetime2, ticks as int)
        }),
{
}

/// Every local time of the years 1 to 9999 has its `datetimeoffset(7)`, which keeps the offset; and
/// moving it to UTC moves it back by the offset.
pub proof fn law_offsets_move_the_time(
    mapping: SchemaMappingView,
    row: usize,
    ticks: i128,
    offset_minutes: i16,
    unit: Seq<char>,
    value: i64,
)
    ensures
        ({
            let local = ticks + offset_minutes * 600_000_000;
            let found = datetimeoffset_outcome(mapping, row, ticks, offset_minutes, unit, value);
            &&& found is Ok <==> in_years_1_to_9999(local)
            &&& found matches Ok(moved) ==> {
                let back = utc_datetimeoffset_outcome(mapping, row, moved, unit, value);
                &&& is_at(moved.datetime2, local)
                &&& moved.offset_minutes == offset_minutes
                &&& back is Ok <==> in_years_1_to_9999(ticks as int)
                &&& back matches Ok(utc) ==> is_at(utc.datetime2, ticks as int)
                    && utc.offset_minutes == offset_minutes
            }
        }),
{
}

/// Seconds and nanoseconds are kept as they are, where 32 bits hold the nanoseconds.
pub proof fn law_epoch_parts_are_kept(
    mapping: SchemaMappingView,
    row: usize,
    seconds: i64,
    nanoseconds: i64,
)
    ensures
        ({
            let found = epoch_parts_outcome(mapping, row, seconds, nanoseconds);
            &&& found is Ok <==> 0 <= nanoseconds < 0x1_0000_0000
            &&& found matches Ok(parts) ==> parts.0 == seconds && parts.1 == nanoseconds
        }),
{
}

} // verus!
