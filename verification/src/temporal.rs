//! Conversion of Arrow dates, times and timestamps to SQL Server values.

use vstd::arithmetic::div_mod::{lemma_fundamental_div_mod, lemma_mod_bound};
use vstd::prelude::*;

use crate::arrow_type::TimeUnit;
use crate::cell::{MssqlDate, MssqlDateTime, MssqlDateTime2, MssqlDateTimeOffset, MssqlTime};
use crate::context::NanosecondPolicy;
use crate::diagnostic::{outcome, value_conversion_error, DiagnosticCode, ErrorView, Result};
use crate::mapping::{SchemaMapping, SchemaMappingView};
use crate::message::{Fault, MessageOf};
use crate::value_error::{row_error, row_fault, row_mapping_diagnostic, row_mapping_fault};

verus! {

/// Days from 0001-01-01 to 1970-01-01.
pub const UNIX_EPOCH_DAYS: i64 = 719_162;

/// Days from 0001-01-01 to 9999-12-31, the last SQL Server date.
pub const MAX_DATE_DAYS: i64 = 3_652_058;

/// Milliseconds of one day.
pub const MILLISECONDS_PER_DAY: i64 = 86_400_000;

/// Fractional-second digits of a `datetime2` from an Arrow Date64.
pub const DATE64_SCALE: u8 = 3;

/// Fractional-second digits of a `datetime2` of 100 ns ticks.
pub const TICK_SCALE: u8 = 7;

/// Ticks of 100 ns in one second.
pub const TICKS_PER_SECOND: i128 = 10_000_000;

/// Ticks of 100 ns in one millisecond.
pub const TICKS_PER_MILLISECOND: i128 = 10_000;

/// Ticks of 100 ns in one microsecond.
pub const TICKS_PER_MICROSECOND: i128 = 10;

/// Ticks of 100 ns in one minute.
pub const TICKS_PER_MINUTE: i128 = 600_000_000;

/// Ticks of 100 ns in one day.
pub const TICKS_PER_DAY: i128 = 864_000_000_000;

/// Nanoseconds of one tick.
pub const NANOSECONDS_PER_TICK: i64 = 100;

/// Days from 1900-01-01 to 1970-01-01.
pub const DATETIME_UNIX_EPOCH_DAYS: i128 = 25_567;

/// Days from 1900-01-01 to 1753-01-01, the first SQL Server `datetime`.
pub const DATETIME_MIN_DAYS: i128 = -53_690;

/// Days from 1900-01-01 to 9999-12-31, the last SQL Server `datetime`.
pub const DATETIME_MAX_DAYS: i128 = 2_958_463;

/// Fragments of 1/300 second in one day.
pub const DATETIME_FRAGMENTS_PER_DAY: i128 = 25_920_000;

/// The quotient of a division by a positive number, rounded down.
fn floor_div(dividend: i128, divisor: i128) -> (quotient: i128)
    requires
        divisor > 0,
    ensures
        quotient == dividend as int / divisor as int,
{
    proof {
        lemma_quotient_in_range(dividend, divisor);
    }
    match dividend.checked_div_euclid(divisor) {
        Some(quotient) => quotient,
        None => 0,
    }
}

/// The remainder of a division by a positive number, never negative.
fn floor_mod(dividend: i128, divisor: i128) -> (remainder: i128)
    requires
        divisor > 0,
    ensures
        remainder == dividend as int % divisor as int,
{
    match dividend.checked_rem_euclid(divisor) {
        Some(remainder) => remainder,
        None => 0,
    }
}

/// A quotient by a positive number is no further from zero than the dividend.
proof fn lemma_quotient_in_range(dividend: i128, divisor: i128)
    requires
        divisor > 0,
    ensures
        i128::MIN <= dividend as int / divisor as int <= i128::MAX,
{
    assert(i128::MIN <= dividend as int / divisor as int <= i128::MAX) by (nonlinear_arith)
        requires
            divisor > 0,
            i128::MIN <= dividend <= i128::MAX,
    ;
}

/// The name of a timestamp unit in a message.
pub open spec fn unit_text(unit: TimeUnit) -> Seq<char> {
    match unit {
        TimeUnit::Second => "second"@,
        TimeUnit::Millisecond => "millisecond"@,
        TimeUnit::Microsecond => "microsecond"@,
        TimeUnit::Nanosecond => "nanosecond"@,
    }
}

/// The name of a timestamp unit in a message.
pub fn unit_name(unit: TimeUnit) -> (name: &'static str)
    ensures
        name@ == unit_text(unit),
{
    match unit {
        TimeUnit::Second => "second",
        TimeUnit::Millisecond => "millisecond",
        TimeUnit::Microsecond => "microsecond",
        TimeUnit::Nanosecond => "nanosecond",
    }
}

/// The SQL Server date of a day from the Unix epoch, where there is one.
pub open spec fn date_of_unix_day(days: int) -> Option<MssqlDate> {
    if 0 <= days + UNIX_EPOCH_DAYS <= MAX_DATE_DAYS {
        Some(MssqlDate { days: (days + UNIX_EPOCH_DAYS) as u32 })
    } else {
        None
    }
}

/// The SQL Server date of an Arrow Date32.
pub open spec fn date_outcome(
    mapping: SchemaMappingView,
    row_index: usize,
    days: i32,
) -> core::result::Result<MssqlDate, ErrorView> {
    match date_of_unix_day(days as int) {
        Some(date) => Ok(date),
        None => Err(
            row_fault(
                mapping,
                row_index,
                DiagnosticCode::TimestampOutOfRange,
                Fault::DateOutOfRange { days },
            ),
        ),
    }
}

/// Converts an Arrow Date32 to a SQL Server date.
pub fn mssql_date_from_arrow_date32(
    mapping: &SchemaMapping,
    row_index: usize,
    days_from_unix_epoch: i32,
) -> (result: Result<MssqlDate>)
    ensures
        outcome(result) == date_outcome(mapping@, row_index, days_from_unix_epoch),
{
    let days: i64 = days_from_unix_epoch as i64 + UNIX_EPOCH_DAYS;
    if days >= 0 && days <= MAX_DATE_DAYS {
        return Ok(MssqlDate::new(days as u32));
    }
    Err(
        row_mapping_fault(
            mapping,
            row_index,
            DiagnosticCode::TimestampOutOfRange,
            Fault::DateOutOfRange { days: days_from_unix_epoch },
        ),
    )
}

/// The `datetime2(3)` of an Arrow Date64.
pub open spec fn date64_outcome(
    mapping: SchemaMappingView,
    row_index: usize,
    milliseconds: i64,
) -> core::result::Result<MssqlDateTime2, ErrorView> {
    match date_of_unix_day(milliseconds as int / MILLISECONDS_PER_DAY as int) {
        Some(date) => Ok(
            MssqlDateTime2 {
                date,
                time: MssqlTime {
                    increments: (milliseconds as int % MILLISECONDS_PER_DAY as int) as u64,
                    scale: DATE64_SCALE,
                },
            },
        ),
        None => Err(
            row_fault(
                mapping,
                row_index,
                DiagnosticCode::TimestampOutOfRange,
                Fault::Date64OutOfRange { milliseconds },
            ),
        ),
    }
}

/// Converts an Arrow Date64 to a SQL Server `datetime2(3)`.
pub fn mssql_datetime2_from_arrow_date64(
    mapping: &SchemaMapping,
    row_index: usize,
    milliseconds_from_unix_epoch: i64,
) -> (result: Result<MssqlDateTime2>)
    ensures
        outcome(result) == date64_outcome(mapping@, row_index, milliseconds_from_unix_epoch),
{
    let milliseconds: i128 = milliseconds_from_unix_epoch as i128;
    let days_from_unix_epoch: i128 = floor_div(milliseconds, MILLISECONDS_PER_DAY as i128);
    let milliseconds_since_midnight: i128 = floor_mod(milliseconds, MILLISECONDS_PER_DAY as i128);
    let days: i128 = days_from_unix_epoch + UNIX_EPOCH_DAYS as i128;
    if days < 0 || days > MAX_DATE_DAYS as i128 {
        return Err(
            row_mapping_fault(
                mapping,
                row_index,
                DiagnosticCode::TimestampOutOfRange,
                Fault::Date64OutOfRange { milliseconds: milliseconds_from_unix_epoch },
            ),
        );
    }
    Ok(
        MssqlDateTime2::new(
            MssqlDate::new(days as u32),
            MssqlTime::new(milliseconds_since_midnight as u64, DATE64_SCALE),
        ),
    )
}

/// The ticks of a number of nanoseconds under a policy: only whole ticks, rounded down, or
/// rounded to the nearest with half a tick upwards.
pub open spec fn nanosecond_ticks(nanoseconds: int, policy: NanosecondPolicy) -> Option<int> {
    match policy {
        NanosecondPolicy::RejectNon100ns => if nanoseconds % 100 == 0 {
            Some(nanoseconds / 100)
        } else {
            None
        },
        NanosecondPolicy::TruncateTo100ns => Some(nanoseconds / 100),
        NanosecondPolicy::RoundTo100ns => Some((nanoseconds + 50) / 100),
    }
}

/// The ticks of an Arrow nanosecond value.
pub open spec fn nanosecond_ticks_outcome(
    mapping: SchemaMappingView,
    row_index: usize,
    nanoseconds: i64,
    policy: NanosecondPolicy,
) -> core::result::Result<i128, ErrorView> {
    match nanosecond_ticks(nanoseconds as int, policy) {
        Some(ticks) => Ok(ticks as i128),
        None => Err(
            row_fault(
                mapping,
                row_index,
                DiagnosticCode::LossyConversionRequiresPolicy,
                Fault::LossyNanoseconds { nanoseconds },
            ),
        ),
    }
}

/// Converts nanoseconds to 100 ns ticks under a policy.
pub fn nanoseconds_to_100ns_ticks(
    mapping: &SchemaMapping,
    row_index: usize,
    nanoseconds_from_unix_epoch: i64,
    policy: NanosecondPolicy,
) -> (result: Result<i128>)
    ensures
        outcome(result) == nanosecond_ticks_outcome(
            mapping@,
            row_index,
            nanoseconds_from_unix_epoch,
            policy,
        ),
{
    let base_ticks: i128 = floor_div(
        nanoseconds_from_unix_epoch as i128,
        NANOSECONDS_PER_TICK as i128,
    );
    let remainder: i128 = floor_mod(
        nanoseconds_from_unix_epoch as i128,
        NANOSECONDS_PER_TICK as i128,
    );
    match policy {
        NanosecondPolicy::RejectNon100ns => if remainder == 0 {
            Ok(base_ticks)
        } else {
            Err(
                row_mapping_fault(
                    mapping,
                    row_index,
                    DiagnosticCode::LossyConversionRequiresPolicy,
                    Fault::LossyNanoseconds { nanoseconds: nanoseconds_from_unix_epoch },
                ),
            )
        },
        NanosecondPolicy::TruncateTo100ns => Ok(base_ticks),
        NanosecondPolicy::RoundTo100ns => if remainder >= 50 {
            Ok(base_ticks + 1)
        } else {
            Ok(base_ticks)
        },
    }
}

/// The `datetime2(7)` of an instant in ticks from the Unix epoch, where there is one.
pub open spec fn datetime2_of_ticks(ticks: int) -> Option<MssqlDateTime2> {
    match date_of_unix_day(ticks / TICKS_PER_DAY as int) {
        Some(date) => Some(
            MssqlDateTime2 {
                date,
                time: MssqlTime {
                    increments: (ticks % TICKS_PER_DAY as int) as u64,
                    scale: TICK_SCALE,
                },
            },
        ),
        None => None,
    }
}

/// The error of a timestamp outside the `datetime2` range.
pub open spec fn timestamp_range_error(
    mapping: SchemaMappingView,
    row_index: usize,
    unit: Seq<char>,
    value: i64,
) -> ErrorView {
    row_error(
        mapping,
        row_index,
        DiagnosticCode::TimestampOutOfRange,
        MessageOf::TimestampOutOfRange { unit, value },
    )
}

/// The `datetime2(7)` of an instant in ticks from the Unix epoch.
pub open spec fn datetime2_outcome(
    mapping: SchemaMappingView,
    row_index: usize,
    ticks: i128,
    unit: Seq<char>,
    value: i64,
) -> core::result::Result<MssqlDateTime2, ErrorView> {
    match datetime2_of_ticks(ticks as int) {
        Some(datetime2) => Ok(datetime2),
        None => Err(timestamp_range_error(mapping, row_index, unit, value)),
    }
}

/// Creates the error of a timestamp outside the `datetime2` range.
fn timestamp_out_of_range(
    mapping: &SchemaMapping,
    row_index: usize,
    unit_name: &str,
    source_value: i64,
) -> (error: crate::diagnostic::Error)
    ensures
        error@ == timestamp_range_error(mapping@, row_index, unit_name@, source_value),
{
    value_conversion_error(
        row_mapping_diagnostic(
            mapping,
            row_index,
            DiagnosticCode::TimestampOutOfRange,
            MessageOf::TimestampOutOfRange { unit: unit_name.to_owned(), value: source_value },
        ),
    )
}

/// Converts an instant in 100 ns ticks from the Unix epoch to a SQL Server `datetime2(7)`.
pub fn mssql_datetime2_from_unix_epoch_100ns_ticks(
    mapping: &SchemaMapping,
    row_index: usize,
    ticks_from_unix_epoch: i128,
    unit_name: &str,
    source_value: i64,
) -> (result: Result<MssqlDateTime2>)
    ensures
        outcome(result) == datetime2_outcome(
            mapping@,
            row_index,
            ticks_from_unix_epoch,
            unit_name@,
            source_value,
        ),
{
    let days_from_unix_epoch: i128 = floor_div(ticks_from_unix_epoch, TICKS_PER_DAY);
    let ticks_since_midnight: i128 = floor_mod(ticks_from_unix_epoch, TICKS_PER_DAY);
    let days: i128 = days_from_unix_epoch + UNIX_EPOCH_DAYS as i128;
    if days < 0 || days > MAX_DATE_DAYS as i128 {
        return Err(timestamp_out_of_range(mapping, row_index, unit_name, source_value));
    }
    Ok(
        MssqlDateTime2::new(
            MssqlDate::new(days as u32),
            MssqlTime::new(ticks_since_midnight as u64, TICK_SCALE),
        ),
    )
}

/// Converts an Arrow second timestamp to a SQL Server `datetime2(7)`.
pub fn mssql_datetime2_from_arrow_timestamp_second(
    mapping: &SchemaMapping,
    row_index: usize,
    seconds_from_unix_epoch: i64,
) -> (result: Result<MssqlDateTime2>)
    ensures
        outcome(result) == datetime2_outcome(
            mapping@,
            row_index,
            (seconds_from_unix_epoch * TICKS_PER_SECOND) as i128,
            "second"@,
            seconds_from_unix_epoch,
        ),
{
    let ticks: i128 = seconds_from_unix_epoch as i128 * TICKS_PER_SECOND;
    mssql_datetime2_from_unix_epoch_100ns_ticks(
        mapping,
        row_index,
        ticks,
        "second",
        seconds_from_unix_epoch,
    )
}

/// Converts an Arrow millisecond timestamp to a SQL Server `datetime2(7)`.
pub fn mssql_datetime2_from_arrow_timestamp_millisecond(
    mapping: &SchemaMapping,
    row_index: usize,
    milliseconds_from_unix_epoch: i64,
) -> (result: Result<MssqlDateTime2>)
    ensures
        outcome(result) == datetime2_outcome(
            mapping@,
            row_index,
            (milliseconds_from_unix_epoch * TICKS_PER_MILLISECOND) as i128,
            "millisecond"@,
            milliseconds_from_unix_epoch,
        ),
{
    let ticks: i128 = milliseconds_from_unix_epoch as i128 * TICKS_PER_MILLISECOND;
    mssql_datetime2_from_unix_epoch_100ns_ticks(
        mapping,
        row_index,
        ticks,
        "millisecond",
        milliseconds_from_unix_epoch,
    )
}

/// Converts an Arrow microsecond timestamp to a SQL Server `datetime2(7)`.
pub fn mssql_datetime2_from_arrow_timestamp_microsecond(
    mapping: &SchemaMapping,
    row_index: usize,
    microseconds_from_unix_epoch: i64,
) -> (result: Result<MssqlDateTime2>)
    ensures
        outcome(result) == datetime2_outcome(
            mapping@,
            row_index,
            (microseconds_from_unix_epoch * TICKS_PER_MICROSECOND) as i128,
            "microsecond"@,
            microseconds_from_unix_epoch,
        ),
{
    let ticks: i128 = microseconds_from_unix_epoch as i128 * TICKS_PER_MICROSECOND;
    mssql_datetime2_from_unix_epoch_100ns_ticks(
        mapping,
        row_index,
        ticks,
        "microsecond",
        microseconds_from_unix_epoch,
    )
}

/// The `datetime2(7)` of an Arrow nanosecond timestamp.
pub open spec fn nanosecond_datetime2_outcome(
    mapping: SchemaMappingView,
    row_index: usize,
    nanoseconds: i64,
    policy: NanosecondPolicy,
) -> core::result::Result<MssqlDateTime2, ErrorView> {
    match nanosecond_ticks_outcome(mapping, row_index, nanoseconds, policy) {
        Ok(ticks) => datetime2_outcome(mapping, row_index, ticks, "nanosecond"@, nanoseconds),
        Err(error) => Err(error),
    }
}

/// Converts an Arrow nanosecond timestamp to a SQL Server `datetime2(7)` under a policy.
pub fn mssql_datetime2_from_arrow_timestamp_nanosecond(
    mapping: &SchemaMapping,
    row_index: usize,
    nanoseconds_from_unix_epoch: i64,
    policy: NanosecondPolicy,
) -> (result: Result<MssqlDateTime2>)
    ensures
        outcome(result) == nanosecond_datetime2_outcome(
            mapping@,
            row_index,
            nanoseconds_from_unix_epoch,
            policy,
        ),
{
    match nanoseconds_to_100ns_ticks(mapping, row_index, nanoseconds_from_unix_epoch, policy) {
        Ok(ticks) => mssql_datetime2_from_unix_epoch_100ns_ticks(
            mapping,
            row_index,
            ticks,
            "nanosecond",
            nanoseconds_from_unix_epoch,
        ),
        Err(error) => Err(error),
    }
}

/// The `datetimeoffset(7)` of an instant: its local date and time, and the offset.
pub open spec fn datetimeoffset_outcome(
    mapping: SchemaMappingView,
    row_index: usize,
    utc_ticks: i128,
    offset_minutes: i16,
    unit: Seq<char>,
    value: i64,
) -> core::result::Result<MssqlDateTimeOffset, ErrorView> {
    let local_ticks = utc_ticks + offset_minutes * TICKS_PER_MINUTE;
    if i128::MIN <= local_ticks <= i128::MAX {
        match datetime2_outcome(mapping, row_index, local_ticks as i128, unit, value) {
            Ok(datetime2) => Ok(MssqlDateTimeOffset { datetime2, offset_minutes }),
            Err(error) => Err(error),
        }
    } else {
        Err(
            row_error(
                mapping,
                row_index,
                DiagnosticCode::TimestampOutOfRange,
                MessageOf::OffsetOverflow { unit, value, offset_minutes },
            ),
        )
    }
}

/// Converts an instant in 100 ns ticks to a `datetimeoffset(7)` of its local date and time.
pub fn mssql_datetimeoffset_from_utc_100ns_ticks(
    mapping: &SchemaMapping,
    row_index: usize,
    utc_ticks_from_unix_epoch: i128,
    offset_minutes: i16,
    unit_name: &str,
    source_value: i64,
) -> (result: Result<MssqlDateTimeOffset>)
    ensures
        outcome(result) == datetimeoffset_outcome(
            mapping@,
            row_index,
            utc_ticks_from_unix_epoch,
            offset_minutes,
            unit_name@,
            source_value,
        ),
{
    let offset_ticks: i128 = offset_minutes as i128 * TICKS_PER_MINUTE;
    match utc_ticks_from_unix_epoch.checked_add(offset_ticks) {
        Some(local_ticks) => match mssql_datetime2_from_unix_epoch_100ns_ticks(
            mapping,
            row_index,
            local_ticks,
            unit_name,
            source_value,
        ) {
            Ok(datetime2) => Ok(MssqlDateTimeOffset::new(datetime2, offset_minutes)),
            Err(error) => Err(error),
        },
        None => Err(
            value_conversion_error(
                row_mapping_diagnostic(
                    mapping,
                    row_index,
                    DiagnosticCode::TimestampOutOfRange,
                    MessageOf::OffsetOverflow {
                        unit: unit_name.to_owned(),
                        value: source_value,
                        offset_minutes,
                    },
                ),
            ),
        ),
    }
}

/// The seconds and nanoseconds of an instant, where the nanoseconds fit 32 bits.
pub open spec fn epoch_parts_outcome(
    mapping: SchemaMappingView,
    row_index: usize,
    seconds: i64,
    nanoseconds: i64,
) -> core::result::Result<(i64, u32), ErrorView> {
    if 0 <= nanoseconds <= u32::MAX {
        Ok((seconds, nanoseconds as u32))
    } else {
        Err(
            row_fault(
                mapping,
                row_index,
                DiagnosticCode::TimestampOutOfRange,
                Fault::NanosecondsOutOfRange { nanoseconds },
            ),
        )
    }
}

/// Splits an Arrow millisecond timestamp into seconds and nanoseconds.
pub fn epoch_parts_from_milliseconds(
    mapping: &SchemaMapping,
    row_index: usize,
    milliseconds_from_unix_epoch: i64,
) -> (result: Result<(i64, u32)>)
    ensures
        result == Ok::<(i64, u32), crate::diagnostic::Error>(
            (
                (milliseconds_from_unix_epoch as int / 1_000) as i64,
                (milliseconds_from_unix_epoch as int % 1_000 * 1_000_000) as u32,
            ),
        ),
{
    let seconds: i128 = floor_div(milliseconds_from_unix_epoch as i128, 1_000);
    let nanoseconds: i128 = floor_mod(milliseconds_from_unix_epoch as i128, 1_000) * 1_000_000;
    epoch_parts(mapping, row_index, seconds as i64, nanoseconds as i64)
}

/// Splits an Arrow microsecond timestamp into seconds and nanoseconds.
pub fn epoch_parts_from_microseconds(
    mapping: &SchemaMapping,
    row_index: usize,
    microseconds_from_unix_epoch: i64,
) -> (result: Result<(i64, u32)>)
    ensures
        result == Ok::<(i64, u32), crate::diagnostic::Error>(
            (
                (microseconds_from_unix_epoch as int / 1_000_000) as i64,
                (microseconds_from_unix_epoch as int % 1_000_000 * 1_000) as u32,
            ),
        ),
{
    let seconds: i128 = floor_div(microseconds_from_unix_epoch as i128, 1_000_000);
    let nanoseconds: i128 = floor_mod(microseconds_from_unix_epoch as i128, 1_000_000) * 1_000;
    epoch_parts(mapping, row_index, seconds as i64, nanoseconds as i64)
}

/// Splits an Arrow nanosecond timestamp into seconds and nanoseconds.
pub fn epoch_parts_from_nanoseconds(
    mapping: &SchemaMapping,
    row_index: usize,
    nanoseconds_from_unix_epoch: i64,
) -> (result: Result<(i64, u32)>)
    ensures
        result == Ok::<(i64, u32), crate::diagnostic::Error>(
            (
                (nanoseconds_from_unix_epoch as int / 1_000_000_000) as i64,
                (nanoseconds_from_unix_epoch as int % 1_000_000_000) as u32,
            ),
        ),
{
    let seconds: i128 = floor_div(nanoseconds_from_unix_epoch as i128, 1_000_000_000);
    let nanoseconds: i128 = floor_mod(nanoseconds_from_unix_epoch as i128, 1_000_000_000);
    epoch_parts(mapping, row_index, seconds as i64, nanoseconds as i64)
}

/// Pairs seconds with nanoseconds that must fit 32 bits.
pub fn epoch_parts(
    mapping: &SchemaMapping,
    row_index: usize,
    seconds_from_unix_epoch: i64,
    nanoseconds: i64,
) -> (result: Result<(i64, u32)>)
    ensures
        outcome(result) == epoch_parts_outcome(
            mapping@,
            row_index,
            seconds_from_unix_epoch,
            nanoseconds,
        ),
{
    if nanoseconds < 0 || nanoseconds > u32::MAX as i64 {
        return Err(
            row_mapping_fault(
                mapping,
                row_index,
                DiagnosticCode::TimestampOutOfRange,
                Fault::NanosecondsOutOfRange { nanoseconds },
            ),
        );
    }
    Ok((seconds_from_unix_epoch, nanoseconds as u32))
}

/// The ticks of a timestamp from the Unix epoch.
pub open spec fn timestamp_ticks_outcome(
    mapping: SchemaMappingView,
    row_index: usize,
    unit: TimeUnit,
    value: i64,
    policy: NanosecondPolicy,
) -> core::result::Result<i128, ErrorView> {
    match unit {
        TimeUnit::Second => Ok((value * TICKS_PER_SECOND) as i128),
        TimeUnit::Millisecond => Ok((value * TICKS_PER_MILLISECOND) as i128),
        TimeUnit::Microsecond => Ok((value * TICKS_PER_MICROSECOND) as i128),
        TimeUnit::Nanosecond => nanosecond_ticks_outcome(mapping, row_index, value, policy),
    }
}

/// Converts a timestamp to 100 ns ticks from the Unix epoch.
pub fn timestamp_ticks(
    mapping: &SchemaMapping,
    row_index: usize,
    unit: TimeUnit,
    value: i64,
    policy: NanosecondPolicy,
) -> (result: Result<i128>)
    ensures
        outcome(result) == timestamp_ticks_outcome(mapping@, row_index, unit, value, policy),
        result is Ok ==> ticks_in_range(result->Ok_0 as int),
{
    match unit {
        TimeUnit::Second => Ok(value as i128 * TICKS_PER_SECOND),
        TimeUnit::Millisecond => Ok(value as i128 * TICKS_PER_MILLISECOND),
        TimeUnit::Microsecond => Ok(value as i128 * TICKS_PER_MICROSECOND),
        TimeUnit::Nanosecond => nanoseconds_to_100ns_ticks(mapping, row_index, value, policy),
    }
}

/// Whether a number of ticks can stand for a timestamp of 64 bits in some unit.
pub open spec fn ticks_in_range(ticks: int) -> bool {
    i64::MIN * TICKS_PER_SECOND <= ticks <= i64::MAX * TICKS_PER_SECOND
}

/// The ticks of one increment of a time with a number of fractional-second digits.
pub open spec fn increment_ticks(precision: u8) -> int {
    match precision {
        0 => 10_000_000,
        1 => 1_000_000,
        2 => 100_000,
        3 => 10_000,
        4 => 1_000,
        5 => 100,
        6 => 10,
        _ => 1,
    }
}

/// The `datetime2` of an instant, rounded to the nearest increment of its precision with half an
/// increment upwards, where there is one.
pub open spec fn datetime2_at_precision(ticks: int, precision: u8) -> Option<MssqlDateTime2> {
    let unit = increment_ticks(precision);
    let increments = (ticks + unit / 2) / unit;
    let increments_per_day = TICKS_PER_DAY as int / unit;
    match date_of_unix_day(increments / increments_per_day) {
        Some(date) => Some(
            MssqlDateTime2 {
                date,
                time: MssqlTime {
                    increments: (increments % increments_per_day) as u64,
                    scale: precision,
                },
            },
        ),
        None => None,
    }
}

/// The `datetime2` of a timestamp at a precision.
pub open spec fn rounded_datetime2_outcome(
    mapping: SchemaMappingView,
    row_index: usize,
    unit: TimeUnit,
    value: i64,
    policy: NanosecondPolicy,
    precision: u8,
) -> core::result::Result<MssqlDateTime2, ErrorView> {
    match timestamp_ticks_outcome(mapping, row_index, unit, value, policy) {
        Ok(ticks) => match datetime2_at_precision(ticks as int, precision) {
            Some(datetime2) => Ok(datetime2),
            None => Err(timestamp_range_error(mapping, row_index, unit_text(unit), value)),
        },
        Err(error) => Err(error),
    }
}

/// Converts a timestamp to a SQL Server `datetime2` of a precision of at most 7 digits.
pub fn mssql_datetime2_at_precision(
    mapping: &SchemaMapping,
    row_index: usize,
    unit: TimeUnit,
    value: i64,
    policy: NanosecondPolicy,
    precision: u8,
) -> (result: Result<MssqlDateTime2>)
    requires
        precision <= TICK_SCALE,
    ensures
        outcome(result) == rounded_datetime2_outcome(
            mapping@,
            row_index,
            unit,
            value,
            policy,
            precision,
        ),
{
    let ticks: i128 = match timestamp_ticks(mapping, row_index, unit, value, policy) {
        Ok(ticks) => ticks,
        Err(error) => {
            return Err(error);
        },
    };
    let increment: i128 = match precision {
        0 => 10_000_000,
        1 => 1_000_000,
        2 => 100_000,
        3 => 10_000,
        4 => 1_000,
        5 => 100,
        6 => 10,
        _ => 1,
    };
    let increments: i128 = floor_div(ticks + increment / 2, increment);
    let increments_per_day: i128 = TICKS_PER_DAY / increment;
    proof {
        lemma_increments_in_range(ticks as int, precision);
    }
    let days_from_unix_epoch: i128 = floor_div(increments, increments_per_day);
    let increments_since_midnight: i128 = floor_mod(increments, increments_per_day);
    let days: i128 = days_from_unix_epoch + UNIX_EPOCH_DAYS as i128;
    if days < 0 || days > MAX_DATE_DAYS as i128 {
        return Err(timestamp_out_of_range(mapping, row_index, unit_name(unit), value));
    }
    Ok(
        MssqlDateTime2::new(
            MssqlDate::new(days as u32),
            MssqlTime::new(increments_since_midnight as u64, precision),
        ),
    )
}

/// Increments of a timestamp, and the days that they make up, stay within bounds.
proof fn lemma_increments_in_range(ticks: int, precision: u8)
    requires
        ticks_in_range(ticks),
    ensures
        ({
            let unit = increment_ticks(precision);
            let increments = (ticks + unit / 2) / unit;
            let increments_per_day = TICKS_PER_DAY as int / unit;
            &&& 86_400 <= increments_per_day <= TICKS_PER_DAY
            &&& increments_per_day * unit == TICKS_PER_DAY
            &&& -0x2000_0000_0000_0000_0000_0000int < increments
                < 0x2000_0000_0000_0000_0000_0000int
            &&& -0x2000_0000_0000_0000_0000_0000int < increments / increments_per_day
                < 0x2000_0000_0000_0000_0000_0000int
        }),
{
    let unit = increment_ticks(precision);
    let increments = (ticks + unit / 2) / unit;
    lemma_increments_per_day(precision);
    lemma_quotient_bounds(ticks + unit / 2, unit, 0x1000_0000_0000_0000_0000_0000int);
    lemma_quotient_bounds(
        increments,
        TICKS_PER_DAY as int / unit,
        0x1000_0000_0000_0000_0000_0000int,
    );
}

/// Increments divide the day.
proof fn lemma_increments_per_day(precision: u8)
    ensures
        ({
            let unit = increment_ticks(precision);
            let increments_per_day = TICKS_PER_DAY as int / unit;
            &&& unit == 1 || unit == 2 * (unit / 2)
            &&& 1 <= unit <= TICKS_PER_SECOND
            &&& 86_400 <= increments_per_day <= TICKS_PER_DAY
            &&& increments_per_day * unit == TICKS_PER_DAY
        }),
{
    let unit = increment_ticks(precision);
    if unit == 1 {
        assert(TICKS_PER_DAY as int / 1 == TICKS_PER_DAY);
    } else if unit == 10 {
        assert(TICKS_PER_DAY as int / 10 == 86_400_000_000);
    } else if unit == 100 {
        assert(TICKS_PER_DAY as int / 100 == 8_640_000_000);
    } else if unit == 1_000 {
        assert(TICKS_PER_DAY as int / 1_000 == 864_000_000);
    } else if unit == 10_000 {
        assert(TICKS_PER_DAY as int / 10_000 == 86_400_000);
    } else if unit == 100_000 {
        assert(TICKS_PER_DAY as int / 100_000 == 8_640_000);
    } else if unit == 1_000_000 {
        assert(TICKS_PER_DAY as int / 1_000_000 == 864_000);
    } else {
        assert(TICKS_PER_DAY as int / 10_000_000 == 86_400);
    }
}

/// A quotient by a positive number stays within the bounds of the dividend.
proof fn lemma_quotient_bounds(dividend: int, divisor: int, bound: int)
    by (nonlinear_arith)
    requires
        divisor >= 1,
        -bound <= dividend <= bound,
    ensures
        -bound <= dividend / divisor <= bound,
{
}

/// The `datetime` of an instant, rounded to the nearest 1/300 second with half of one upwards,
/// where there is one.
pub open spec fn datetime_of_ticks(ticks: int) -> Option<MssqlDateTime> {
    let fragments = (ticks * 3 + 50_000) / 100_000;
    let days = fragments / DATETIME_FRAGMENTS_PER_DAY as int + DATETIME_UNIX_EPOCH_DAYS;
    if DATETIME_MIN_DAYS <= days <= DATETIME_MAX_DAYS {
        Some(
            MssqlDateTime {
                days: days as i32,
                seconds_fragments: (fragments % DATETIME_FRAGMENTS_PER_DAY as int) as u32,
            },
        )
    } else {
        None
    }
}

/// The `datetime` of a timestamp.
pub open spec fn datetime_outcome(
    mapping: SchemaMappingView,
    row_index: usize,
    unit: TimeUnit,
    value: i64,
    policy: NanosecondPolicy,
) -> core::result::Result<MssqlDateTime, ErrorView> {
    match timestamp_ticks_outcome(mapping, row_index, unit, value, policy) {
        Ok(ticks) => match datetime_of_ticks(ticks as int) {
            Some(datetime) => Ok(datetime),
            None => Err(
                row_fault(
                    mapping,
                    row_index,
                    DiagnosticCode::TimestampOutOfRange,
                    Fault::DateTimeOutOfRange { value },
                ),
            ),
        },
        Err(error) => Err(error),
    }
}

/// Converts a timestamp to a SQL Server `datetime`.
pub fn mssql_datetime_from_arrow_timestamp(
    mapping: &SchemaMapping,
    row_index: usize,
    unit: TimeUnit,
    value: i64,
    policy: NanosecondPolicy,
) -> (result: Result<MssqlDateTime>)
    ensures
        outcome(result) == datetime_outcome(mapping@, row_index, unit, value, policy),
{
    let ticks: i128 = match timestamp_ticks(mapping, row_index, unit, value, policy) {
        Ok(ticks) => ticks,
        Err(error) => {
            return Err(error);
        },
    };
    let fragments: i128 = floor_div(ticks * 3 + 50_000, 100_000);
    let days: i128 = floor_div(fragments, DATETIME_FRAGMENTS_PER_DAY) + DATETIME_UNIX_EPOCH_DAYS;
    let fragments_since_midnight: i128 = floor_mod(fragments, DATETIME_FRAGMENTS_PER_DAY);
    if days < DATETIME_MIN_DAYS || days > DATETIME_MAX_DAYS {
        return Err(
            row_mapping_fault(
                mapping,
                row_index,
                DiagnosticCode::TimestampOutOfRange,
                Fault::DateTimeOutOfRange { value },
            ),
        );
    }
    Ok(MssqlDateTime::new(days as i32, fragments_since_midnight as u32))
}

/// The increments and the scale of a time of day, where it lies within one day.
pub open spec fn time_of_day(unit: TimeUnit, increments: int) -> Option<MssqlTime> {
    let (per_day, scale) = match unit {
        TimeUnit::Second => (86_400int, 0u8),
        TimeUnit::Millisecond => (86_400_000int, 3u8),
        TimeUnit::Microsecond => (86_400_000_000int, 6u8),
        TimeUnit::Nanosecond => (TICKS_PER_DAY as int, TICK_SCALE),
    };
    if 0 <= increments < per_day {
        Some(MssqlTime { increments: increments as u64, scale })
    } else {
        None
    }
}

/// The `time` of an Arrow time of day: nanoseconds become ticks, other units stay as they are.
pub open spec fn time_outcome(
    mapping: SchemaMappingView,
    row_index: usize,
    unit: TimeUnit,
    value: i64,
    policy: NanosecondPolicy,
) -> core::result::Result<MssqlTime, ErrorView> {
    let increments = match unit {
        TimeUnit::Nanosecond => nanosecond_ticks_outcome(mapping, row_index, value, policy),
        _ => Ok(value as i128),
    };
    match increments {
        Ok(increments) => match time_of_day(unit, increments as int) {
            Some(time) => Ok(time),
            None => Err(
                row_fault(
                    mapping,
                    row_index,
                    DiagnosticCode::TimestampOutOfRange,
                    Fault::TimeOutOfRange { value },
                ),
            ),
        },
        Err(error) => Err(error),
    }
}

/// Converts an Arrow time of day to a SQL Server `time`.
pub fn mssql_time_from_arrow_time(
    mapping: &SchemaMapping,
    row_index: usize,
    unit: TimeUnit,
    value: i64,
    policy: NanosecondPolicy,
) -> (result: Result<MssqlTime>)
    ensures
        outcome(result) == time_outcome(mapping@, row_index, unit, value, policy),
{
    let increments: i128 = match unit {
        TimeUnit::Nanosecond => match nanoseconds_to_100ns_ticks(
            mapping,
            row_index,
            value,
            policy,
        ) {
            Ok(ticks) => ticks,
            Err(error) => {
                return Err(error);
            },
        },
        _ => value as i128,
    };
    let (increments_per_day, scale): (i128, u8) = match unit {
        TimeUnit::Second => (86_400, 0),
        TimeUnit::Millisecond => (86_400_000, 3),
        TimeUnit::Microsecond => (86_400_000_000, 6),
        TimeUnit::Nanosecond => (TICKS_PER_DAY, TICK_SCALE),
    };
    if increments < 0 || increments >= increments_per_day {
        return Err(
            row_mapping_fault(
                mapping,
                row_index,
                DiagnosticCode::TimestampOutOfRange,
                Fault::TimeOutOfRange { value },
            ),
        );
    }
    Ok(MssqlTime::new(increments as u64, scale))
}

/// The instant of a `datetime2(7)` in ticks from the Unix epoch.
pub open spec fn datetime2_ticks(datetime2: MssqlDateTime2) -> int {
    (datetime2.date.days - UNIX_EPOCH_DAYS) * TICKS_PER_DAY + datetime2.time.increments
}

/// The `datetimeoffset(7)` whose date and time are UTC, of one whose date and time are local.
pub open spec fn utc_datetimeoffset_outcome(
    mapping: SchemaMappingView,
    row_index: usize,
    local: MssqlDateTimeOffset,
    unit: Seq<char>,
    value: i64,
) -> core::result::Result<MssqlDateTimeOffset, ErrorView> {
    match datetime2_of_ticks(
        datetime2_ticks(local.datetime2) - local.offset_minutes * TICKS_PER_MINUTE,
    ) {
        Some(datetime2) => Ok(
            MssqlDateTimeOffset { datetime2, offset_minutes: local.offset_minutes },
        ),
        None => Err(timestamp_range_error(mapping, row_index, unit, value)),
    }
}

/// Moves the date and time of a `datetimeoffset(7)` from local time to UTC.
pub fn mssql_datetimeoffset_in_utc(
    mapping: &SchemaMapping,
    row_index: usize,
    local: MssqlDateTimeOffset,
    unit_name: &str,
    source_value: i64,
) -> (result: Result<MssqlDateTimeOffset>)
    ensures
        outcome(result) == utc_datetimeoffset_outcome(
            mapping@,
            row_index,
            local,
            unit_name@,
            source_value,
        ),
{
    let local_ticks: i128 = (local.datetime2().date().days() as i128 - UNIX_EPOCH_DAYS as i128)
        * TICKS_PER_DAY + local.datetime2().time().increments() as i128;
    let utc_ticks: i128 = local_ticks - local.offset_minutes() as i128 * TICKS_PER_MINUTE;
    match mssql_datetime2_from_unix_epoch_100ns_ticks(
        mapping,
        row_index,
        utc_ticks,
        unit_name,
        source_value,
    ) {
        Ok(datetime2) => Ok(MssqlDateTimeOffset::new(datetime2, local.offset_minutes())),
        Err(error) => Err(error),
    }
}

/// A `datetime2(7)` keeps its instant exactly.
pub proof fn law_datetime2_keeps_instant(ticks: int)
    ensures
        datetime2_of_ticks(ticks) matches Some(datetime2) ==> datetime2_ticks(datetime2) == ticks
            && datetime2.time.increments < TICKS_PER_DAY,
        datetime2_at_precision(ticks, TICK_SCALE) == datetime2_of_ticks(ticks),
{
}

/// A `datetime2` of any precision is within half an increment of its instant.
pub proof fn law_precision_rounds_to_nearest(ticks: int, precision: u8)
    ensures
        datetime2_at_precision(ticks, precision) matches Some(datetime2) ==> {
            let rounded = (datetime2.date.days - UNIX_EPOCH_DAYS) * TICKS_PER_DAY
                + datetime2.time.increments * increment_ticks(precision);
            &&& 2 * (rounded - ticks) <= increment_ticks(precision)
            &&& 2 * (ticks - rounded) < increment_ticks(precision) || rounded == ticks
            &&& datetime2.time.increments * increment_ticks(precision) < TICKS_PER_DAY
        },
{
    let unit = increment_ticks(precision);
    let per_day = TICKS_PER_DAY as int / unit;
    let total = (ticks + unit / 2) / unit;
    let days = total / per_day;
    let rest = total % per_day;
    lemma_increments_per_day(precision);
    lemma_fundamental_div_mod(ticks + unit / 2, unit);
    lemma_mod_bound(ticks + unit / 2, unit);
    lemma_fundamental_div_mod(total, per_day);
    lemma_mod_bound(total, per_day);
    assert(days * (per_day * unit) + rest * unit == unit * total) by (nonlinear_arith)
        requires
            total == per_day * days + rest,
    ;
    assert(0 <= rest * unit < per_day * unit) by (nonlinear_arith)
        requires
            0 <= rest < per_day,
            1 <= unit,
    ;
}

/// A `datetime` is within half of 1/300 second of its instant.
pub proof fn law_datetime_rounds_to_nearest(ticks: int)
    ensures
        datetime_of_ticks(ticks) matches Some(datetime) ==> {
            let fragments = (datetime.days - DATETIME_UNIX_EPOCH_DAYS) * DATETIME_FRAGMENTS_PER_DAY
                + datetime.seconds_fragments;
            &&& -50_000 <= ticks * 3 - fragments * 100_000 < 50_000
            &&& datetime.seconds_fragments < DATETIME_FRAGMENTS_PER_DAY
        },
{
}

/// Whole ticks are the same under every nanosecond policy.
pub proof fn law_whole_ticks_need_no_policy(
    nanoseconds: int,
    one: NanosecondPolicy,
    other: NanosecondPolicy,
)
    requires
        nanoseconds % 100 == 0,
    ensures
        nanosecond_ticks(nanoseconds, one) == nanosecond_ticks(nanoseconds, other),
        nanosecond_ticks(nanoseconds, one) == Some(nanoseconds / 100),
{
}

/// No policy moves a timestamp by a whole tick, and truncating never moves it forward.
pub proof fn law_policies_keep_nearest_ticks(nanoseconds: int, policy: NanosecondPolicy)
    ensures
        nanosecond_ticks(nanoseconds, policy) matches Some(ticks) ==> -100 < ticks * 100
            - nanoseconds <= 50,
        nanosecond_ticks(nanoseconds, NanosecondPolicy::TruncateTo100ns)->0 * 100 <= nanoseconds,
{
}

/// The local and the UTC form of a `datetimeoffset(7)` stand for the same instant.
pub proof fn law_datetimeoffset_forms_agree(
    mapping: SchemaMappingView,
    row_index: usize,
    utc_ticks: i128,
    offset_minutes: i16,
    unit: Seq<char>,
    value: i64,
)
    ensures
        datetimeoffset_outcome(mapping, row_index, utc_ticks, offset_minutes, unit, value) matches
            Ok(local) ==> {
            &&& datetime2_ticks(local.datetime2) == utc_ticks + offset_minutes * TICKS_PER_MINUTE
            &&& utc_datetimeoffset_outcome(mapping, row_index, local, unit, value)
                == match datetime2_of_ticks(utc_ticks as int) {
                Some(datetime2) => Ok(MssqlDateTimeOffset { datetime2, offset_minutes }),
                None => Err(timestamp_range_error(mapping, row_index, unit, value)),
            }
        },
{
}

} // verus!
