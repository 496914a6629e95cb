//! Resolution of Arrow timestamp timezones to SQL Server offsets.

use vstd::prelude::*;
use vstd::string::StringSliceAdditionalSpecFns;
use vstd::utf8::encode_utf8;

use crate::diagnostic::{outcome, DiagnosticCode, ErrorView, Result};
use crate::mapping::{SchemaMapping, SchemaMappingView};
use crate::message::Fault;
use crate::value_error::{
    row_fault, timezone_error, timezone_instant_error, unsupported_timezone_error,
    unsupported_timezone_offset_error,
};

verus! {

/// SQL Server accepts datetimeoffset offsets from -14:00 through +14:00.
pub const MAX_OFFSET_MINUTES: i16 = 840;

/// ASCII `+`.
pub const PLUS: u8 = 0x2B;

/// ASCII `-`.
pub const MINUS: u8 = 0x2D;

/// ASCII `:`.
pub const COLON: u8 = 0x3A;

/// ASCII `0`.
pub const DIGIT_ZERO: u8 = 0x30;

/// ASCII `9`.
pub const DIGIT_NINE: u8 = 0x39;

/// ASCII `C`.
pub const UPPER_C: u8 = 0x43;

/// ASCII `T`.
pub const UPPER_T: u8 = 0x54;

/// ASCII `U`.
pub const UPPER_U: u8 = 0x55;

/// ASCII `Z`.
pub const UPPER_Z: u8 = 0x5A;

/// ASCII `c`.
pub const LOWER_C: u8 = 0x63;

/// ASCII `t`.
pub const LOWER_T: u8 = 0x74;

/// ASCII `u`.
pub const LOWER_U: u8 = 0x75;

/// ASCII `z`.
pub const LOWER_Z: u8 = 0x7A;

/// Whether a name is one that Arrow resolves to a timezone.
pub uninterp spec fn is_arrow_timezone(name: Seq<char>) -> bool;

/// The seconds by which a timezone is ahead of UTC at an instant, if chrono can represent the
/// instant.
pub uninterp spec fn arrow_timezone_offset(
    name: Seq<char>,
    seconds: i64,
    nanoseconds: u32,
) -> Option<i32>;

/// Whether a name is one that Arrow resolves to a timezone.
///
/// Calls the `FromStr` of `arrow_array::timezone::Tz`. The contract only names the answer, which
/// depends on the name alone: the timezone database is compiled in.
#[verifier::external_body]
pub(crate) fn find_timezone(name: &str) -> (found: bool)
    ensures
        found == is_arrow_timezone(name@),
{
    name.parse::<arrow_array::timezone::Tz>().is_ok()
}

/// The seconds by which a timezone is ahead of UTC at an instant.
///
/// Calls `chrono::TimeZone::timestamp_opt` on an `arrow_array::timezone::Tz`, and takes the
/// offset of the date and time that it returns. The contract only names the answer, which depends
/// on the name and the instant alone; it is `None` for a name that is no timezone, too.
#[verifier::external_body]
pub(crate) fn find_offset(name: &str, seconds: i64, nanoseconds: u32) -> (offset: Option<i32>)
    ensures
        offset == arrow_timezone_offset(name@, seconds, nanoseconds),
{
    let timezone = name.parse::<arrow_array::timezone::Tz>().ok()?;
    let datetime = chrono::TimeZone::timestamp_opt(&timezone, seconds, nanoseconds).single()?;
    Some(chrono::Offset::fix(datetime.offset()).local_minus_utc())
}

/// Resolved timezone metadata, over the representation `S` of names.
///
/// Arrow timestamp timezone metadata can contain either a fixed offset or a
/// timezone database name. Fixed offsets are row-independent, while named
/// timezones need the row timestamp instant to account for historical and DST
/// offset rules.
#[derive(Debug, PartialEq, Eq)]
pub enum TimezoneResolutionOf<S> {
    /// The same offset at every instant.
    FixedOffset {
        /// Minutes from UTC.
        offset_minutes: i16,
    },
    /// The offset of a timezone at the instant.
    Named {
        /// Timezone name.
        timezone: S,
    },
}

/// Resolved timezone metadata for a planned Arrow timestamp column.
pub type TimezoneResolution = TimezoneResolutionOf<String>;

/// Resolved timezone metadata as contracts speak of it.
pub type TimezoneResolutionView = TimezoneResolutionOf<Seq<char>>;

impl View for TimezoneResolutionOf<String> {
    type V = TimezoneResolutionOf<Seq<char>>;

    open spec fn view(&self) -> TimezoneResolutionOf<Seq<char>> {
        match *self {
            TimezoneResolutionOf::FixedOffset { offset_minutes } => {
                TimezoneResolutionOf::FixedOffset { offset_minutes }
            },
            TimezoneResolutionOf::Named { timezone } => TimezoneResolutionOf::Named {
                timezone: timezone@,
            },
        }
    }
}

/// Whether bytes spell `Z` or `UTC` in any case.
pub open spec fn is_utc_spelling(bytes: Seq<u8>) -> bool {
    ||| bytes.len() == 1 && (bytes[0] == UPPER_Z || bytes[0] == LOWER_Z)
    ||| bytes.len() == 3 && (bytes[0] == UPPER_U || bytes[0] == LOWER_U) && (bytes[1] == UPPER_T
        || bytes[1] == LOWER_T) && (bytes[2] == UPPER_C || bytes[2] == LOWER_C)
}

/// Whether bytes start with a sign.
pub open spec fn has_sign(bytes: Seq<u8>) -> bool {
    bytes.len() > 0 && (bytes[0] == PLUS || bytes[0] == MINUS)
}

/// The digit bytes of an offset of the form `±HH`, `±HHMM` or `±HH:MM`: two of hours, then two of
/// minutes.
pub open spec fn offset_digits(bytes: Seq<u8>) -> Option<Seq<u8>> {
    if bytes.len() == 3 {
        Some(seq![bytes[1], bytes[2], DIGIT_ZERO, DIGIT_ZERO])
    } else if bytes.len() == 5 {
        Some(seq![bytes[1], bytes[2], bytes[3], bytes[4]])
    } else if bytes.len() == 6 && bytes[3] == COLON {
        Some(seq![bytes[1], bytes[2], bytes[4], bytes[5]])
    } else {
        None
    }
}

/// Whether four bytes are decimal digits.
pub open spec fn all_digits(digits: Seq<u8>) -> bool {
    forall|i: int| 0 <= i < 4 ==> DIGIT_ZERO <= #[trigger] digits[i] <= DIGIT_NINE
}

/// The hours that four digits spell.
pub open spec fn digit_hours(digits: Seq<u8>) -> int {
    (digits[0] - DIGIT_ZERO) * 10 + (digits[1] - DIGIT_ZERO)
}

/// The minutes that four digits spell.
pub open spec fn digit_minutes(digits: Seq<u8>) -> int {
    (digits[2] - DIGIT_ZERO) * 10 + (digits[3] - DIGIT_ZERO)
}

/// The offset in minutes that bytes with a sign spell, if it is one that SQL Server accepts.
pub open spec fn signed_offset_minutes(bytes: Seq<u8>) -> Option<i16> {
    match offset_digits(bytes) {
        Some(digits) => {
            let total = digit_hours(digits) * 60 + digit_minutes(digits);
            if all_digits(digits) && digit_minutes(digits) < 60 && total <= MAX_OFFSET_MINUTES {
                Some(
                    if bytes[0] == MINUS {
                        (-total) as i16
                    } else {
                        total as i16
                    },
                )
            } else {
                None
            }
        },
        None => None,
    }
}

/// What the spelling of an offset resolves to: nothing when it has no sign.
pub open spec fn fixed_offset_outcome(
    mapping: SchemaMappingView,
    row_index: usize,
    timezone: Seq<char>,
) -> Option<core::result::Result<i16, ErrorView>> {
    let bytes = encode_utf8(timezone);
    if !has_sign(bytes) {
        None
    } else {
        match signed_offset_minutes(bytes) {
            Some(minutes) => Some(Ok(minutes)),
            None => Some(Err(timezone_error(mapping, row_index, timezone))),
        }
    }
}

/// What timezone metadata resolves to, given whether Arrow knows it as a timezone name.
pub open spec fn resolution_outcome(
    mapping: SchemaMappingView,
    row_index: usize,
    timezone: Seq<char>,
    known: bool,
) -> core::result::Result<TimezoneResolutionView, ErrorView> {
    if is_utc_spelling(encode_utf8(timezone)) {
        Ok(TimezoneResolutionOf::FixedOffset { offset_minutes: 0 })
    } else {
        match fixed_offset_outcome(mapping, row_index, timezone) {
            Some(Ok(offset_minutes)) => Ok(TimezoneResolutionOf::FixedOffset { offset_minutes }),
            Some(Err(error)) => Err(error),
            None => if known {
                Ok(TimezoneResolutionOf::Named { timezone })
            } else {
                Err(timezone_error(mapping, row_index, timezone))
            },
        }
    }
}

/// The SQL Server offset of an offset in seconds: it must be whole minutes within 14 hours.
pub open spec fn offset_minutes_outcome(
    mapping: SchemaMappingView,
    row_index: usize,
    offset_seconds: i32,
) -> core::result::Result<i16, ErrorView> {
    if offset_seconds as int % 60 == 0 && -MAX_OFFSET_MINUTES <= offset_seconds as int / 60
        <= MAX_OFFSET_MINUTES {
        Ok((offset_seconds as int / 60) as i16)
    } else {
        Err(
            row_fault(
                mapping,
                row_index,
                DiagnosticCode::TimezoneUnsupported,
                Fault::OffsetUnrepresentable { seconds: offset_seconds },
            ),
        )
    }
}

/// The SQL Server offset that a timezone lookup at an instant gives.
pub open spec fn instant_offset_outcome(
    mapping: SchemaMappingView,
    row_index: usize,
    seconds: i64,
    found: Option<i32>,
) -> core::result::Result<i16, ErrorView> {
    match found {
        Some(offset_seconds) => offset_minutes_outcome(mapping, row_index, offset_seconds),
        None => Err(
            row_fault(
                mapping,
                row_index,
                DiagnosticCode::TimestampOutOfRange,
                Fault::InstantUnrepresentable { seconds },
            ),
        ),
    }
}

/// The SQL Server offset of resolved timezone metadata at an instant.
pub open spec fn offset_outcome(
    resolution: TimezoneResolutionView,
    mapping: SchemaMappingView,
    row_index: usize,
    seconds: i64,
    nanoseconds: u32,
) -> core::result::Result<i16, ErrorView> {
    match resolution {
        TimezoneResolutionOf::FixedOffset { offset_minutes } => Ok(offset_minutes),
        TimezoneResolutionOf::Named { timezone } => instant_offset_outcome(
            mapping,
            row_index,
            seconds,
            arrow_timezone_offset(timezone, seconds, nanoseconds),
        ),
    }
}

/// A resolution result as contracts speak of it.
pub open spec fn resolution_view(result: Result<TimezoneResolution>) -> core::result::Result<
    TimezoneResolutionView,
    ErrorView,
> {
    match result {
        Ok(resolution) => Ok(resolution@),
        Err(error) => Err(error@),
    }
}

impl TimezoneResolutionOf<String> {
    /// Returns the SQL Server offset for one timestamp instant.
    pub fn offset_for_instant(
        &self,
        mapping: &SchemaMapping,
        row_index: usize,
        seconds_from_unix_epoch: i64,
        nanoseconds: u32,
    ) -> (result: Result<i16>)
        ensures
            outcome(result) == offset_outcome(
                self@,
                mapping@,
                row_index,
                seconds_from_unix_epoch,
                nanoseconds,
            ),
    {
        match self {
            TimezoneResolutionOf::FixedOffset { offset_minutes } => Ok(*offset_minutes),
            TimezoneResolutionOf::Named { timezone } => instant_offset_minutes(
                mapping,
                row_index,
                seconds_from_unix_epoch,
                find_offset(timezone.as_str(), seconds_from_unix_epoch, nanoseconds),
            ),
        }
    }
}

/// Converts what a timezone lookup at an instant found to a SQL Server offset.
pub fn instant_offset_minutes(
    mapping: &SchemaMapping,
    row_index: usize,
    seconds_from_unix_epoch: i64,
    found: Option<i32>,
) -> (result: Result<i16>)
    ensures
        outcome(result) == instant_offset_outcome(
            mapping@,
            row_index,
            seconds_from_unix_epoch,
            found,
        ),
{
    match found {
        Some(offset_seconds) => sql_server_offset_minutes(mapping, row_index, offset_seconds),
        None => Err(timezone_instant_error(mapping, row_index, seconds_from_unix_epoch)),
    }
}

/// Resolves Arrow timestamp timezone metadata once for a planned column.
pub fn timezone_resolution_from_metadata(
    mapping: &SchemaMapping,
    row_index: usize,
    timezone: &str,
) -> (result: Result<TimezoneResolution>)
    ensures
        resolution_view(result) == resolution_outcome(
            mapping@,
            row_index,
            timezone@,
            is_arrow_timezone(timezone@),
        ),
{
    let known: bool = find_timezone(timezone);
    timezone_resolution_from_lookup(mapping, row_index, timezone, known)
}

/// Resolves timezone metadata, given whether it is a known timezone name.
///
/// `Z` and `UTC` are offset zero; what starts with a sign is a fixed offset or nothing; anything
/// else is a name.
pub fn timezone_resolution_from_lookup(
    mapping: &SchemaMapping,
    row_index: usize,
    timezone: &str,
    known: bool,
) -> (result: Result<TimezoneResolution>)
    ensures
        resolution_view(result) == resolution_outcome(mapping@, row_index, timezone@, known),
{
    if spells_utc(timezone) {
        return Ok(TimezoneResolutionOf::FixedOffset { offset_minutes: 0 });
    }
    match parse_sql_server_fixed_timezone_offset(mapping, row_index, timezone) {
        Some(Ok(offset_minutes)) => Ok(TimezoneResolutionOf::FixedOffset { offset_minutes }),
        Some(Err(error)) => Err(error),
        None => if known {
            Ok(TimezoneResolutionOf::Named { timezone: timezone.to_owned() })
        } else {
            Err(unsupported_timezone_error(mapping, row_index, timezone))
        },
    }
}

/// Returns true when a name spells `Z` or `UTC` in any case.
fn spells_utc(timezone: &str) -> (result: bool)
    ensures
        result == is_utc_spelling(encode_utf8(timezone@)),
{
    let bytes = timezone.as_bytes();
    if bytes.len() == 1 {
        bytes[0] == UPPER_Z || bytes[0] == LOWER_Z
    } else if bytes.len() == 3 {
        (bytes[0] == UPPER_U || bytes[0] == LOWER_U) && (bytes[1] == UPPER_T || bytes[1] == LOWER_T) && (
        bytes[2] == UPPER_C || bytes[2] == LOWER_C)
    } else {
        false
    }
}

/// Whether validating timezone metadata fails, and with which error: absent and empty metadata
/// name no timezone and pass.
pub open spec fn metadata_error(
    mapping: SchemaMappingView,
    row_index: usize,
    timezone: Option<Seq<char>>,
) -> Option<ErrorView> {
    match timezone {
        Some(timezone) => if timezone.len() == 0 {
            None
        } else {
            match resolution_outcome(mapping, row_index, timezone, is_arrow_timezone(timezone)) {
                Ok(_) => None,
                Err(error) => Some(error),
            }
        },
        None => None,
    }
}

/// Checks that timezone metadata, where there is any, can be resolved.
pub fn validate_timestamp_timezone_metadata(
    mapping: &SchemaMapping,
    row_index: usize,
    timezone: Option<&str>,
) -> (result: Result<()>)
    ensures
        outcome(result) == (match metadata_error(
            mapping@,
            row_index,
            crate::cell::optional_text(timezone),
        ) {
            Some(error) => Err(error),
            None => Ok(()),
        }),
{
    match timezone {
        Some(timezone) => {
            if timezone.is_empty() {
                return Ok(());
            }
            match timezone_resolution_from_metadata(mapping, row_index, timezone) {
                Ok(_) => Ok(()),
                Err(error) => Err(error),
            }
        },
        None => Ok(()),
    }
}

/// Converts an offset in seconds to the minutes of a SQL Server `datetimeoffset`.
pub fn sql_server_offset_minutes(
    mapping: &SchemaMapping,
    row_index: usize,
    offset_seconds: i32,
) -> (result: Result<i16>)
    ensures
        outcome(result) == offset_minutes_outcome(mapping@, row_index, offset_seconds),
{
    if offset_seconds < -50_400 || offset_seconds > 50_400 {
        return Err(unsupported_timezone_offset_error(mapping, row_index, offset_seconds));
    }
    let shifted: i32 = offset_seconds + 50_400;
    if shifted % 60 != 0 {
        return Err(unsupported_timezone_offset_error(mapping, row_index, offset_seconds));
    }
    let offset_minutes: i32 = shifted / 60 - 840;
    Ok(offset_minutes as i16)
}

/// A fixed-offset result as contracts speak of it.
pub open spec fn fixed_offset_view(result: Option<Result<i16>>) -> Option<
    core::result::Result<i16, ErrorView>,
> {
    match result {
        Some(result) => Some(outcome(result)),
        None => None,
    }
}

/// Parses a fixed offset of the form `±HH`, `±HHMM` or `±HH:MM`.
///
/// Returns `None` for a name without a sign. Some offset spellings that Arrow accepts, such as
/// `+12:60`, are errors here: SQL Server would not accept them.
pub fn parse_sql_server_fixed_timezone_offset(
    mapping: &SchemaMapping,
    row_index: usize,
    timezone: &str,
) -> (result: Option<Result<i16>>)
    ensures
        fixed_offset_view(result) == fixed_offset_outcome(mapping@, row_index, timezone@),
{
    let bytes = timezone.as_bytes();
    if bytes.len() == 0 || (bytes[0] != PLUS && bytes[0] != MINUS) {
        return None;
    }
    let digits: [u8; 4] = if bytes.len() == 3 {
        [bytes[1], bytes[2], DIGIT_ZERO, DIGIT_ZERO]
    } else if bytes.len() == 5 {
        [bytes[1], bytes[2], bytes[3], bytes[4]]
    } else if bytes.len() == 6 && bytes[3] == COLON {
        [bytes[1], bytes[2], bytes[4], bytes[5]]
    } else {
        return Some(Err(unsupported_timezone_error(mapping, row_index, timezone)));
    };
    assert(offset_digits(bytes@) =~= Some(digits@));
    let mut index: usize = 0;
    while index < 4
        invariant
            index <= 4,
            digits@.len() == 4,
            has_sign(bytes@),
            bytes@ == encode_utf8(timezone@),
            offset_digits(bytes@) == Some(digits@),
            forall|i: int| 0 <= i < index ==> DIGIT_ZERO <= #[trigger] digits@[i] <= DIGIT_NINE,
        decreases 4 - index,
    {
        if digits[index] < DIGIT_ZERO || digits[index] > DIGIT_NINE {
            assert(!all_digits(digits@));
            return Some(Err(unsupported_timezone_error(mapping, row_index, timezone)));
        }
        index += 1;
    }
    assert(all_digits(digits@));
    let hours: i16 = (digits[0] - DIGIT_ZERO) as i16 * 10 + (digits[1] - DIGIT_ZERO) as i16;
    let minutes: i16 = (digits[2] - DIGIT_ZERO) as i16 * 10 + (digits[3] - DIGIT_ZERO) as i16;
    if minutes >= 60 {
        return Some(Err(unsupported_timezone_error(mapping, row_index, timezone)));
    }
    let total_minutes: i16 = hours * 60 + minutes;
    if total_minutes > MAX_OFFSET_MINUTES {
        return Some(Err(unsupported_timezone_error(mapping, row_index, timezone)));
    }
    if bytes[0] == MINUS {
        Some(Ok(-total_minutes))
    } else {
        Some(Ok(total_minutes))
    }
}

/// Every offset that timezone metadata resolves to lies within the 14 hours that SQL Server
/// accepts, at every instant.
pub proof fn law_offsets_within_sql_server_range(
    mapping: SchemaMappingView,
    row_index: usize,
    timezone: Seq<char>,
    known: bool,
    seconds: i64,
    nanoseconds: u32,
)
    ensures
        resolution_outcome(mapping, row_index, timezone, known) matches Ok(resolution)
            ==> offset_outcome(resolution, mapping, row_index, seconds, nanoseconds) matches Ok(
            minutes,
        ) ==> -MAX_OFFSET_MINUTES <= minutes <= MAX_OFFSET_MINUTES,
{
}

/// A fixed offset is the same at every instant.
pub proof fn law_fixed_offset_ignores_instant(
    mapping: SchemaMappingView,
    row_index: usize,
    timezone: Seq<char>,
    known: bool,
    instant: (i64, u32),
    other: (i64, u32),
)
    requires
        resolution_outcome(mapping, row_index, timezone, known) matches Ok(
            TimezoneResolutionOf::FixedOffset { .. },
        ),
    ensures
        resolution_outcome(mapping, row_index, timezone, known) matches Ok(resolution)
            ==> offset_outcome(resolution, mapping, row_index, instant.0, instant.1)
            == offset_outcome(resolution, mapping, row_index, other.0, other.1),
{
}

} // verus!
