//! SQL Server date and time cells of a TDS row payload.

use vstd::prelude::*;

use crate::cell::{MssqlDateTime, MssqlDateTime2, MssqlDateTimeOffset, MssqlTime};
use crate::diagnostic::{invalid_payload, outcome, payload_error, Result};
use crate::direct::cell::{
    append_datetime2_cell_bytes, append_datetime_cell_bytes, append_datetimeoffset_cell_bytes,
    append_time_cell_bytes, date_bytes, datetime2_cell_bytes, datetime_cell_bytes,
    datetimeoffset_cell_bytes, time_bytes, time_cell_bytes, time_cell_width, time_width,
    twos_complement_16, twos_complement_32, DATETIME_LEN, DATE_LEN, OFFSET_LEN,
};
use crate::direct::wire::{
    byte_range, law_le_bytes_round_trip, le_bytes, le_value, lemma_le_bytes_len, write_bytes,
};
use crate::message::Fault;

verus! {

/// Largest number of fractional-second digits.
pub const MAX_TIME_SCALE: u8 = 7;

/// Days that three bytes cannot hold start here.
pub const DATE_RANGE: u32 = 0x100_0000;

/// Times of day that the bytes of their scale cannot hold start here.
pub open spec fn time_range(scale: u8) -> int {
    if scale <= 2 {
        0x100_0000
    } else if scale <= 4 {
        0x1_0000_0000
    } else {
        0x100_0000_0000
    }
}

/// The fault of a time of day that its cell cannot hold.
pub open spec fn time_fault(time: MssqlTime) -> Option<Fault> {
    if time.scale > MAX_TIME_SCALE {
        Some(Fault::TimeScale { scale: time.scale })
    } else if time.increments >= time_range(time.scale) {
        Some(Fault::TimeWidth { increments: time.increments, scale: time.scale })
    } else {
        None
    }
}

/// The fault of a date and time that its cell cannot hold.
pub open spec fn datetime2_fault(datetime2: MssqlDateTime2) -> Option<Fault> {
    match time_fault(datetime2.time) {
        Some(fault) => Some(fault),
        None => if datetime2.date.days >= DATE_RANGE {
            Some(Fault::DateWidth { days: datetime2.date.days })
        } else {
            None
        },
    }
}

/// The fault of a buffer that is not exactly as long as a cell.
pub open spec fn length_fault(len: nat, expected: nat) -> Option<Fault> {
    if len != expected {
        Some(Fault::TemporalLength { len: len as usize, expected: expected as usize })
    } else {
        None
    }
}

/// The fault of a value, or that of a buffer where the value has none.
pub open spec fn first_fault(value: Option<Fault>, buffer: Option<Fault>) -> Option<Fault> {
    match value {
        Some(fault) => Some(fault),
        None => buffer,
    }
}

/// Whether a cell was written, or the fault reported and the buffer left alone.
pub open spec fn is_written(
    result: Result<()>,
    before: Seq<u8>,
    after: Seq<u8>,
    fault: Option<Fault>,
    bytes: Seq<u8>,
) -> bool {
    match fault {
        Some(fault) => outcome(result) == Err::<(), _>(payload_error(fault)) && after == before,
        None => result is Ok && after == bytes,
    }
}

/// Checks that a cell can hold a time of day.
fn check_time(time: MssqlTime) -> (result: Option<Fault>)
    ensures
        result == time_fault(time),
{
    if time.scale() > MAX_TIME_SCALE {
        return Some(Fault::TimeScale { scale: time.scale() });
    }
    let range: u64 = if time.scale() <= 2 {
        0x100_0000
    } else if time.scale() <= 4 {
        0x1_0000_0000
    } else {
        0x100_0000_0000
    };
    if time.increments() >= range {
        return Some(Fault::TimeWidth { increments: time.increments(), scale: time.scale() });
    }
    None
}

/// Checks that a cell can hold a date and time.
fn check_datetime2(datetime2: MssqlDateTime2) -> (result: Option<Fault>)
    ensures
        result == datetime2_fault(datetime2),
{
    match check_time(datetime2.time()) {
        Some(fault) => Some(fault),
        None => if datetime2.date().days() >= DATE_RANGE {
            Some(Fault::DateWidth { days: datetime2.date().days() })
        } else {
            None
        },
    }
}

/// Copies a cell into a buffer of its length.
fn copy_cell(dst: &mut [u8], cell: &[u8])
    requires
        old(dst)@.len() == cell@.len(),
    ensures
        final(dst)@ == cell@,
{
    write_bytes(dst, 0, cell);
    assert(dst@ =~= cell@);
}

/// Writes a `time` cell into an exactly sized cell buffer.
pub fn write_time_cell(dst: &mut [u8], time: MssqlTime) -> (result: Result<()>)
    ensures
        is_written(
            result,
            old(dst)@,
            final(dst)@,
            first_fault(
                time_fault(time),
                length_fault(old(dst)@.len(), time_cell_bytes(time).len()),
            ),
            time_cell_bytes(time),
        ),
{
    match check_time(time) {
        Some(fault) => {
            return Err(invalid_payload(fault));
        },
        None => {},
    }
    proof {
        lemma_le_bytes_len(time.increments as nat, time_width(time.scale));
    }
    let expected: usize = 1 + time_cell_width(time.scale());
    if dst.len() != expected {
        return Err(invalid_payload(Fault::TemporalLength { len: dst.len(), expected }));
    }
    let mut cell: Vec<u8> = Vec::new();
    append_time_cell_bytes(&mut cell, time);
    assert(cell@ =~= time_cell_bytes(time));
    copy_cell(dst, cell.as_slice());
    Ok(())
}

/// Writes a `datetime` cell into an exactly sized cell buffer.
pub fn write_datetime_cell(dst: &mut [u8], datetime: MssqlDateTime) -> (result: Result<()>)
    ensures
        is_written(
            result,
            old(dst)@,
            final(dst)@,
            length_fault(old(dst)@.len(), datetime_cell_bytes(datetime).len()),
            datetime_cell_bytes(datetime),
        ),
{
    proof {
        lemma_le_bytes_len(twos_complement_32(datetime.days), 4);
        lemma_le_bytes_len(datetime.seconds_fragments as nat, 4);
    }
    let expected: usize = 1 + DATETIME_LEN;
    if dst.len() != expected {
        return Err(invalid_payload(Fault::TemporalLength { len: dst.len(), expected }));
    }
    let mut cell: Vec<u8> = Vec::new();
    append_datetime_cell_bytes(&mut cell, datetime);
    assert(cell@ =~= datetime_cell_bytes(datetime));
    copy_cell(dst, cell.as_slice());
    Ok(())
}

/// Writes a `datetime2` cell into an exactly sized cell buffer.
pub fn write_datetime2_cell(dst: &mut [u8], datetime2: MssqlDateTime2) -> (result: Result<()>)
    ensures
        is_written(
            result,
            old(dst)@,
            final(dst)@,
            first_fault(
                datetime2_fault(datetime2),
                length_fault(old(dst)@.len(), datetime2_cell_bytes(datetime2).len()),
            ),
            datetime2_cell_bytes(datetime2),
        ),
{
    match check_datetime2(datetime2) {
        Some(fault) => {
            return Err(invalid_payload(fault));
        },
        None => {},
    }
    proof {
        lemma_le_bytes_len(datetime2.time.increments as nat, time_width(datetime2.time.scale));
        lemma_le_bytes_len(datetime2.date.days as nat, 3);
    }
    let expected: usize = 1 + time_cell_width(datetime2.time().scale()) + DATE_LEN;
    if dst.len() != expected {
        return Err(invalid_payload(Fault::TemporalLength { len: dst.len(), expected }));
    }
    let mut cell: Vec<u8> = Vec::new();
    append_datetime2_cell_bytes(&mut cell, datetime2);
    assert(cell@ =~= datetime2_cell_bytes(datetime2));
    copy_cell(dst, cell.as_slice());
    Ok(())
}

/// Writes a `datetimeoffset` cell into an exactly sized cell buffer.
pub fn write_datetimeoffset_cell(dst: &mut [u8], datetimeoffset: MssqlDateTimeOffset) -> (result:
    Result<()>)
    ensures
        is_written(
            result,
            old(dst)@,
            final(dst)@,
            first_fault(
                datetime2_fault(datetimeoffset.datetime2),
                length_fault(old(dst)@.len(), datetimeoffset_cell_bytes(datetimeoffset).len()),
            ),
            datetimeoffset_cell_bytes(datetimeoffset),
        ),
{
    let datetime2 = datetimeoffset.datetime2();
    match check_datetime2(datetime2) {
        Some(fault) => {
            return Err(invalid_payload(fault));
        },
        None => {},
    }
    proof {
        lemma_le_bytes_len(datetime2.time.increments as nat, time_width(datetime2.time.scale));
        lemma_le_bytes_len(datetime2.date.days as nat, 3);
        lemma_le_bytes_len(twos_complement_16(datetimeoffset.offset_minutes), 2);
    }
    let expected: usize = 1 + time_cell_width(datetime2.time().scale()) + DATE_LEN + OFFSET_LEN;
    if dst.len() != expected {
        return Err(invalid_payload(Fault::TemporalLength { len: dst.len(), expected }));
    }
    let mut cell: Vec<u8> = Vec::new();
    append_datetimeoffset_cell_bytes(&mut cell, datetimeoffset);
    assert(cell@ =~= datetimeoffset_cell_bytes(datetimeoffset));
    copy_cell(dst, cell.as_slice());
    Ok(())
}

/// A time of day that its bytes can hold is read back from them.
pub proof fn law_time_bytes_round_trip(time: MssqlTime)
    requires
        time_fault(time) is None,
    ensures
        time_bytes(time).len() == time_width(time.scale),
        le_value(time_bytes(time)) == time.increments,
{
    reveal_with_fuel(byte_range, 6);
    law_le_bytes_round_trip(time.increments as nat, time_width(time.scale));
}

/// A `datetime2` cell holds its value: the length byte counts the bytes behind it, the time of day
/// is read back from the first of them and the date from the last three.
pub proof fn law_datetime2_cell_round_trip(datetime2: MssqlDateTime2)
    requires
        datetime2_fault(datetime2) is None,
    ensures
        ({
            let bytes = datetime2_cell_bytes(datetime2);
            let width = time_width(datetime2.time.scale) as int;
            &&& bytes.len() == 1 + bytes[0]
            &&& le_value(bytes.subrange(1, 1 + width)) == datetime2.time.increments
            &&& le_value(bytes.subrange(1 + width, bytes.len() as int)) == datetime2.date.days
        }),
{
    let bytes = datetime2_cell_bytes(datetime2);
    let width = time_width(datetime2.time.scale) as int;
    reveal_with_fuel(byte_range, 6);
    law_time_bytes_round_trip(datetime2.time);
    law_le_bytes_round_trip(datetime2.date.days as nat, 3);
    assert(bytes.subrange(1, 1 + width) =~= time_bytes(datetime2.time));
    assert(bytes.subrange(1 + width, bytes.len() as int) =~= date_bytes(datetime2.date));
}

/// A `datetimeoffset` cell holds its date and time as a `datetime2` cell does, and its offset in
/// the last two bytes.
pub proof fn law_datetimeoffset_cell_round_trip(datetimeoffset: MssqlDateTimeOffset)
    requires
        datetime2_fault(datetimeoffset.datetime2) is None,
    ensures
        ({
            let bytes = datetimeoffset_cell_bytes(datetimeoffset);
            let datetime2 = datetime2_cell_bytes(datetimeoffset.datetime2);
            let end = datetime2.len() as int;
            &&& bytes.len() == 1 + bytes[0]
            &&& bytes.subrange(1, end) == datetime2.skip(1)
            &&& le_value(bytes.skip(end)) == twos_complement_16(datetimeoffset.offset_minutes)
        }),
{
    let bytes = datetimeoffset_cell_bytes(datetimeoffset);
    let datetime2 = datetime2_cell_bytes(datetimeoffset.datetime2);
    let offset = twos_complement_16(datetimeoffset.offset_minutes);
    reveal_with_fuel(byte_range, 6);
    law_datetime2_cell_round_trip(datetimeoffset.datetime2);
    law_le_bytes_round_trip(offset, 2);
    assert(bytes.subrange(1, datetime2.len() as int) =~= datetime2.skip(1));
    assert(bytes.skip(datetime2.len() as int) =~= le_bytes(offset, 2));
}

} // verus!
