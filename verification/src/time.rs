//! Instants as plain seconds, the clock, and the timezone normalisation utility.

use chrono::{Offset, TimeZone};
use std::str::FromStr;
use vstd::prelude::*;

verus! {

/// A wall-clock reading with no zone attached: whole seconds counted from
/// 1970-01-01T00:00:00 on that clock, and the nanoseconds into the second.
#[derive(Clone, Copy, Debug, PartialEq, Eq, Structural)]
pub struct NaiveTimestamp {
    pub secs: i64,
    pub nanos: u32,
}

/// An instant on the UTC time line: whole seconds since the Unix epoch and the
/// nanoseconds into the second.
#[derive(Clone, Copy, Debug, PartialEq, Eq, Structural)]
pub struct UtcInstant {
    pub secs: i64,
    pub nanos: u32,
}

impl UtcInstant {
    /// This instant comes after `other`.
    pub open spec fn later_than(self, other: UtcInstant) -> bool {
        self.secs > other.secs || (self.secs == other.secs && self.nanos > other.nanos)
    }

    /// Whether this instant comes after `other`.
    pub fn is_later_than(&self, other: &UtcInstant) -> (later: bool)
        ensures
            later == self.later_than(*other),
    {
        self.secs > other.secs || (self.secs == other.secs && self.nanos > other.nanos)
    }
}

/// Why a wall-clock reading could not be normalised.
#[derive(Clone, Copy, Debug, PartialEq, Eq, Structural)]
pub enum TimeError {
    /// The timezone database gave no offset: the zone name is unknown to it, or
    /// the instant of observation lies outside the range it can represent.
    NoOffset,
    /// The shifted reading does not fit in 64-bit seconds.
    OutOfRange,
}

/// The offset from UTC, in seconds east, that the bundled IANA database assigns
/// to the zone named `zone` at the instant `at_secs` seconds after the Unix
/// epoch; `None` where it assigns none.
pub uninterp spec fn zone_offset_seconds(zone: Seq<char>, at_secs: int) -> Option<i32>;

/// Trusted: `chrono_tz::Tz::offset_from_utc_datetime`, with the zone parsed by
/// `Tz::from_str` and the instant built by `chrono::DateTime::from_timestamp`.
/// The contract claims only that the answer is a function of the zone name and
/// the second, which is how the database is searched.
#[verifier::external_body]
pub(crate) fn lookup_zone_offset(zone: &str, at_secs: i64) -> (r: Option<i32>)
    ensures
        r == zone_offset_seconds(zone@, at_secs as int),
{
    let tz = chrono_tz::Tz::from_str(zone).ok()?;
    let at = chrono::DateTime::from_timestamp(at_secs, 0)?;
    Some(tz.offset_from_utc_datetime(&at.naive_utc()).fix().local_minus_utc())
}

/// Trusted: `chrono::Utc::now`. Nothing is claimed of the reading. On a machine
/// whose clock stands before 1970 the call does not return.
#[verifier::external_body]
pub(crate) fn utc_now() -> (r: UtcInstant) {
    let now = chrono::Utc::now();
    UtcInstant { secs: now.timestamp(), nanos: now.timestamp_subsec_nanos() }
}

/// `date_time` moved back by `offset_seconds`, where that fits.
pub open spec fn shifted(date_time: NaiveTimestamp, offset_seconds: int) -> Result<
    UtcInstant,
    TimeError,
> {
    let secs = date_time.secs - offset_seconds;
    if i64::MIN <= secs <= i64::MAX {
        Ok(UtcInstant { secs: secs as i64, nanos: date_time.nanos })
    } else {
        Err(TimeError::OutOfRange)
    }
}

/// What normalising `date_time` for `zone` gives when the zone's offset is
/// observed at `now_secs`.
pub open spec fn normalised_at(date_time: NaiveTimestamp, zone: Seq<char>, now_secs: int) -> Result<
    UtcInstant,
    TimeError,
> {
    match zone_offset_seconds(zone, now_secs) {
        Some(offset) => shifted(date_time, offset as int),
        None => Err(TimeError::NoOffset),
    }
}

/// Subtracts a fixed offset, in seconds east of UTC, from a wall-clock reading.
pub fn apply_offset(date_time: NaiveTimestamp, offset_seconds: i32) -> (r: Result<
    UtcInstant,
    TimeError,
>)
    ensures
        r == shifted(date_time, offset_seconds as int),
{
    let offset: i64 = offset_seconds as i64;
    if offset >= 0 {
        if date_time.secs < i64::MIN + offset {
            return Err(TimeError::OutOfRange);
        }
    } else {
        if date_time.secs > i64::MAX + offset {
            return Err(TimeError::OutOfRange);
        }
    }
    Ok(UtcInstant { secs: date_time.secs - offset, nanos: date_time.nanos })
}

/// Normalises `date_time`, read on a clock in `timezone`, with the zone's offset
/// taken as it stands at `now` rather than at `date_time` itself.
///
/// This is an approximation: for a reading whose own offset differs from the
/// one in force at `now` (across a daylight-saving change, say) the result is
/// off by the difference.
pub fn get_date_time_with_offset_at(
    date_time: NaiveTimestamp,
    timezone: &str,
    now: UtcInstant,
) -> (r: Result<UtcInstant, TimeError>)
    ensures
        r == normalised_at(date_time, timezone@, now.secs as int),
{
    match lookup_zone_offset(timezone, now.secs) {
        Some(offset) => apply_offset(date_time, offset),
        None => Err(TimeError::NoOffset),
    }
}

/// Normalises `date_time`, read on a clock in `timezone`, with the zone's offset
/// as observed when the call is made. The approximation described at
/// [`get_date_time_with_offset_at`] applies.
pub fn get_date_time_with_offset(date_time: NaiveTimestamp, timezone: &str) -> (r: Result<
    UtcInstant,
    TimeError,
>)
    ensures
        exists|now_secs: int| r == #[trigger] normalised_at(date_time, timezone@, now_secs),
{
    let now = utc_now();
    let r = get_date_time_with_offset_at(date_time, timezone, now);
    assert(r == normalised_at(date_time, timezone@, now.secs as int));
    r
}

} // verus!
