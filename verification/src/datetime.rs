//! Points in time as the `time` crate holds them, and the conversion from
//! Unix timestamps that UDF entries report.

use vstd::prelude::*;

verus! {

#[verifier::external_type_specification]
#[verifier::external_body]
pub struct ExOffsetDateTime(time::OffsetDateTime);

#[verifier::external_type_specification]
#[verifier::external_body]
pub struct ExComponentRange(time::error::ComponentRange);

#[verifier::external_type_specification]
#[verifier::external_body]
pub struct ExDate(time::Date);

#[verifier::external_type_specification]
#[verifier::external_body]
pub struct ExTime(time::Time);

#[verifier::external_type_specification]
#[verifier::external_body]
pub struct ExUtcOffset(time::UtcOffset);

#[verifier::external_type_specification]
#[verifier::external_body]
pub struct ExIndeterminateOffset(time::error::IndeterminateOffset);

/// The earliest Unix timestamp that an `OffsetDateTime` can hold: the
/// first second of year -9999.
pub const UNIX_TIMESTAMP_MIN: i64 = -377705116800;

/// The latest Unix timestamp that an `OffsetDateTime` can hold: the last
/// second of year 9999.
pub const UNIX_TIMESTAMP_MAX: i64 = 253402300799;

/// The point in time, in UTC, `ts` seconds after the Unix epoch.
pub uninterp spec fn datetime_of_unix_timestamp(ts: i64) -> time::OffsetDateTime;

/// `OffsetDateTime::from_unix_timestamp`: the point in time `ts` seconds
/// after the Unix epoch, in UTC. It is `Ok` exactly for the timestamps
/// between the first second of year -9999 and the last of year 9999, the
/// range of `Date` when the crate's `large-dates` feature is off, as it is
/// in this crate's build. Which point in time comes back is not spelled
/// out here: it is named, a function of `ts` alone.
#[verifier::external_body]
pub(crate) fn datetime_from_unix_timestamp(ts: i64) -> (r: Result<time::OffsetDateTime, time::error::ComponentRange>)
    ensures
        r is Ok <==> UNIX_TIMESTAMP_MIN <= ts <= UNIX_TIMESTAMP_MAX,
        r matches Ok(d) ==> d == datetime_of_unix_timestamp(ts),
{
    time::OffsetDateTime::from_unix_timestamp(ts)
}

/// The earliest year that a `Date` holds.
pub const YEAR_MIN: i32 = -9999;

/// The latest year that a `Date` holds.
pub const YEAR_MAX: i32 = 9999;

/// Whether `year` is a leap year of the proleptic Gregorian calendar.
pub open spec fn is_leap_year(year: int) -> bool {
    year % 4 == 0 && (year % 100 != 0 || year % 400 == 0)
}

/// The number of days of `year`.
pub open spec fn days_in_year(year: int) -> int {
    if is_leap_year(year) {
        366
    } else {
        365
    }
}

/// Whether `year` lies between -9999 and 9999 and `ordinal` counts one of
/// its days, from 1.
pub open spec fn ordinal_date_valid(year: i32, ordinal: u16) -> bool {
    YEAR_MIN <= year <= YEAR_MAX && 1 <= ordinal <= days_in_year(year as int)
}

/// Whether an hour, minute and second name a time of day.
pub open spec fn hms_valid(hour: u8, minute: u8, second: u8) -> bool {
    hour < 24 && minute < 60 && second < 60
}

/// Day `ordinal` (counted from 1) of `year`.
pub uninterp spec fn date_of_ordinal(year: i32, ordinal: u16) -> time::Date;

/// `Date::from_ordinal_date`: day `ordinal` of `year`. It is `Ok` exactly
/// for the years from -9999 to 9999 (the crate's range without its
/// `large-dates` feature, as in this crate's build) and the days from 1 to
/// the year's length.
#[verifier::external_body]
pub(crate) fn date_from_ordinal(year: i32, ordinal: u16) -> (r: Result<time::Date, time::error::ComponentRange>)
    ensures
        r is Ok <==> ordinal_date_valid(year, ordinal),
        r matches Ok(d) ==> d == date_of_ordinal(year, ordinal),
{
    time::Date::from_ordinal_date(year, ordinal)
}

/// The time of day `hour`:`minute`:`second`.
pub uninterp spec fn time_of_hms(hour: u8, minute: u8, second: u8) -> time::Time;

/// `Time::from_hms`: the time of day. It is `Ok` exactly for hours below
/// 24 and minutes and seconds below 60.
#[verifier::external_body]
pub(crate) fn time_from_hms(hour: u8, minute: u8, second: u8) -> (r: Result<time::Time, time::error::ComponentRange>)
    ensures
        r is Ok <==> hms_valid(hour, minute, second),
        r matches Ok(t) ==> t == time_of_hms(hour, minute, second),
{
    time::Time::from_hms(hour, minute, second)
}

/// The point in time at `time` on `date` in UTC.
pub uninterp spec fn utc_datetime(date: time::Date, time: time::Time) -> time::OffsetDateTime;

/// `OffsetDateTime::new_utc`: the point in time at `time` on `date` in UTC.
#[verifier::external_body]
fn datetime_utc(date: time::Date, time: time::Time) -> (r: time::OffsetDateTime)
    ensures
        r == utc_datetime(date, time),
{
    time::OffsetDateTime::new_utc(date, time)
}

/// The point in time at local `time` on `date` in the offset `offset`.
pub uninterp spec fn datetime_in_offset(date: time::Date, time: time::Time, offset: time::UtcOffset) -> time::OffsetDateTime;

/// `OffsetDateTime::new_in_offset`: the point in time at local `time` on
/// `date` in the offset `offset`.
#[verifier::external_body]
fn datetime_in(date: time::Date, time: time::Time, offset: time::UtcOffset) -> (r: time::OffsetDateTime)
    ensures
        r == datetime_in_offset(date, time, offset),
{
    time::OffsetDateTime::new_in_offset(date, time, offset)
}

/// `UtcOffset::local_offset_at`: the system's UTC offset at `datetime`.
/// What comes back depends on the system's time zone, and whether it can
/// be determined at all on the platform: nothing is stated of it.
#[verifier::external_body]
fn local_offset_at(datetime: time::OffsetDateTime) -> (r: Result<time::UtcOffset, time::error::IndeterminateOffset>) {
    time::UtcOffset::local_offset_at(datetime)
}

/// Why a broken-down local time does not give a point in time.
#[derive(Clone, Copy, Debug, PartialEq, Eq)]
pub enum TmError {
    /// A field does not fit its range: a negative or too large day of the
    /// year, hour, minute or second.
    FieldOutOfRange,
    /// The year and day do not name a date.
    InvalidDate,
    /// The hour, minute and second do not name a time of day.
    InvalidTime,
    /// The system's UTC offset at that time cannot be determined.
    IndeterminateOffset,
}

/// Whether the year (counted from 1900) and the day of the year (counted
/// from 0) of a broken-down time name a date: the day fits a day count and
/// is one of the year's days, and the year lies between -9999 and 9999.
pub open spec fn tm_date_valid(year: i32, yday: i32) -> bool {
    &&& 0 <= yday <= u16::MAX
    &&& YEAR_MIN <= year + 1900 <= YEAR_MAX
    &&& 1 <= yday + 1 <= days_in_year(year + 1900)
}

/// Whether the hour, minute and second of a broken-down time name a time
/// of day.
pub open spec fn tm_time_valid(hour: i32, min: i32, sec: i32) -> bool {
    0 <= hour < 24 && 0 <= min < 60 && 0 <= sec < 60
}

/// The point in time of a broken-down local time (`struct tm`: years since
/// 1900, day of the year from 0, hour, minute, second), in the system's
/// UTC offset at that time.
pub fn datetime_from_tm(year: i32, yday: i32, hour: i32, min: i32, sec: i32) -> (r: Result<time::OffsetDateTime, TmError>)
    requires
        year + 1900 <= i32::MAX,
        yday != u16::MAX,
    ensures
        !tm_date_valid(year, yday) ==> r is Err,
        tm_date_valid(year, yday) && !tm_time_valid(hour, min, sec) ==> r is Err,
        r matches Ok(d) ==> tm_date_valid(year, yday) && tm_time_valid(hour, min, sec) && exists|
            offset: time::UtcOffset,
        |
            d == #[trigger] datetime_in_offset(
                date_of_ordinal((year + 1900) as i32, (yday + 1) as u16),
                time_of_hms(hour as u8, min as u8, sec as u8),
                offset,
            ),
        r matches Err(e) ==> (e == TmError::IndeterminateOffset) == (tm_date_valid(year, yday)
            && tm_time_valid(hour, min, sec)),
{
    if yday < 0 || yday > 0xffff {
        return Err(TmError::FieldOutOfRange);
    }
    let ordinal: u16 = (yday as u16) + 1;
    let date = match date_from_ordinal(year + 1900, ordinal) {
        Ok(d) => d,
        Err(_) => return Err(TmError::InvalidDate),
    };
    if hour < 0 || hour > 0xff || min < 0 || min > 0xff || sec < 0 || sec > 0xff {
        return Err(TmError::FieldOutOfRange);
    }
    let time = match time_from_hms(hour as u8, min as u8, sec as u8) {
        Ok(t) => t,
        Err(_) => return Err(TmError::InvalidTime),
    };
    let offset = match local_offset_at(datetime_utc(date, time)) {
        Ok(o) => o,
        Err(_) => return Err(TmError::IndeterminateOffset),
    };
    Ok(datetime_in(date, time, offset))
}

} // verus!
