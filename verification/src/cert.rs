//! The validity period of the server's self-signed certificate.
//!
//! The certificate is valid from the moment it is made for 365 days. Both
//! ends are written into it as calendar times in UTC, which `chrono`
//! computes from the clock's seconds. Reading the clock and building the
//! certificate are the caller's part.

use chrono::Datelike;
use chrono::TimeZone;
use chrono::Timelike;
use chrono::Utc;
use vstd::prelude::*;

verus! {

/// How long a certificate is valid, in seconds: 365 days.
pub const CERT_VAL_SECS: u64 = 31536000;

/// A moment in UTC, by calendar fields.
#[derive(Clone, Copy, PartialEq, Eq, Structural, Debug)]
pub struct Civil {
    pub year: i32,
    pub month: u32,
    pub day: u32,
    pub hour: u32,
    pub minute: u32,
    pub second: u32,
}

/// A time as an X.509 certificate states it.
#[derive(Clone, Copy, PartialEq, Eq, Structural, Debug)]
pub struct Time {
    pub year: u16,
    pub month: u8,
    pub day: u8,
    pub hour: u8,
    pub minute: u8,
    pub second: u8,
}

/// The calendar fields, in UTC, of the moment `secs` seconds after the Unix
/// epoch, as `chrono` computes them; nothing where `chrono` cannot
/// represent the moment.
pub uninterp spec fn utc_civil(secs: int) -> Option<Civil>;

/// `Utc.timestamp_opt(secs, 0)` of `chrono`, read through `year`, `month`,
/// `day`, `hour`, `minute` and `second`. `chrono` documents the month as 1
/// to 12, the day as 1 to 31, the hour as 0 to 23, and minute and second as
/// 0 to 59. A number of seconds out of its range gives nothing.
#[verifier::external_body]
fn civil_at(secs: i64) -> (civil: Option<Civil>)
    ensures
        civil == utc_civil(secs as int),
        civil matches Some(c) ==> 1 <= c.month <= 12 && 1 <= c.day <= 31 && c.hour <= 23
            && c.minute <= 59 && c.second <= 59,
{
    match Utc.timestamp_opt(secs, 0).single() {
        Some(at) => Some(
            Civil {
                year: at.year(),
                month: at.month(),
                day: at.day(),
                hour: at.hour(),
                minute: at.minute(),
                second: at.second(),
            },
        ),
        None => None,
    }
}

impl Time {
    /// Whether the fields are ones a certificate can state.
    pub open spec fn valid(self) -> bool {
        &&& self.year < 10000
        &&& 1 <= self.month <= 12
        &&& 1 <= self.day <= 31
        &&& self.hour < 24
        &&& self.minute < 60
        &&& self.second < 60
    }

    /// A time of the given fields, or nothing if a certificate cannot state
    /// them.
    pub fn new(year: u16, month: u8, day: u8, hour: u8, minute: u8, second: u8) -> (time: Option<
        Time,
    >)
        ensures
            time == if (Time { year, month, day, hour, minute, second }).valid() {
                Some(Time { year, month, day, hour, minute, second })
            } else {
                None
            },
    {
        if year < 10000 && month >= 1 && month <= 12 && day >= 1 && day <= 31 && hour < 24 && minute
            < 60 && second < 60 {
            Some(Time { year, month, day, hour, minute, second })
        } else {
            None
        }
    }
}

/// The certificate time with the same fields as `civil`, where there is
/// one.
pub open spec fn time_of(civil: Civil) -> Option<Time> {
    let time = Time {
        year: civil.year as u16,
        month: civil.month as u8,
        day: civil.day as u8,
        hour: civil.hour as u8,
        minute: civil.minute as u8,
        second: civil.second as u8,
    };
    if 0 <= civil.year < 10000 && civil.month < 256 && civil.day < 256 && civil.hour < 256
        && civil.minute < 256 && civil.second < 256 && time.valid() {
        Some(time)
    } else {
        None
    }
}

/// States a calendar moment as a certificate time. Years before 0 and
/// from 10000 on have none.
pub fn to_time(civil: Civil) -> (time: Option<Time>)
    ensures
        time == time_of(civil),
        time matches Some(t) ==> t.valid(),
{
    if civil.year < 0 || civil.year >= 10000 || civil.month >= 256 || civil.day >= 256 || civil.hour
        >= 256 || civil.minute >= 256 || civil.second >= 256 {
        return None;
    }
    Time::new(
        civil.year as u16,
        civil.month as u8,
        civil.day as u8,
        civil.hour as u8,
        civil.minute as u8,
        civil.second as u8,
    )
}

/// The certificate time of the moment `secs` seconds after the Unix epoch.
pub open spec fn time_at(secs: int) -> Option<Time> {
    match utc_civil(secs) {
        Some(civil) => time_of(civil),
        None => None,
    }
}

/// The validity period of a certificate made at `start`: from `start` to
/// 365 days later, both as certificate times.
pub open spec fn validity_of(start: int) -> Option<(Time, Time)> {
    if start + CERT_VAL_SECS > i64::MAX {
        None
    } else {
        match (time_at(start), time_at(start + CERT_VAL_SECS)) {
            (Some(not_before), Some(not_after)) => Some((not_before, not_after)),
            _ => None,
        }
    }
}

/// The validity period of a certificate made `start` seconds after the
/// Unix epoch, or nothing where one of its ends cannot be stated.
pub fn get_validity(start: u64) -> (validity: Option<(Time, Time)>)
    ensures
        validity == validity_of(start as int),
        validity matches Some(v) ==> v.0.valid() && v.1.valid(),
{
    if start > (i64::MAX as u64) - CERT_VAL_SECS {
        return None;
    }
    let end: u64 = start + CERT_VAL_SECS;
    let not_before = match civil_at(start as i64) {
        Some(civil) => to_time(civil),
        None => None,
    };
    let not_after = match civil_at(end as i64) {
        Some(civil) => to_time(civil),
        None => None,
    };
    match (not_before, not_after) {
        (Some(not_before), Some(not_after)) => Some((not_before, not_after)),
        _ => None,
    }
}

} // verus!
