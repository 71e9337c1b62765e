//! Reading the wall clock in the exchange's timezone.
//!
//! The scheduler and the trading-window calculator are pure functions of an
//! instant; only this module asks the machine what time it is.  The clock
//! reading and the timezone offset come from outside crates through trusted
//! wrappers; turning them into a [`Timestamp`] is verified code.

use vstd::prelude::*;
use crate::calendar::{Timestamp, MAX_DAY, SECS_PER_DAY};

verus! {

/// Latest clock reading the library converts: 9999-12-31 23:59:59 UTC.
pub const MAX_EPOCH_SECONDS: i64 = 253_402_300_799;

/// Relies on chrono's `Utc::now` and `DateTime::timestamp`: the machine's
/// clock as seconds since 1970-01-01 00:00:00 UTC.  Nothing is promised of
/// the reading itself.
#[verifier::external_body]
fn now_utc_epoch_seconds() -> i64 {
    chrono::Utc::now().timestamp()
}

/// Relies on chrono-tz's Asia/Taipei table and chrono's
/// `FixedOffset::local_minus_utc`: the offset to add to a UTC instant to get
/// Taipei wall-clock time.  `FixedOffset` is only ever built through
/// `east_opt`/`west_opt`, which keep the offset strictly within one day.
#[verifier::external_body]
fn taipei_offset_seconds(utc_epoch: i64) -> (r: i32)
    requires
        0 <= utc_epoch <= MAX_EPOCH_SECONDS,
    ensures
        -86_400 < r < 86_400,
{
    let utc = chrono::DateTime::<chrono::Utc>::from_timestamp(utc_epoch, 0).unwrap();
    let offset = chrono::TimeZone::offset_from_utc_datetime(
        &chrono_tz::Asia::Taipei,
        &utc.naive_utc(),
    );
    chrono::Offset::fix(&offset).local_minus_utc()
}

/// The instant a count of local wall-clock seconds denotes, or `None` when
/// it lies outside the library's calendar.
pub fn timestamp_from_epoch(local_secs: i64) -> (r: Option<Timestamp>)
    ensures
        match r {
            Some(t) => {
                &&& t.wf()
                &&& 0 <= local_secs
                &&& t.time() == local_secs
            },
            None => local_secs < 0 || local_secs > MAX_DAY * (SECS_PER_DAY as int) + (SECS_PER_DAY
                - 1),
        },
{
    if local_secs < 0 {
        return None;
    }
    let day = local_secs / 86_400;
    let sec = local_secs % 86_400;
    if day > MAX_DAY as i64 {
        proof {
            assert(local_secs == 86_400 * day + sec);
        }
        return None;
    }
    proof {
        assert(local_secs == 86_400 * day + sec);
    }
    Some(Timestamp { day: day as u32, sec: sec as u32 })
}

/// The current wall-clock time in Taipei, the exchange's timezone, as an
/// instant of the library's calendar; `None` only for a machine clock
/// before 1970 or beyond the library's calendar.
pub fn current_taipei_timestamp() -> (r: Option<Timestamp>)
    ensures
        r matches Some(t) ==> t.wf(),
{
    let utc = now_utc_epoch_seconds();
    if utc < 0 || utc > MAX_EPOCH_SECONDS {
        return None;
    }
    let offset = taipei_offset_seconds(utc);
    let local = utc + offset as i64;
    timestamp_from_epoch(local)
}

} // verus!
