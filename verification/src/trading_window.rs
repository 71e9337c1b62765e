//! The trading window: the earliest instant considered current trading data.
//!
//! The market trades Monday through Friday.  Looking back from a given day,
//! the last session lies one calendar day back on Tuesday through Saturday,
//! two days back on Sunday, and three days back on Monday.  The window is
//! anchored at a caller-chosen time of day: market open for minute bars,
//! midnight for daily rows.

use vstd::prelude::*;
use crate::calendar::{Timestamp, Weekday, SECS_PER_DAY, spec_weekday, weekday_of_day};

verus! {

/// Second of the day at which the market opens (09:30:00).
pub const MARKET_OPEN_SEC: u32 = 34_200;

/// Second of the day at midnight (00:00:00).
pub const MIDNIGHT_SEC: u32 = 0;

/// How many calendar days the last trading session lies back.
pub open spec fn lookback_days(w: Weekday) -> int {
    match w {
        Weekday::Mon => 3,
        Weekday::Sun => 2,
        _ => 1,
    }
}

/// The earliest instant that counts as current trading data, seen from
/// `now`: the day of the last trading session, at `time_of_day`.
pub fn last_trading_instant(now: Timestamp, time_of_day: u32) -> (r: Timestamp)
    requires
        now.wf(),
        3 <= now.day,
        time_of_day < SECS_PER_DAY,
    ensures
        r.wf(),
        r.sec == time_of_day,
        r.day == now.day - lookback_days(spec_weekday(now.day as int)),
{
    let back: u32 = match weekday_of_day(now.day) {
        Weekday::Mon => 3,
        Weekday::Sun => 2,
        _ => 1,
    };
    Timestamp { day: now.day - back, sec: time_of_day }
}

} // verus!
