//! The refresh cadence and the scheduler's state machine.
//!
//! The pipeline fires at 04:30:00 exchange time on Tuesday through Saturday.
//! [`computing_next_fire`] yields the earliest such instant strictly after a
//! given time.  The scheduler itself is a four-phase loop — idle, computing
//! the next fire, sleeping, running — whose transitions [`scheduler_step`]
//! decides from the current phase and clock reading; the caller performs the
//! waiting and the refresh passes and always returns the result of a run to
//! the loop, so a failed run never stops the cadence.

use vstd::prelude::*;
use crate::calendar::{Timestamp, MAX_DAY, SECS_PER_DAY, Weekday, weekday_index, weekday_of_day,
    ts_lt,
};

verus! {

/// Second of the day at which a refresh fires (04:30:00).
pub const FIRE_SEC: u32 = 16_200;

/// Days on which a refresh fires: Tuesday through Saturday.
pub open spec fn is_fire_day(day: int) -> bool {
    1 <= weekday_index(day) <= 5
}

/// An instant at which the schedule fires.
pub open spec fn is_fire_instant(t: Timestamp) -> bool {
    t.wf() && t.sec == FIRE_SEC && is_fire_day(t.day as int)
}

/// Decides whether the schedule fires on a day.
pub fn fire_day(day: u32) -> (r: bool)
    ensures
        r == is_fire_day(day as int),
{
    match weekday_of_day(day) {
        Weekday::Tue | Weekday::Wed | Weekday::Thu | Weekday::Fri | Weekday::Sat => true,
        _ => {
            proof {
                vstd::arithmetic::div_mod::lemma_mod_bound(day + 3, 7);
            }
            false
        },
    }
}

/// Stepping one day ahead advances the weekday by one, wrapping after Sunday.
proof fn lemma_weekday_succ(day: int)
    requires
        0 <= day,
    ensures
        weekday_index(day + 1) == if weekday_index(day) == 6 {
            0int
        } else {
            weekday_index(day) + 1
        },
{
    vstd::arithmetic::div_mod::lemma_mod_bound(day + 3, 7);
    vstd::arithmetic::div_mod::lemma_add_mod_noop(day + 3, 1, 7);
    vstd::arithmetic::div_mod::lemma_mod_bound(weekday_index(day) + 1, 7);
    if weekday_index(day) == 6 {
        assert((day + 4) % 7 == (6 + 1) % 7);
    } else {
        vstd::arithmetic::div_mod::lemma_small_mod((weekday_index(day) + 1) as nat, 7);
    }
}

/// The earliest fire instant strictly after `now`.
///
/// The result is a fire instant, lies strictly after `now`, and no fire
/// instant lies between the two.
pub fn computing_next_fire(now: Timestamp) -> (r: Timestamp)
    requires
        now.wf(),
        now.day + 3 <= MAX_DAY,
    ensures
        is_fire_instant(r),
        ts_lt(now, r),
        forall|t: Timestamp| is_fire_instant(t) && ts_lt(now, t) ==> r.time() <= t.time(),
{
    let start: u32 = if now.sec < FIRE_SEC {
        now.day
    } else {
        now.day + 1
    };
    proof {
        lemma_weekday_succ(start as int);
        lemma_weekday_succ(start as int + 1);
        vstd::arithmetic::div_mod::lemma_mod_bound(start + 3, 7);
    }
    let day: u32 = if fire_day(start) {
        start
    } else if fire_day(start + 1) {
        start + 1
    } else {
        start + 2
    };
    Timestamp { day, sec: FIRE_SEC }
}

/// Distinct fire instants lie at least one day apart.
///
/// All fire instants share the same second of the day, so two different ones
/// fall on different days and their times differ by at least a full day.
pub proof fn lemma_fire_instants_one_day_apart(a: Timestamp, b: Timestamp)
    requires
        is_fire_instant(a),
        is_fire_instant(b),
        a.time() < b.time(),
    ensures
        b.time() - a.time() >= SECS_PER_DAY,
{
}

/// Two consecutive fire computations lie at least one day apart: when the
/// next fire is computed at or after the previous fire instant, the instant
/// it yields is at least a full day after the previous one.
pub proof fn lemma_consecutive_fires_apart(prev: Timestamp, now: Timestamp, next: Timestamp)
    requires
        is_fire_instant(prev),
        is_fire_instant(next),
        prev.time() <= now.time(),
        now.time() < next.time(),
    ensures
        next.time() - prev.time() >= SECS_PER_DAY,
{
    lemma_fire_instants_one_day_apart(prev, next);
}

/// How long to wait before a fire, in milliseconds: zero when the fire
/// instant has already passed.
pub open spec fn spec_wait_millis(now: Timestamp, fire: Timestamp) -> int {
    if fire.time() <= now.time() {
        0
    } else {
        (fire.time() - now.time()) * 1000
    }
}

/// Computes the wait before a fire; a fire instant in the past waits zero.
pub fn wait_millis(now: Timestamp, fire: Timestamp) -> (r: u64)
    requires
        now.wf(),
        fire.wf(),
    ensures
        r == spec_wait_millis(now, fire),
{
    let now_s: u64 = now.day as u64 * 86_400 + now.sec as u64;
    let fire_s: u64 = fire.day as u64 * 86_400 + fire.sec as u64;
    if fire_s <= now_s {
        0
    } else {
        (fire_s - now_s) * 1000
    }
}

/// The scheduler's phase.
pub enum SchedulerPhase {
    Idle,
    ComputingNextFire,
    Sleeping(Timestamp),
    Running(Timestamp),
}

/// What the caller must do after a step.
pub enum SchedulerAction {
    /// Step again right away.
    Proceed,
    /// Suspend for this many milliseconds, then step again.
    Wait(u64),
    /// Run the three refresh passes, then step again whatever their outcome.
    RunPasses,
}

/// One transition of the scheduler loop, from the current phase and clock
/// reading.  The loop is: idle, compute the next fire, sleep until it,
/// run the passes, and return to idle — forever.
pub fn scheduler_step(phase: SchedulerPhase, now: Timestamp) -> (r: (
    SchedulerPhase,
    SchedulerAction,
))
    requires
        now.wf(),
        now.day + 3 <= MAX_DAY,
        phase matches SchedulerPhase::Sleeping(f) ==> f.wf(),
    ensures
        phase matches SchedulerPhase::Idle ==> r == (
            SchedulerPhase::ComputingNextFire,
            SchedulerAction::Proceed,
        ),
        phase matches SchedulerPhase::ComputingNextFire ==> ({
            &&& r.0 matches SchedulerPhase::Sleeping(f) && is_fire_instant(f) && ts_lt(now, f)
                && (forall|t: Timestamp|
                is_fire_instant(t) && ts_lt(now, t) ==> f.time() <= t.time())
            &&& r.1 == SchedulerAction::Proceed
        }),
        phase matches SchedulerPhase::Sleeping(f) ==> r == (
            SchedulerPhase::Running(f),
            SchedulerAction::Wait(spec_wait_millis(now, f) as u64),
        ),
        phase matches SchedulerPhase::Running(f) ==> r == (
            SchedulerPhase::Idle,
            SchedulerAction::RunPasses,
        ),
{
    match phase {
        SchedulerPhase::Idle => (SchedulerPhase::ComputingNextFire, SchedulerAction::Proceed),
        SchedulerPhase::ComputingNextFire => {
            let fire = computing_next_fire(now);
            (SchedulerPhase::Sleeping(fire), SchedulerAction::Proceed)
        },
        SchedulerPhase::Sleeping(f) => {
            let w = wait_millis(now, f);
            (SchedulerPhase::Running(f), SchedulerAction::Wait(w))
        },
        SchedulerPhase::Running(_) => (SchedulerPhase::Idle, SchedulerAction::RunPasses),
    }
}

} // verus!
