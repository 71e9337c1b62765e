use market_sync::calendar::{Timestamp, Weekday, weekday_of_day};
use market_sync::schedule::{computing_next_fire, fire_day, scheduler_step, wait_millis,
    SchedulerAction, SchedulerPhase, FIRE_SEC,
};
use market_sync::trading_window::{last_trading_instant, MARKET_OPEN_SEC, MIDNIGHT_SEC};

// Day 19621 is Thursday 2023-09-21.
const THURSDAY: u32 = 19621;

#[test]
fn lookback_for_every_weekday() {
    // Tuesday through Saturday look one day back, Sunday two, Monday three.
    for offset in 0..7u32 {
        let day = THURSDAY + offset;
        let now = Timestamp { day, sec: 12 * 3600 };
        let w = last_trading_instant(now, MARKET_OPEN_SEC);
        assert_eq!(w.sec, MARKET_OPEN_SEC);
        let expected_back = match weekday_of_day(day) {
            Weekday::Mon => 3,
            Weekday::Sun => 2,
            _ => 1,
        };
        assert_eq!(w.day, day - expected_back);
    }
}

#[test]
fn lookback_anchors() {
    let now = Timestamp { day: THURSDAY, sec: 15 * 3600 };
    let minute_cutoff = last_trading_instant(now, MARKET_OPEN_SEC);
    assert_eq!(minute_cutoff, Timestamp { day: THURSDAY - 1, sec: 34_200 });
    let daily_cutoff = last_trading_instant(now, MIDNIGHT_SEC);
    assert_eq!(daily_cutoff, Timestamp { day: THURSDAY - 1, sec: 0 });
}

#[test]
fn fire_days_are_tuesday_through_saturday() {
    for offset in 0..7u32 {
        let day = THURSDAY + offset;
        let expected = matches!(
            weekday_of_day(day),
            Weekday::Tue | Weekday::Wed | Weekday::Thu | Weekday::Fri | Weekday::Sat
        );
        assert_eq!(fire_day(day), expected);
    }
}

#[test]
fn next_fire_is_strictly_later_and_on_schedule() {
    // Before 04:30 on a fire day: fires the same day.
    let before = Timestamp { day: THURSDAY, sec: FIRE_SEC - 1 };
    let f = computing_next_fire(before);
    assert_eq!(f, Timestamp { day: THURSDAY, sec: FIRE_SEC });

    // Exactly at 04:30: strictly later, so the next fire day.
    let at = Timestamp { day: THURSDAY, sec: FIRE_SEC };
    let f = computing_next_fire(at);
    assert_eq!(f, Timestamp { day: THURSDAY + 1, sec: FIRE_SEC });

    // Saturday after 04:30: Sunday and Monday are skipped.
    let saturday = Timestamp { day: THURSDAY + 2, sec: FIRE_SEC + 1 };
    assert_eq!(weekday_of_day(saturday.day), Weekday::Sat);
    let f = computing_next_fire(saturday);
    assert_eq!(f, Timestamp { day: THURSDAY + 5, sec: FIRE_SEC });
    assert_eq!(weekday_of_day(f.day), Weekday::Tue);
}

#[test]
fn consecutive_fires_at_least_a_day_apart() {
    // Simulated clock: compute a fire, let the run finish after it, compute
    // the next; the two fires lie at least one day apart.
    let mut now = Timestamp { day: THURSDAY, sec: 0 };
    let mut prev = computing_next_fire(now);
    for _ in 0..14 {
        // The run ends some time after the fire instant.
        now = Timestamp { day: prev.day, sec: prev.sec + 600 };
        let next = computing_next_fire(now);
        let prev_secs = prev.day as u64 * 86_400 + prev.sec as u64;
        let next_secs = next.day as u64 * 86_400 + next.sec as u64;
        assert!(next_secs > prev_secs);
        assert!(next_secs - prev_secs >= 86_400);
        prev = next;
    }
}

#[test]
fn wait_is_zero_for_a_past_fire() {
    let fire = Timestamp { day: THURSDAY, sec: FIRE_SEC };
    let late = Timestamp { day: THURSDAY, sec: FIRE_SEC + 5 };
    assert_eq!(wait_millis(late, fire), 0);
    let early = Timestamp { day: THURSDAY, sec: FIRE_SEC - 5 };
    assert_eq!(wait_millis(early, fire), 5_000);
    assert_eq!(wait_millis(fire, fire), 0);
}

#[test]
fn scheduler_loops_through_its_phases() {
    let now = Timestamp { day: THURSDAY, sec: FIRE_SEC - 60 };
    let (phase, action) = scheduler_step(SchedulerPhase::Idle, now);
    assert!(matches!(phase, SchedulerPhase::ComputingNextFire));
    assert!(matches!(action, SchedulerAction::Proceed));

    let (phase, action) = scheduler_step(phase, now);
    let fire = match phase {
        SchedulerPhase::Sleeping(f) => f,
        _ => panic!("expected the scheduler to sleep"),
    };
    assert!(matches!(action, SchedulerAction::Proceed));
    assert_eq!(fire, Timestamp { day: THURSDAY, sec: FIRE_SEC });

    let (phase, action) = scheduler_step(phase, now);
    assert!(matches!(phase, SchedulerPhase::Running(_)));
    match action {
        SchedulerAction::Wait(ms) => assert_eq!(ms, 60_000),
        _ => panic!("expected a wait"),
    }

    let (phase, action) = scheduler_step(phase, now);
    assert!(matches!(phase, SchedulerPhase::Idle));
    assert!(matches!(action, SchedulerAction::RunPasses));
}
