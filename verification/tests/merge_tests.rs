use market_sync::calendar::Timestamp;
use market_sync::merge::{merge_daily_indicators, merge_minute_bars, MergeError};
use market_sync::records::{RawBar, RawIndicatorBar};

// Day 19621 is Thursday 2023-09-21; 09:30:00 is second 34200.
const CUTOFF: Timestamp = Timestamp { day: 19621, sec: 34_200 };

fn bar(date: &str, open: i64) -> RawBar {
    RawBar { date: date.to_string(), open, close: open + 1, high: open + 2, low: open - 1, volume: 10 }
}

fn ind(date: &str, value: i64) -> RawIndicatorBar {
    RawIndicatorBar {
        date: date.to_string(),
        open: 100,
        close: 101,
        high: 102,
        low: 99,
        volume: 7,
        value,
    }
}

#[test]
fn minute_merge_keeps_exactly_the_window_sorted() {
    // Unsorted input, one bar before the cutoff, one exactly at it.
    let bars = vec![
        bar("2023-09-22 10:00:00", 3),
        bar("2023-09-21 09:29:59", 1),
        bar("2023-09-21 09:30:00", 2),
        bar("2023-09-21 15:59:00", 4),
    ];
    let rows = merge_minute_bars(&bars, CUTOFF).unwrap();
    assert_eq!(rows.len(), 3);
    // Ascending by time; the pre-cutoff bar is gone, the boundary bar kept.
    assert_eq!(rows[0].open, 2);
    assert_eq!(rows[0].time, Timestamp { day: 19621, sec: 34_200 });
    assert_eq!(rows[1].open, 4);
    assert_eq!(rows[2].open, 3);
    assert_eq!(rows[2].time, Timestamp { day: 19622, sec: 36_000 });
}

#[test]
fn minute_merge_keeps_duplicates_exactly() {
    let bars = vec![bar("2023-09-21 09:31:00", 5), bar("2023-09-21 09:31:00", 5)];
    let rows = merge_minute_bars(&bars, CUTOFF).unwrap();
    assert_eq!(rows.len(), 2);
    assert_eq!(rows[0], rows[1]);
}

#[test]
fn minute_merge_of_empty_series() {
    let rows = merge_minute_bars(&Vec::new(), CUTOFF).unwrap();
    assert!(rows.is_empty());
}

#[test]
fn minute_merge_rejects_a_malformed_date() {
    let bars = vec![bar("2023-09-21 09:31:00", 5), bar("2023-9-21 09:31:00", 6)];
    assert_eq!(merge_minute_bars(&bars, CUTOFF).unwrap_err(), MergeError::BadDate);
}

// Daily merges cut at midnight of the last trading day, strictly.
const DAILY_CUTOFF: Timestamp = Timestamp { day: 19621, sec: 0 };

#[test]
fn daily_merge_zips_six_aligned_series() {
    // Two bars per series: one exactly at the cutoff (dropped: the filter is
    // strict), one after it.
    let e5 = vec![ind("2023-09-21 00:00:00", 11), ind("2023-09-22 00:00:00", 15)];
    let e20 = vec![ind("2023-09-21 00:00:00", 12), ind("2023-09-22 00:00:00", 25)];
    let e60 = vec![ind("2023-09-21 00:00:00", 13), ind("2023-09-22 00:00:00", 65)];
    let s5 = vec![ind("2023-09-21 00:00:00", 21), ind("2023-09-22 00:00:00", 16)];
    let s20 = vec![ind("2023-09-21 00:00:00", 22), ind("2023-09-22 00:00:00", 26)];
    let s60 = vec![ind("2023-09-21 00:00:00", 23), ind("2023-09-22 00:00:00", 66)];
    let rows = merge_daily_indicators(&e5, &e20, &e60, &s5, &s20, &s60, DAILY_CUTOFF).unwrap();
    assert_eq!(rows.len(), 1);
    let row = &rows[0];
    assert_eq!(row.time, Timestamp { day: 19622, sec: 0 });
    assert_eq!(row.open, 100);
    assert_eq!(row.close, 101);
    assert_eq!(row.high, 102);
    assert_eq!(row.low, 99);
    assert_eq!(row.volume, 7);
    // The indicator vectors are ordered period 5, period 20, period 60.
    assert_eq!(row.ema.to_vector(), vec![15, 25, 65]);
    assert_eq!(row.sma.to_vector(), vec![16, 26, 66]);
}

#[test]
fn daily_merge_orders_rows_ascending() {
    // The provider reports newest first; the merge reorders.
    let mk = |v: i64| {
        vec![ind("2023-09-23 00:00:00", v + 1), ind("2023-09-22 00:00:00", v)]
    };
    let rows = merge_daily_indicators(
        &mk(10),
        &mk(20),
        &mk(30),
        &mk(40),
        &mk(50),
        &mk(60),
        DAILY_CUTOFF,
    )
    .unwrap();
    assert_eq!(rows.len(), 2);
    assert_eq!(rows[0].time, Timestamp { day: 19622, sec: 0 });
    assert_eq!(rows[1].time, Timestamp { day: 19623, sec: 0 });
    assert_eq!(rows[0].ema.to_vector(), vec![10, 20, 30]);
    assert_eq!(rows[1].ema.to_vector(), vec![11, 21, 31]);
}

#[test]
fn daily_merge_fails_on_unequal_lengths() {
    // One extra post-cutoff bar in the EMA-20 series; the merge must fail,
    // not truncate to the shortest series.
    let short = vec![ind("2023-09-22 00:00:00", 1)];
    let long = vec![ind("2023-09-22 00:00:00", 2), ind("2023-09-23 00:00:00", 3)];
    let r = merge_daily_indicators(&short, &long, &short, &short, &short, &short, DAILY_CUTOFF);
    assert_eq!(r.unwrap_err(), MergeError::LengthMismatch);
}

#[test]
fn daily_merge_ignores_pre_cutoff_length_differences() {
    // Bars at or before the cutoff do not count toward alignment.
    let with_history = vec![ind("2023-09-20 00:00:00", 1), ind("2023-09-22 00:00:00", 2)];
    let without = vec![ind("2023-09-22 00:00:00", 3)];
    let rows = merge_daily_indicators(
        &with_history,
        &without,
        &without,
        &without,
        &without,
        &without,
        DAILY_CUTOFF,
    )
    .unwrap();
    assert_eq!(rows.len(), 1);
    assert_eq!(rows[0].ema.to_vector(), vec![2, 3, 3]);
}

#[test]
fn daily_merge_rejects_a_malformed_date() {
    let good = vec![ind("2023-09-22 00:00:00", 1)];
    let bad = vec![ind("someday", 2)];
    let r = merge_daily_indicators(&good, &good, &good, &good, &good, &bad, DAILY_CUTOFF);
    assert_eq!(r.unwrap_err(), MergeError::BadDate);
}
