//! Merging raw provider series into store-ready rows.
//!
//! The minute pass parses each raw bar's date string and keeps exactly the
//! bars at or after the trading-window cutoff, emitting them in ascending
//! time order.  The daily pass filters six indicator series to the bars
//! strictly after the cutoff and zips them positionally into unified rows;
//! series whose filtered lengths diverge are a data-integrity error, never
//! silently truncated.

use vstd::prelude::*;
use crate::calendar::{Timestamp, ts_le, ts_lt, timestamp_le, timestamp_lt};
use crate::datetime::{spec_parse_datetime, parse_datetime};
use crate::records::{RawBar, RawIndicatorBar, MinuteBar, DailyRow, IndicatorTriple};

verus! {

/// Why a merge was rejected.
#[derive(Clone, Copy, Debug, PartialEq, Eq, Structural)]
pub enum MergeError {
    /// A bar carried a date string that does not denote an instant.
    BadDate,
    /// The six daily series disagreed on length after filtering.
    LengthMismatch,
}

/// Every bar's date string denotes an instant.
pub open spec fn all_dates_parse(bars: Seq<RawBar>) -> bool {
    forall|i: int| 0 <= i < bars.len() ==> #[trigger] spec_parse_datetime(bars[i].date@) is Some
}

/// The store-ready row of one raw bar whose date parses.
pub open spec fn minute_row_of(b: RawBar) -> MinuteBar {
    MinuteBar {
        time: spec_parse_datetime(b.date@).unwrap(),
        open: b.open,
        close: b.close,
        high: b.high,
        low: b.low,
        volume: b.volume,
    }
}

/// All bars of a series as store-ready rows, in the series' order.
pub open spec fn minute_rows_of(bars: Seq<RawBar>) -> Seq<MinuteBar> {
    bars.map_values(|b: RawBar| minute_row_of(b))
}

/// The rows at or after the cutoff, in the series' order.
pub open spec fn within_window(rows: Seq<MinuteBar>, cutoff: Timestamp) -> Seq<MinuteBar> {
    rows.filter(|r: MinuteBar| cutoff.time() <= r.time.time())
}

/// Rows in ascending time order.
pub open spec fn sorted_by_time(rows: Seq<MinuteBar>) -> bool {
    forall|i: int, j: int| 0 <= i < j < rows.len() ==> rows[i].time.time() <= rows[j].time.time()
}

/// Filtering a sequence extended by one element keeps the element exactly
/// when it satisfies the predicate.
pub proof fn lemma_filter_push<A>(s: Seq<A>, x: A, pred: spec_fn(A) -> bool)
    ensures
        s.push(x).filter(pred) == if pred(x) {
            s.filter(pred).push(x)
        } else {
            s.filter(pred)
        },
{
    reveal(Seq::filter);
    assert(s.push(x).drop_last() =~= s);
}

/// The position at which a row with time `t` keeps `out` sorted: every row
/// before it is at or before `t`, every row from it on is strictly after.
fn find_insert_pos(out: &Vec<MinuteBar>, t: &Timestamp) -> (pos: usize)
    requires
        sorted_by_time(out@),
    ensures
        pos <= out@.len(),
        forall|i: int| 0 <= i < pos ==> out@[i].time.time() <= t.time(),
        forall|i: int| pos <= i < out@.len() ==> t.time() < out@[i].time.time(),
{
    let mut j: usize = 0;
    while j < out.len()
        invariant
            0 <= j <= out@.len(),
            sorted_by_time(out@),
            forall|i: int| 0 <= i < j ==> out@[i].time.time() <= t.time(),
        decreases out@.len() - j,
    {
        if timestamp_lt_total(t, &out[j].time) {
            assert(forall|i: int|
                j <= i < out@.len() ==> t.time() < out@[i].time.time()) by {
                assert(forall|i: int|
                    j < i < out@.len() ==> out@[j as int].time.time() <= out@[i].time.time());
            }
            return j;
        }
        j = j + 1;
    }
    j
}

/// Compares instants by their second counts without a well-formedness bound.
fn timestamp_lt_total(a: &Timestamp, b: &Timestamp) -> (r: bool)
    ensures
        r == ts_lt(*a, *b),
{
    let at: u64 = a.day as u64 * 86_400 + a.sec as u64;
    let bt: u64 = b.day as u64 * 86_400 + b.sec as u64;
    at < bt
}

/// Merges one symbol's raw minute series: keeps exactly the bars whose
/// parsed time is at or after the cutoff, in ascending time order, without
/// introducing duplicates; rejects the series if any date string is
/// malformed.
pub fn merge_minute_bars(bars: &Vec<RawBar>, cutoff: Timestamp) -> (r: Result<
    Vec<MinuteBar>,
    MergeError,
>)
    requires
        cutoff.wf(),
    ensures
        match r {
            Ok(out) => {
                &&& all_dates_parse(bars@)
                &&& sorted_by_time(out@)
                &&& out@.to_multiset() == within_window(minute_rows_of(bars@), cutoff).to_multiset()
                &&& forall|i: int|
                    0 <= i < out@.len() ==> ts_le(cutoff, #[trigger] out@[i].time)
                        && out@[i].time.wf()
            },
            Err(e) => e == MergeError::BadDate && !all_dates_parse(bars@),
        },
{
    broadcast use vstd::seq_lib::to_multiset_insert, vstd::seq_lib::to_multiset_build;

    let ghost window: spec_fn(MinuteBar) -> bool = |r: MinuteBar| cutoff.time() <= r.time.time();
    let mut out: Vec<MinuteBar> = Vec::new();
    let mut idx: usize = 0;
    assert(minute_rows_of(bars@.take(0)).filter(window) =~= Seq::<MinuteBar>::empty());
    while idx < bars.len()
        invariant
            cutoff.wf(),
            window == (|r: MinuteBar| cutoff.time() <= r.time.time()),
            0 <= idx <= bars@.len(),
            forall|i: int|
                0 <= i < idx ==> #[trigger] spec_parse_datetime(bars@[i].date@) is Some,
            sorted_by_time(out@),
            out@.to_multiset() == minute_rows_of(bars@.take(idx as int)).filter(window).to_multiset(),
            forall|i: int|
                0 <= i < out@.len() ==> ts_le(cutoff, #[trigger] out@[i].time) && out@[i].time.wf(),
        decreases bars@.len() - idx,
    {
        let b = &bars[idx];
        let ts = match parse_datetime(b.date.as_str()) {
            Some(t) => t,
            None => {
                assert(spec_parse_datetime(bars@[idx as int].date@) is None);
                return Err(MergeError::BadDate);
            },
        };
        let row = MinuteBar {
            time: ts,
            open: b.open,
            close: b.close,
            high: b.high,
            low: b.low,
            volume: b.volume,
        };
        let ghost prev_rows = minute_rows_of(bars@.take(idx as int));
        proof {
            assert(bars@.take(idx as int + 1) =~= bars@.take(idx as int).push(bars@[idx as int]));
            assert(minute_rows_of(bars@.take(idx as int + 1)) =~= prev_rows.push(row));
            lemma_filter_push(prev_rows, row, window);
        }
        if timestamp_le(&cutoff, &ts) {
            assert(window(row));
            let pos = find_insert_pos(&out, &ts);
            let ghost old_out = out@;
            out.insert(pos, row);
            proof {
                assert(out@ == old_out.insert(pos as int, row));
                vstd::seq_lib::to_multiset_insert(old_out, pos as int, row);
                assert(minute_rows_of(bars@.take(idx as int + 1)).filter(window) == prev_rows.filter(
                    window,
                ).push(row));
                vstd::seq_lib::to_multiset_build(prev_rows.filter(window), row);
                assert(prev_rows.filter(window).push(row).to_multiset() =~= prev_rows.filter(
                    window,
                ).to_multiset().insert(row));
                assert forall|i: int, j: int| 0 <= i < j < out@.len() implies out@[i].time.time()
                    <= out@[j].time.time() by {
                    if j < pos {
                    } else if i < pos && j == pos {
                    } else if i < pos && j > pos {
                    } else if i == pos {
                    } else {
                    }
                }
            }
        } else {
            assert(!window(row)) by {
                assert(ts.time() < cutoff.time());
            }
        }
        idx = idx + 1;
    }
    proof {
        assert(bars@.take(idx as int) =~= bars@);
    }
    Ok(out)
}

/// Every indicator bar's date string denotes an instant.
pub open spec fn all_ind_dates_parse(bars: Seq<RawIndicatorBar>) -> bool {
    forall|i: int| 0 <= i < bars.len() ==> #[trigger] spec_parse_datetime(bars[i].date@) is Some
}

/// The instant an indicator bar's date denotes, where it denotes one.
pub open spec fn ind_time(b: RawIndicatorBar) -> Timestamp {
    spec_parse_datetime(b.date@).unwrap()
}

/// The bars strictly after the cutoff, in the series' order.
pub open spec fn after_window(bars: Seq<RawIndicatorBar>, cutoff: Timestamp) -> Seq<
    RawIndicatorBar,
> {
    bars.filter(|b: RawIndicatorBar| cutoff.time() < ind_time(b).time())
}

/// The unified rows of six aligned, equally long series: row `i` takes its
/// date, OHLC and volume from the EMA period-5 series, its EMA vector from
/// the three EMA series and its SMA vector from the three SMA series, each
/// ordered period 5, period 20, period 60.
pub open spec fn zip_rows(
    e5: Seq<RawIndicatorBar>,
    e20: Seq<RawIndicatorBar>,
    e60: Seq<RawIndicatorBar>,
    s5: Seq<RawIndicatorBar>,
    s20: Seq<RawIndicatorBar>,
    s60: Seq<RawIndicatorBar>,
) -> Seq<DailyRow> {
    Seq::new(
        e5.len(),
        |i: int|
            DailyRow {
                time: ind_time(e5[i]),
                open: e5[i].open,
                close: e5[i].close,
                high: e5[i].high,
                low: e5[i].low,
                ema: IndicatorTriple {
                    period5: e5[i].value,
                    period20: e20[i].value,
                    period60: e60[i].value,
                },
                sma: IndicatorTriple {
                    period5: s5[i].value,
                    period20: s20[i].value,
                    period60: s60[i].value,
                },
                volume: e5[i].volume,
            },
    )
}

/// Daily rows in ascending time order.
pub open spec fn daily_sorted_by_time(rows: Seq<DailyRow>) -> bool {
    forall|i: int, j: int| 0 <= i < j < rows.len() ==> rows[i].time.time() <= rows[j].time.time()
}

/// Keeps the bars of one series strictly after the cutoff; rejects the
/// series if any date string is malformed.
fn filter_indicator_series(bars: &Vec<RawIndicatorBar>, cutoff: Timestamp) -> (r: Result<
    Vec<RawIndicatorBar>,
    MergeError,
>)
    requires
        cutoff.wf(),
    ensures
        match r {
            Ok(out) => all_ind_dates_parse(bars@) && out@ == after_window(bars@, cutoff)
                && all_ind_dates_parse(out@),
            Err(e) => e == MergeError::BadDate && !all_ind_dates_parse(bars@),
        },
{
    let ghost pred: spec_fn(RawIndicatorBar) -> bool = |b: RawIndicatorBar|
        cutoff.time() < ind_time(b).time();
    let mut out: Vec<RawIndicatorBar> = Vec::new();
    let mut idx: usize = 0;
    assert(bars@.take(0).filter(pred) =~= Seq::<RawIndicatorBar>::empty());
    while idx < bars.len()
        invariant
            cutoff.wf(),
            pred == (|b: RawIndicatorBar| cutoff.time() < ind_time(b).time()),
            0 <= idx <= bars@.len(),
            forall|i: int|
                0 <= i < idx ==> #[trigger] spec_parse_datetime(bars@[i].date@) is Some,
            out@ == bars@.take(idx as int).filter(pred),
            all_ind_dates_parse(out@),
        decreases bars@.len() - idx,
    {
        let b = &bars[idx];
        let ts = match parse_datetime(b.date.as_str()) {
            Some(t) => t,
            None => {
                assert(spec_parse_datetime(bars@[idx as int].date@) is None);
                return Err(MergeError::BadDate);
            },
        };
        proof {
            assert(bars@.take(idx as int + 1) =~= bars@.take(idx as int).push(bars@[idx as int]));
            lemma_filter_push(bars@.take(idx as int), bars@[idx as int], pred);
        }
        if timestamp_lt(&cutoff, &ts) {
            out.push(b.duplicate());
            assert(out@ =~= bars@.take(idx as int + 1).filter(pred));
        } else {
            assert(!pred(bars@[idx as int])) by {
                assert(ts.time() <= cutoff.time());
            }
        }
        idx = idx + 1;
    }
    proof {
        assert(bars@.take(idx as int) =~= bars@);
    }
    Ok(out)
}

/// The position at which a daily row with time `t` keeps `out` sorted.
fn find_daily_insert_pos(out: &Vec<DailyRow>, t: &Timestamp) -> (pos: usize)
    requires
        daily_sorted_by_time(out@),
    ensures
        pos <= out@.len(),
        forall|i: int| 0 <= i < pos ==> out@[i].time.time() <= t.time(),
        forall|i: int| pos <= i < out@.len() ==> t.time() < out@[i].time.time(),
{
    let mut j: usize = 0;
    while j < out.len()
        invariant
            0 <= j <= out@.len(),
            daily_sorted_by_time(out@),
            forall|i: int| 0 <= i < j ==> out@[i].time.time() <= t.time(),
        decreases out@.len() - j,
    {
        if timestamp_lt_total(t, &out[j].time) {
            assert(forall|i: int|
                j <= i < out@.len() ==> t.time() < out@[i].time.time()) by {
                assert(forall|i: int|
                    j < i < out@.len() ==> out@[j as int].time.time() <= out@[i].time.time());
            }
            return j;
        }
        j = j + 1;
    }
    j
}

/// Reorders daily rows into ascending time order, keeping exactly the
/// same rows.
fn sort_daily_rows(rows: Vec<DailyRow>) -> (out: Vec<DailyRow>)
    ensures
        daily_sorted_by_time(out@),
        out@.to_multiset() == rows@.to_multiset(),
        out@.len() == rows@.len(),
{
    broadcast use vstd::seq_lib::to_multiset_insert, vstd::seq_lib::to_multiset_build;

    let mut out: Vec<DailyRow> = Vec::new();
    let mut idx: usize = 0;
    assert(rows@.take(0) =~= Seq::<DailyRow>::empty());
    while idx < rows.len()
        invariant
            0 <= idx <= rows@.len(),
            daily_sorted_by_time(out@),
            out@.to_multiset() == rows@.take(idx as int).to_multiset(),
            out@.len() == idx,
        decreases rows@.len() - idx,
    {
        let row = rows[idx];
        assert(row == rows@[idx as int]);
        let pos = find_daily_insert_pos(&out, &row.time);
        let ghost old_out = out@;
        out.insert(pos, row);
        proof {
            assert(out@ == old_out.insert(pos as int, row));
            vstd::seq_lib::to_multiset_insert(old_out, pos as int, row);
            assert(rows@.take(idx as int + 1) =~= rows@.take(idx as int).push(rows@[idx as int]));
            vstd::seq_lib::to_multiset_build(rows@.take(idx as int), rows@[idx as int]);
            assert forall|i: int, j: int| 0 <= i < j < out@.len() implies out@[i].time.time()
                <= out@[j].time.time() by {
                if j < pos {
                } else if i < pos && j == pos {
                } else if i < pos && j > pos {
                } else if i == pos {
                } else {
                }
            }
        }
        idx = idx + 1;
    }
    proof {
        assert(rows@.take(idx as int) =~= rows@);
    }
    out
}

/// Merges one symbol's six daily indicator series: filters each to the bars
/// strictly after the cutoff, requires the six filtered series to be equally
/// long, and zips them positionally into unified rows in ascending time
/// order.  A malformed date string rejects the merge, and so do diverging
/// filtered lengths — the merge never truncates to the shortest series.
pub fn merge_daily_indicators(
    ema5: &Vec<RawIndicatorBar>,
    ema20: &Vec<RawIndicatorBar>,
    ema60: &Vec<RawIndicatorBar>,
    sma5: &Vec<RawIndicatorBar>,
    sma20: &Vec<RawIndicatorBar>,
    sma60: &Vec<RawIndicatorBar>,
    cutoff: Timestamp,
) -> (r: Result<Vec<DailyRow>, MergeError>)
    requires
        cutoff.wf(),
    ensures
        ({
            let all_parse = all_ind_dates_parse(ema5@) && all_ind_dates_parse(ema20@)
                && all_ind_dates_parse(ema60@) && all_ind_dates_parse(sma5@)
                && all_ind_dates_parse(sma20@) && all_ind_dates_parse(sma60@);
            let f_e5 = after_window(ema5@, cutoff);
            let f_e20 = after_window(ema20@, cutoff);
            let f_e60 = after_window(ema60@, cutoff);
            let f_s5 = after_window(sma5@, cutoff);
            let f_s20 = after_window(sma20@, cutoff);
            let f_s60 = after_window(sma60@, cutoff);
            let aligned = f_e20.len() == f_e5.len() && f_e60.len() == f_e5.len() && f_s5.len()
                == f_e5.len() && f_s20.len() == f_e5.len() && f_s60.len() == f_e5.len();
            match r {
                Ok(out) => {
                    &&& all_parse
                    &&& aligned
                    &&& out@.len() == f_e5.len()
                    &&& daily_sorted_by_time(out@)
                    &&& out@.to_multiset() == zip_rows(
                        f_e5,
                        f_e20,
                        f_e60,
                        f_s5,
                        f_s20,
                        f_s60,
                    ).to_multiset()
                },
                Err(MergeError::BadDate) => !all_parse,
                Err(MergeError::LengthMismatch) => all_parse && !aligned,
            }
        }),
{
    let f_e5 = filter_indicator_series(ema5, cutoff)?;
    let f_e20 = filter_indicator_series(ema20, cutoff)?;
    let f_e60 = filter_indicator_series(ema60, cutoff)?;
    let f_s5 = filter_indicator_series(sma5, cutoff)?;
    let f_s20 = filter_indicator_series(sma20, cutoff)?;
    let f_s60 = filter_indicator_series(sma60, cutoff)?;
    let n = f_e5.len();
    if f_e20.len() != n || f_e60.len() != n || f_s5.len() != n || f_s20.len() != n || f_s60.len()
        != n {
        return Err(MergeError::LengthMismatch);
    }
    let ghost zipped = zip_rows(f_e5@, f_e20@, f_e60@, f_s5@, f_s20@, f_s60@);
    let mut rows: Vec<DailyRow> = Vec::new();
    let mut i: usize = 0;
    while i < n
        invariant
            0 <= i <= n == f_e5@.len(),
            f_e20@.len() == n && f_e60@.len() == n && f_s5@.len() == n && f_s20@.len() == n
                && f_s60@.len() == n,
            zipped == zip_rows(f_e5@, f_e20@, f_e60@, f_s5@, f_s20@, f_s60@),
            all_ind_dates_parse(f_e5@),
            rows@ =~= zipped.take(i as int),
        decreases n - i,
    {
        let row = DailyRow {
            time: match parse_datetime(f_e5[i].date.as_str()) {
                Some(t) => t,
                None => {
                    assert(false);
                    return Err(MergeError::BadDate);
                },
            },
            open: f_e5[i].open,
            close: f_e5[i].close,
            high: f_e5[i].high,
            low: f_e5[i].low,
            ema: IndicatorTriple {
                period5: f_e5[i].value,
                period20: f_e20[i].value,
                period60: f_e60[i].value,
            },
            sma: IndicatorTriple {
                period5: f_s5[i].value,
                period20: f_s20[i].value,
                period60: f_s60[i].value,
            },
            volume: f_e5[i].volume,
        };
        rows.push(row);
        assert(rows@ =~= zipped.take(i as int + 1));
        i = i + 1;
    }
    proof {
        assert(zipped.take(n as int) =~= zipped);
    }
    Ok(sort_daily_rows(rows))
}

} // verus!
