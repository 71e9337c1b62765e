//! The three refresh passes, each an all-or-nothing batch.
//!
//! A pass takes what the upstream provider returned for every symbol of the
//! roster — the caller performs the network round-trips and hands the
//! outcomes in — validates and merges all of it, and only then touches the
//! store.  If any symbol's outcome is a failure or malformed, the pass
//! reports the first offender and leaves the store exactly as it was:
//! partial ingestion is considered worse than a full retry on the next fire.

use vstd::prelude::*;
use crate::calendar::{Timestamp, ts_le};
use crate::records::{ProfileData, RawBar, RawIndicatorBar, MinuteBar, DailyRow};
use crate::store::{Store, ProfileRow, MinuteRecord, DailyRecord, profiles_sorted};
use crate::merge::{all_dates_parse, minute_rows_of, within_window, sorted_by_time,
    all_ind_dates_parse, after_window, zip_rows, daily_sorted_by_time, MergeError,
    merge_minute_bars, merge_daily_indicators,
};

verus! {

/// What one upstream call produced: a payload, or the reason it failed.
pub enum FetchOutcome<T> {
    Success(T),
    Failure(String),
}

/// One roster entry's fetch: the symbol and what came back for it.
pub struct SymbolFetch<T> {
    pub symbol: String,
    pub outcome: FetchOutcome<T>,
}

/// Why a pass was aborted.
#[derive(Clone, Copy, Debug, PartialEq, Eq, Structural)]
pub enum PassErrorKind {
    /// The upstream call for the symbol failed.
    FetchFailed,
    /// The profile response did not hold exactly one profile.
    MalformedProfile,
    /// A series carried a malformed date string.
    BadDate,
    /// The six indicator series disagreed on length after filtering.
    LengthMismatch,
}

/// A pass abort: the first offending symbol and what was wrong with it.
#[derive(Debug)]
pub struct PassError {
    pub symbol: String,
    pub kind: PassErrorKind,
}

/// A profile entry is usable when its fetch succeeded and the response
/// holds exactly one profile.
pub open spec fn profile_entry_ok(e: SymbolFetch<Vec<ProfileData>>) -> bool {
    e.outcome matches FetchOutcome::Success(v) && v@.len() == 1
}

/// The single profile of a usable entry.
pub open spec fn profile_entry_data(e: SymbolFetch<Vec<ProfileData>>) -> ProfileData {
    e.outcome->Success_0@[0]
}

/// What is wrong with an unusable profile entry.
pub open spec fn profile_fail_kind(e: SymbolFetch<Vec<ProfileData>>) -> PassErrorKind {
    if e.outcome matches FetchOutcome::Failure(_) {
        PassErrorKind::FetchFailed
    } else {
        PassErrorKind::MalformedProfile
    }
}

/// The profile table after overwriting the rows keyed `sym` with `data`.
pub open spec fn update_one(profiles: Seq<ProfileRow>, sym: Seq<char>, data: ProfileData) -> Seq<
    ProfileRow,
> {
    Seq::new(
        profiles.len(),
        |i: int|
            if profiles[i].symbol@ == sym {
                ProfileRow { symbol: profiles[i].symbol, data }
            } else {
                profiles[i]
            },
    )
}

/// The profile table after applying the first `n` fetched profiles in order.
pub open spec fn apply_updates(
    profiles: Seq<ProfileRow>,
    fetched: Seq<SymbolFetch<Vec<ProfileData>>>,
    n: int,
) -> Seq<ProfileRow>
    decreases n,
{
    if n <= 0 {
        profiles
    } else {
        update_one(
            apply_updates(profiles, fetched, n - 1),
            fetched[n - 1].symbol@,
            profile_entry_data(fetched[n - 1]),
        )
    }
}

/// Applying profile updates never adds, removes or re-keys a row.
pub proof fn lemma_apply_updates_shape(
    profiles: Seq<ProfileRow>,
    fetched: Seq<SymbolFetch<Vec<ProfileData>>>,
    n: int,
)
    ensures
        apply_updates(profiles, fetched, n).len() == profiles.len(),
        forall|i: int|
            0 <= i < profiles.len() ==> #[trigger] apply_updates(profiles, fetched, n)[i].symbol
                == profiles[i].symbol,
    decreases n,
{
    if n > 0 {
        lemma_apply_updates_shape(profiles, fetched, n - 1);
    }
}

/// The profile refresh: overwrites each fetched symbol's profile row, as
/// one all-or-nothing batch.  If any entry failed or holds anything but a
/// single profile, the store is left untouched and the error names the
/// first such symbol; otherwise every update is applied and the count of
/// applied entries is returned.
pub fn run_profile_pass(store: &mut Store, fetched: &Vec<SymbolFetch<Vec<ProfileData>>>) -> (r:
    Result<usize, PassError>)
    ensures
        (r is Err) == !(forall|i: int|
            0 <= i < fetched@.len() ==> profile_entry_ok(#[trigger] fetched@[i])),
        match r {
            Ok(n) => {
                &&& n == fetched@.len()
                &&& final(store).profiles@ == apply_updates(
                    old(store).profiles@,
                    fetched@,
                    fetched@.len() as int,
                )
                &&& final(store).minute_bars@ == old(store).minute_bars@
                &&& final(store).daily_rows@ == old(store).daily_rows@
                &&& final(store).profiles@.len() == old(store).profiles@.len()
                &&& forall|i: int|
                    0 <= i < old(store).profiles@.len()
                        ==> #[trigger] final(store).profiles@[i].symbol
                        == old(store).profiles@[i].symbol
                &&& old(store).wf() ==> final(store).wf()
            },
            Err(e) => {
                &&& *final(store) == *old(store)
                &&& exists|k: int|
                    {
                        &&& 0 <= k < fetched@.len()
                        &&& !profile_entry_ok(#[trigger] fetched@[k])
                        &&& forall|i: int| 0 <= i < k ==> profile_entry_ok(#[trigger] fetched@[i])
                        &&& e.symbol == fetched@[k].symbol
                        &&& e.kind == profile_fail_kind(fetched@[k])
                    }
            },
        },
{
    let n = fetched.len();
    let mut k: usize = 0;
    while k < n
        invariant
            n == fetched@.len(),
            0 <= k <= n,
            forall|i: int| 0 <= i < k ==> profile_entry_ok(#[trigger] fetched@[i]),
        decreases n - k,
    {
        match &fetched[k].outcome {
            FetchOutcome::Failure(_) => {
                assert(!profile_entry_ok(fetched@[k as int]));
                return Err(
                    PassError { symbol: fetched[k].symbol.clone(), kind: PassErrorKind::FetchFailed },
                );
            },
            FetchOutcome::Success(v) => {
                if v.len() != 1 {
                    assert(!profile_entry_ok(fetched@[k as int]));
                    return Err(
                        PassError {
                            symbol: fetched[k].symbol.clone(),
                            kind: PassErrorKind::MalformedProfile,
                        },
                    );
                }
            },
        }
        assert(profile_entry_ok(fetched@[k as int]));
        k = k + 1;
    }
    let ghost base = store.profiles@;
    let mut k: usize = 0;
    while k < n
        invariant
            n == fetched@.len(),
            0 <= k <= n,
            forall|i: int| 0 <= i < n ==> profile_entry_ok(#[trigger] fetched@[i]),
            base == old(store).profiles@,
            store.profiles@ == apply_updates(base, fetched@, k as int),
            store.minute_bars@ == old(store).minute_bars@,
            store.daily_rows@ == old(store).daily_rows@,
        decreases n - k,
    {
        let ghost pre = store.profiles@;
        let ghost sym = fetched@[k as int].symbol@;
        let data = match &fetched[k].outcome {
            FetchOutcome::Success(v) => v[0].duplicate(),
            FetchOutcome::Failure(_) => {
                assert(false);
                return Err(
                    PassError { symbol: fetched[k].symbol.clone(), kind: PassErrorKind::FetchFailed },
                );
            },
        };
        assert(data == profile_entry_data(fetched@[k as int]));
        let m = store.profiles.len();
        let mut j: usize = 0;
        while j < m
            invariant
                n == fetched@.len(),
                0 <= k < n,
                0 <= j <= m == store.profiles@.len() == pre.len(),
                data == profile_entry_data(fetched@[k as int]),
                sym == fetched@[k as int].symbol@,
                forall|i: int| 0 <= i < j ==> store.profiles@[i] == update_one(pre, sym, data)[i],
                forall|i: int| j <= i < pre.len() ==> store.profiles@[i] == pre[i],
                store.minute_bars@ == old(store).minute_bars@,
                store.daily_rows@ == old(store).daily_rows@,
            decreases m - j,
        {
            if str_eq_at(store, j, fetched, k) {
                let row = ProfileRow {
                    symbol: store.profiles[j].symbol.clone(),
                    data: data.duplicate(),
                };
                store.profiles[j] = row;
            }
            j = j + 1;
        }
        proof {
            assert(store.profiles@ =~= update_one(pre, sym, data));
        }
        k = k + 1;
    }
    proof {
        lemma_apply_updates_shape(base, fetched@, n as int);
        if old(store).wf() {
            assert(profiles_sorted(store.profiles@)) by {
                assert(forall|i: int, j: int|
                    0 <= i < j < store.profiles@.len() ==> crate::store::lex_lt(
                        #[trigger] store.profiles@[i].symbol@,
                        #[trigger] store.profiles@[j].symbol@,
                    ));
            }
        }
    }
    Ok(n)
}

/// One symbol's merged minute rows, ready to append to the store.
#[derive(Debug)]
pub struct SymbolRows {
    pub symbol: String,
    pub rows: Vec<MinuteBar>,
}

/// A minute entry is usable when its fetch succeeded and every bar's date
/// string parses.
pub open spec fn minute_entry_ok(e: SymbolFetch<Vec<RawBar>>) -> bool {
    e.outcome matches FetchOutcome::Success(bars) && all_dates_parse(bars@)
}

/// What is wrong with an unusable minute entry.
pub open spec fn minute_fail_kind(e: SymbolFetch<Vec<RawBar>>) -> PassErrorKind {
    if e.outcome matches FetchOutcome::Failure(_) {
        PassErrorKind::FetchFailed
    } else {
        PassErrorKind::BadDate
    }
}

/// One symbol's batch as store rows, each tagged with the symbol.
pub open spec fn tagged_minute(sr: SymbolRows) -> Seq<MinuteRecord> {
    sr.rows@.map_values(|b: MinuteBar| MinuteRecord { symbol: sr.symbol, bar: b })
}

/// A whole batch as store rows, symbol by symbol in roster order.
pub open spec fn flatten_minute(batch: Seq<SymbolRows>) -> Seq<MinuteRecord>
    decreases batch.len(),
{
    if batch.len() == 0 {
        Seq::empty()
    } else {
        flatten_minute(batch.drop_last()) + tagged_minute(batch.last())
    }
}

/// The minute-bar refresh: merges each symbol's raw series against the
/// cutoff and appends all merged rows to the store, as one all-or-nothing
/// batch.  If any entry failed or carries a malformed date, the store is
/// left untouched and the error names the first such symbol; otherwise the
/// appended batch is returned, one row group per roster entry, each group
/// sorted ascending in time and holding exactly the bars at or after the
/// cutoff.  Existing rows are never touched: the table is append-only.
pub fn run_minute_pass(
    store: &mut Store,
    fetched: &Vec<SymbolFetch<Vec<RawBar>>>,
    cutoff: Timestamp,
) -> (r: Result<Vec<SymbolRows>, PassError>)
    requires
        cutoff.wf(),
    ensures
        (r is Err) == !(forall|i: int|
            0 <= i < fetched@.len() ==> minute_entry_ok(#[trigger] fetched@[i])),
        match r {
            Ok(batch) => {
                &&& batch@.len() == fetched@.len()
                &&& forall|i: int|
                    0 <= i < batch@.len() ==> (#[trigger] batch@[i]).symbol == fetched@[i].symbol
                        && sorted_by_time(batch@[i].rows@) && batch@[i].rows@.to_multiset()
                        == within_window(
                        minute_rows_of(fetched@[i].outcome->Success_0@),
                        cutoff,
                    ).to_multiset() && (forall|q: int|
                        0 <= q < batch@[i].rows@.len() ==> ts_le(
                            cutoff,
                            #[trigger] batch@[i].rows@[q].time,
                        ))
                &&& final(store).minute_bars@ == old(store).minute_bars@ + flatten_minute(batch@)
                &&& final(store).profiles@ == old(store).profiles@
                &&& final(store).daily_rows@ == old(store).daily_rows@
            },
            Err(e) => {
                &&& *final(store) == *old(store)
                &&& exists|k: int|
                    {
                        &&& 0 <= k < fetched@.len()
                        &&& !minute_entry_ok(#[trigger] fetched@[k])
                        &&& forall|i: int| 0 <= i < k ==> minute_entry_ok(#[trigger] fetched@[i])
                        &&& e.symbol == fetched@[k].symbol
                        &&& e.kind == minute_fail_kind(fetched@[k])
                    }
            },
        },
{
    let n = fetched.len();
    let mut batch: Vec<SymbolRows> = Vec::new();
    let mut k: usize = 0;
    while k < n
        invariant
            cutoff.wf(),
            n == fetched@.len(),
            0 <= k <= n,
            batch@.len() == k,
            forall|i: int| 0 <= i < k ==> minute_entry_ok(#[trigger] fetched@[i]),
            forall|i: int|
                0 <= i < k ==> (#[trigger] batch@[i]).symbol == fetched@[i].symbol
                    && sorted_by_time(batch@[i].rows@) && batch@[i].rows@.to_multiset()
                    == within_window(
                    minute_rows_of(fetched@[i].outcome->Success_0@),
                    cutoff,
                ).to_multiset() && (forall|q: int|
                    0 <= q < batch@[i].rows@.len() ==> ts_le(
                        cutoff,
                        #[trigger] batch@[i].rows@[q].time,
                    )),
        decreases n - k,
    {
        let rows = match &fetched[k].outcome {
            FetchOutcome::Failure(_) => {
                assert(!minute_entry_ok(fetched@[k as int]));
                return Err(
                    PassError { symbol: fetched[k].symbol.clone(), kind: PassErrorKind::FetchFailed },
                );
            },
            FetchOutcome::Success(bars) => {
                match merge_minute_bars(bars, cutoff) {
                    Ok(rows) => rows,
                    Err(_) => {
                        assert(!minute_entry_ok(fetched@[k as int]));
                        return Err(
                            PassError {
                                symbol: fetched[k].symbol.clone(),
                                kind: PassErrorKind::BadDate,
                            },
                        );
                    },
                }
            },
        };
        batch.push(SymbolRows { symbol: fetched[k].symbol.clone(), rows });
        k = k + 1;
    }
    let ghost base = store.minute_bars@;
    let mut k: usize = 0;
    while k < n
        invariant
            n == batch@.len(),
            0 <= k <= n,
            base == old(store).minute_bars@,
            store.minute_bars@ == base + flatten_minute(batch@.take(k as int)),
            store.profiles@ == old(store).profiles@,
            store.daily_rows@ == old(store).daily_rows@,
        decreases n - k,
    {
        let ghost pre = store.minute_bars@;
        let m = batch[k].rows.len();
        let mut j: usize = 0;
        while j < m
            invariant
                n == batch@.len(),
                0 <= k < n,
                0 <= j <= m == batch@[k as int].rows@.len(),
                store.minute_bars@ == pre + tagged_minute(batch@[k as int]).take(j as int),
                store.profiles@ == old(store).profiles@,
                store.daily_rows@ == old(store).daily_rows@,
            decreases m - j,
        {
            let rec = MinuteRecord { symbol: batch[k].symbol.clone(), bar: batch[k].rows[j] };
            store.minute_bars.push(rec);
            proof {
                assert(tagged_minute(batch@[k as int]).take(j as int + 1) =~= tagged_minute(
                    batch@[k as int],
                ).take(j as int).push(rec));
                assert(store.minute_bars@ =~= pre + tagged_minute(batch@[k as int]).take(
                    j as int + 1,
                ));
            }
            j = j + 1;
        }
        proof {
            assert(tagged_minute(batch@[k as int]).take(m as int) =~= tagged_minute(
                batch@[k as int],
            ));
            assert(batch@.take(k as int + 1).drop_last() =~= batch@.take(k as int));
            assert(batch@.take(k as int + 1).last() == batch@[k as int]);
            assert(store.minute_bars@ =~= base + flatten_minute(batch@.take(k as int + 1)));
        }
        k = k + 1;
    }
    proof {
        assert(batch@.take(n as int) =~= batch@);
    }
    Ok(batch)
}

/// The six daily indicator series fetched for one symbol: the EMA and SMA
/// families, each for the 5, 20 and 60 day periods.
pub struct IndicatorSeries {
    pub ema5: Vec<RawIndicatorBar>,
    pub ema20: Vec<RawIndicatorBar>,
    pub ema60: Vec<RawIndicatorBar>,
    pub sma5: Vec<RawIndicatorBar>,
    pub sma20: Vec<RawIndicatorBar>,
    pub sma60: Vec<RawIndicatorBar>,
}

/// Every date string of all six series parses.
pub open spec fn series_dates_parse(s: IndicatorSeries) -> bool {
    all_ind_dates_parse(s.ema5@) && all_ind_dates_parse(s.ema20@) && all_ind_dates_parse(s.ema60@)
        && all_ind_dates_parse(s.sma5@) && all_ind_dates_parse(s.sma20@) && all_ind_dates_parse(
        s.sma60@,
    )
}

/// The six series agree on length once filtered to the window.
pub open spec fn series_aligned(s: IndicatorSeries, cutoff: Timestamp) -> bool {
    let n = after_window(s.ema5@, cutoff).len();
    after_window(s.ema20@, cutoff).len() == n && after_window(s.ema60@, cutoff).len() == n
        && after_window(s.sma5@, cutoff).len() == n && after_window(s.sma20@, cutoff).len() == n
        && after_window(s.sma60@, cutoff).len() == n
}

/// A daily entry is usable when its fetch succeeded, every date parses and
/// the six filtered series are equally long.
pub open spec fn daily_entry_ok(e: SymbolFetch<IndicatorSeries>, cutoff: Timestamp) -> bool {
    e.outcome matches FetchOutcome::Success(s) && series_dates_parse(s) && series_aligned(
        s,
        cutoff,
    )
}

/// What is wrong with an unusable daily entry.
pub open spec fn daily_fail_kind(e: SymbolFetch<IndicatorSeries>, cutoff: Timestamp) -> PassErrorKind {
    if e.outcome matches FetchOutcome::Failure(_) {
        PassErrorKind::FetchFailed
    } else if !series_dates_parse(e.outcome->Success_0) {
        PassErrorKind::BadDate
    } else {
        PassErrorKind::LengthMismatch
    }
}

/// The unified rows a usable daily entry merges to, before ordering.
pub open spec fn daily_zip_of(s: IndicatorSeries, cutoff: Timestamp) -> Seq<DailyRow> {
    zip_rows(
        after_window(s.ema5@, cutoff),
        after_window(s.ema20@, cutoff),
        after_window(s.ema60@, cutoff),
        after_window(s.sma5@, cutoff),
        after_window(s.sma20@, cutoff),
        after_window(s.sma60@, cutoff),
    )
}

/// One symbol's merged daily rows, ready to append to the store.
#[derive(Debug)]
pub struct SymbolDailyRows {
    pub symbol: String,
    pub rows: Vec<DailyRow>,
}

/// One symbol's daily batch as store rows, each tagged with the symbol.
pub open spec fn tagged_daily(sr: SymbolDailyRows) -> Seq<DailyRecord> {
    sr.rows@.map_values(|b: DailyRow| DailyRecord { symbol: sr.symbol, row: b })
}

/// A whole daily batch as store rows, symbol by symbol in roster order.
pub open spec fn flatten_daily(batch: Seq<SymbolDailyRows>) -> Seq<DailyRecord>
    decreases batch.len(),
{
    if batch.len() == 0 {
        Seq::empty()
    } else {
        flatten_daily(batch.drop_last()) + tagged_daily(batch.last())
    }
}

/// The daily-indicator refresh: merges each symbol's six series against the
/// cutoff and appends all unified rows to the store, as one all-or-nothing
/// batch.  If any entry failed, carries a malformed date or has diverging
/// filtered lengths, the store is left untouched and the error names the
/// first such symbol; otherwise the appended batch is returned, one row
/// group per roster entry, each group sorted ascending in time and holding
/// exactly the positional zip of the six filtered series.  Existing rows
/// are never touched: the table is append-only.
pub fn run_daily_pass(
    store: &mut Store,
    fetched: &Vec<SymbolFetch<IndicatorSeries>>,
    cutoff: Timestamp,
) -> (r: Result<Vec<SymbolDailyRows>, PassError>)
    requires
        cutoff.wf(),
    ensures
        (r is Err) == !(forall|i: int|
            0 <= i < fetched@.len() ==> daily_entry_ok(#[trigger] fetched@[i], cutoff)),
        match r {
            Ok(batch) => {
                &&& batch@.len() == fetched@.len()
                &&& forall|i: int|
                    0 <= i < batch@.len() ==> (#[trigger] batch@[i]).symbol == fetched@[i].symbol
                        && daily_sorted_by_time(batch@[i].rows@) && batch@[i].rows@.to_multiset()
                        == daily_zip_of(fetched@[i].outcome->Success_0, cutoff).to_multiset()
                        && batch@[i].rows@.len() == after_window(
                        fetched@[i].outcome->Success_0.ema5@,
                        cutoff,
                    ).len()
                &&& final(store).daily_rows@ == old(store).daily_rows@ + flatten_daily(batch@)
                &&& final(store).profiles@ == old(store).profiles@
                &&& final(store).minute_bars@ == old(store).minute_bars@
            },
            Err(e) => {
                &&& *final(store) == *old(store)
                &&& exists|k: int|
                    {
                        &&& 0 <= k < fetched@.len()
                        &&& !daily_entry_ok(#[trigger] fetched@[k], cutoff)
                        &&& forall|i: int|
                            0 <= i < k ==> daily_entry_ok(#[trigger] fetched@[i], cutoff)
                        &&& e.symbol == fetched@[k].symbol
                        &&& e.kind == daily_fail_kind(fetched@[k], cutoff)
                    }
            },
        },
{
    let n = fetched.len();
    let mut batch: Vec<SymbolDailyRows> = Vec::new();
    let mut k: usize = 0;
    while k < n
        invariant
            cutoff.wf(),
            n == fetched@.len(),
            0 <= k <= n,
            batch@.len() == k,
            forall|i: int| 0 <= i < k ==> daily_entry_ok(#[trigger] fetched@[i], cutoff),
            forall|i: int|
                0 <= i < k ==> (#[trigger] batch@[i]).symbol == fetched@[i].symbol
                    && daily_sorted_by_time(batch@[i].rows@) && batch@[i].rows@.to_multiset()
                    == daily_zip_of(fetched@[i].outcome->Success_0, cutoff).to_multiset()
                    && batch@[i].rows@.len() == after_window(
                    fetched@[i].outcome->Success_0.ema5@,
                    cutoff,
                ).len(),
        decreases n - k,
    {
        let rows = match &fetched[k].outcome {
            FetchOutcome::Failure(_) => {
                assert(!daily_entry_ok(fetched@[k as int], cutoff));
                return Err(
                    PassError { symbol: fetched[k].symbol.clone(), kind: PassErrorKind::FetchFailed },
                );
            },
            FetchOutcome::Success(s) => {
                match merge_daily_indicators(
                    &s.ema5,
                    &s.ema20,
                    &s.ema60,
                    &s.sma5,
                    &s.sma20,
                    &s.sma60,
                    cutoff,
                ) {
                    Ok(rows) => rows,
                    Err(MergeError::BadDate) => {
                        assert(!daily_entry_ok(fetched@[k as int], cutoff));
                        return Err(
                            PassError {
                                symbol: fetched[k].symbol.clone(),
                                kind: PassErrorKind::BadDate,
                            },
                        );
                    },
                    Err(MergeError::LengthMismatch) => {
                        assert(!daily_entry_ok(fetched@[k as int], cutoff));
                        return Err(
                            PassError {
                                symbol: fetched[k].symbol.clone(),
                                kind: PassErrorKind::LengthMismatch,
                            },
                        );
                    },
                }
            },
        };
        batch.push(SymbolDailyRows { symbol: fetched[k].symbol.clone(), rows });
        k = k + 1;
    }
    let ghost base = store.daily_rows@;
    let mut k: usize = 0;
    while k < n
        invariant
            n == batch@.len(),
            0 <= k <= n,
            base == old(store).daily_rows@,
            store.daily_rows@ == base + flatten_daily(batch@.take(k as int)),
            store.profiles@ == old(store).profiles@,
            store.minute_bars@ == old(store).minute_bars@,
        decreases n - k,
    {
        let ghost pre = store.daily_rows@;
        let m = batch[k].rows.len();
        let mut j: usize = 0;
        while j < m
            invariant
                n == batch@.len(),
                0 <= k < n,
                0 <= j <= m == batch@[k as int].rows@.len(),
                store.daily_rows@ == pre + tagged_daily(batch@[k as int]).take(j as int),
                store.profiles@ == old(store).profiles@,
                store.minute_bars@ == old(store).minute_bars@,
            decreases m - j,
        {
            let rec = DailyRecord { symbol: batch[k].symbol.clone(), row: batch[k].rows[j] };
            store.daily_rows.push(rec);
            proof {
                assert(tagged_daily(batch@[k as int]).take(j as int + 1) =~= tagged_daily(
                    batch@[k as int],
                ).take(j as int).push(rec));
                assert(store.daily_rows@ =~= pre + tagged_daily(batch@[k as int]).take(
                    j as int + 1,
                ));
            }
            j = j + 1;
        }
        proof {
            assert(tagged_daily(batch@[k as int]).take(m as int) =~= tagged_daily(
                batch@[k as int],
            ));
            assert(batch@.take(k as int + 1).drop_last() =~= batch@.take(k as int));
            assert(batch@.take(k as int + 1).last() == batch@[k as int]);
            assert(store.daily_rows@ =~= base + flatten_daily(batch@.take(k as int + 1)));
        }
        k = k + 1;
    }
    proof {
        assert(batch@.take(n as int) =~= batch@);
    }
    Ok(batch)
}

/// Whether the profile row at `j` is keyed by the symbol of entry `k`.
fn str_eq_at(
    store: &Store,
    j: usize,
    fetched: &Vec<SymbolFetch<Vec<ProfileData>>>,
    k: usize,
) -> (r: bool)
    requires
        j < store.profiles@.len(),
        k < fetched@.len(),
    ensures
        r == (store.profiles@[j as int].symbol@ == fetched@[k as int].symbol@),
{
    store.profiles[j].symbol == fetched[k].symbol
}

} // verus!
