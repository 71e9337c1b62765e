//! A model of the relational store the pipeline writes to.
//!
//! The store keeps one profile row per symbol, ordered ascending by ticker,
//! an append-only table of minute bars and an append-only table of daily
//! indicator rows.  The pipeline holds the store only through the pass
//! functions, which apply each pass as a single all-or-nothing batch.

use vstd::prelude::*;
use crate::records::{ProfileData, MinuteBar, DailyRow};

verus! {

/// Strict lexicographic order on character sequences.
pub open spec fn lex_lt(a: Seq<char>, b: Seq<char>) -> bool
    decreases a.len(),
{
    if b.len() == 0 {
        false
    } else if a.len() == 0 {
        true
    } else if a[0] == b[0] {
        lex_lt(a.drop_first(), b.drop_first())
    } else {
        (a[0] as int) < (b[0] as int)
    }
}

/// Compares two strings in strict lexicographic order.
pub fn str_lt(a: &str, b: &str) -> (r: bool)
    ensures
        r == lex_lt(a@, b@),
{
    let alen = a.unicode_len();
    let blen = b.unicode_len();
    let mut i: usize = 0;
    assert(a@.skip(0) =~= a@ && b@.skip(0) =~= b@);
    while i < alen && i < blen
        invariant
            alen == a@.len(),
            blen == b@.len(),
            0 <= i <= alen,
            0 <= i <= blen,
            lex_lt(a@, b@) == lex_lt(a@.skip(i as int), b@.skip(i as int)),
        decreases alen - i,
    {
        let ca = a.get_char(i);
        let cb = b.get_char(i);
        if ca != cb {
            assert(a@.skip(i as int)[0] == ca && b@.skip(i as int)[0] == cb);
            return (ca as u32) < (cb as u32);
        }
        proof {
            assert(a@.skip(i as int).drop_first() =~= a@.skip(i as int + 1));
            assert(b@.skip(i as int).drop_first() =~= b@.skip(i as int + 1));
        }
        i = i + 1;
    }
    assert(lex_lt(a@, b@) == (i < blen)) by {
        if i == blen {
            assert(b@.skip(i as int).len() == 0);
        } else {
            assert(a@.skip(i as int).len() == 0);
            assert(b@.skip(i as int).len() > 0);
        }
    }
    i < blen
}

/// One profile row: the ticker and the nine columns the profile refresh
/// overwrites.
#[derive(Clone, Debug)]
pub struct ProfileRow {
    pub symbol: String,
    pub data: ProfileData,
}

/// One minute-bar row, keyed by symbol and time.
#[derive(Clone, Debug)]
pub struct MinuteRecord {
    pub symbol: String,
    pub bar: MinuteBar,
}

/// One daily indicator row, keyed by symbol and time.
#[derive(Clone, Debug)]
pub struct DailyRecord {
    pub symbol: String,
    pub row: DailyRow,
}

/// The store: profiles keyed by symbol, and the two time-series tables.
#[derive(Debug)]
pub struct Store {
    pub profiles: Vec<ProfileRow>,
    pub minute_bars: Vec<MinuteRecord>,
    pub daily_rows: Vec<DailyRecord>,
}

/// Profile rows strictly ascending by ticker — in particular, one row
/// per symbol.
pub open spec fn profiles_sorted(profiles: Seq<ProfileRow>) -> bool {
    forall|i: int, j: int|
        0 <= i < j < profiles.len() ==> lex_lt(profiles[i].symbol@, profiles[j].symbol@)
}

impl Store {
    /// The store's invariant.
    pub open spec fn wf(self) -> bool {
        profiles_sorted(self.profiles@)
    }

    /// An empty store.
    pub fn new() -> (r: Store)
        ensures
            r.wf(),
            r.profiles@ =~= Seq::<ProfileRow>::empty(),
            r.minute_bars@ =~= Seq::<MinuteRecord>::empty(),
            r.daily_rows@ =~= Seq::<DailyRecord>::empty(),
    {
        Store { profiles: Vec::new(), minute_bars: Vec::new(), daily_rows: Vec::new() }
    }

    /// Decides whether the store's profile rows are strictly ascending by
    /// ticker, so that a caller that assembled the rows itself can establish
    /// the invariant.
    pub fn wf_check(&self) -> (r: bool)
        ensures
            r == self.wf(),
    {
        let n = self.profiles.len();
        if n == 0 {
            return true;
        }
        let mut i: usize = 0;
        while i < n - 1
            invariant
                n == self.profiles@.len(),
                n >= 1,
                0 <= i <= n - 1,
                forall|k: int|
                    0 <= k < i ==> lex_lt(
                        #[trigger] self.profiles@[k].symbol@,
                        self.profiles@[k + 1].symbol@,
                    ),
            decreases n - i,
        {
            if !str_lt(self.profiles[i].symbol.as_str(), self.profiles[i + 1].symbol.as_str()) {
                assert(!profiles_sorted(self.profiles@));
                return false;
            }
            i = i + 1;
        }
        proof {
            lemma_adjacent_sorted(self.profiles@);
        }
        true
    }
}

/// Order between all adjacent profile rows gives order between all pairs.
proof fn lemma_adjacent_sorted(profiles: Seq<ProfileRow>)
    requires
        forall|k: int|
            0 <= k < profiles.len() - 1 ==> lex_lt(
                #[trigger] profiles[k].symbol@,
                profiles[k + 1].symbol@,
            ),
    ensures
        profiles_sorted(profiles),
{
    assert forall|i: int, j: int|
        0 <= i < j < profiles.len() implies lex_lt(profiles[i].symbol@, profiles[j].symbol@) by {
        lemma_lex_lt_span(profiles, i, j);
    }
}

proof fn lemma_lex_lt_span(profiles: Seq<ProfileRow>, i: int, j: int)
    requires
        forall|k: int|
            0 <= k < profiles.len() - 1 ==> lex_lt(
                #[trigger] profiles[k].symbol@,
                profiles[k + 1].symbol@,
            ),
        0 <= i < j < profiles.len(),
    ensures
        lex_lt(profiles[i].symbol@, profiles[j].symbol@),
    decreases j - i,
{
    if i + 1 == j {
    } else {
        lemma_lex_lt_span(profiles, i, j - 1);
        lemma_lex_lt_trans(profiles[i].symbol@, profiles[j - 1].symbol@, profiles[j].symbol@);
    }
}

/// Strict lexicographic order is transitive.
pub proof fn lemma_lex_lt_trans(a: Seq<char>, b: Seq<char>, c: Seq<char>)
    requires
        lex_lt(a, b),
        lex_lt(b, c),
    ensures
        lex_lt(a, c),
    decreases a.len() + b.len() + c.len(),
{
    if c.len() == 0 || a.len() == 0 {
    } else if b.len() == 0 {
    } else {
        if a[0] == b[0] && b[0] == c[0] {
            lemma_lex_lt_trans(a.drop_first(), b.drop_first(), c.drop_first());
        }
    }
}

/// The roster a pass operates over: the symbols of the profile rows that
/// pass the filter, in store order.
pub open spec fn roster_of(profiles: Seq<ProfileRow>, active_only: bool) -> Seq<String> {
    profiles.filter(|p: ProfileRow| !active_only || p.data.is_actively_trading).map_values(
        |p: ProfileRow| p.symbol,
    )
}

impl Store {
    /// The symbols the store tracks, ascending by ticker: all of them, or
    /// only the actively trading ones.
    pub fn list_symbols(&self, active_only: bool) -> (r: Vec<String>)
        requires
            self.wf(),
        ensures
            r@ == roster_of(self.profiles@, active_only),
            forall|i: int, j: int| 0 <= i < j < r@.len() ==> lex_lt(r@[i]@, r@[j]@),
    {
        let ghost pred: spec_fn(ProfileRow) -> bool = |p: ProfileRow|
            !active_only || p.data.is_actively_trading;
        let mut out: Vec<String> = Vec::new();
        let mut idx: usize = 0;
        assert(self.profiles@.take(0).filter(pred) =~= Seq::<ProfileRow>::empty());
        assert(roster_of(self.profiles@.take(0), active_only) =~= Seq::<String>::empty());
        while idx < self.profiles.len()
            invariant
                self.wf(),
                pred == (|p: ProfileRow| !active_only || p.data.is_actively_trading),
                0 <= idx <= self.profiles@.len(),
                out@ == roster_of(self.profiles@.take(idx as int), active_only),
                forall|i: int, j: int| 0 <= i < j < out@.len() ==> lex_lt(out@[i]@, out@[j]@),
                forall|k: int, j: int|
                    0 <= k < out@.len() && idx <= j < self.profiles@.len() ==> lex_lt(
                        #[trigger] out@[k]@,
                        #[trigger] self.profiles@[j].symbol@,
                    ),
            decreases self.profiles@.len() - idx,
        {
            let p = &self.profiles[idx];
            let ghost prev = self.profiles@.take(idx as int);
            proof {
                assert(self.profiles@.take(idx as int + 1) =~= prev.push(
                    self.profiles@[idx as int],
                ));
                crate::merge::lemma_filter_push(prev, self.profiles@[idx as int], pred);
            }
            if !active_only || p.data.is_actively_trading {
                out.push(p.symbol.clone());
                assert(out@ =~= roster_of(self.profiles@.take(idx as int + 1), active_only));
            } else {
                assert(out@ =~= roster_of(self.profiles@.take(idx as int + 1), active_only));
            }
            idx = idx + 1;
        }
        proof {
            assert(self.profiles@.take(idx as int) =~= self.profiles@);
        }
        out
    }
}

} // verus!
