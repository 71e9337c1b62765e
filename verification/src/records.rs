//! The records the pipeline moves.
//!
//! Prices, volumes and indicator values are fixed-point numbers: integer
//! counts of a caller-chosen fraction of the quote currency.  The pipeline
//! never computes with them — it only carries them from the provider's
//! responses into the store — so the scale is the caller's affair.

use vstd::prelude::*;
use crate::calendar::Timestamp;

verus! {

/// A raw minute bar as the provider reports it: the time still a string.
#[derive(Clone, Debug)]
pub struct RawBar {
    pub date: String,
    pub open: i64,
    pub close: i64,
    pub high: i64,
    pub low: i64,
    pub volume: i64,
}

/// A raw daily indicator bar: a minute-bar shape plus one indicator value.
#[derive(Clone, Debug)]
pub struct RawIndicatorBar {
    pub date: String,
    pub open: i64,
    pub close: i64,
    pub high: i64,
    pub low: i64,
    pub volume: i64,
    pub value: i64,
}

impl RawIndicatorBar {
    /// A copy of the bar, field for field.
    pub fn duplicate(&self) -> (r: RawIndicatorBar)
        ensures
            r == *self,
    {
        RawIndicatorBar {
            date: self.date.clone(),
            open: self.open,
            close: self.close,
            high: self.high,
            low: self.low,
            volume: self.volume,
            value: self.value,
        }
    }
}

/// A minute bar ready for the store: the time parsed.
#[derive(Clone, Copy, Debug, PartialEq, Eq, Structural)]
pub struct MinuteBar {
    pub time: Timestamp,
    pub open: i64,
    pub close: i64,
    pub high: i64,
    pub low: i64,
    pub volume: i64,
}

/// One indicator family's values for the three periods, shortest first.
#[derive(Clone, Copy, Debug, PartialEq, Eq, Structural)]
pub struct IndicatorTriple {
    pub period5: i64,
    pub period20: i64,
    pub period60: i64,
}

impl IndicatorTriple {
    /// The triple as the store's fixed-size vector, ordered
    /// period 5, period 20, period 60.
    pub fn to_vector(&self) -> (r: Vec<i64>)
        ensures
            r@ =~= seq![self.period5, self.period20, self.period60],
    {
        let mut v: Vec<i64> = Vec::new();
        v.push(self.period5);
        v.push(self.period20);
        v.push(self.period60);
        v
    }
}

/// A daily row ready for the store: OHLC, the two indicator vectors, volume.
#[derive(Clone, Copy, Debug, PartialEq, Eq, Structural)]
pub struct DailyRow {
    pub time: Timestamp,
    pub open: i64,
    pub close: i64,
    pub high: i64,
    pub low: i64,
    pub ema: IndicatorTriple,
    pub sma: IndicatorTriple,
    pub volume: i64,
}

/// A company profile as the pipeline persists it: the nine columns the
/// profile refresh overwrites.
#[derive(Clone, Debug)]
pub struct ProfileData {
    pub price: i64,
    pub beta: i64,
    pub vol_avg: i64,
    pub mkt_cap: i64,
    pub last_div: i64,
    pub change: i64,
    pub price_range: String,
    pub full_time_employees: Option<String>,
    pub is_actively_trading: bool,
}

impl ProfileData {
    /// A copy of the profile, field for field.
    pub fn duplicate(&self) -> (r: ProfileData)
        ensures
            r == *self,
    {
        ProfileData {
            price: self.price,
            beta: self.beta,
            vol_avg: self.vol_avg,
            mkt_cap: self.mkt_cap,
            last_div: self.last_div,
            change: self.change,
            price_range: self.price_range.clone(),
            full_time_employees: match &self.full_time_employees {
                Some(s) => Some(s.clone()),
                None => None,
            },
            is_actively_trading: self.is_actively_trading,
        }
    }
}

} // verus!
