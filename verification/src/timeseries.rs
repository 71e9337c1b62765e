//! The time-series view a symbol's price history is served as.
//!
//! A `TimeseriesData` pairs a symbol's headline figures with its close-price
//! series.  It is assembled through a builder; building fails with the
//! service's error if any headline figure was never supplied.

use vstd::prelude::*;
use crate::calendar::Timestamp;
use crate::error::Error;

verus! {

/// One point of the series: a time bucket and its close price.
#[derive(Clone, Copy, Debug, PartialEq, Eq, Structural)]
pub struct Timeseries {
    pub bucket: Timestamp,
    pub close: i64,
}

/// A symbol's headline figures and close-price series.
#[derive(Debug)]
pub struct TimeseriesData {
    pub symbol: String,
    pub company_name: String,
    pub price: i64,
    pub change: i64,
    pub mkt_cap: i64,
    pub timeseries: Vec<Timeseries>,
}

/// The builder: every headline figure optional until `build`.
pub struct TimeseriesDataBuilder {
    pub symbol: Option<String>,
    pub company_name: Option<String>,
    pub price: Option<i64>,
    pub change: Option<i64>,
    pub mkt_cap: Option<i64>,
    pub timeseries: Vec<Timeseries>,
}

impl Default for TimeseriesDataBuilder {
    /// An empty builder: nothing supplied yet.
    fn default() -> (r: Self)
        ensures
            r.symbol is None,
            r.company_name is None,
            r.price is None,
            r.change is None,
            r.mkt_cap is None,
            r.timeseries@ =~= Seq::<Timeseries>::empty(),
    {
        TimeseriesDataBuilder {
            symbol: None,
            company_name: None,
            price: None,
            change: None,
            mkt_cap: None,
            timeseries: Vec::new(),
        }
    }
}

impl TimeseriesDataBuilder {
    /// An empty builder: nothing supplied yet.
    pub fn new() -> (r: Self)
        ensures
            r.symbol is None,
            r.company_name is None,
            r.price is None,
            r.change is None,
            r.mkt_cap is None,
            r.timeseries@ =~= Seq::<Timeseries>::empty(),
    {
        TimeseriesDataBuilder::default()
    }

    pub fn symbol(self, symbol: String) -> (r: Self)
        ensures
            r == (Self { symbol: Some(symbol), ..self }),
    {
        Self { symbol: Some(symbol), ..self }
    }

    pub fn company_name(self, company_name: String) -> (r: Self)
        ensures
            r == (Self { company_name: Some(company_name), ..self }),
    {
        Self { company_name: Some(company_name), ..self }
    }

    pub fn price(self, price: i64) -> (r: Self)
        ensures
            r == (Self { price: Some(price), ..self }),
    {
        Self { price: Some(price), ..self }
    }

    pub fn change(self, change: i64) -> (r: Self)
        ensures
            r == (Self { change: Some(change), ..self }),
    {
        Self { change: Some(change), ..self }
    }

    pub fn mkt_cap(self, mkt_cap: i64) -> (r: Self)
        ensures
            r == (Self { mkt_cap: Some(mkt_cap), ..self }),
    {
        Self { mkt_cap: Some(mkt_cap), ..self }
    }

    /// Clears the series.
    pub fn series_data_init(self) -> (r: Self)
        ensures
            r.symbol == self.symbol,
            r.company_name == self.company_name,
            r.price == self.price,
            r.change == self.change,
            r.mkt_cap == self.mkt_cap,
            r.timeseries@ =~= Seq::<Timeseries>::empty(),
    {
        let list: Vec<Timeseries> = Vec::new();
        Self { timeseries: list, ..self }
    }

    /// Appends one point to the series.
    pub fn series_data(self, bucket: Timestamp, val: i64) -> (r: Self)
        ensures
            r.symbol == self.symbol,
            r.company_name == self.company_name,
            r.price == self.price,
            r.change == self.change,
            r.mkt_cap == self.mkt_cap,
            r.timeseries@ == self.timeseries@.push(Timeseries { bucket, close: val }),
    {
        let mut timeseries = self.timeseries;
        timeseries.push(Timeseries { bucket, close: val });
        Self { timeseries, ..self }
    }

    /// Settles the view.  Succeeds exactly when every headline figure was
    /// supplied; otherwise reports the first missing one.
    pub fn build(self) -> (r: Result<TimeseriesData, Error>)
        ensures
            (r is Ok) == (self.symbol is Some && self.company_name is Some && self.price is Some
                && self.change is Some && self.mkt_cap is Some),
            r matches Ok(t) ==> {
                &&& t.symbol == self.symbol.unwrap()
                &&& t.company_name == self.company_name.unwrap()
                &&& t.price == self.price.unwrap()
                &&& t.change == self.change.unwrap()
                &&& t.mkt_cap == self.mkt_cap.unwrap()
                &&& t.timeseries@ == self.timeseries@
            },
            r matches Err(e) ==> e matches Error::CUSTOMERROR(s) && s@ == if self.change is None
                && self.symbol is Some && self.company_name is Some && self.price is Some {
                "change can not be empty."@
            } else {
                "symbol can not be empty."@
            },
    {
        let Some(symbol) = self.symbol else {
            return Err(Error::CUSTOMERROR(String::from_str("symbol can not be empty.")));
        };
        let Some(company_name) = self.company_name else {
            return Err(Error::CUSTOMERROR(String::from_str("symbol can not be empty.")));
        };
        let Some(price) = self.price else {
            return Err(Error::CUSTOMERROR(String::from_str("symbol can not be empty.")));
        };
        let Some(change) = self.change else {
            return Err(Error::CUSTOMERROR(String::from_str("change can not be empty.")));
        };
        let Some(mkt_cap) = self.mkt_cap else {
            return Err(Error::CUSTOMERROR(String::from_str("symbol can not be empty.")));
        };
        Ok(
            TimeseriesData {
                symbol,
                company_name,
                price,
                change,
                mkt_cap,
                timeseries: self.timeseries,
            },
        )
    }
}

} // verus!
