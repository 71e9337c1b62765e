//! Verified core of a stock-market data service.
//!
//! The library models and verifies the market-data synchronization pipeline:
//! a trading-window calculator, a record merger for minute bars and daily
//! indicator series, an all-or-nothing persister over a model of the
//! relational store, and a timezone-aware scheduler.  Network and database
//! access stay outside the library; callers hand in plain values and receive
//! plain values back.

pub mod calendar;
pub mod client;
pub mod clock;
pub mod datetime;
pub mod error;
pub mod merge;
pub mod model;
pub mod pagination;
pub mod pipeline;
pub mod records;
pub mod store;
pub mod timeseries;
pub mod schedule;
pub mod trading_window;
