//! The upstream provider's endpoints.
//!
//! The provider is reached over HTTP by the caller; this module holds what
//! can be pinned down exactly: the configuration the process starts from,
//! the URL of each endpoint, and the shape a profile response must have.

use vstd::prelude::*;
use crate::records::ProfileData;

verus! {

/// The two values the pipeline is configured with.
#[derive(Debug)]
pub struct Config {
    pub base_url: String,
    pub api_key: String,
}

/// A missing configuration value; fatal at startup.
#[derive(Clone, Copy, Debug, PartialEq, Eq, Structural)]
pub enum ConfigError {
    MissingBaseUrl,
    MissingApiKey,
}

impl Config {
    /// Builds the configuration from the two environment values, in the
    /// order they are read: a missing base URL is reported first, then a
    /// missing key.
    pub fn from_values(base_url: Option<String>, api_key: Option<String>) -> (r: Result<
        Config,
        ConfigError,
    >)
        ensures
            match r {
                Ok(c) => {
                    &&& base_url matches Some(b) && c.base_url == b
                    &&& api_key matches Some(k) && c.api_key == k
                },
                Err(e) => {
                    &&& (e == ConfigError::MissingBaseUrl) == (base_url is None)
                    &&& (e == ConfigError::MissingApiKey) == (base_url is Some && api_key is None)
                },
            },
    {
        let base = match base_url {
            Some(b) => b,
            None => {
                return Err(ConfigError::MissingBaseUrl);
            },
        };
        let key = match api_key {
            Some(k) => k,
            None => {
                return Err(ConfigError::MissingApiKey);
            },
        };
        Ok(Config { base_url: base, api_key: key })
    }
}

/// A moving-average period the daily pass fetches.
#[derive(Clone, Copy, Debug, PartialEq, Eq, Structural)]
pub enum Period {
    Five,
    Twenty,
    Sixty,
}

/// A moving-average family.
#[derive(Clone, Copy, Debug, PartialEq, Eq, Structural)]
pub enum IndicatorKind {
    Ema,
    Sma,
}

/// The period as it appears in the indicator query string.
pub open spec fn spec_period_str(p: Period) -> Seq<char> {
    match p {
        Period::Five => "5"@,
        Period::Twenty => "20"@,
        Period::Sixty => "60"@,
    }
}

/// The family as it appears in the indicator query string.
pub open spec fn spec_kind_str(k: IndicatorKind) -> Seq<char> {
    match k {
        IndicatorKind::Ema => "ema"@,
        IndicatorKind::Sma => "sma"@,
    }
}

/// The company-profile endpoint for a symbol.
pub fn profile_url(config: &Config, symbol: &str) -> (r: String)
    ensures
        r@ == config.base_url@ + "/api/v3/profile/"@ + symbol@ + "?apikey="@ + config.api_key@,
{
    let url = config.base_url.clone().concat("/api/v3/profile/").concat(symbol).concat(
        "?apikey=",
    ).concat(config.api_key.as_str());
    proof {
        assert(url@ =~= config.base_url@ + "/api/v3/profile/"@ + symbol@ + "?apikey="@
            + config.api_key@);
    }
    url
}

/// The one-minute historical chart endpoint for a symbol.
pub fn minute_bars_url(config: &Config, symbol: &str) -> (r: String)
    ensures
        r@ == config.base_url@ + "/api/v3/historical-chart/1min/"@ + symbol@ + "?apikey="@
            + config.api_key@,
{
    let url = config.base_url.clone().concat("/api/v3/historical-chart/1min/").concat(
        symbol,
    ).concat("?apikey=").concat(config.api_key.as_str());
    proof {
        assert(url@ =~= config.base_url@ + "/api/v3/historical-chart/1min/"@ + symbol@
            + "?apikey="@ + config.api_key@);
    }
    url
}

/// The daily technical-indicator endpoint for a symbol, period and family.
pub fn indicator_url(config: &Config, symbol: &str, period: Period, kind: IndicatorKind) -> (r:
    String)
    ensures
        r@ == config.base_url@ + "/api/v3/technical_indicator/daily/"@ + symbol@ + "?period="@
            + spec_period_str(period) + "&type="@ + spec_kind_str(kind) + "&apikey="@
            + config.api_key@,
{
    let period_str: &str = match period {
        Period::Five => "5",
        Period::Twenty => "20",
        Period::Sixty => "60",
    };
    let kind_str: &str = match kind {
        IndicatorKind::Ema => "ema",
        IndicatorKind::Sma => "sma",
    };
    let url = config.base_url.clone().concat("/api/v3/technical_indicator/daily/").concat(
        symbol,
    ).concat("?period=").concat(period_str).concat("&type=").concat(kind_str).concat(
        "&apikey=",
    ).concat(config.api_key.as_str());
    proof {
        assert(url@ =~= config.base_url@ + "/api/v3/technical_indicator/daily/"@ + symbol@
            + "?period="@ + spec_period_str(period) + "&type="@ + spec_kind_str(kind) + "&apikey="@
            + config.api_key@);
    }
    url
}

/// The profile a response carries: the provider answers with a
/// single-element array, and anything else — an empty array in particular —
/// is a hard failure for that symbol.
pub fn profile_from_response(resp: &Vec<ProfileData>) -> (r: Option<ProfileData>)
    ensures
        (r is Some) == (resp@.len() == 1),
        r matches Some(p) ==> p == resp@[0],
{
    if resp.len() == 1 {
        Some(resp[0].duplicate())
    } else {
        None
    }
}

} // verus!
