use market_sync::client::{indicator_url, minute_bars_url, profile_from_response, profile_url,
    Config, ConfigError, IndicatorKind, Period,
};
use market_sync::clock::{current_taipei_timestamp, timestamp_from_epoch};
use market_sync::records::ProfileData;

fn config() -> Config {
    Config {
        base_url: "https://financialmodelingprep.com".to_string(),
        api_key: "demo".to_string(),
    }
}

#[test]
fn config_requires_both_values() {
    let ok = Config::from_values(Some("u".to_string()), Some("k".to_string())).unwrap();
    assert_eq!(ok.base_url, "u");
    assert_eq!(ok.api_key, "k");
    let e = Config::from_values(None, Some("k".to_string())).unwrap_err();
    assert_eq!(e, ConfigError::MissingBaseUrl);
    let e = Config::from_values(Some("u".to_string()), None).unwrap_err();
    assert_eq!(e, ConfigError::MissingApiKey);
    let e = Config::from_values(None, None).unwrap_err();
    assert_eq!(e, ConfigError::MissingBaseUrl);
}

#[test]
fn endpoint_urls() {
    let c = config();
    assert_eq!(
        profile_url(&c, "AAPL"),
        "https://financialmodelingprep.com/api/v3/profile/AAPL?apikey=demo"
    );
    assert_eq!(
        minute_bars_url(&c, "MSFT"),
        "https://financialmodelingprep.com/api/v3/historical-chart/1min/MSFT?apikey=demo"
    );
    assert_eq!(
        indicator_url(&c, "TSLA", Period::Five, IndicatorKind::Ema),
        "https://financialmodelingprep.com/api/v3/technical_indicator/daily/TSLA?period=5&type=ema&apikey=demo"
    );
    assert_eq!(
        indicator_url(&c, "TSLA", Period::Twenty, IndicatorKind::Sma),
        "https://financialmodelingprep.com/api/v3/technical_indicator/daily/TSLA?period=20&type=sma&apikey=demo"
    );
    assert_eq!(
        indicator_url(&c, "TSLA", Period::Sixty, IndicatorKind::Ema),
        "https://financialmodelingprep.com/api/v3/technical_indicator/daily/TSLA?period=60&type=ema&apikey=demo"
    );
}

fn profile(price: i64) -> ProfileData {
    ProfileData {
        price,
        beta: 0,
        vol_avg: 0,
        mkt_cap: 0,
        last_div: 0,
        change: 0,
        price_range: String::new(),
        full_time_employees: None,
        is_actively_trading: true,
    }
}

#[test]
fn a_profile_response_must_hold_exactly_one_profile() {
    assert!(profile_from_response(&Vec::new()).is_none());
    let one = profile_from_response(&vec![profile(7)]).unwrap();
    assert_eq!(one.price, 7);
    assert!(profile_from_response(&vec![profile(1), profile(2)]).is_none());
}

#[test]
fn epoch_conversion() {
    assert_eq!(timestamp_from_epoch(-1), None);
    let t = timestamp_from_epoch(0).unwrap();
    assert_eq!((t.day, t.sec), (0, 0));
    let t = timestamp_from_epoch(19621 * 86_400 + 34_200).unwrap();
    assert_eq!((t.day, t.sec), (19621, 34_200));
}

#[test]
fn the_clock_reads_a_plausible_taipei_time() {
    // Runs the real clock and timezone lookup: the reading must be a
    // well-formed instant within the service's lifetime.
    let t = current_taipei_timestamp().unwrap();
    assert!(t.sec < 86_400);
    assert!(t.day > 19_000);
    assert!(t.day < 39_000);
}
