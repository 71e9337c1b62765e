use market_sync::records::ProfileData;
use market_sync::store::{str_lt, ProfileRow, Store};

fn profile(active: bool) -> ProfileData {
    ProfileData {
        price: 1,
        beta: 2,
        vol_avg: 3,
        mkt_cap: 4,
        last_div: 5,
        change: 6,
        price_range: "1-2".to_string(),
        full_time_employees: None,
        is_actively_trading: active,
    }
}

fn row(symbol: &str, active: bool) -> ProfileRow {
    ProfileRow { symbol: symbol.to_string(), data: profile(active) }
}

#[test]
fn string_order_is_lexicographic() {
    assert!(str_lt("AAPL", "MSFT"));
    assert!(!str_lt("MSFT", "AAPL"));
    assert!(str_lt("AAP", "AAPL"));
    assert!(!str_lt("AAPL", "AAPL"));
    assert!(str_lt("", "A"));
    assert!(!str_lt("", ""));
    assert!(str_lt("AAPL", "aapl"));
}

#[test]
fn well_formedness_is_strict_ascending_order() {
    let mut store = Store::new();
    assert!(store.wf_check());
    store.profiles.push(row("AAPL", true));
    assert!(store.wf_check());
    store.profiles.push(row("MSFT", true));
    assert!(store.wf_check());
    store.profiles.push(row("MSFT", false));
    assert!(!store.wf_check());
}

#[test]
fn roster_lists_symbols_ascending() {
    let mut store = Store::new();
    store.profiles.push(row("AAPL", true));
    store.profiles.push(row("GOOG", false));
    store.profiles.push(row("MSFT", true));
    assert!(store.wf_check());
    let all = store.list_symbols(false);
    assert_eq!(all, vec!["AAPL".to_string(), "GOOG".to_string(), "MSFT".to_string()]);
    let active = store.list_symbols(true);
    assert_eq!(active, vec!["AAPL".to_string(), "MSFT".to_string()]);
}
