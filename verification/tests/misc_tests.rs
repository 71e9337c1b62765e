use market_sync::calendar::Timestamp;
use market_sync::error::{AuthenticateError, Error};
use market_sync::pagination::{Pagination, PaginationBuilder, RequestQuery};
use market_sync::timeseries::TimeseriesDataBuilder;

#[test]
fn pagination_caps_and_defaults() {
    let q = RequestQuery { from: None, limit: Some(250), offset: Some(40) };
    let p = Pagination::build_from_request_query(q).count(17).build();
    assert_eq!(p.limit, 100);
    assert_eq!(p.offset, 40);
    assert_eq!(p.count, 17);

    let q = RequestQuery { from: None, limit: Some(25), offset: None };
    let p = Pagination::build_from_request_query(q).count(3).build();
    assert_eq!(p.limit, 25);
    assert_eq!(p.offset, 0);

    let q = RequestQuery { from: Some("x".to_string()), limit: None, offset: None };
    let b = Pagination::build_from_request_query(q);
    assert_eq!(b.limit, 100);
    assert_eq!(b.offset, 0);
    assert!(b.count.is_none());

    let d = PaginationBuilder::default();
    assert_eq!(d.limit, 100);
    assert_eq!(d.offset, 0);
    assert!(d.count.is_none());
}

#[test]
fn error_codes() {
    assert_eq!(Error::BADREQUEST("x".to_string()).get_code(), 400);
    assert_eq!(Error::NOTFOUND("x".to_string()).get_code(), 404);
    assert_eq!(Error::LettreFail("x".to_string()).get_code(), 502);
    assert_eq!(Error::SystemSqlxError("x".to_string()).get_code(), 500);
    assert_eq!(Error::SystemReqwestError("x".to_string()).get_code(), 500);
    assert_eq!(Error::SystemCronError("x".to_string()).get_code(), 500);
    assert_eq!(Error::CUSTOMERROR("x".to_string()).get_code(), 500);
}

#[test]
fn error_messages() {
    assert_eq!(
        Error::NOTFOUND("symbol : `a`".to_string()).message(),
        "symbol : `a` is Not Found."
    );
    assert_eq!(
        Error::SystemSqlxError("row".to_string()).message(),
        "this error message came from sqlx: row"
    );
    assert_eq!(Error::CUSTOMERROR("boom".to_string()).message(), "boom");
    let _ = AuthenticateError::InvalidToken;
}

#[test]
fn timeseries_builder_requires_every_headline_figure() {
    let bucket = Timestamp { day: 19621, sec: 0 };
    let t = TimeseriesDataBuilder::new()
        .symbol("AAPL".to_string())
        .company_name("Apple Inc.".to_string())
        .price(1_500_000)
        .change(-12_300)
        .mkt_cap(2_000_000_000)
        .series_data_init()
        .series_data(bucket, 1_499_000)
        .series_data(Timestamp { day: 19622, sec: 0 }, 1_501_000)
        .build()
        .unwrap();
    assert_eq!(t.symbol, "AAPL");
    assert_eq!(t.company_name, "Apple Inc.");
    assert_eq!(t.timeseries.len(), 2);
    assert_eq!(t.timeseries[0].close, 1_499_000);

    let e = TimeseriesDataBuilder::new()
        .company_name("Apple Inc.".to_string())
        .price(1)
        .change(2)
        .mkt_cap(3)
        .build()
        .unwrap_err();
    match e {
        Error::CUSTOMERROR(s) => assert_eq!(s, "symbol can not be empty."),
        _ => panic!("wrong error variant"),
    }

    let e = TimeseriesDataBuilder::new()
        .symbol("AAPL".to_string())
        .company_name("Apple Inc.".to_string())
        .price(1)
        .mkt_cap(3)
        .build()
        .unwrap_err();
    match e {
        Error::CUSTOMERROR(s) => assert_eq!(s, "change can not be empty."),
        _ => panic!("wrong error variant"),
    }
}
