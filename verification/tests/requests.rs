use twelvedata::errors::Error;
use twelvedata::errors::QueryError;
use twelvedata::fundamentals::LogoRequest;
use twelvedata::timestamp::Timestamp;
use twelvedata::builders::BuilderError;
use twelvedata::builders::CommonQueryParametersBuilder;
use twelvedata::builders::LogoRequestBuilder;
use twelvedata::builders::PriceRequestBuilder;
use twelvedata::builders::QuoteRequestBuilder;
use twelvedata::prices::PriceRequest;
use twelvedata::prices::QuoteRequest;
use twelvedata::prices::TimeSeriesRequest;
use twelvedata::CommonQueryParameters;
use twelvedata::InstrumentType;
use twelvedata::Interval;
use twelvedata::Order;
use twelvedata::OutputFormat;

fn midnight(year: i32, month: u32, day: u32) -> Timestamp {
    Timestamp { year, month, day, hour: 0, minute: 0, second: 0, nanosecond: 0 }
}

fn decoded(query: &str) -> Vec<(String, String)> {
    serde_urlencoded::from_str::<Vec<(String, String)>>(query).unwrap()
}

fn owned(pairs: &[(&str, &str)]) -> Vec<(String, String)> {
    pairs.iter().map(|(k, v)| (k.to_string(), v.to_string())).collect()
}

#[test]
fn required_fields_only() {
    let req = TimeSeriesRequest::builder()
        .symbol("TSLA".into())
        .interval(Interval::Day)
        .build()
        .unwrap();
    assert_eq!(req.encode().unwrap(), "symbol=TSLA&interval=1day");
}

#[test]
fn absent_fields_leave_no_key() {
    let req = TimeSeriesRequest::builder()
        .symbol("TSLA".into())
        .interval(Interval::Day)
        .output_size(10)
        .build()
        .unwrap();
    let query = req.encode().unwrap();
    assert_eq!(query, "symbol=TSLA&interval=1day&outputsize=10");
    for key in [
        "exchange", "mic_code", "country", "type", "format", "delimiter", "dp", "timezone",
        "order", "start_date", "end_date", "previous_close",
    ] {
        assert!(decoded(&query).iter().all(|(k, _)| k != key), "key {}", key);
    }
    assert!(!query.contains("null"));
}

#[test]
fn every_field_in_the_declared_order() {
    let common = CommonQueryParameters {
        exchange: Some("NASDAQ".into()),
        mic_code: Some("XNGS".into()),
        country: Some("United States".into()),
        instrument_type: Some(InstrumentType::ETF),
        format: Some(OutputFormat::CSV),
        delimiter: Some(";".into()),
        decimal_places: Some(5),
        timezone: Some("America/New_York".into()),
    };
    let req = TimeSeriesRequest::builder()
        .common(common)
        .symbol("BRK.B".into())
        .interval(Interval::FortyFiveMinutes)
        .output_size(5000)
        .order(Order::DESC)
        .start_date(midnight(2022, 9, 1))
        .end_date(Timestamp {
            year: 2022,
            month: 9,
            day: 20,
            hour: 15,
            minute: 30,
            second: 5,
            nanosecond: 0,
        })
        .previous_close(true)
        .build()
        .unwrap();
    let query = req.encode().unwrap();
    assert_eq!(
        query,
        "exchange=NASDAQ&mic_code=XNGS&country=United+States&type=ETF&format=CSV&delimiter=%3B\
         &dp=5&timezone=America%2FNew_York&symbol=BRK.B&interval=45min&outputsize=5000\
         &order=DESC&start_date=2022-09-01T00%3A00%3A00&end_date=2022-09-20T15%3A30%3A05\
         &previous_close=true"
    );
    assert_eq!(
        decoded(&query),
        owned(&[
            ("exchange", "NASDAQ"),
            ("mic_code", "XNGS"),
            ("country", "United States"),
            ("type", "ETF"),
            ("format", "CSV"),
            ("delimiter", ";"),
            ("dp", "5"),
            ("timezone", "America/New_York"),
            ("symbol", "BRK.B"),
            ("interval", "45min"),
            ("outputsize", "5000"),
            ("order", "DESC"),
            ("start_date", "2022-09-01T00:00:00"),
            ("end_date", "2022-09-20T15:30:05"),
            ("previous_close", "true"),
        ])
    );
}

#[test]
fn values_survive_escaping() {
    let common = CommonQueryParameters {
        exchange: Some("a&b=c d+e%f/é".into()),
        ..CommonQueryParameters::default()
    };
    let req = QuoteRequest {
        common,
        symbol: "?#[]".into(),
        interval: Interval::Minute,
        volume_time_period: None,
        end_of_day: None,
        rolling_period: None,
    };
    let query = req.encode().unwrap();
    assert_eq!(
        decoded(&query),
        owned(&[("exchange", "a&b=c d+e%f/é"), ("symbol", "?#[]"), ("interval", "1min")])
    );
    assert_eq!(req.query_pairs(), owned(&[
        ("exchange", "a&b=c d+e%f/é"),
        ("symbol", "?#[]"),
        ("interval", "1min")
    ]));
}

#[test]
fn quote_request_uses_its_wire_names() {
    let req = QuoteRequest {
        common: CommonQueryParameters::default(),
        symbol: "AAPL".into(),
        interval: Interval::Hour,
        volume_time_period: Some(4000000000),
        end_of_day: Some(false),
        rolling_period: Some(255),
    };
    assert_eq!(
        req.encode().unwrap(),
        "symbol=AAPL&interval=1h&volume_time_period=4000000000&eod=false&rolling_period=255"
    );
}

#[test]
fn price_request_has_no_interval() {
    let req = PriceRequest {
        common: CommonQueryParameters { decimal_places: Some(0), ..CommonQueryParameters::default() },
        symbol: "AAPL".into(),
        output_size: Some(0),
        order: Some(Order::ASC),
        start_date: None,
        end_date: None,
        previous_close: Some(false),
    };
    assert_eq!(
        req.encode().unwrap(),
        "dp=0&symbol=AAPL&outputsize=0&order=ASC&previous_close=false"
    );
}

#[test]
fn logo_request_writes_all_four() {
    let req = LogoRequest {
        symbol: "AAPL".into(),
        exchange: "NASDAQ".into(),
        mic_code: "XNGS".into(),
        country: "".into(),
    };
    assert_eq!(req.encode().unwrap(), "symbol=AAPL&exchange=NASDAQ&mic_code=XNGS&country=");
}

#[test]
fn common_parameters_alone() {
    assert_eq!(CommonQueryParameters::default().encode().unwrap(), "");
    let common = CommonQueryParameters {
        instrument_type: Some(InstrumentType::Stock),
        format: Some(OutputFormat::default()),
        ..CommonQueryParameters::default()
    };
    assert_eq!(common.encode().unwrap(), "type=Stock&format=JSON");
}

#[test]
fn timestamp_off_the_calendar_is_refused() {
    let req = TimeSeriesRequest::builder()
        .symbol("TSLA".into())
        .interval(Interval::Day)
        .start_date(midnight(2022, 2, 30))
        .build()
        .unwrap();
    assert!(matches!(req.encode(), Err(Error::QueryConstruction(QueryError::Timestamp))));
    assert!(matches!(req.query_pairs(), Err(Error::QueryConstruction(QueryError::Timestamp))));
}

#[test]
fn builder_needs_symbol_and_interval() {
    assert_eq!(
        TimeSeriesRequest::builder().build().unwrap_err(),
        BuilderError::UninitializedField("symbol")
    );
    assert_eq!(
        TimeSeriesRequest::builder().interval(Interval::Day).build().unwrap_err(),
        BuilderError::UninitializedField("symbol")
    );
    assert_eq!(
        TimeSeriesRequest::builder().symbol("TSLA".into()).build().unwrap_err(),
        BuilderError::UninitializedField("interval")
    );
}

#[test]
fn other_builders() {
    let common = CommonQueryParametersBuilder::new()
        .exchange("NASDAQ".into())
        .decimal_places(2)
        .build()
        .unwrap();
    let quote = QuoteRequestBuilder::new()
        .common(common)
        .symbol("AAPL".into())
        .interval(Interval::Month)
        .end_of_day(true)
        .build()
        .unwrap();
    assert_eq!(
        quote.encode().unwrap(),
        "exchange=NASDAQ&dp=2&symbol=AAPL&interval=1month&eod=true"
    );
    let price = PriceRequestBuilder::new().symbol("AAPL".into()).build().unwrap();
    assert_eq!(price.encode().unwrap(), "symbol=AAPL");
    assert_eq!(
        PriceRequestBuilder::new().output_size(1).build().unwrap_err(),
        BuilderError::UninitializedField("symbol")
    );
    assert_eq!(
        LogoRequestBuilder::new().symbol("AAPL".into()).exchange("X".into()).build().unwrap_err(),
        BuilderError::UninitializedField("mic_code")
    );
    let logo = LogoRequestBuilder::new()
        .symbol("AAPL".into())
        .exchange("NASDAQ".into())
        .mic_code("XNGS".into())
        .country("US".into())
        .build()
        .unwrap();
    assert_eq!(logo.encode().unwrap(), "symbol=AAPL&exchange=NASDAQ&mic_code=XNGS&country=US");
}

#[test]
fn interval_names() {
    let all = [
        (Interval::Minute, "1min"),
        (Interval::FiveMinutes, "5min"),
        (Interval::FifteenMinutes, "15min"),
        (Interval::ThirtyMinutes, "30min"),
        (Interval::FortyFiveMinutes, "45min"),
        (Interval::Hour, "1h"),
        (Interval::TwoHours, "2h"),
        (Interval::FourHours, "4h"),
        (Interval::Day, "1day"),
        (Interval::Week, "1week"),
        (Interval::Month, "1month"),
    ];
    for (interval, name) in all {
        assert_eq!(interval.as_str(), name);
        assert_eq!(Interval::from_wire(name), Some(interval));
    }
    assert_eq!(Interval::from_wire("1DAY"), None);
    assert_eq!(Interval::from_wire(""), None);
}
