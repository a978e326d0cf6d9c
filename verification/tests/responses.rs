use twelvedata::client::interpret;
use twelvedata::client::logo_of;
use twelvedata::client::price_of;
use twelvedata::client::quote_of;
use twelvedata::client::time_series_of;
use twelvedata::errors::DecodeError;
use twelvedata::errors::Error;
use twelvedata::timestamp::Timestamp;
use twelvedata::prices::QuoteResponse;
use twelvedata::prices::TimeSeriesResponse;
use twelvedata::Interval;

const SERIES: &str = r#"{"meta":{"currency":"USD","exchange":"NASDAQ","exchange_timezone":"America/New_York","interval":"1day","mic_code":"XNGS","symbol":"TSLA","type":"Common Stock"},"status":"ok","values":[{"close":"308.73001","datetime":"2022-09-20","high":"313.32999","low":"305.57999","open":"306.91501","volume":"231261"},{"close":"309.07001","datetime":"2022-09-19","high":"309.84000","low":"297.79999","open":"300.09000","volume":"60060200"},{"close":"303.35001","datetime":"2022-09-16","high":"303.70999","low":"295.60001","open":"299.60999","volume":"86949500"},{"close":"303.75000","datetime":"2022-09-15","high":"309.12000","low":"300.72000","open":"301.82999","volume":"64795500"},{"close":"302.60999","datetime":"2022-09-14","high":"306.00000","low":"291.64001","open":"292.23999","volume":"72628700"},{"close":"292.13000","datetime":"2022-09-13","high":"297.39999","low":"290.39999","open":"292.89999","volume":"68229600"},{"close":"304.42001","datetime":"2022-09-12","high":"305.48999","low":"300.39999","open":"300.72000","volume":"48674600"},{"close":"299.67999","datetime":"2022-09-09","high":"299.85001","low":"291.25000","open":"291.67001","volume":"54338100"},{"close":"289.26001","datetime":"2022-09-08","high":"289.50000","low":"279.76001","open":"281.29999","volume":"53713100"},{"close":"283.70001","datetime":"2022-09-07","high":"283.84000","low":"272.26999","open":"273.10001","volume":"50028900"}]}"#;

const QUOTE: &str = r#"{"symbol":"AAPL","name":"Apple Inc","exchange":"NASDAQ","mic_code":"XNGS","currency":"USD","datetime":"2022-09-20","timestamp":1663703999,"open":"153.39999","high":"158.08000","low":"153.08000","close":"156.89999","volume":"107547900","previous_close":"154.48000","change":"2.42000","percent_change":"1.56654","average_volume":"99764040","is_market_open":false,"fifty_two_week":{"low":"129.03999","high":"182.94000","low_change":"27.86000","high_change":"-26.04001","low_change_percent":"21.59021","high_change_percent":"-14.23418","range":"129.039993 - 182.940002"}}"#;

fn number(text: &str) -> f64 {
    text.parse::<f64>().unwrap()
}

fn series(body: &str) -> Result<TimeSeriesResponse, Error> {
    time_series_of(interpret(200, body))
}

fn quote(body: &str) -> Result<QuoteResponse, Error> {
    quote_of(interpret(200, body))
}

#[test]
fn test_timeseries_response() {
    let response = series(SERIES);

    assert!(response.is_ok());

    let res = &response.unwrap();
    assert_eq!(10, res.values.len());
}

#[test]
fn test_quote_response() {
    let response = quote(QUOTE);

    assert!(response.is_ok());

    let res = response.unwrap();
    let range = res.fifty_two_week.range;
    assert_eq!(number(range.start.as_str()), 129.039993);
    assert_eq!(number(range.end.as_str()), 182.940002);
}

#[test]
fn series_rows_keep_the_order_of_the_array() {
    let res = series(SERIES).unwrap();
    let days: Vec<u32> = res.values.iter().map(|row| row.datetime.day).collect();
    assert_eq!(days, vec![20, 19, 16, 15, 14, 13, 12, 9, 8, 7]);
    let closes: Vec<&str> = res.values.iter().map(|row| row.close.as_str()).collect();
    assert_eq!(
        closes,
        vec![
            "308.73001", "309.07001", "303.35001", "303.75000", "302.60999", "292.13000",
            "304.42001", "299.67999", "289.26001", "283.70001"
        ]
    );
    let first = &res.values[0];
    assert_eq!(
        first.datetime,
        Timestamp { year: 2022, month: 9, day: 20, hour: 0, minute: 0, second: 0, nanosecond: 0 }
    );
    assert_eq!(number(first.open.as_str()), 306.91501);
    assert_eq!(number(first.high.as_str()), 313.32999);
    assert_eq!(number(first.low.as_str()), 305.57999);
    assert_eq!(number(first.volume.as_str()), 231261.0);
}

#[test]
fn series_meta_is_read() {
    let res = series(SERIES).unwrap();
    assert_eq!(res.status, "ok");
    assert_eq!(res.meta.symbol, "TSLA");
    assert_eq!(res.meta.interval, Interval::Day);
    assert_eq!(res.meta.currency, "USD");
    assert_eq!(res.meta.exchange_timezone, "America/New_York");
    assert_eq!(res.meta.exchange, "NASDAQ");
    assert_eq!(res.meta.mic_code, "XNGS");
    assert_eq!(res.meta.instrument_type, "Common Stock");
}

#[test]
fn series_with_no_rows() {
    let body = SERIES.replace(&SERIES[SERIES.find("[").unwrap()..SERIES.rfind("]").unwrap() + 1], "[]");
    assert_eq!(series(&body).unwrap().values.len(), 0);
}

#[test]
fn series_with_a_bad_number_is_refused() {
    let body = SERIES.replace("\"60060200\"", "\"many\"");
    match series(&body) {
        Err(Error::ResponseParsing(DecodeError::Number(text))) => assert_eq!(text, "many"),
        other => panic!("unexpected outcome: {:?}", other),
    }
}

#[test]
fn series_with_a_bad_date_is_refused() {
    let body = SERIES.replace("2022-09-13", "13.09.2022");
    match series(&body) {
        Err(Error::ResponseParsing(DecodeError::Datetime { text, .. })) => {
            assert_eq!(text, "13.09.2022")
        }
        other => panic!("unexpected outcome: {:?}", other),
    }
}

#[test]
fn series_of_another_shape_is_refused() {
    match series(r#"{"meta":{},"status":"ok","values":[]}"#) {
        Err(Error::ResponseParsing(DecodeError::Shape(key))) => assert_eq!(key, "symbol"),
        other => panic!("unexpected outcome: {:?}", other),
    }
    match series(r#"{"status":"ok","values":[]}"#) {
        Err(Error::ResponseParsing(DecodeError::Shape(key))) => assert_eq!(key, "meta"),
        other => panic!("unexpected outcome: {:?}", other),
    }
    let body = SERIES.replace("\"1day\"", "\"1year\"");
    match series(&body) {
        Err(Error::ResponseParsing(DecodeError::Shape(key))) => assert_eq!(key, "interval"),
        other => panic!("unexpected outcome: {:?}", other),
    }
    let body = SERIES.replace("\"231261\"", "231261");
    match series(&body) {
        Err(Error::ResponseParsing(DecodeError::Shape(key))) => assert_eq!(key, "volume"),
        other => panic!("unexpected outcome: {:?}", other),
    }
    match series("[1, 2]") {
        Err(Error::ResponseParsing(DecodeError::Shape(key))) => assert_eq!(key, "meta"),
        other => panic!("unexpected outcome: {:?}", other),
    }
}

#[test]
fn quote_fields_are_read() {
    let res = quote(QUOTE).unwrap();
    assert_eq!(res.symbol, "AAPL");
    assert_eq!(res.name, "Apple Inc");
    assert_eq!(res.timestamp, 1663703999);
    assert_eq!(
        res.datetime,
        Timestamp { year: 2022, month: 9, day: 20, hour: 0, minute: 0, second: 0, nanosecond: 0 }
    );
    assert_eq!(number(res.open.as_str()), 153.39999);
    assert_eq!(number(res.change.as_str()), 2.42);
    assert_eq!(number(res.fifty_two_week.high_change.as_str()), -26.04001);
    assert!(!res.is_market_open);
}

#[test]
fn absent_optional_number_is_no_value() {
    let res = quote(QUOTE).unwrap();
    assert!(res.rolling_1d_change.is_none());
    assert!(res.rolling_7d_change.is_none());
    assert!(res.rolling_period_change.is_none());

    let body = QUOTE.replace(
        "\"is_market_open\":false",
        "\"is_market_open\":true,\"rolling_1d_change\":\"-0.5\",\"rolling_7d_change\":null",
    );
    let res = quote(&body).unwrap();
    assert_eq!(number(res.rolling_1d_change.unwrap().as_str()), -0.5);
    assert!(res.rolling_7d_change.is_none());
    assert!(res.is_market_open);

    let body = QUOTE.replace("\"is_market_open\":false", "\"rolling_1d_change\":\"\"");
    assert!(matches!(quote(&body), Err(Error::ResponseParsing(DecodeError::Number(_)))));
}

#[test]
fn absent_statistics_are_zero() {
    let cut = QUOTE.find(",\"fifty_two_week\"").unwrap();
    let body = format!("{}}}", &QUOTE[..cut]);
    let res = quote(&body).unwrap();
    assert_eq!(number(res.fifty_two_week.low.as_str()), 0.0);
    assert_eq!(number(res.fifty_two_week.range.start.as_str()), 0.0);
    assert_eq!(number(res.fifty_two_week.range.end.as_str()), 0.0);
}

#[test]
fn quote_with_a_bad_range_is_refused() {
    let body = QUOTE.replace("129.039993 - 182.940002", "129.039993-182.940002");
    assert!(matches!(quote(&body), Err(Error::ResponseParsing(DecodeError::RangeSeparator))));
    let body = QUOTE.replace("129.039993 - 182.940002", "129.039993 - high");
    match quote(&body) {
        Err(Error::ResponseParsing(DecodeError::RangeHigh(text))) => assert_eq!(text, "high"),
        other => panic!("unexpected outcome: {:?}", other),
    }
    let body = QUOTE.replace("\"timestamp\":1663703999", "\"timestamp\":1.5");
    match quote(&body) {
        Err(Error::ResponseParsing(DecodeError::Shape(key))) => assert_eq!(key, "timestamp"),
        other => panic!("unexpected outcome: {:?}", other),
    }
}

#[test]
fn price_and_logo() {
    let price = price_of(interpret(200, r#"{"price":"200.99001"}"#)).unwrap();
    assert_eq!(number(price.price.as_str()), 200.99001);
    assert!(matches!(
        price_of(interpret(200, r#"{"price":200.99001}"#)),
        Err(Error::ResponseParsing(DecodeError::Shape(_)))
    ));
    let logo = logo_of(interpret(200, r#"{"meta":{"symbol":"AAPL"},"url":"https://x/y.png"}"#))
        .unwrap();
    assert_eq!(logo.url, "https://x/y.png");
    assert!(matches!(
        logo_of(interpret(200, "{}")),
        Err(Error::ResponseParsing(DecodeError::Shape(_)))
    ));
}
