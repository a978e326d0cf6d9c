use std::sync::Arc;
use std::sync::Mutex;
use twelvedata::client::complete;
use twelvedata::client::inspect_envelope;
use twelvedata::client::interpret;
use twelvedata::client::request_url;
use twelvedata::errors::DecodeError;
use twelvedata::errors::Error;
use twelvedata::errors::QueryError;
use twelvedata::fundamentals::LogoRequest;
use twelvedata::http_client::HttpClient;
use twelvedata::http_client::Response;
use twelvedata::json::Json;
use twelvedata::timestamp::Timestamp;
use twelvedata::prices::PriceRequest;
use twelvedata::prices::QuoteRequest;
use twelvedata::prices::TimeSeriesRequest;
use twelvedata::CommonQueryParameters;
use twelvedata::Interval;
use twelvedata::TwelveData;

const SERIES: &str = r#"{"meta":{"currency":"USD","exchange":"NASDAQ","exchange_timezone":"America/New_York","interval":"1day","mic_code":"XNGS","symbol":"TSLA","type":"Common Stock"},"status":"ok","values":[{"close":"308.73001","datetime":"2022-09-20","high":"313.32999","low":"305.57999","open":"306.91501","volume":"231261"},{"close":"309.07001","datetime":"2022-09-19 15:30:00","high":"309.84000","low":"297.79999","open":"300.09000","volume":"60060200"}]}"#;

struct Canned {
    status: u16,
    body: String,
    seen: Arc<Mutex<Vec<(String, String)>>>,
}

impl HttpClient for Canned {
    fn get(&self, url: &str, api_key: &str) -> Result<Response, Error> {
        self.seen.lock().unwrap().push((url.to_string(), api_key.to_string()));
        Ok(Response { status: self.status, body: self.body.clone() })
    }
}

struct Broken;

impl HttpClient for Broken {
    fn get(&self, _url: &str, _api_key: &str) -> Result<Response, Error> {
        Err(Error::HttpError("connection refused".to_string()))
    }
}

fn canned(status: u16, body: &str) -> (TwelveData, Arc<Mutex<Vec<(String, String)>>>) {
    let seen = Arc::new(Mutex::new(Vec::new()));
    let client = Canned { status, body: body.to_string(), seen: seen.clone() };
    (TwelveData::new("demo", Box::new(client)), seen)
}

fn tsla() -> TimeSeriesRequest {
    TimeSeriesRequest::builder()
        .symbol("TSLA".into())
        .interval(Interval::Day)
        .output_size(10)
        .build()
        .unwrap()
}

#[test]
fn time_series() {
    let (td, _) = canned(200, SERIES);

    let res = td.time_series(tsla());

    assert!(res.is_ok());
}

#[test]
fn one_get_with_the_address_and_the_credential() {
    let (td, seen) = canned(200, SERIES);
    let res = td.time_series(tsla()).unwrap();
    assert_eq!(res.values.len(), 2);
    assert_eq!(res.values[1].datetime.hour, 15);
    assert_eq!(
        *seen.lock().unwrap(),
        vec![(
            "https://api.twelvedata.com/time_series?symbol=TSLA&interval=1day&outputsize=10"
                .to_string(),
            "demo".to_string()
        )]
    );
}

#[test]
fn each_endpoint_has_its_path() {
    let (td, seen) = canned(200, r#"{"price":"1.5"}"#);
    let req = PriceRequest {
        common: CommonQueryParameters::default(),
        symbol: "AAPL".into(),
        output_size: None,
        order: None,
        start_date: None,
        end_date: None,
        previous_close: None,
    };
    assert_eq!(td.price(req).unwrap().price.as_str(), "1.5");
    let req = QuoteRequest {
        common: CommonQueryParameters::default(),
        symbol: "AAPL".into(),
        interval: Interval::Week,
        volume_time_period: None,
        end_of_day: None,
        rolling_period: None,
    };
    assert!(matches!(td.quote(req), Err(Error::ResponseParsing(DecodeError::Shape(_)))));
    let req = LogoRequest {
        symbol: "AAPL".into(),
        exchange: "NASDAQ".into(),
        mic_code: "XNGS".into(),
        country: "US".into(),
    };
    assert!(matches!(td.logo(req), Err(Error::ResponseParsing(DecodeError::Shape(_)))));
    let urls: Vec<String> = seen.lock().unwrap().iter().map(|(url, _)| url.clone()).collect();
    assert_eq!(
        urls,
        vec![
            "https://api.twelvedata.com/price?symbol=AAPL",
            "https://api.twelvedata.com/quote?symbol=AAPL&interval=1week",
            "https://api.twelvedata.com/logo?symbol=AAPL&exchange=NASDAQ&mic_code=XNGS&country=US",
        ]
    );
}

#[test]
fn request_that_cannot_be_encoded_sends_nothing() {
    let (td, seen) = canned(200, SERIES);
    let req = TimeSeriesRequest::builder()
        .symbol("TSLA".into())
        .interval(Interval::Day)
        .end_date(Timestamp {
            year: 2022,
            month: 13,
            day: 1,
            hour: 0,
            minute: 0,
            second: 0,
            nanosecond: 0,
        })
        .build()
        .unwrap();
    assert!(matches!(
        td.time_series(req),
        Err(Error::QueryConstruction(QueryError::Timestamp))
    ));
    assert!(seen.lock().unwrap().is_empty());
}

#[test]
fn transport_failure_comes_back_as_it_is() {
    let td = TwelveData::new("demo", Box::new(Broken));
    match td.time_series(tsla()) {
        Err(Error::HttpError(detail)) => assert_eq!(detail, "connection refused"),
        other => panic!("unexpected outcome: {:?}", other),
    }
    match complete(Err(Error::HttpError("tls".to_string()))) {
        Err(Error::HttpError(detail)) => assert_eq!(detail, "tls"),
        other => panic!("unexpected outcome: {:?}", other),
    }
}

#[test]
fn error_envelope_with_status_200() {
    match interpret(200, r#"{"status":"error","message":"bad symbol"}"#) {
        Err(Error::DataError(reason)) => assert_eq!(reason, "bad symbol"),
        other => panic!("unexpected outcome: {:?}", other),
    }
    let (td, _) = canned(200, r#"{"status":"error","message":"bad symbol"}"#);
    match td.time_series(tsla()) {
        Err(Error::DataError(reason)) => assert_eq!(reason, "bad symbol"),
        other => panic!("unexpected outcome: {:?}", other),
    }
}

#[test]
fn error_envelope_without_message() {
    match interpret(200, r#"{"status":"error"}"#) {
        Err(Error::DataError(reason)) => assert_eq!(reason, "<unknown reason>"),
        other => panic!("unexpected outcome: {:?}", other),
    }
    match interpret(200, r#"{"status":"error","message":404}"#) {
        Err(Error::DataError(reason)) => assert_eq!(reason, "<unknown reason>"),
        other => panic!("unexpected outcome: {:?}", other),
    }
}

#[test]
fn status_that_is_no_text_is_refused() {
    for body in [r#"{"status":1}"#, r#"{"status":null}"#, r#"{"status":["error"]}"#] {
        match interpret(200, body) {
            Err(Error::DataError(reason)) => {
                assert_eq!(reason, "status value in the response is not a string")
            }
            other => panic!("unexpected outcome: {:?}", other),
        }
    }
}

#[test]
fn http_429_whatever_the_body() {
    for body in [SERIES, "not json", "", r#"{"status":"error","message":"bad symbol"}"#] {
        match interpret(429, body) {
            Err(Error::DataError(reason)) => assert_eq!(reason, "status 429"),
            other => panic!("unexpected outcome: {:?}", other),
        }
    }
    let (td, _) = canned(429, SERIES);
    match td.time_series(tsla()) {
        Err(Error::DataError(reason)) => assert_eq!(reason, "status 429"),
        other => panic!("unexpected outcome: {:?}", other),
    }
}

#[test]
fn only_2xx_lets_the_body_count() {
    for status in [0, 100, 199, 300, 404, 500, 65535] {
        match interpret(status, "{}") {
            Err(Error::DataError(reason)) => assert_eq!(reason, format!("status {}", status)),
            other => panic!("unexpected outcome: {:?}", other),
        }
    }
    for status in [200, 201, 204, 299] {
        assert!(matches!(interpret(status, "{}"), Ok(Json::Object(_))));
    }
}

#[test]
fn body_that_is_no_json() {
    for body in ["", "not json", "{\"status\":", "{} {}"] {
        match interpret(200, body) {
            Err(Error::ResponseParsing(DecodeError::Syntax(why))) => assert!(!why.is_empty()),
            other => panic!("unexpected outcome: {:?}", other),
        }
    }
}

#[test]
fn document_without_failure_is_handed_on() {
    let doc = interpret(200, r#"{"status":"ok","n":7,"x":1.5,"list":[true,null,"s"]}"#).unwrap();
    assert!(matches!(doc.get("status"), Some(Json::Text(s)) if s == "ok"));
    assert_eq!(doc.get_text("status"), Some("ok"));
    assert_eq!(doc.get_text("n"), None);
    assert!(doc.get("absent").is_none());
    match doc.get("n") {
        Some(Json::Number(n)) => {
            assert_eq!(n.integer, Some(7));
            assert_eq!(n.text, "7");
        }
        other => panic!("unexpected member: {:?}", other),
    }
    match doc.get("x") {
        Some(Json::Number(n)) => {
            assert_eq!(n.integer, None);
            assert_eq!(n.text, "1.5");
        }
        other => panic!("unexpected member: {:?}", other),
    }
    match doc.get("list") {
        Some(Json::Array(items)) => {
            assert_eq!(items.len(), 3);
            assert!(matches!(items[0], Json::Bool(true)));
            assert!(matches!(items[1], Json::Null));
            assert!(matches!(&items[2], Json::Text(s) if s == "s"));
        }
        other => panic!("unexpected member: {:?}", other),
    }
    assert!(matches!(inspect_envelope(Json::Null), Ok(Json::Null)));
    assert!(matches!(interpret(200, "[]"), Ok(Json::Array(_))));
}

#[test]
fn address_of_a_call() {
    assert_eq!(
        request_url("quote", "symbol=AAPL"),
        "https://api.twelvedata.com/quote?symbol=AAPL"
    );
    assert_eq!(request_url("logo", ""), "https://api.twelvedata.com/logo?");
}

#[test]
fn error_messages() {
    assert_eq!(
        Error::DataError("status 500".to_string()).message(),
        "failed to obtain data: status 500"
    );
    assert_eq!(Error::HttpError("timeout".to_string()).message(), "HTTP error: timeout");
    assert_eq!(
        Error::QueryConstruction(QueryError::Timestamp).message(),
        "query construction error"
    );
    assert_eq!(
        Error::ResponseParsing(DecodeError::RangeSeparator).message(),
        "failed to parse the output"
    );
}

#[test]
fn error_causes() {
    assert_eq!(Error::DataError("status 500".to_string()).cause(), None);
    assert_eq!(Error::HttpError("timeout".to_string()).cause(), Some("timeout".to_string()));
    assert_eq!(
        Error::QueryConstruction(QueryError::Timestamp).cause(),
        Some("a timestamp is no time of the calendar".to_string())
    );
    assert_eq!(
        Error::ResponseParsing(DecodeError::RangeHigh("x".to_string())).cause(),
        Some("failed to parse the second range value: x".to_string())
    );
    assert_eq!(
        Error::ResponseParsing(DecodeError::Shape("meta".to_string())).cause(),
        Some("missing or unexpected member: meta".to_string())
    );
}
