//! The dispatcher: one request, one answer, classified.

use crate::errors::DecodeError;
use crate::errors::Error;
use crate::errors::QueryError;
use crate::fundamentals::LogoRequest;
use crate::fundamentals::LogoResponse;
use crate::http_client::HttpClient;
use crate::http_client::Response;
use crate::json::Json;
use crate::outside::decimal_digits;
use crate::outside::decimal_text;
use crate::outside::parse_json;
use crate::outside::parsed_json;
use crate::outside::urlencoded;
use crate::prices::PriceRequest;
use crate::prices::PriceResponse;
use crate::prices::QuoteRequest;
use crate::prices::QuoteResponse;
use crate::prices::TimeSeriesRequest;
use crate::prices::TimeSeriesResponse;
use vstd::prelude::*;

verus! {

/// The address of the service.
pub const API_URL: &'static str = "https://api.twelvedata.com";

/// The status codes that let the body count.
pub open spec fn is_success(status: u16) -> bool {
    200 <= status <= 299
}

/// The address of a call: the base, the endpoint and the query.
pub open spec fn url_spec(endpoint: Seq<char>, query: Seq<char>) -> Seq<char> {
    "https://api.twelvedata.com"@ + "/"@ + endpoint + "?"@ + query
}

/// The address of a call: `<base>/<endpoint>?<query>`.
pub fn request_url(endpoint: &str, query: &str) -> (url: String)
    ensures
        url@ == url_spec(endpoint@, query@),
{
    String::from_str(API_URL).concat("/").concat(endpoint).concat("?").concat(query)
}

/// The reason for which a document reports a failure of the application,
/// if it reports one: its `status` is no text, or is `error`.
pub open spec fn envelope_failure(doc: Json) -> Option<Seq<char>> {
    match doc.member("status"@) {
        None => None,
        Some(Json::Text(s)) => if s@ == "error"@ {
            match doc.member("message"@) {
                Some(Json::Text(m)) => Some(m@),
                _ => Some("<unknown reason>"@),
            }
        } else {
            None
        },
        Some(_) => Some("status value in the response is not a string"@),
    }
}

/// Hands the document on unless it reports a failure of the application;
/// then the reason comes back as `Error::DataError`.
pub fn inspect_envelope(doc: Json) -> (r: Result<Json, Error>)
    ensures
        match envelope_failure(doc) {
            None => r == Ok::<Json, Error>(doc),
            Some(reason) => r matches Err(Error::DataError(m)) && m@ == reason,
        },
{
    let reason: Option<String> = match doc.get("status") {
        None => None,
        Some(Json::Text(s)) => {
            if crate::query::same_text(s.as_str(), "error") {
                match doc.get("message") {
                    Some(Json::Text(m)) => Some(m.clone()),
                    _ => Some(String::from_str("<unknown reason>")),
                }
            } else {
                None
            }
        },
        Some(_) => Some(String::from_str("status value in the response is not a string")),
    };
    match reason {
        None => Ok(doc),
        Some(m) => Err(Error::DataError(m)),
    }
}

/// What a status code and a body come to, where `parsed` is what the body
/// reads as.
pub open spec fn interpret_agrees(r: Result<Json, Error>, status: u16, parsed: Option<Json>) -> bool {
    if !is_success(status) {
        r matches Err(Error::DataError(m)) && m@ == "status "@ + decimal_digits(status as nat)
    } else {
        match parsed {
            None => r matches Err(Error::ResponseParsing(DecodeError::Syntax(_))),
            Some(doc) => match envelope_failure(doc) {
                None => r == Ok::<Json, Error>(doc),
                Some(reason) => r matches Err(Error::DataError(m)) && m@ == reason,
            },
        }
    }
}

/// Classifies an answer. A status outside 200 to 299 is a failure that
/// carries the status, and the body is not read. A body that is no JSON is
/// a parsing failure. A document that reports a failure gives its reason.
/// Any other document is handed on.
pub fn interpret(status: u16, body: &str) -> (r: Result<Json, Error>)
    ensures
        interpret_agrees(r, status, parsed_json(body@)),
{
    if status < 200 || status > 299 {
        let m = String::from_str("status ").concat(decimal_text(status as u32).as_str());
        return Err(Error::DataError(m));
    }
    match parse_json(body) {
        Err(why) => Err(Error::ResponseParsing(DecodeError::Syntax(why))),
        Ok(doc) => inspect_envelope(doc),
    }
}

/// What the outcome of the transport comes to: its failure as it is, its
/// answer as `interpret` classifies it.
pub fn complete(outcome: Result<Response, Error>) -> (r: Result<Json, Error>)
    ensures
        match outcome {
            Err(e) => r == Err::<Json, Error>(e),
            Ok(answer) => interpret_agrees(r, answer.status, parsed_json(answer.body@)),
        },
{
    match outcome {
        Err(e) => Err(e),
        Ok(answer) => interpret(answer.status, answer.body.as_str()),
    }
}

/// What a call returns where the request cannot be written as a query
/// string: `pairs` are the pairs of the request, `None` where one of its
/// timestamps is no time of the calendar.
pub open spec fn query_failure<T>(
    r: Result<T, Error>,
    pairs: Option<Seq<(Seq<char>, Seq<char>)>>,
) -> bool {
    match pairs {
        None => r matches Err(Error::QueryConstruction(QueryError::Timestamp)),
        Some(p) => urlencoded(p) is None ==> r matches Err(
            Error::QueryConstruction(QueryError::Encoding(_)),
        ),
    }
}

/// The typed answer of `time_series` for what a round trip gave: a failure
/// stays as it is, and a document is decoded.
pub fn time_series_of(fetched: Result<Json, Error>) -> (r: Result<TimeSeriesResponse, Error>)
    ensures
        match fetched {
            Err(e) => r == Err::<TimeSeriesResponse, Error>(e),
            Ok(doc) => match r {
                Ok(v) => TimeSeriesResponse::failure(doc) is None && v.decodes(doc),
                Err(e) => e matches Error::ResponseParsing(d) && TimeSeriesResponse::failure(doc) == Some(d@),
            },
        },
{
    match fetched {
        Err(e) => Err(e),
        Ok(doc) => match TimeSeriesResponse::from_json(&doc) {
            Ok(v) => Ok(v),
            Err(e) => Err(Error::ResponseParsing(e)),
        },
    }
}

/// The typed answer of `quote` for what a round trip gave: a failure stays
/// as it is, and a document is decoded.
pub fn quote_of(fetched: Result<Json, Error>) -> (r: Result<QuoteResponse, Error>)
    ensures
        match fetched {
            Err(e) => r == Err::<QuoteResponse, Error>(e),
            Ok(doc) => match r {
                Ok(v) => QuoteResponse::failure(doc) is None && v.decodes(doc),
                Err(e) => e matches Error::ResponseParsing(d) && QuoteResponse::failure(doc) == Some(d@),
            },
        },
{
    match fetched {
        Err(e) => Err(e),
        Ok(doc) => match QuoteResponse::from_json(&doc) {
            Ok(v) => Ok(v),
            Err(e) => Err(Error::ResponseParsing(e)),
        },
    }
}

/// The typed answer of `price` for what a round trip gave: a failure stays
/// as it is, and a document is decoded.
pub fn price_of(fetched: Result<Json, Error>) -> (r: Result<PriceResponse, Error>)
    ensures
        match fetched {
            Err(e) => r == Err::<PriceResponse, Error>(e),
            Ok(doc) => match r {
                Ok(v) => PriceResponse::failure(doc) is None && v.decodes(doc),
                Err(e) => e matches Error::ResponseParsing(d) && PriceResponse::failure(doc) == Some(d@),
            },
        },
{
    match fetched {
        Err(e) => Err(e),
        Ok(doc) => match PriceResponse::from_json(&doc) {
            Ok(v) => Ok(v),
            Err(e) => Err(Error::ResponseParsing(e)),
        },
    }
}

/// The typed answer of `logo` for what a round trip gave: a failure stays
/// as it is, and a document is decoded.
pub fn logo_of(fetched: Result<Json, Error>) -> (r: Result<LogoResponse, Error>)
    ensures
        match fetched {
            Err(e) => r == Err::<LogoResponse, Error>(e),
            Ok(doc) => match r {
                Ok(v) => LogoResponse::failure(doc) is None && v.decodes(doc),
                Err(e) => e matches Error::ResponseParsing(d) && LogoResponse::failure(doc) == Some(d@),
            },
        },
{
    match fetched {
        Err(e) => Err(e),
        Ok(doc) => match LogoResponse::from_json(&doc) {
            Ok(v) => Ok(v),
            Err(e) => Err(Error::ResponseParsing(e)),
        },
    }
}

/// A client of the service: the credential and the transport.
pub struct TwelveData {
    api_key: String,
    client: Box<dyn HttpClient>,
}

impl TwelveData {
    /// The credential that every call sends.
    pub closed spec fn credential(self) -> Seq<char> {
        self.api_key@
    }

    /// A client that sends `api_key` through `client`.
    pub fn new(api_key: &str, client: Box<dyn HttpClient>) -> (td: Self)
        ensures
            td.credential() == api_key@,
    {
        TwelveData { api_key: String::from_str(api_key), client }
    }

    /// One round trip: the GET of `<base>/<endpoint>?<query>` through the
    /// transport, and the classification of what came back. A document that
    /// comes back reports no failure.
    pub fn fetch(&self, endpoint: &str, query: &str) -> (r: Result<Json, Error>)
        ensures
            r matches Ok(doc) ==> envelope_failure(doc) is None,
    {
        let url = request_url(endpoint, query);
        let outcome = self.client.get(url.as_str(), self.api_key.as_str());
        complete(outcome)
    }

    /// The round trip of an encoded request, or the failure of its
    /// encoding.
    fn send(&self, endpoint: &str, query: Result<String, Error>) -> (r: Result<Json, Error>)
        ensures
            query matches Err(e) ==> r == Err::<Json, Error>(e),
            r matches Ok(doc) ==> envelope_failure(doc) is None,
    {
        match query {
            Err(e) => Err(e),
            Ok(q) => self.fetch(endpoint, q.as_str()),
        }
    }

    /// One call of `time_series`. A request that cannot be encoded fails
    /// before anything is sent. An answer that comes back was decoded from
    /// a document that reports no failure.
    pub fn time_series(&self, req: TimeSeriesRequest) -> (r: Result<TimeSeriesResponse, Error>)
        ensures
            query_failure(r, req.pairs_spec()),
            r matches Ok(v) ==> exists|doc: Json|
                envelope_failure(doc) is None && #[trigger] v.decodes(doc),
    {
        time_series_of(self.send("time_series", req.encode()))
    }

    /// One call of `quote`. An answer that comes back was decoded from a
    /// document that reports no failure.
    pub fn quote(&self, req: QuoteRequest) -> (r: Result<QuoteResponse, Error>)
        ensures
            query_failure(r, Some(req.pairs_spec())),
            r matches Ok(v) ==> exists|doc: Json|
                envelope_failure(doc) is None && #[trigger] v.decodes(doc),
    {
        quote_of(self.send("quote", req.encode()))
    }

    /// One call of `price`. A request that cannot be encoded fails before
    /// anything is sent. An answer that comes back was decoded from a
    /// document that reports no failure.
    pub fn price(&self, req: PriceRequest) -> (r: Result<PriceResponse, Error>)
        ensures
            query_failure(r, req.pairs_spec()),
            r matches Ok(v) ==> exists|doc: Json|
                envelope_failure(doc) is None && #[trigger] v.decodes(doc),
    {
        price_of(self.send("price", req.encode()))
    }

    /// One call of `logo`. An answer that comes back was decoded from a
    /// document that reports no failure.
    pub fn logo(&self, req: LogoRequest) -> (r: Result<LogoResponse, Error>)
        ensures
            query_failure(r, Some(req.pairs_spec())),
            r matches Ok(v) ==> exists|doc: Json|
                envelope_failure(doc) is None && #[trigger] v.decodes(doc),
    {
        logo_of(self.send("logo", req.encode()))
    }
}

} // verus!
