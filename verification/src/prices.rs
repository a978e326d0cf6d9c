//! The endpoints on prices: time series, quote and price.

use crate::builders::TimeSeriesRequestBuilder;
use crate::codec::numeric_view;
use crate::codec::Numeric;
use crate::codec::NumericRange;
use crate::decode::array_member;
use crate::decode::datetime_failure;
use crate::decode::datetime_field;
use crate::decode::datetime_member;
use crate::decode::first_failure;
use crate::decode::first_failure_from;
use crate::decode::flag_failure;
use crate::decode::flag_field;
use crate::decode::flag_member;
use crate::decode::integer_failure;
use crate::decode::integer_field;
use crate::decode::integer_member;
use crate::decode::interval_failure;
use crate::decode::interval_field;
use crate::decode::interval_member;
use crate::decode::numeric_failure;
use crate::decode::numeric_field;
use crate::decode::numeric_member;
use crate::decode::optional_numeric_failure;
use crate::decode::optional_numeric_field;
use crate::decode::optional_numeric_member;
use crate::decode::range_failure;
use crate::decode::range_field;
use crate::decode::range_member;
use crate::decode::shape_error;
use crate::decode::text_failure;
use crate::decode::text_field;
use crate::errors::DecodeError;
use crate::errors::DecodeFailure;
use crate::errors::Error;
use crate::errors::QueryError;
use crate::json::Json;
use crate::outside::pairs_view;
use crate::timestamp::Timestamp;
use crate::query::count_of;
use crate::query::count_value;
use crate::query::encode_pairs;
use crate::query::encoded_agrees;
use crate::query::entry;
use crate::query::emits_key;
use crate::query::flag_of;
use crate::query::flag_value;
use crate::query::format_of;
use crate::query::kind_of;
use crate::query::lemma_common_values;
use crate::query::lemma_key_is_written_iff_valued;
use crate::query::lemma_values_after_entry;
use crate::query::lemma_wire_names_differ;
use crate::query::order_of;
use crate::query::order_value;
use crate::query::places_of;
use crate::query::places_value;
use crate::query::push_entry;
use crate::query::size_of;
use crate::query::size_value;
use crate::query::text_of;
use crate::query::time_of;
use crate::query::time_value;
use crate::query::value_of;
use crate::query::CommonQueryParameters;
use crate::query::Interval;
use crate::query::Order;
use vstd::prelude::*;

verus! {

/// The parameters of the `time_series` endpoint.
#[derive(Debug)]
pub struct TimeSeriesRequest {
    pub common: CommonQueryParameters,
    pub symbol: String,
    pub interval: Interval,
    pub output_size: Option<u16>,
    pub order: Option<Order>,
    pub start_date: Option<Timestamp>,
    pub end_date: Option<Timestamp>,
    pub previous_close: Option<bool>,
}

/// What `encode` returns where the pairs of a request are `pairs`; `None`
/// says that a timestamp of the request is no time of the calendar.
pub open spec fn encode_agrees(
    r: Result<String, Error>,
    pairs: Option<Seq<(Seq<char>, Seq<char>)>>,
) -> bool {
    match pairs {
        Some(p) => encoded_agrees(r, p),
        None => r matches Err(Error::QueryConstruction(QueryError::Timestamp)),
    }
}

/// What `query_pairs` returns where the pairs of a request are `pairs`.
pub open spec fn pairs_agree(
    r: Result<Vec<(String, String)>, Error>,
    pairs: Option<Seq<(Seq<char>, Seq<char>)>>,
) -> bool {
    match pairs {
        Some(p) => r matches Ok(out) && pairs_view(out@) == p,
        None => r matches Err(Error::QueryConstruction(QueryError::Timestamp)),
    }
}

impl TimeSeriesRequest {
    /// A builder with nothing set: no parameter of the request, and none
    /// of the common ones.
    pub fn builder() -> (b: TimeSeriesRequestBuilder)
        ensures
            b.first_missing() == Some("symbol"@),
            b.common.all_absent(),
            b.symbol is None,
            b.interval is None,
            b.output_size is None,
            b.order is None,
            b.start_date is None,
            b.end_date is None,
            b.previous_close is None,
            b.common.pairs_spec() == Seq::<(Seq<char>, Seq<char>)>::empty(),
    {
        TimeSeriesRequestBuilder::new()
    }

    /// The pairs of the request: the common parameters first, then its own,
    /// in the order of declaration, the absent ones left out.
    pub open spec fn pairs_spec(self) -> Option<Seq<(Seq<char>, Seq<char>)>> {
        match (time_of(self.start_date), time_of(self.end_date)) {
            (Some(start), Some(end)) => Some(
                self.common.pairs_spec() + entry("symbol"@, Some(self.symbol@)) + entry(
                    "interval"@,
                    Some(self.interval.wire_name()),
                ) + entry("outputsize"@, size_of(self.output_size)) + entry(
                    "order"@,
                    order_of(self.order),
                ) + entry("start_date"@, start) + entry("end_date"@, end) + entry(
                    "previous_close"@,
                    flag_of(self.previous_close),
                ),
            ),
            _ => None,
        }
    }

    /// The pairs of the request, in the order in which they are written.
    pub fn query_pairs(&self) -> (r: Result<Vec<(String, String)>, Error>)
        ensures
            pairs_agree(r, self.pairs_spec()),
    {
        let start = match time_value(&self.start_date) {
            Ok(s) => s,
            Err(e) => {
                return Err(e);
            },
        };
        let end = match time_value(&self.end_date) {
            Ok(s) => s,
            Err(e) => {
                return Err(e);
            },
        };
        let mut out = self.common.query_pairs();
        push_entry(&mut out, "symbol", Some(self.symbol.clone()));
        push_entry(&mut out, "interval", Some(String::from_str(self.interval.as_str())));
        push_entry(&mut out, "outputsize", size_value(self.output_size));
        push_entry(&mut out, "order", order_value(self.order));
        push_entry(&mut out, "start_date", start);
        push_entry(&mut out, "end_date", end);
        push_entry(&mut out, "previous_close", flag_value(self.previous_close));
        Ok(out)
    }

    /// The request as a query string.
    pub fn encode(&self) -> (r: Result<String, Error>)
        ensures
            encode_agrees(r, self.pairs_spec()),
    {
        match self.query_pairs() {
            Ok(pairs) => encode_pairs(&pairs),
            Err(e) => Err(e),
        }
    }
}

/// The parameters of the `quote` endpoint.
#[derive(Debug)]
pub struct QuoteRequest {
    pub common: CommonQueryParameters,
    pub symbol: String,
    pub interval: Interval,
    pub volume_time_period: Option<u32>,
    pub end_of_day: Option<bool>,
    pub rolling_period: Option<u8>,
}

impl QuoteRequest {
    /// The pairs of the request: the common parameters first, then its own,
    /// in the order of declaration, the absent ones left out.
    pub open spec fn pairs_spec(self) -> Seq<(Seq<char>, Seq<char>)> {
        self.common.pairs_spec() + entry("symbol"@, Some(self.symbol@)) + entry(
            "interval"@,
            Some(self.interval.wire_name()),
        ) + entry("volume_time_period"@, count_of(self.volume_time_period)) + entry(
            "eod"@,
            flag_of(self.end_of_day),
        ) + entry("rolling_period"@, places_of(self.rolling_period))
    }

    /// The pairs of the request, in the order in which they are written.
    pub fn query_pairs(&self) -> (out: Vec<(String, String)>)
        ensures
            pairs_view(out@) == self.pairs_spec(),
    {
        let mut out = self.common.query_pairs();
        push_entry(&mut out, "symbol", Some(self.symbol.clone()));
        push_entry(&mut out, "interval", Some(String::from_str(self.interval.as_str())));
        push_entry(&mut out, "volume_time_period", count_value(self.volume_time_period));
        push_entry(&mut out, "eod", flag_value(self.end_of_day));
        push_entry(&mut out, "rolling_period", places_value(self.rolling_period));
        out
    }

    /// The request as a query string.
    pub fn encode(&self) -> (r: Result<String, Error>)
        ensures
            encoded_agrees(r, self.pairs_spec()),
    {
        let pairs = self.query_pairs();
        encode_pairs(&pairs)
    }
}

/// The parameters of the `price` endpoint.
#[derive(Debug)]
pub struct PriceRequest {
    pub common: CommonQueryParameters,
    pub symbol: String,
    pub output_size: Option<u16>,
    pub order: Option<Order>,
    pub start_date: Option<Timestamp>,
    pub end_date: Option<Timestamp>,
    pub previous_close: Option<bool>,
}

impl PriceRequest {
    /// The pairs of the request: the common parameters first, then its own,
    /// in the order of declaration, the absent ones left out.
    pub open spec fn pairs_spec(self) -> Option<Seq<(Seq<char>, Seq<char>)>> {
        match (time_of(self.start_date), time_of(self.end_date)) {
            (Some(start), Some(end)) => Some(
                self.common.pairs_spec() + entry("symbol"@, Some(self.symbol@)) + entry(
                    "outputsize"@,
                    size_of(self.output_size),
                ) + entry("order"@, order_of(self.order)) + entry("start_date"@, start) + entry(
                    "end_date"@,
                    end,
                ) + entry("previous_close"@, flag_of(self.previous_close)),
            ),
            _ => None,
        }
    }

    /// The pairs of the request, in the order in which they are written.
    pub fn query_pairs(&self) -> (r: Result<Vec<(String, String)>, Error>)
        ensures
            pairs_agree(r, self.pairs_spec()),
    {
        let start = match time_value(&self.start_date) {
            Ok(s) => s,
            Err(e) => {
                return Err(e);
            },
        };
        let end = match time_value(&self.end_date) {
            Ok(s) => s,
            Err(e) => {
                return Err(e);
            },
        };
        let mut out = self.common.query_pairs();
        push_entry(&mut out, "symbol", Some(self.symbol.clone()));
        push_entry(&mut out, "outputsize", size_value(self.output_size));
        push_entry(&mut out, "order", order_value(self.order));
        push_entry(&mut out, "start_date", start);
        push_entry(&mut out, "end_date", end);
        push_entry(&mut out, "previous_close", flag_value(self.previous_close));
        Ok(out)
    }

    /// The request as a query string.
    pub fn encode(&self) -> (r: Result<String, Error>)
        ensures
            encode_agrees(r, self.pairs_spec()),
    {
        match self.query_pairs() {
            Ok(pairs) => encode_pairs(&pairs),
            Err(e) => Err(e),
        }
    }
}

/// What a series is about.
#[derive(Debug)]
pub struct TimeSeriesMeta {
    pub symbol: String,
    pub interval: Interval,
    pub currency: String,
    pub exchange_timezone: String,
    pub exchange: String,
    pub mic_code: String,
    pub instrument_type: String,
}

impl TimeSeriesMeta {
    /// Why the document does not hold such a value: what is wrong with the
    /// first member, in the order of declaration, that is missing or of
    /// another kind. `None` where nothing is wrong.
    pub open spec fn failure(doc: Json) -> Option<DecodeFailure> {
        first_failure(seq![
            text_failure(doc, "symbol"@),
            interval_failure(doc, "interval"@),
            text_failure(doc, "currency"@),
            text_failure(doc, "exchange_timezone"@),
            text_failure(doc, "exchange"@),
            text_failure(doc, "mic_code"@),
            text_failure(doc, "type"@),
        ])
    }

    /// The value holds, member by member, what the document says.
    pub open spec fn decodes(self, doc: Json) -> bool {
        &&& doc.text_member("symbol"@) == Some(self.symbol@)
        &&& interval_member(doc, "interval"@) == Some(self.interval)
        &&& doc.text_member("currency"@) == Some(self.currency@)
        &&& doc.text_member("exchange_timezone"@) == Some(self.exchange_timezone@)
        &&& doc.text_member("exchange"@) == Some(self.exchange@)
        &&& doc.text_member("mic_code"@) == Some(self.mic_code@)
        &&& doc.text_member("type"@) == Some(self.instrument_type@)
    }

    /// The value that the document holds, or what is wrong with the first
    /// member that is missing or of another kind.
    pub fn from_json(doc: &Json) -> (r: Result<TimeSeriesMeta, DecodeError>)
        ensures
            match r {
                Ok(v) => Self::failure(*doc) is None && v.decodes(*doc),
                Err(e) => Self::failure(*doc) == Some(e@),
            },
    {
        proof {
            reveal_with_fuel(first_failure_from, 9);
        }
        let symbol = text_field(doc, "symbol")?;
        let interval = interval_field(doc, "interval")?;
        let currency = text_field(doc, "currency")?;
        let exchange_timezone = text_field(doc, "exchange_timezone")?;
        let exchange = text_field(doc, "exchange")?;
        let mic_code = text_field(doc, "mic_code")?;
        let instrument_type = text_field(doc, "type")?;
        Ok(TimeSeriesMeta { symbol, interval, currency, exchange_timezone, exchange, mic_code, instrument_type })
    }
}

/// One bar of a series.
#[derive(Debug)]
pub struct TimeSeriesQuote {
    pub datetime: Timestamp,
    pub open: Numeric,
    pub high: Numeric,
    pub low: Numeric,
    pub close: Numeric,
    pub volume: Numeric,
}

impl TimeSeriesQuote {
    /// Why the document does not hold such a value: what is wrong with the
    /// first member, in the order of declaration, that is missing or of
    /// another kind. `None` where nothing is wrong.
    pub open spec fn failure(doc: Json) -> Option<DecodeFailure> {
        first_failure(seq![
            datetime_failure(doc, "datetime"@),
            numeric_failure(doc, "open"@),
            numeric_failure(doc, "high"@),
            numeric_failure(doc, "low"@),
            numeric_failure(doc, "close"@),
            numeric_failure(doc, "volume"@),
        ])
    }

    /// The value holds, member by member, what the document says.
    pub open spec fn decodes(self, doc: Json) -> bool {
        &&& datetime_member(doc, "datetime"@) == Some(self.datetime)
        &&& numeric_member(doc, "open"@) == Some(self.open@)
        &&& numeric_member(doc, "high"@) == Some(self.high@)
        &&& numeric_member(doc, "low"@) == Some(self.low@)
        &&& numeric_member(doc, "close"@) == Some(self.close@)
        &&& numeric_member(doc, "volume"@) == Some(self.volume@)
    }

    /// The value that the document holds, or what is wrong with the first
    /// member that is missing or of another kind.
    pub fn from_json(doc: &Json) -> (r: Result<TimeSeriesQuote, DecodeError>)
        ensures
            match r {
                Ok(v) => Self::failure(*doc) is None && v.decodes(*doc),
                Err(e) => Self::failure(*doc) == Some(e@),
            },
    {
        proof {
            reveal_with_fuel(first_failure_from, 8);
        }
        let datetime = datetime_field(doc, "datetime")?;
        let open = numeric_field(doc, "open")?;
        let high = numeric_field(doc, "high")?;
        let low = numeric_field(doc, "low")?;
        let close = numeric_field(doc, "close")?;
        let volume = numeric_field(doc, "volume")?;
        Ok(TimeSeriesQuote { datetime, open, high, low, close, volume })
    }
}

/// The extremes of the last fifty-two weeks.
#[derive(Debug)]
pub struct FiftyTwoWeekStats {
    pub low: Numeric,
    pub high: Numeric,
    pub low_change: Numeric,
    pub high_change: Numeric,
    pub low_change_percent: Numeric,
    pub high_change_percent: Numeric,
    pub range: NumericRange,
}

impl FiftyTwoWeekStats {
    /// Why the document does not hold such a value: what is wrong with the
    /// first member, in the order of declaration, that is missing or of
    /// another kind. `None` where nothing is wrong.
    pub open spec fn failure(doc: Json) -> Option<DecodeFailure> {
        first_failure(seq![
            numeric_failure(doc, "low"@),
            numeric_failure(doc, "high"@),
            numeric_failure(doc, "low_change"@),
            numeric_failure(doc, "high_change"@),
            numeric_failure(doc, "low_change_percent"@),
            numeric_failure(doc, "high_change_percent"@),
            range_failure(doc, "range"@),
        ])
    }

    /// The value holds, member by member, what the document says.
    pub open spec fn decodes(self, doc: Json) -> bool {
        &&& numeric_member(doc, "low"@) == Some(self.low@)
        &&& numeric_member(doc, "high"@) == Some(self.high@)
        &&& numeric_member(doc, "low_change"@) == Some(self.low_change@)
        &&& numeric_member(doc, "high_change"@) == Some(self.high_change@)
        &&& numeric_member(doc, "low_change_percent"@) == Some(self.low_change_percent@)
        &&& numeric_member(doc, "high_change_percent"@) == Some(self.high_change_percent@)
        &&& range_member(doc, "range"@) == Some((self.range.start@, self.range.end@))
    }

    /// The value that the document holds, or what is wrong with the first
    /// member that is missing or of another kind.
    pub fn from_json(doc: &Json) -> (r: Result<FiftyTwoWeekStats, DecodeError>)
        ensures
            match r {
                Ok(v) => Self::failure(*doc) is None && v.decodes(*doc),
                Err(e) => Self::failure(*doc) == Some(e@),
            },
    {
        proof {
            reveal_with_fuel(first_failure_from, 9);
        }
        let low = numeric_field(doc, "low")?;
        let high = numeric_field(doc, "high")?;
        let low_change = numeric_field(doc, "low_change")?;
        let high_change = numeric_field(doc, "high_change")?;
        let low_change_percent = numeric_field(doc, "low_change_percent")?;
        let high_change_percent = numeric_field(doc, "high_change_percent")?;
        let range = range_field(doc, "range")?;
        Ok(FiftyTwoWeekStats { low, high, low_change, high_change, low_change_percent, high_change_percent, range })
    }
}

/// The answer of the `quote` endpoint.
#[derive(Debug)]
pub struct QuoteResponse {
    pub symbol: String,
    pub name: String,
    pub exchange: String,
    pub mic_code: String,
    pub currency: String,
    pub timestamp: i64,
    pub datetime: Timestamp,
    pub open: Numeric,
    pub high: Numeric,
    pub low: Numeric,
    pub close: Numeric,
    pub volume: Numeric,
    pub previous_close: Numeric,
    pub change: Numeric,
    pub percent_change: Numeric,
    pub average_volume: Numeric,
    pub rolling_1d_change: Option<Numeric>,
    pub rolling_7d_change: Option<Numeric>,
    pub rolling_period_change: Option<Numeric>,
    pub is_market_open: bool,
    pub fifty_two_week: FiftyTwoWeekStats,
}

impl QuoteResponse {
    /// Why the document does not hold such a value: what is wrong with the
    /// first member, in the order of declaration, that is missing or of
    /// another kind. `None` where nothing is wrong.
    pub open spec fn failure(doc: Json) -> Option<DecodeFailure> {
        first_failure(seq![
            text_failure(doc, "symbol"@),
            text_failure(doc, "name"@),
            text_failure(doc, "exchange"@),
            text_failure(doc, "mic_code"@),
            text_failure(doc, "currency"@),
            integer_failure(doc, "timestamp"@),
            datetime_failure(doc, "datetime"@),
            numeric_failure(doc, "open"@),
            numeric_failure(doc, "high"@),
            numeric_failure(doc, "low"@),
            numeric_failure(doc, "close"@),
            numeric_failure(doc, "volume"@),
            numeric_failure(doc, "previous_close"@),
            numeric_failure(doc, "change"@),
            numeric_failure(doc, "percent_change"@),
            numeric_failure(doc, "average_volume"@),
            optional_numeric_failure(doc, "rolling_1d_change"@),
            optional_numeric_failure(doc, "rolling_7d_change"@),
            optional_numeric_failure(doc, "rolling_period_change"@),
            flag_failure(doc, "is_market_open"@),
            (match doc.member("fifty_two_week"@) {
                Some(m) => FiftyTwoWeekStats::failure(m),
                None => None,
            }),
        ])
    }

    /// The value holds, member by member, what the document says.
    pub open spec fn decodes(self, doc: Json) -> bool {
        &&& doc.text_member("symbol"@) == Some(self.symbol@)
        &&& doc.text_member("name"@) == Some(self.name@)
        &&& doc.text_member("exchange"@) == Some(self.exchange@)
        &&& doc.text_member("mic_code"@) == Some(self.mic_code@)
        &&& doc.text_member("currency"@) == Some(self.currency@)
        &&& integer_member(doc, "timestamp"@) == Some(self.timestamp)
        &&& datetime_member(doc, "datetime"@) == Some(self.datetime)
        &&& numeric_member(doc, "open"@) == Some(self.open@)
        &&& numeric_member(doc, "high"@) == Some(self.high@)
        &&& numeric_member(doc, "low"@) == Some(self.low@)
        &&& numeric_member(doc, "close"@) == Some(self.close@)
        &&& numeric_member(doc, "volume"@) == Some(self.volume@)
        &&& numeric_member(doc, "previous_close"@) == Some(self.previous_close@)
        &&& numeric_member(doc, "change"@) == Some(self.change@)
        &&& numeric_member(doc, "percent_change"@) == Some(self.percent_change@)
        &&& numeric_member(doc, "average_volume"@) == Some(self.average_volume@)
        &&& optional_numeric_member(doc, "rolling_1d_change"@) == Some(numeric_view(self.rolling_1d_change))
        &&& optional_numeric_member(doc, "rolling_7d_change"@) == Some(numeric_view(self.rolling_7d_change))
        &&& optional_numeric_member(doc, "rolling_period_change"@) == Some(numeric_view(self.rolling_period_change))
        &&& flag_member(doc, "is_market_open"@) == Some(self.is_market_open)
        &&& match doc.member("fifty_two_week"@) {
                Some(m) => self.fifty_two_week.decodes(m),
                None => self.fifty_two_week.is_zero(),
            }
    }

    /// The value that the document holds, or what is wrong with the first
    /// member that is missing or of another kind.
    pub fn from_json(doc: &Json) -> (r: Result<QuoteResponse, DecodeError>)
        ensures
            match r {
                Ok(v) => Self::failure(*doc) is None && v.decodes(*doc),
                Err(e) => Self::failure(*doc) == Some(e@),
            },
    {
        proof {
            reveal_with_fuel(first_failure_from, 23);
        }
        let symbol = text_field(doc, "symbol")?;
        let name = text_field(doc, "name")?;
        let exchange = text_field(doc, "exchange")?;
        let mic_code = text_field(doc, "mic_code")?;
        let currency = text_field(doc, "currency")?;
        let timestamp = integer_field(doc, "timestamp")?;
        let datetime = datetime_field(doc, "datetime")?;
        let open = numeric_field(doc, "open")?;
        let high = numeric_field(doc, "high")?;
        let low = numeric_field(doc, "low")?;
        let close = numeric_field(doc, "close")?;
        let volume = numeric_field(doc, "volume")?;
        let previous_close = numeric_field(doc, "previous_close")?;
        let change = numeric_field(doc, "change")?;
        let percent_change = numeric_field(doc, "percent_change")?;
        let average_volume = numeric_field(doc, "average_volume")?;
        let rolling_1d_change = optional_numeric_field(doc, "rolling_1d_change")?;
        let rolling_7d_change = optional_numeric_field(doc, "rolling_7d_change")?;
        let rolling_period_change = optional_numeric_field(doc, "rolling_period_change")?;
        let is_market_open = flag_field(doc, "is_market_open")?;
        let fifty_two_week = match doc.get("fifty_two_week") {
            Some(m) => FiftyTwoWeekStats::from_json(m)?,
            None => FiftyTwoWeekStats::default(),
        };
        Ok(QuoteResponse { symbol, name, exchange, mic_code, currency, timestamp, datetime, open, high, low, close, volume, previous_close, change, percent_change, average_volume, rolling_1d_change, rolling_7d_change, rolling_period_change, is_market_open, fifty_two_week })
    }
}

/// The answer of the `price` endpoint.
#[derive(Debug)]
pub struct PriceResponse {
    pub price: Numeric,
}

impl PriceResponse {
    /// Why the document does not hold such a value: what is wrong with the
    /// first member, in the order of declaration, that is missing or of
    /// another kind. `None` where nothing is wrong.
    pub open spec fn failure(doc: Json) -> Option<DecodeFailure> {
        first_failure(seq![
            numeric_failure(doc, "price"@),
        ])
    }

    /// The value holds, member by member, what the document says.
    pub open spec fn decodes(self, doc: Json) -> bool {
        &&& numeric_member(doc, "price"@) == Some(self.price@)
    }

    /// The value that the document holds, or what is wrong with the first
    /// member that is missing or of another kind.
    pub fn from_json(doc: &Json) -> (r: Result<PriceResponse, DecodeError>)
        ensures
            match r {
                Ok(v) => Self::failure(*doc) is None && v.decodes(*doc),
                Err(e) => Self::failure(*doc) == Some(e@),
            },
    {
        proof {
            reveal_with_fuel(first_failure_from, 3);
        }
        let price = numeric_field(doc, "price")?;
        Ok(PriceResponse { price })
    }
}

impl FiftyTwoWeekStats {
    /// Every number of the value is zero.
    pub open spec fn is_zero(self) -> bool {
        &&& self.low@ == "0"@
        &&& self.high@ == "0"@
        &&& self.low_change@ == "0"@
        &&& self.high_change@ == "0"@
        &&& self.low_change_percent@ == "0"@
        &&& self.high_change_percent@ == "0"@
        &&& self.range.start@ == "0"@
        &&& self.range.end@ == "0"@
    }
}

impl Default for FiftyTwoWeekStats {
    fn default() -> (r: Self)
        ensures
            r.is_zero(),
    {
        FiftyTwoWeekStats {
            low: Numeric::zero(),
            high: Numeric::zero(),
            low_change: Numeric::zero(),
            high_change: Numeric::zero(),
            low_change_percent: Numeric::zero(),
            high_change_percent: Numeric::zero(),
            range: NumericRange { start: Numeric::zero(), end: Numeric::zero() },
        }
    }
}

/// The answer of the `time_series` endpoint.
#[derive(Debug)]
pub struct TimeSeriesResponse {
    pub meta: TimeSeriesMeta,
    pub status: String,
    pub values: Vec<TimeSeriesQuote>,
}

/// What is wrong with the first item, at or behind `from`, that is no bar.
pub open spec fn rows_failure(items: Seq<Json>, from: int) -> Option<DecodeFailure>
    decreases items.len() - from,
{
    if from < 0 || from >= items.len() {
        None
    } else if TimeSeriesQuote::failure(items[from]) is Some {
        TimeSeriesQuote::failure(items[from])
    } else {
        rows_failure(items, from + 1)
    }
}

/// There is one bar for each item, in the order of the items, and each bar
/// holds what its item says.
pub open spec fn rows_decode(rows: Seq<TimeSeriesQuote>, items: Seq<Json>) -> bool {
    rows.len() == items.len() && forall|i: int|
        0 <= i < items.len() ==> (#[trigger] rows[i]).decodes(items[i])
}

/// The bars of the items, one for one and in their order, or what is wrong
/// with the first item that is no bar.
pub fn decode_rows(items: &Vec<Json>) -> (r: Result<Vec<TimeSeriesQuote>, DecodeError>)
    ensures
        match r {
            Ok(rows) => rows_failure(items@, 0) is None && rows_decode(rows@, items@),
            Err(e) => rows_failure(items@, 0) == Some(e@),
        },
{
    let mut rows: Vec<TimeSeriesQuote> = Vec::new();
    let mut i: usize = 0;
    while i < items.len()
        invariant
            i <= items.len(),
            rows@.len() == i,
            rows_failure(items@, 0) == rows_failure(items@, i as int),
            forall|j: int| 0 <= j < i ==> (#[trigger] rows@[j]).decodes(items@[j]),
        decreases items.len() - i,
    {
        match TimeSeriesQuote::from_json(&items[i]) {
            Ok(row) => {
                rows.push(row);
            },
            Err(e) => {
                return Err(e);
            },
        }
        i += 1;
    }
    Ok(rows)
}

/// What is wrong with the member, where it is no array of bars.
pub open spec fn values_failure(doc: Json, key: Seq<char>) -> Option<DecodeFailure> {
    match array_member(doc, key) {
        Some(items) => rows_failure(items, 0),
        None => Some(DecodeFailure::Shape(key)),
    }
}

/// What is wrong with the member, where it does not say what a series is
/// about.
pub open spec fn meta_failure(doc: Json, key: Seq<char>) -> Option<DecodeFailure> {
    match doc.member(key) {
        Some(m) => TimeSeriesMeta::failure(m),
        None => Some(DecodeFailure::Shape(key)),
    }
}

impl TimeSeriesResponse {
    /// Why the document does not hold such a value: what is wrong with the
    /// first of `meta`, `status` and `values` that is missing or of another
    /// kind. `None` where nothing is wrong.
    pub open spec fn failure(doc: Json) -> Option<DecodeFailure> {
        first_failure(
            seq![
                meta_failure(doc, "meta"@),
                text_failure(doc, "status"@),
                values_failure(doc, "values"@),
            ],
        )
    }

    /// The value holds, member by member, what the document says.
    pub open spec fn decodes(self, doc: Json) -> bool {
        &&& (doc.member("meta"@) matches Some(m) && self.meta.decodes(m))
        &&& doc.text_member("status"@) == Some(self.status@)
        &&& (array_member(doc, "values"@) matches Some(items) && rows_decode(self.values@, items))
    }

    /// The value that the document holds: the bars are those of the array
    /// `values`, one for one and in its order. Where a member is missing or
    /// of another kind, the error says what is wrong with the first such.
    pub fn from_json(doc: &Json) -> (r: Result<TimeSeriesResponse, DecodeError>)
        ensures
            match r {
                Ok(v) => Self::failure(*doc) is None && v.decodes(*doc),
                Err(e) => Self::failure(*doc) == Some(e@),
            },
    {
        proof {
            reveal_with_fuel(first_failure_from, 5);
        }
        let meta = match doc.get("meta") {
            Some(m) => TimeSeriesMeta::from_json(m)?,
            None => {
                return Err(shape_error("meta"));
            },
        };
        let status = text_field(doc, "status")?;
        let values = match doc.get("values") {
            Some(Json::Array(items)) => decode_rows(items)?,
            _ => {
                return Err(shape_error("values"));
            },
        };
        Ok(TimeSeriesResponse { meta, status, values })
    }
}

/// A `time_series` request writes the key of an optional parameter exactly
/// where the parameter is present, and always those of the required ones.
pub proof fn lemma_time_series_keys_follow_presence(r: TimeSeriesRequest)
    requires
        r.pairs_spec() is Some,
    ensures
        r.common.exchange is Some <==> emits_key(r.pairs_spec().unwrap(), "exchange"@),
        r.common.mic_code is Some <==> emits_key(r.pairs_spec().unwrap(), "mic_code"@),
        r.common.country is Some <==> emits_key(r.pairs_spec().unwrap(), "country"@),
        r.common.instrument_type is Some <==> emits_key(r.pairs_spec().unwrap(), "type"@),
        r.common.format is Some <==> emits_key(r.pairs_spec().unwrap(), "format"@),
        r.common.delimiter is Some <==> emits_key(r.pairs_spec().unwrap(), "delimiter"@),
        r.common.decimal_places is Some <==> emits_key(r.pairs_spec().unwrap(), "dp"@),
        r.common.timezone is Some <==> emits_key(r.pairs_spec().unwrap(), "timezone"@),
        emits_key(r.pairs_spec().unwrap(), "symbol"@),
        emits_key(r.pairs_spec().unwrap(), "interval"@),
        r.output_size is Some <==> emits_key(r.pairs_spec().unwrap(), "outputsize"@),
        r.order is Some <==> emits_key(r.pairs_spec().unwrap(), "order"@),
        r.start_date is Some <==> emits_key(r.pairs_spec().unwrap(), "start_date"@),
        r.end_date is Some <==> emits_key(r.pairs_spec().unwrap(), "end_date"@),
        r.previous_close is Some <==> emits_key(r.pairs_spec().unwrap(), "previous_close"@),
{
    lemma_time_series_values(r);
    lemma_key_is_written_iff_valued(r.pairs_spec().unwrap(), "exchange"@);
    lemma_key_is_written_iff_valued(r.pairs_spec().unwrap(), "mic_code"@);
    lemma_key_is_written_iff_valued(r.pairs_spec().unwrap(), "country"@);
    lemma_key_is_written_iff_valued(r.pairs_spec().unwrap(), "type"@);
    lemma_key_is_written_iff_valued(r.pairs_spec().unwrap(), "format"@);
    lemma_key_is_written_iff_valued(r.pairs_spec().unwrap(), "delimiter"@);
    lemma_key_is_written_iff_valued(r.pairs_spec().unwrap(), "dp"@);
    lemma_key_is_written_iff_valued(r.pairs_spec().unwrap(), "timezone"@);
    lemma_key_is_written_iff_valued(r.pairs_spec().unwrap(), "symbol"@);
    lemma_key_is_written_iff_valued(r.pairs_spec().unwrap(), "interval"@);
    lemma_key_is_written_iff_valued(r.pairs_spec().unwrap(), "outputsize"@);
    lemma_key_is_written_iff_valued(r.pairs_spec().unwrap(), "order"@);
    lemma_key_is_written_iff_valued(r.pairs_spec().unwrap(), "start_date"@);
    lemma_key_is_written_iff_valued(r.pairs_spec().unwrap(), "end_date"@);
    lemma_key_is_written_iff_valued(r.pairs_spec().unwrap(), "previous_close"@);
}

/// A `price` request writes the key of an optional parameter exactly
/// where the parameter is present, and always those of the required ones.
pub proof fn lemma_price_keys_follow_presence(r: PriceRequest)
    requires
        r.pairs_spec() is Some,
    ensures
        r.common.exchange is Some <==> emits_key(r.pairs_spec().unwrap(), "exchange"@),
        r.common.mic_code is Some <==> emits_key(r.pairs_spec().unwrap(), "mic_code"@),
        r.common.country is Some <==> emits_key(r.pairs_spec().unwrap(), "country"@),
        r.common.instrument_type is Some <==> emits_key(r.pairs_spec().unwrap(), "type"@),
        r.common.format is Some <==> emits_key(r.pairs_spec().unwrap(), "format"@),
        r.common.delimiter is Some <==> emits_key(r.pairs_spec().unwrap(), "delimiter"@),
        r.common.decimal_places is Some <==> emits_key(r.pairs_spec().unwrap(), "dp"@),
        r.common.timezone is Some <==> emits_key(r.pairs_spec().unwrap(), "timezone"@),
        emits_key(r.pairs_spec().unwrap(), "symbol"@),
        r.output_size is Some <==> emits_key(r.pairs_spec().unwrap(), "outputsize"@),
        r.order is Some <==> emits_key(r.pairs_spec().unwrap(), "order"@),
        r.start_date is Some <==> emits_key(r.pairs_spec().unwrap(), "start_date"@),
        r.end_date is Some <==> emits_key(r.pairs_spec().unwrap(), "end_date"@),
        r.previous_close is Some <==> emits_key(r.pairs_spec().unwrap(), "previous_close"@),
{
    lemma_price_values(r);
    lemma_key_is_written_iff_valued(r.pairs_spec().unwrap(), "exchange"@);
    lemma_key_is_written_iff_valued(r.pairs_spec().unwrap(), "mic_code"@);
    lemma_key_is_written_iff_valued(r.pairs_spec().unwrap(), "country"@);
    lemma_key_is_written_iff_valued(r.pairs_spec().unwrap(), "type"@);
    lemma_key_is_written_iff_valued(r.pairs_spec().unwrap(), "format"@);
    lemma_key_is_written_iff_valued(r.pairs_spec().unwrap(), "delimiter"@);
    lemma_key_is_written_iff_valued(r.pairs_spec().unwrap(), "dp"@);
    lemma_key_is_written_iff_valued(r.pairs_spec().unwrap(), "timezone"@);
    lemma_key_is_written_iff_valued(r.pairs_spec().unwrap(), "symbol"@);
    lemma_key_is_written_iff_valued(r.pairs_spec().unwrap(), "outputsize"@);
    lemma_key_is_written_iff_valued(r.pairs_spec().unwrap(), "order"@);
    lemma_key_is_written_iff_valued(r.pairs_spec().unwrap(), "start_date"@);
    lemma_key_is_written_iff_valued(r.pairs_spec().unwrap(), "end_date"@);
    lemma_key_is_written_iff_valued(r.pairs_spec().unwrap(), "previous_close"@);
}

/// A `quote` request writes the key of an optional parameter exactly
/// where the parameter is present, and always those of the required ones.
pub proof fn lemma_quote_keys_follow_presence(r: QuoteRequest)
    ensures
        r.common.exchange is Some <==> emits_key(r.pairs_spec(), "exchange"@),
        r.common.mic_code is Some <==> emits_key(r.pairs_spec(), "mic_code"@),
        r.common.country is Some <==> emits_key(r.pairs_spec(), "country"@),
        r.common.instrument_type is Some <==> emits_key(r.pairs_spec(), "type"@),
        r.common.format is Some <==> emits_key(r.pairs_spec(), "format"@),
        r.common.delimiter is Some <==> emits_key(r.pairs_spec(), "delimiter"@),
        r.common.decimal_places is Some <==> emits_key(r.pairs_spec(), "dp"@),
        r.common.timezone is Some <==> emits_key(r.pairs_spec(), "timezone"@),
        emits_key(r.pairs_spec(), "symbol"@),
        emits_key(r.pairs_spec(), "interval"@),
        r.volume_time_period is Some <==> emits_key(r.pairs_spec(), "volume_time_period"@),
        r.end_of_day is Some <==> emits_key(r.pairs_spec(), "eod"@),
        r.rolling_period is Some <==> emits_key(r.pairs_spec(), "rolling_period"@),
{
    lemma_quote_values(r);
    lemma_key_is_written_iff_valued(r.pairs_spec(), "exchange"@);
    lemma_key_is_written_iff_valued(r.pairs_spec(), "mic_code"@);
    lemma_key_is_written_iff_valued(r.pairs_spec(), "country"@);
    lemma_key_is_written_iff_valued(r.pairs_spec(), "type"@);
    lemma_key_is_written_iff_valued(r.pairs_spec(), "format"@);
    lemma_key_is_written_iff_valued(r.pairs_spec(), "delimiter"@);
    lemma_key_is_written_iff_valued(r.pairs_spec(), "dp"@);
    lemma_key_is_written_iff_valued(r.pairs_spec(), "timezone"@);
    lemma_key_is_written_iff_valued(r.pairs_spec(), "symbol"@);
    lemma_key_is_written_iff_valued(r.pairs_spec(), "interval"@);
    lemma_key_is_written_iff_valued(r.pairs_spec(), "volume_time_period"@);
    lemma_key_is_written_iff_valued(r.pairs_spec(), "eod"@);
    lemma_key_is_written_iff_valued(r.pairs_spec(), "rolling_period"@);
}

/// Under the wire name of each parameter of a `time_series` request stands
/// the text of the parameter where it is present, and nothing where it is
/// absent.
#[verifier::spinoff_prover]
#[verifier::rlimit(40)]
pub proof fn lemma_time_series_values(r: TimeSeriesRequest)
    requires
        r.pairs_spec() is Some,
    ensures
        value_of(r.pairs_spec().unwrap(), "exchange"@) == text_of(r.common.exchange),
        value_of(r.pairs_spec().unwrap(), "mic_code"@) == text_of(r.common.mic_code),
        value_of(r.pairs_spec().unwrap(), "country"@) == text_of(r.common.country),
        value_of(r.pairs_spec().unwrap(), "type"@) == kind_of(r.common.instrument_type),
        value_of(r.pairs_spec().unwrap(), "format"@) == format_of(r.common.format),
        value_of(r.pairs_spec().unwrap(), "delimiter"@) == text_of(r.common.delimiter),
        value_of(r.pairs_spec().unwrap(), "dp"@) == places_of(r.common.decimal_places),
        value_of(r.pairs_spec().unwrap(), "timezone"@) == text_of(r.common.timezone),
        value_of(r.pairs_spec().unwrap(), "symbol"@) == Some(r.symbol@),
        value_of(r.pairs_spec().unwrap(), "interval"@) == Some(r.interval.wire_name()),
        value_of(r.pairs_spec().unwrap(), "outputsize"@) == size_of(r.output_size),
        value_of(r.pairs_spec().unwrap(), "order"@) == order_of(r.order),
        value_of(r.pairs_spec().unwrap(), "start_date"@) == time_of(r.start_date).unwrap(),
        value_of(r.pairs_spec().unwrap(), "end_date"@) == time_of(r.end_date).unwrap(),
        value_of(r.pairs_spec().unwrap(), "previous_close"@) == flag_of(r.previous_close),
{
    lemma_common_values(r.common);
    lemma_wire_names_differ();
    let upto0 = r.common.pairs_spec();
    lemma_values_after_entry(upto0, "symbol"@, Some(r.symbol@));
    let upto1 = upto0 + entry("symbol"@, Some(r.symbol@));
    lemma_values_after_entry(upto1, "interval"@, Some(r.interval.wire_name()));
    let upto2 = upto1 + entry("interval"@, Some(r.interval.wire_name()));
    lemma_values_after_entry(upto2, "outputsize"@, size_of(r.output_size));
    let upto3 = upto2 + entry("outputsize"@, size_of(r.output_size));
    lemma_values_after_entry(upto3, "order"@, order_of(r.order));
    let upto4 = upto3 + entry("order"@, order_of(r.order));
    lemma_values_after_entry(upto4, "start_date"@, time_of(r.start_date).unwrap());
    let upto5 = upto4 + entry("start_date"@, time_of(r.start_date).unwrap());
    lemma_values_after_entry(upto5, "end_date"@, time_of(r.end_date).unwrap());
    let upto6 = upto5 + entry("end_date"@, time_of(r.end_date).unwrap());
    lemma_values_after_entry(upto6, "previous_close"@, flag_of(r.previous_close));
    let upto7 = upto6 + entry("previous_close"@, flag_of(r.previous_close));
    assert(r.pairs_spec().unwrap() == upto7);
}

/// Under the wire name of each parameter of a `price` request stands
/// the text of the parameter where it is present, and nothing where it is
/// absent.
#[verifier::spinoff_prover]
#[verifier::rlimit(40)]
pub proof fn lemma_price_values(r: PriceRequest)
    requires
        r.pairs_spec() is Some,
    ensures
        value_of(r.pairs_spec().unwrap(), "exchange"@) == text_of(r.common.exchange),
        value_of(r.pairs_spec().unwrap(), "mic_code"@) == text_of(r.common.mic_code),
        value_of(r.pairs_spec().unwrap(), "country"@) == text_of(r.common.country),
        value_of(r.pairs_spec().unwrap(), "type"@) == kind_of(r.common.instrument_type),
        value_of(r.pairs_spec().unwrap(), "format"@) == format_of(r.common.format),
        value_of(r.pairs_spec().unwrap(), "delimiter"@) == text_of(r.common.delimiter),
        value_of(r.pairs_spec().unwrap(), "dp"@) == places_of(r.common.decimal_places),
        value_of(r.pairs_spec().unwrap(), "timezone"@) == text_of(r.common.timezone),
        value_of(r.pairs_spec().unwrap(), "symbol"@) == Some(r.symbol@),
        value_of(r.pairs_spec().unwrap(), "outputsize"@) == size_of(r.output_size),
        value_of(r.pairs_spec().unwrap(), "order"@) == order_of(r.order),
        value_of(r.pairs_spec().unwrap(), "start_date"@) == time_of(r.start_date).unwrap(),
        value_of(r.pairs_spec().unwrap(), "end_date"@) == time_of(r.end_date).unwrap(),
        value_of(r.pairs_spec().unwrap(), "previous_close"@) == flag_of(r.previous_close),
{
    lemma_common_values(r.common);
    lemma_wire_names_differ();
    let upto0 = r.common.pairs_spec();
    lemma_values_after_entry(upto0, "symbol"@, Some(r.symbol@));
    let upto1 = upto0 + entry("symbol"@, Some(r.symbol@));
    lemma_values_after_entry(upto1, "outputsize"@, size_of(r.output_size));
    let upto2 = upto1 + entry("outputsize"@, size_of(r.output_size));
    lemma_values_after_entry(upto2, "order"@, order_of(r.order));
    let upto3 = upto2 + entry("order"@, order_of(r.order));
    lemma_values_after_entry(upto3, "start_date"@, time_of(r.start_date).unwrap());
    let upto4 = upto3 + entry("start_date"@, time_of(r.start_date).unwrap());
    lemma_values_after_entry(upto4, "end_date"@, time_of(r.end_date).unwrap());
    let upto5 = upto4 + entry("end_date"@, time_of(r.end_date).unwrap());
    lemma_values_after_entry(upto5, "previous_close"@, flag_of(r.previous_close));
    let upto6 = upto5 + entry("previous_close"@, flag_of(r.previous_close));
    assert(r.pairs_spec().unwrap() == upto6);
}

/// Under the wire name of each parameter of a `quote` request stands
/// the text of the parameter where it is present, and nothing where it is
/// absent.
#[verifier::spinoff_prover]
#[verifier::rlimit(40)]
pub proof fn lemma_quote_values(r: QuoteRequest)
    ensures
        value_of(r.pairs_spec(), "exchange"@) == text_of(r.common.exchange),
        value_of(r.pairs_spec(), "mic_code"@) == text_of(r.common.mic_code),
        value_of(r.pairs_spec(), "country"@) == text_of(r.common.country),
        value_of(r.pairs_spec(), "type"@) == kind_of(r.common.instrument_type),
        value_of(r.pairs_spec(), "format"@) == format_of(r.common.format),
        value_of(r.pairs_spec(), "delimiter"@) == text_of(r.common.delimiter),
        value_of(r.pairs_spec(), "dp"@) == places_of(r.common.decimal_places),
        value_of(r.pairs_spec(), "timezone"@) == text_of(r.common.timezone),
        value_of(r.pairs_spec(), "symbol"@) == Some(r.symbol@),
        value_of(r.pairs_spec(), "interval"@) == Some(r.interval.wire_name()),
        value_of(r.pairs_spec(), "volume_time_period"@) == count_of(r.volume_time_period),
        value_of(r.pairs_spec(), "eod"@) == flag_of(r.end_of_day),
        value_of(r.pairs_spec(), "rolling_period"@) == places_of(r.rolling_period),
{
    lemma_common_values(r.common);
    lemma_wire_names_differ();
    let upto0 = r.common.pairs_spec();
    lemma_values_after_entry(upto0, "symbol"@, Some(r.symbol@));
    let upto1 = upto0 + entry("symbol"@, Some(r.symbol@));
    lemma_values_after_entry(upto1, "interval"@, Some(r.interval.wire_name()));
    let upto2 = upto1 + entry("interval"@, Some(r.interval.wire_name()));
    lemma_values_after_entry(upto2, "volume_time_period"@, count_of(r.volume_time_period));
    let upto3 = upto2 + entry("volume_time_period"@, count_of(r.volume_time_period));
    lemma_values_after_entry(upto3, "eod"@, flag_of(r.end_of_day));
    let upto4 = upto3 + entry("eod"@, flag_of(r.end_of_day));
    lemma_values_after_entry(upto4, "rolling_period"@, places_of(r.rolling_period));
    let upto5 = upto4 + entry("rolling_period"@, places_of(r.rolling_period));
    assert(r.pairs_spec() == upto5);
}

} // verus!
