//! Builders: the required parameters are checked when the value is built,
//! and each optional parameter is set on its own.

use crate::fundamentals::LogoRequest;
use crate::timestamp::Timestamp;
use crate::prices::PriceRequest;
use crate::prices::QuoteRequest;
use crate::prices::TimeSeriesRequest;
use crate::query::CommonQueryParameters;
use crate::query::InstrumentType;
use crate::query::Interval;
use crate::query::Order;
use crate::query::OutputFormat;
use vstd::prelude::*;

verus! {

/// Why a builder could not give its value.
#[derive(Clone, Copy, Debug, PartialEq, Eq)]
pub enum BuilderError {
    /// The named required parameter was not set.
    UninitializedField(&'static str),
}

/// Collects the common parameters one by one.
#[derive(Debug)]
pub struct CommonQueryParametersBuilder {
    pub exchange: Option<String>,
    pub mic_code: Option<String>,
    pub country: Option<String>,
    pub instrument_type: Option<InstrumentType>,
    pub format: Option<OutputFormat>,
    pub delimiter: Option<String>,
    pub decimal_places: Option<u8>,
    pub timezone: Option<String>,
}

impl CommonQueryParametersBuilder {
    /// A builder with nothing set.
    pub fn new() -> (b: Self)
        ensures
            b.exchange is None,
            b.mic_code is None,
            b.country is None,
            b.instrument_type is None,
            b.format is None,
            b.delimiter is None,
            b.decimal_places is None,
            b.timezone is None,
    {
        CommonQueryParametersBuilder { exchange: None, mic_code: None, country: None, instrument_type: None, format: None, delimiter: None, decimal_places: None, timezone: None }
    }

    /// Sets `exchange` and leaves the rest.
    pub fn exchange(self, value: String) -> (b: Self)
        ensures
            b == (CommonQueryParametersBuilder { exchange: Some(value), ..self }),
    {
        CommonQueryParametersBuilder { exchange: Some(value), ..self }
    }

    /// Sets `mic_code` and leaves the rest.
    pub fn mic_code(self, value: String) -> (b: Self)
        ensures
            b == (CommonQueryParametersBuilder { mic_code: Some(value), ..self }),
    {
        CommonQueryParametersBuilder { mic_code: Some(value), ..self }
    }

    /// Sets `country` and leaves the rest.
    pub fn country(self, value: String) -> (b: Self)
        ensures
            b == (CommonQueryParametersBuilder { country: Some(value), ..self }),
    {
        CommonQueryParametersBuilder { country: Some(value), ..self }
    }

    /// Sets `instrument_type` and leaves the rest.
    pub fn instrument_type(self, value: InstrumentType) -> (b: Self)
        ensures
            b == (CommonQueryParametersBuilder { instrument_type: Some(value), ..self }),
    {
        CommonQueryParametersBuilder { instrument_type: Some(value), ..self }
    }

    /// Sets `format` and leaves the rest.
    pub fn format(self, value: OutputFormat) -> (b: Self)
        ensures
            b == (CommonQueryParametersBuilder { format: Some(value), ..self }),
    {
        CommonQueryParametersBuilder { format: Some(value), ..self }
    }

    /// Sets `delimiter` and leaves the rest.
    pub fn delimiter(self, value: String) -> (b: Self)
        ensures
            b == (CommonQueryParametersBuilder { delimiter: Some(value), ..self }),
    {
        CommonQueryParametersBuilder { delimiter: Some(value), ..self }
    }

    /// Sets `decimal_places` and leaves the rest.
    pub fn decimal_places(self, value: u8) -> (b: Self)
        ensures
            b == (CommonQueryParametersBuilder { decimal_places: Some(value), ..self }),
    {
        CommonQueryParametersBuilder { decimal_places: Some(value), ..self }
    }

    /// Sets `timezone` and leaves the rest.
    pub fn timezone(self, value: String) -> (b: Self)
        ensures
            b == (CommonQueryParametersBuilder { timezone: Some(value), ..self }),
    {
        CommonQueryParametersBuilder { timezone: Some(value), ..self }
    }

    /// The first required parameter that was not set.
    pub open spec fn first_missing(self) -> Option<Seq<char>> {
        None
    }

    /// The value, where every required parameter was set; else the error
    /// names the first that was not.
    pub fn build(self) -> (r: Result<CommonQueryParameters, BuilderError>)
        ensures
            match self.first_missing() {
                Some(name) => r matches Err(BuilderError::UninitializedField(n)) && n@ == name,
                None => r matches Ok(v)
                    && v.exchange == self.exchange
                    && v.mic_code == self.mic_code
                    && v.country == self.country
                    && v.instrument_type == self.instrument_type
                    && v.format == self.format
                    && v.delimiter == self.delimiter
                    && v.decimal_places == self.decimal_places
                    && v.timezone == self.timezone,
            },
    {
        Ok(CommonQueryParameters { exchange: self.exchange, mic_code: self.mic_code, country: self.country, instrument_type: self.instrument_type, format: self.format, delimiter: self.delimiter, decimal_places: self.decimal_places, timezone: self.timezone })
    }
}

/// Collects the parameters of a `TimeSeriesRequest` one by one.
#[derive(Debug)]
pub struct TimeSeriesRequestBuilder {
    pub common: CommonQueryParameters,
    pub symbol: Option<String>,
    pub interval: Option<Interval>,
    pub output_size: Option<u16>,
    pub order: Option<Order>,
    pub start_date: Option<Timestamp>,
    pub end_date: Option<Timestamp>,
    pub previous_close: Option<bool>,
}

impl TimeSeriesRequestBuilder {
    /// A builder with nothing set: no parameter of its own, and none of the
    /// common ones.
    pub fn new() -> (b: Self)
        ensures
            b.common.all_absent(),
            b.common.pairs_spec() == Seq::<(Seq<char>, Seq<char>)>::empty(),
            b.symbol is None,
            b.interval is None,
            b.output_size is None,
            b.order is None,
            b.start_date is None,
            b.end_date is None,
            b.previous_close is None,
    {
        let common = CommonQueryParameters::default();
        assert(common.pairs_spec() =~= Seq::empty());
        TimeSeriesRequestBuilder { common, symbol: None, interval: None, output_size: None, order: None, start_date: None, end_date: None, previous_close: None }
    }

    /// Sets `common` and leaves the rest.
    pub fn common(self, value: CommonQueryParameters) -> (b: Self)
        ensures
            b == (TimeSeriesRequestBuilder { common: value, ..self }),
    {
        TimeSeriesRequestBuilder { common: value, ..self }
    }

    /// Sets `symbol` and leaves the rest.
    pub fn symbol(self, value: String) -> (b: Self)
        ensures
            b == (TimeSeriesRequestBuilder { symbol: Some(value), ..self }),
    {
        TimeSeriesRequestBuilder { symbol: Some(value), ..self }
    }

    /// Sets `interval` and leaves the rest.
    pub fn interval(self, value: Interval) -> (b: Self)
        ensures
            b == (TimeSeriesRequestBuilder { interval: Some(value), ..self }),
    {
        TimeSeriesRequestBuilder { interval: Some(value), ..self }
    }

    /// Sets `output_size` and leaves the rest.
    pub fn output_size(self, value: u16) -> (b: Self)
        ensures
            b == (TimeSeriesRequestBuilder { output_size: Some(value), ..self }),
    {
        TimeSeriesRequestBuilder { output_size: Some(value), ..self }
    }

    /// Sets `order` and leaves the rest.
    pub fn order(self, value: Order) -> (b: Self)
        ensures
            b == (TimeSeriesRequestBuilder { order: Some(value), ..self }),
    {
        TimeSeriesRequestBuilder { order: Some(value), ..self }
    }

    /// Sets `start_date` and leaves the rest.
    pub fn start_date(self, value: Timestamp) -> (b: Self)
        ensures
            b == (TimeSeriesRequestBuilder { start_date: Some(value), ..self }),
    {
        TimeSeriesRequestBuilder { start_date: Some(value), ..self }
    }

    /// Sets `end_date` and leaves the rest.
    pub fn end_date(self, value: Timestamp) -> (b: Self)
        ensures
            b == (TimeSeriesRequestBuilder { end_date: Some(value), ..self }),
    {
        TimeSeriesRequestBuilder { end_date: Some(value), ..self }
    }

    /// Sets `previous_close` and leaves the rest.
    pub fn previous_close(self, value: bool) -> (b: Self)
        ensures
            b == (TimeSeriesRequestBuilder { previous_close: Some(value), ..self }),
    {
        TimeSeriesRequestBuilder { previous_close: Some(value), ..self }
    }

    /// The first required parameter that was not set.
    pub open spec fn first_missing(self) -> Option<Seq<char>> {
        if self.symbol is None {
            Some("symbol"@)
        } else if self.interval is None {
            Some("interval"@)
        } else {
            None
        }
    }

    /// The value, where every required parameter was set; else the error
    /// names the first that was not.
    pub fn build(self) -> (r: Result<TimeSeriesRequest, BuilderError>)
        ensures
            match self.first_missing() {
                Some(name) => r matches Err(BuilderError::UninitializedField(n)) && n@ == name,
                None => r matches Ok(v)
                    && v.common == self.common
                    && self.symbol == Some(v.symbol)
                    && self.interval == Some(v.interval)
                    && v.output_size == self.output_size
                    && v.order == self.order
                    && v.start_date == self.start_date
                    && v.end_date == self.end_date
                    && v.previous_close == self.previous_close,
            },
    {
        let symbol = match self.symbol {
            Some(x) => x,
            None => {
                return Err(BuilderError::UninitializedField("symbol"));
            },
        };
        let interval = match self.interval {
            Some(x) => x,
            None => {
                return Err(BuilderError::UninitializedField("interval"));
            },
        };
        Ok(TimeSeriesRequest { common: self.common, symbol, interval, output_size: self.output_size, order: self.order, start_date: self.start_date, end_date: self.end_date, previous_close: self.previous_close })
    }
}

/// Collects the parameters of a `QuoteRequest` one by one.
#[derive(Debug)]
pub struct QuoteRequestBuilder {
    pub common: CommonQueryParameters,
    pub symbol: Option<String>,
    pub interval: Option<Interval>,
    pub volume_time_period: Option<u32>,
    pub end_of_day: Option<bool>,
    pub rolling_period: Option<u8>,
}

impl QuoteRequestBuilder {
    /// A builder with nothing set: no parameter of its own, and none of the
    /// common ones.
    pub fn new() -> (b: Self)
        ensures
            b.common.all_absent(),
            b.common.pairs_spec() == Seq::<(Seq<char>, Seq<char>)>::empty(),
            b.symbol is None,
            b.interval is None,
            b.volume_time_period is None,
            b.end_of_day is None,
            b.rolling_period is None,
    {
        let common = CommonQueryParameters::default();
        assert(common.pairs_spec() =~= Seq::empty());
        QuoteRequestBuilder { common, symbol: None, interval: None, volume_time_period: None, end_of_day: None, rolling_period: None }
    }

    /// Sets `common` and leaves the rest.
    pub fn common(self, value: CommonQueryParameters) -> (b: Self)
        ensures
            b == (QuoteRequestBuilder { common: value, ..self }),
    {
        QuoteRequestBuilder { common: value, ..self }
    }

    /// Sets `symbol` and leaves the rest.
    pub fn symbol(self, value: String) -> (b: Self)
        ensures
            b == (QuoteRequestBuilder { symbol: Some(value), ..self }),
    {
        QuoteRequestBuilder { symbol: Some(value), ..self }
    }

    /// Sets `interval` and leaves the rest.
    pub fn interval(self, value: Interval) -> (b: Self)
        ensures
            b == (QuoteRequestBuilder { interval: Some(value), ..self }),
    {
        QuoteRequestBuilder { interval: Some(value), ..self }
    }

    /// Sets `volume_time_period` and leaves the rest.
    pub fn volume_time_period(self, value: u32) -> (b: Self)
        ensures
            b == (QuoteRequestBuilder { volume_time_period: Some(value), ..self }),
    {
        QuoteRequestBuilder { volume_time_period: Some(value), ..self }
    }

    /// Sets `end_of_day` and leaves the rest.
    pub fn end_of_day(self, value: bool) -> (b: Self)
        ensures
            b == (QuoteRequestBuilder { end_of_day: Some(value), ..self }),
    {
        QuoteRequestBuilder { end_of_day: Some(value), ..self }
    }

    /// Sets `rolling_period` and leaves the rest.
    pub fn rolling_period(self, value: u8) -> (b: Self)
        ensures
            b == (QuoteRequestBuilder { rolling_period: Some(value), ..self }),
    {
        QuoteRequestBuilder { rolling_period: Some(value), ..self }
    }

    /// The first required parameter that was not set.
    pub open spec fn first_missing(self) -> Option<Seq<char>> {
        if self.symbol is None {
            Some("symbol"@)
        } else if self.interval is None {
            Some("interval"@)
        } else {
            None
        }
    }

    /// The value, where every required parameter was set; else the error
    /// names the first that was not.
    pub fn build(self) -> (r: Result<QuoteRequest, BuilderError>)
        ensures
            match self.first_missing() {
                Some(name) => r matches Err(BuilderError::UninitializedField(n)) && n@ == name,
                None => r matches Ok(v)
                    && v.common == self.common
                    && self.symbol == Some(v.symbol)
                    && self.interval == Some(v.interval)
                    && v.volume_time_period == self.volume_time_period
                    && v.end_of_day == self.end_of_day
                    && v.rolling_period == self.rolling_period,
            },
    {
        let symbol = match self.symbol {
            Some(x) => x,
            None => {
                return Err(BuilderError::UninitializedField("symbol"));
            },
        };
        let interval = match self.interval {
            Some(x) => x,
            None => {
                return Err(BuilderError::UninitializedField("interval"));
            },
        };
        Ok(QuoteRequest { common: self.common, symbol, interval, volume_time_period: self.volume_time_period, end_of_day: self.end_of_day, rolling_period: self.rolling_period })
    }
}

/// Collects the parameters of a `PriceRequest` one by one.
#[derive(Debug)]
pub struct PriceRequestBuilder {
    pub common: CommonQueryParameters,
    pub symbol: Option<String>,
    pub output_size: Option<u16>,
    pub order: Option<Order>,
    pub start_date: Option<Timestamp>,
    pub end_date: Option<Timestamp>,
    pub previous_close: Option<bool>,
}

impl PriceRequestBuilder {
    /// A builder with nothing set: no parameter of its own, and none of the
    /// common ones.
    pub fn new() -> (b: Self)
        ensures
            b.common.all_absent(),
            b.common.pairs_spec() == Seq::<(Seq<char>, Seq<char>)>::empty(),
            b.symbol is None,
            b.output_size is None,
            b.order is None,
            b.start_date is None,
            b.end_date is None,
            b.previous_close is None,
    {
        let common = CommonQueryParameters::default();
        assert(common.pairs_spec() =~= Seq::empty());
        PriceRequestBuilder { common, symbol: None, output_size: None, order: None, start_date: None, end_date: None, previous_close: None }
    }

    /// Sets `common` and leaves the rest.
    pub fn common(self, value: CommonQueryParameters) -> (b: Self)
        ensures
            b == (PriceRequestBuilder { common: value, ..self }),
    {
        PriceRequestBuilder { common: value, ..self }
    }

    /// Sets `symbol` and leaves the rest.
    pub fn symbol(self, value: String) -> (b: Self)
        ensures
            b == (PriceRequestBuilder { symbol: Some(value), ..self }),
    {
        PriceRequestBuilder { symbol: Some(value), ..self }
    }

    /// Sets `output_size` and leaves the rest.
    pub fn output_size(self, value: u16) -> (b: Self)
        ensures
            b == (PriceRequestBuilder { output_size: Some(value), ..self }),
    {
        PriceRequestBuilder { output_size: Some(value), ..self }
    }

    /// Sets `order` and leaves the rest.
    pub fn order(self, value: Order) -> (b: Self)
        ensures
            b == (PriceRequestBuilder { order: Some(value), ..self }),
    {
        PriceRequestBuilder { order: Some(value), ..self }
    }

    /// Sets `start_date` and leaves the rest.
    pub fn start_date(self, value: Timestamp) -> (b: Self)
        ensures
            b == (PriceRequestBuilder { start_date: Some(value), ..self }),
    {
        PriceRequestBuilder { start_date: Some(value), ..self }
    }

    /// Sets `end_date` and leaves the rest.
    pub fn end_date(self, value: Timestamp) -> (b: Self)
        ensures
            b == (PriceRequestBuilder { end_date: Some(value), ..self }),
    {
        PriceRequestBuilder { end_date: Some(value), ..self }
    }

    /// Sets `previous_close` and leaves the rest.
    pub fn previous_close(self, value: bool) -> (b: Self)
        ensures
            b == (PriceRequestBuilder { previous_close: Some(value), ..self }),
    {
        PriceRequestBuilder { previous_close: Some(value), ..self }
    }

    /// The first required parameter that was not set.
    pub open spec fn first_missing(self) -> Option<Seq<char>> {
        if self.symbol is None {
            Some("symbol"@)
        } else {
            None
        }
    }

    /// The value, where every required parameter was set; else the error
    /// names the first that was not.
    pub fn build(self) -> (r: Result<PriceRequest, BuilderError>)
        ensures
            match self.first_missing() {
                Some(name) => r matches Err(BuilderError::UninitializedField(n)) && n@ == name,
                None => r matches Ok(v)
                    && v.common == self.common
                    && self.symbol == Some(v.symbol)
                    && v.output_size == self.output_size
                    && v.order == self.order
                    && v.start_date == self.start_date
                    && v.end_date == self.end_date
                    && v.previous_close == self.previous_close,
            },
    {
        let symbol = match self.symbol {
            Some(x) => x,
            None => {
                return Err(BuilderError::UninitializedField("symbol"));
            },
        };
        Ok(PriceRequest { common: self.common, symbol, output_size: self.output_size, order: self.order, start_date: self.start_date, end_date: self.end_date, previous_close: self.previous_close })
    }
}

/// Collects the parameters of a `LogoRequest` one by one.
#[derive(Debug)]
pub struct LogoRequestBuilder {
    pub symbol: Option<String>,
    pub exchange: Option<String>,
    pub mic_code: Option<String>,
    pub country: Option<String>,
}

impl LogoRequestBuilder {
    /// A builder with nothing set.
    pub fn new() -> (b: Self)
        ensures
            b.symbol is None,
            b.exchange is None,
            b.mic_code is None,
            b.country is None,
    {
        LogoRequestBuilder { symbol: None, exchange: None, mic_code: None, country: None }
    }

    /// Sets `symbol` and leaves the rest.
    pub fn symbol(self, value: String) -> (b: Self)
        ensures
            b == (LogoRequestBuilder { symbol: Some(value), ..self }),
    {
        LogoRequestBuilder { symbol: Some(value), ..self }
    }

    /// Sets `exchange` and leaves the rest.
    pub fn exchange(self, value: String) -> (b: Self)
        ensures
            b == (LogoRequestBuilder { exchange: Some(value), ..self }),
    {
        LogoRequestBuilder { exchange: Some(value), ..self }
    }

    /// Sets `mic_code` and leaves the rest.
    pub fn mic_code(self, value: String) -> (b: Self)
        ensures
            b == (LogoRequestBuilder { mic_code: Some(value), ..self }),
    {
        LogoRequestBuilder { mic_code: Some(value), ..self }
    }

    /// Sets `country` and leaves the rest.
    pub fn country(self, value: String) -> (b: Self)
        ensures
            b == (LogoRequestBuilder { country: Some(value), ..self }),
    {
        LogoRequestBuilder { country: Some(value), ..self }
    }

    /// The first required parameter that was not set.
    pub open spec fn first_missing(self) -> Option<Seq<char>> {
        if self.symbol is None {
            Some("symbol"@)
        } else if self.exchange is None {
            Some("exchange"@)
        } else if self.mic_code is None {
            Some("mic_code"@)
        } else if self.country is None {
            Some("country"@)
        } else {
            None
        }
    }

    /// The value, where every required parameter was set; else the error
    /// names the first that was not.
    pub fn build(self) -> (r: Result<LogoRequest, BuilderError>)
        ensures
            match self.first_missing() {
                Some(name) => r matches Err(BuilderError::UninitializedField(n)) && n@ == name,
                None => r matches Ok(v)
                    && self.symbol == Some(v.symbol)
                    && self.exchange == Some(v.exchange)
                    && self.mic_code == Some(v.mic_code)
                    && self.country == Some(v.country),
            },
    {
        let symbol = match self.symbol {
            Some(x) => x,
            None => {
                return Err(BuilderError::UninitializedField("symbol"));
            },
        };
        let exchange = match self.exchange {
            Some(x) => x,
            None => {
                return Err(BuilderError::UninitializedField("exchange"));
            },
        };
        let mic_code = match self.mic_code {
            Some(x) => x,
            None => {
                return Err(BuilderError::UninitializedField("mic_code"));
            },
        };
        let country = match self.country {
            Some(x) => x,
            None => {
                return Err(BuilderError::UninitializedField("country"));
            },
        };
        Ok(LogoRequest { symbol, exchange, mic_code, country })
    }
}

} // verus!
