//! Query strings: the parameters that several endpoints share, and the
//! pieces from which every request writes its pairs.

use crate::errors::Error;
use crate::errors::QueryError;
use crate::outside::decimal_digits;
use crate::outside::decimal_text;
use crate::outside::pairs_view;
use crate::outside::timestamp_text;
use crate::outside::timestamp_wire_text;
use crate::outside::urlencode;
use crate::outside::urlencoded;
use crate::timestamp::Timestamp;
use vstd::prelude::*;

verus! {

/// The length of the bars of a series.
#[derive(Clone, Copy, Debug, PartialEq, Eq, Structural)]
pub enum Interval {
    Minute,
    FiveMinutes,
    FifteenMinutes,
    ThirtyMinutes,
    FortyFiveMinutes,
    Hour,
    TwoHours,
    FourHours,
    Day,
    Week,
    Month,
}

impl Interval {
    /// The name of the interval on the wire.
    pub open spec fn wire_name(self) -> Seq<char> {
        match self {
            Interval::Minute => "1min"@,
            Interval::FiveMinutes => "5min"@,
            Interval::FifteenMinutes => "15min"@,
            Interval::ThirtyMinutes => "30min"@,
            Interval::FortyFiveMinutes => "45min"@,
            Interval::Hour => "1h"@,
            Interval::TwoHours => "2h"@,
            Interval::FourHours => "4h"@,
            Interval::Day => "1day"@,
            Interval::Week => "1week"@,
            Interval::Month => "1month"@,
        }
    }

    /// The name of the interval on the wire.
    pub fn as_str(&self) -> (name: &'static str)
        ensures
            name@ == self.wire_name(),
    {
        match self {
            Interval::Minute => "1min",
            Interval::FiveMinutes => "5min",
            Interval::FifteenMinutes => "15min",
            Interval::ThirtyMinutes => "30min",
            Interval::FortyFiveMinutes => "45min",
            Interval::Hour => "1h",
            Interval::TwoHours => "2h",
            Interval::FourHours => "4h",
            Interval::Day => "1day",
            Interval::Week => "1week",
            Interval::Month => "1month",
        }
    }

    /// The interval that goes by the name on the wire, if there is one.
    pub open spec fn named(s: Seq<char>) -> Option<Interval> {
        if s == "1min"@ {
            Some(Interval::Minute)
        } else if s == "5min"@ {
            Some(Interval::FiveMinutes)
        } else if s == "15min"@ {
            Some(Interval::FifteenMinutes)
        } else if s == "30min"@ {
            Some(Interval::ThirtyMinutes)
        } else if s == "45min"@ {
            Some(Interval::FortyFiveMinutes)
        } else if s == "1h"@ {
            Some(Interval::Hour)
        } else if s == "2h"@ {
            Some(Interval::TwoHours)
        } else if s == "4h"@ {
            Some(Interval::FourHours)
        } else if s == "1day"@ {
            Some(Interval::Day)
        } else if s == "1week"@ {
            Some(Interval::Week)
        } else if s == "1month"@ {
            Some(Interval::Month)
        } else {
            None
        }
    }

    /// The interval that goes by this name on the wire, if there is one.
    pub fn from_wire(text: &str) -> (r: Option<Interval>)
        ensures
            r == Interval::named(text@),
    {
        if same_text(text, "1min") {
            Some(Interval::Minute)
        } else if same_text(text, "5min") {
            Some(Interval::FiveMinutes)
        } else if same_text(text, "15min") {
            Some(Interval::FifteenMinutes)
        } else if same_text(text, "30min") {
            Some(Interval::ThirtyMinutes)
        } else if same_text(text, "45min") {
            Some(Interval::FortyFiveMinutes)
        } else if same_text(text, "1h") {
            Some(Interval::Hour)
        } else if same_text(text, "2h") {
            Some(Interval::TwoHours)
        } else if same_text(text, "4h") {
            Some(Interval::FourHours)
        } else if same_text(text, "1day") {
            Some(Interval::Day)
        } else if same_text(text, "1week") {
            Some(Interval::Week)
        } else if same_text(text, "1month") {
            Some(Interval::Month)
        } else {
            None
        }
    }
}

/// The kind of instrument that a symbol names.
#[derive(Clone, Copy, Debug, PartialEq, Eq, Structural)]
pub enum InstrumentType {
    Stock,
    Index,
    ETF,
    REIT,
}

impl InstrumentType {
    pub open spec fn wire_name(self) -> Seq<char> {
        match self {
            InstrumentType::Stock => "Stock"@,
            InstrumentType::Index => "Index"@,
            InstrumentType::ETF => "ETF"@,
            InstrumentType::REIT => "REIT"@,
        }
    }

    /// The name of the kind on the wire.
    pub fn as_str(&self) -> (name: &'static str)
        ensures
            name@ == self.wire_name(),
    {
        match self {
            InstrumentType::Stock => "Stock",
            InstrumentType::Index => "Index",
            InstrumentType::ETF => "ETF",
            InstrumentType::REIT => "REIT",
        }
    }
}

/// The format in which the service is asked to answer.
#[derive(Clone, Copy, Debug, PartialEq, Eq, Structural)]
pub enum OutputFormat {
    JSON,
    CSV,
}

impl OutputFormat {
    pub open spec fn wire_name(self) -> Seq<char> {
        match self {
            OutputFormat::JSON => "JSON"@,
            OutputFormat::CSV => "CSV"@,
        }
    }

    /// The name of the format on the wire.
    pub fn as_str(&self) -> (name: &'static str)
        ensures
            name@ == self.wire_name(),
    {
        match self {
            OutputFormat::JSON => "JSON",
            OutputFormat::CSV => "CSV",
        }
    }
}

impl Default for OutputFormat {
    fn default() -> (r: Self)
        ensures
            r == OutputFormat::JSON,
    {
        OutputFormat::JSON
    }
}

/// The order in which the rows of a series are asked for.
#[derive(Clone, Copy, Debug, PartialEq, Eq, Structural)]
pub enum Order {
    ASC,
    DESC,
}

impl Order {
    pub open spec fn wire_name(self) -> Seq<char> {
        match self {
            Order::ASC => "ASC"@,
            Order::DESC => "DESC"@,
        }
    }

    /// The name of the order on the wire.
    pub fn as_str(&self) -> (name: &'static str)
        ensures
            name@ == self.wire_name(),
    {
        match self {
            Order::ASC => "ASC",
            Order::DESC => "DESC",
        }
    }
}

/// Whether two texts are the same.
pub fn same_text(a: &str, b: &str) -> (same: bool)
    ensures
        same == (a@ == b@),
{
    let left = String::from_str(a);
    let right = String::from_str(b);
    left == right
}

/// The pairs that one field contributes: one where it is present, none
/// where it is absent.
pub open spec fn entry(key: Seq<char>, value: Option<Seq<char>>) -> Seq<(Seq<char>, Seq<char>)> {
    match value {
        Some(v) => seq![(key, v)],
        None => Seq::empty(),
    }
}

pub open spec fn text_of(value: Option<String>) -> Option<Seq<char>> {
    match value {
        Some(s) => Some(s@),
        None => None,
    }
}

pub open spec fn flag_text(b: bool) -> Seq<char> {
    if b {
        "true"@
    } else {
        "false"@
    }
}

pub open spec fn flag_of(value: Option<bool>) -> Option<Seq<char>> {
    match value {
        Some(b) => Some(flag_text(b)),
        None => None,
    }
}

/// The wire text of an optional timestamp. The outer `None` says that a
/// timestamp is present and is no time of the calendar.
pub open spec fn time_of(value: Option<Timestamp>) -> Option<Option<Seq<char>>> {
    match value {
        Some(t) => match timestamp_wire_text(t) {
            Some(s) => Some(Some(s)),
            None => None,
        },
        None => Some(None),
    }
}

/// Some pair of the list has this key.
pub open spec fn emits_key(pairs: Seq<(Seq<char>, Seq<char>)>, key: Seq<char>) -> bool {
    exists|i: int| 0 <= i < pairs.len() && (#[trigger] pairs[i]).0 == key
}

/// Appends the pair of a field to the list where the field is present.
pub fn push_entry(out: &mut Vec<(String, String)>, key: &str, value: Option<String>)
    ensures
        pairs_view(final(out)@) == pairs_view(old(out)@) + entry(key@, text_of(value)),
{
    match value {
        Some(v) => {
            let ghost before = out@;
            let k = String::from_str(key);
            out.push((k, v));
            assert(pairs_view(out@) =~= pairs_view(before) + seq![(key@, v@)]);
        },
        None => {
            assert(pairs_view(out@) =~= pairs_view(out@) + Seq::empty());
        },
    }
}

pub fn text_value(value: &Option<String>) -> (r: Option<String>)
    ensures
        text_of(r) == text_of(*value),
{
    match value {
        Some(s) => Some(s.clone()),
        None => None,
    }
}

pub fn places_value(value: Option<u8>) -> (r: Option<String>)
    ensures
        text_of(r) == places_of(value),
{
    match value {
        Some(n) => Some(decimal_text(n as u32)),
        None => None,
    }
}

pub fn size_value(value: Option<u16>) -> (r: Option<String>)
    ensures
        text_of(r) == size_of(value),
{
    match value {
        Some(n) => Some(decimal_text(n as u32)),
        None => None,
    }
}

pub fn count_value(value: Option<u32>) -> (r: Option<String>)
    ensures
        text_of(r) == count_of(value),
{
    match value {
        Some(n) => Some(decimal_text(n)),
        None => None,
    }
}

pub fn kind_value(value: Option<InstrumentType>) -> (r: Option<String>)
    ensures
        text_of(r) == kind_of(value),
{
    match value {
        Some(k) => Some(String::from_str(k.as_str())),
        None => None,
    }
}

pub fn format_value(value: Option<OutputFormat>) -> (r: Option<String>)
    ensures
        text_of(r) == format_of(value),
{
    match value {
        Some(k) => Some(String::from_str(k.as_str())),
        None => None,
    }
}

pub fn order_value(value: Option<Order>) -> (r: Option<String>)
    ensures
        text_of(r) == order_of(value),
{
    match value {
        Some(k) => Some(String::from_str(k.as_str())),
        None => None,
    }
}

pub fn flag_value(value: Option<bool>) -> (r: Option<String>)
    ensures
        text_of(r) == flag_of(value),
{
    match value {
        Some(true) => Some(String::from_str("true")),
        Some(false) => Some(String::from_str("false")),
        None => None,
    }
}

pub fn time_value(value: &Option<Timestamp>) -> (r: Result<Option<String>, Error>)
    ensures
        match r {
            Ok(s) => time_of(*value) == Some(text_of(s)),
            Err(e) => time_of(*value) is None && e matches Error::QueryConstruction(
                QueryError::Timestamp,
            ),
        },
{
    match value {
        Some(t) => match timestamp_text(t) {
            Some(s) => Ok(Some(s)),
            None => Err(Error::QueryConstruction(QueryError::Timestamp)),
        },
        None => Ok(None),
    }
}

/// What `encode_pairs` returns for a list of pairs.
pub open spec fn encoded_agrees(r: Result<String, Error>, pairs: Seq<(Seq<char>, Seq<char>)>) -> bool {
    match urlencoded(pairs) {
        Some(s) => r matches Ok(q) && q@ == s,
        None => r matches Err(Error::QueryConstruction(QueryError::Encoding(_))),
    }
}

/// Writes the pairs as a query string: `key=value`, escaped, joined by `&`.
pub fn encode_pairs(pairs: &Vec<(String, String)>) -> (r: Result<String, Error>)
    ensures
        encoded_agrees(r, pairs_view(pairs@)),
{
    match urlencode(pairs) {
        Ok(s) => Ok(s),
        Err(why) => Err(Error::QueryConstruction(QueryError::Encoding(why))),
    }
}

/// The optional parameters that several endpoints share. Each is written at
/// the level of the request's own parameters.
#[derive(Debug)]
pub struct CommonQueryParameters {
    pub exchange: Option<String>,
    pub mic_code: Option<String>,
    pub country: Option<String>,
    pub instrument_type: Option<InstrumentType>,
    pub format: Option<OutputFormat>,
    pub delimiter: Option<String>,
    pub decimal_places: Option<u8>,
    pub timezone: Option<String>,
}

pub open spec fn kind_of(value: Option<InstrumentType>) -> Option<Seq<char>> {
    match value {
        Some(k) => Some(k.wire_name()),
        None => None,
    }
}

pub open spec fn format_of(value: Option<OutputFormat>) -> Option<Seq<char>> {
    match value {
        Some(k) => Some(k.wire_name()),
        None => None,
    }
}

pub open spec fn order_of(value: Option<Order>) -> Option<Seq<char>> {
    match value {
        Some(k) => Some(k.wire_name()),
        None => None,
    }
}

pub open spec fn places_of(value: Option<u8>) -> Option<Seq<char>> {
    match value {
        Some(n) => Some(decimal_digits(n as nat)),
        None => None,
    }
}

pub open spec fn size_of(value: Option<u16>) -> Option<Seq<char>> {
    match value {
        Some(n) => Some(decimal_digits(n as nat)),
        None => None,
    }
}

pub open spec fn count_of(value: Option<u32>) -> Option<Seq<char>> {
    match value {
        Some(n) => Some(decimal_digits(n as nat)),
        None => None,
    }
}

impl CommonQueryParameters {
    /// No parameter is present.
    pub open spec fn all_absent(self) -> bool {
        &&& self.exchange is None
        &&& self.mic_code is None
        &&& self.country is None
        &&& self.instrument_type is None
        &&& self.format is None
        &&& self.delimiter is None
        &&& self.decimal_places is None
        &&& self.timezone is None
    }

    /// The pairs of the present parameters, in the order of declaration.
    pub open spec fn pairs_spec(self) -> Seq<(Seq<char>, Seq<char>)> {
        Seq::empty() + entry("exchange"@, text_of(self.exchange)) + entry(
            "mic_code"@,
            text_of(self.mic_code),
        ) + entry("country"@, text_of(self.country)) + entry(
            "type"@,
            kind_of(self.instrument_type),
        ) + entry("format"@, format_of(self.format)) + entry("delimiter"@, text_of(self.delimiter))
            + entry("dp"@, places_of(self.decimal_places)) + entry(
            "timezone"@,
            text_of(self.timezone),
        )
    }

    /// The pairs of the present parameters, in the order of declaration.
    pub fn query_pairs(&self) -> (out: Vec<(String, String)>)
        ensures
            pairs_view(out@) == self.pairs_spec(),
    {
        let mut out: Vec<(String, String)> = Vec::new();
        assert(pairs_view(out@) =~= Seq::empty());
        push_entry(&mut out, "exchange", text_value(&self.exchange));
        push_entry(&mut out, "mic_code", text_value(&self.mic_code));
        push_entry(&mut out, "country", text_value(&self.country));
        push_entry(&mut out, "type", kind_value(self.instrument_type));
        push_entry(&mut out, "format", format_value(self.format));
        push_entry(&mut out, "delimiter", text_value(&self.delimiter));
        push_entry(&mut out, "dp", places_value(self.decimal_places));
        push_entry(&mut out, "timezone", text_value(&self.timezone));
        out
    }

    /// The parameters as a query string.
    pub fn encode(&self) -> (r: Result<String, Error>)
        ensures
            encoded_agrees(r, self.pairs_spec()),
    {
        let pairs = self.query_pairs();
        encode_pairs(&pairs)
    }
}

impl Default for CommonQueryParameters {
    fn default() -> (r: Self)
        ensures
            r.exchange is None,
            r.mic_code is None,
            r.country is None,
            r.instrument_type is None,
            r.format is None,
            r.delimiter is None,
            r.decimal_places is None,
            r.timezone is None,
    {
        CommonQueryParameters {
            exchange: None,
            mic_code: None,
            country: None,
            instrument_type: None,
            format: None,
            delimiter: None,
            decimal_places: None,
            timezone: None,
        }
    }
}

/// The common parameters write the key of a parameter exactly where the
/// parameter is present: nothing is written for an absent one.
pub proof fn lemma_common_keys_follow_presence(p: CommonQueryParameters)
    ensures
        p.exchange is Some <==> emits_key(p.pairs_spec(), "exchange"@),
        p.mic_code is Some <==> emits_key(p.pairs_spec(), "mic_code"@),
        p.country is Some <==> emits_key(p.pairs_spec(), "country"@),
        p.instrument_type is Some <==> emits_key(p.pairs_spec(), "type"@),
        p.format is Some <==> emits_key(p.pairs_spec(), "format"@),
        p.delimiter is Some <==> emits_key(p.pairs_spec(), "delimiter"@),
        p.decimal_places is Some <==> emits_key(p.pairs_spec(), "dp"@),
        p.timezone is Some <==> emits_key(p.pairs_spec(), "timezone"@),
{
    lemma_common_values(p);
    lemma_key_is_written_iff_valued(p.pairs_spec(), "exchange"@);
    lemma_key_is_written_iff_valued(p.pairs_spec(), "mic_code"@);
    lemma_key_is_written_iff_valued(p.pairs_spec(), "country"@);
    lemma_key_is_written_iff_valued(p.pairs_spec(), "type"@);
    lemma_key_is_written_iff_valued(p.pairs_spec(), "format"@);
    lemma_key_is_written_iff_valued(p.pairs_spec(), "delimiter"@);
    lemma_key_is_written_iff_valued(p.pairs_spec(), "dp"@);
    lemma_key_is_written_iff_valued(p.pairs_spec(), "timezone"@);
}

/// The wire names of the parameters are different texts.
pub proof fn lemma_wire_names_differ()
    ensures
        "exchange"@ != "mic_code"@,
        "exchange"@ != "country"@,
        "exchange"@ != "type"@,
        "exchange"@ != "format"@,
        "exchange"@ != "delimiter"@,
        "exchange"@ != "dp"@,
        "exchange"@ != "timezone"@,
        "exchange"@ != "symbol"@,
        "exchange"@ != "interval"@,
        "exchange"@ != "outputsize"@,
        "exchange"@ != "order"@,
        "exchange"@ != "start_date"@,
        "exchange"@ != "end_date"@,
        "exchange"@ != "previous_close"@,
        "exchange"@ != "volume_time_period"@,
        "exchange"@ != "eod"@,
        "exchange"@ != "rolling_period"@,
        "mic_code"@ != "country"@,
        "mic_code"@ != "type"@,
        "mic_code"@ != "format"@,
        "mic_code"@ != "delimiter"@,
        "mic_code"@ != "dp"@,
        "mic_code"@ != "timezone"@,
        "mic_code"@ != "symbol"@,
        "mic_code"@ != "interval"@,
        "mic_code"@ != "outputsize"@,
        "mic_code"@ != "order"@,
        "mic_code"@ != "start_date"@,
        "mic_code"@ != "end_date"@,
        "mic_code"@ != "previous_close"@,
        "mic_code"@ != "volume_time_period"@,
        "mic_code"@ != "eod"@,
        "mic_code"@ != "rolling_period"@,
        "country"@ != "type"@,
        "country"@ != "format"@,
        "country"@ != "delimiter"@,
        "country"@ != "dp"@,
        "country"@ != "timezone"@,
        "country"@ != "symbol"@,
        "country"@ != "interval"@,
        "country"@ != "outputsize"@,
        "country"@ != "order"@,
        "country"@ != "start_date"@,
        "country"@ != "end_date"@,
        "country"@ != "previous_close"@,
        "country"@ != "volume_time_period"@,
        "country"@ != "eod"@,
        "country"@ != "rolling_period"@,
        "type"@ != "format"@,
        "type"@ != "delimiter"@,
        "type"@ != "dp"@,
        "type"@ != "timezone"@,
        "type"@ != "symbol"@,
        "type"@ != "interval"@,
        "type"@ != "outputsize"@,
        "type"@ != "order"@,
        "type"@ != "start_date"@,
        "type"@ != "end_date"@,
        "type"@ != "previous_close"@,
        "type"@ != "volume_time_period"@,
        "type"@ != "eod"@,
        "type"@ != "rolling_period"@,
        "format"@ != "delimiter"@,
        "format"@ != "dp"@,
        "format"@ != "timezone"@,
        "format"@ != "symbol"@,
        "format"@ != "interval"@,
        "format"@ != "outputsize"@,
        "format"@ != "order"@,
        "format"@ != "start_date"@,
        "format"@ != "end_date"@,
        "format"@ != "previous_close"@,
        "format"@ != "volume_time_period"@,
        "format"@ != "eod"@,
        "format"@ != "rolling_period"@,
        "delimiter"@ != "dp"@,
        "delimiter"@ != "timezone"@,
        "delimiter"@ != "symbol"@,
        "delimiter"@ != "interval"@,
        "delimiter"@ != "outputsize"@,
        "delimiter"@ != "order"@,
        "delimiter"@ != "start_date"@,
        "delimiter"@ != "end_date"@,
        "delimiter"@ != "previous_close"@,
        "delimiter"@ != "volume_time_period"@,
        "delimiter"@ != "eod"@,
        "delimiter"@ != "rolling_period"@,
        "dp"@ != "timezone"@,
        "dp"@ != "symbol"@,
        "dp"@ != "interval"@,
        "dp"@ != "outputsize"@,
        "dp"@ != "order"@,
        "dp"@ != "start_date"@,
        "dp"@ != "end_date"@,
        "dp"@ != "previous_close"@,
        "dp"@ != "volume_time_period"@,
        "dp"@ != "eod"@,
        "dp"@ != "rolling_period"@,
        "timezone"@ != "symbol"@,
        "timezone"@ != "interval"@,
        "timezone"@ != "outputsize"@,
        "timezone"@ != "order"@,
        "timezone"@ != "start_date"@,
        "timezone"@ != "end_date"@,
        "timezone"@ != "previous_close"@,
        "timezone"@ != "volume_time_period"@,
        "timezone"@ != "eod"@,
        "timezone"@ != "rolling_period"@,
        "symbol"@ != "interval"@,
        "symbol"@ != "outputsize"@,
        "symbol"@ != "order"@,
        "symbol"@ != "start_date"@,
        "symbol"@ != "end_date"@,
        "symbol"@ != "previous_close"@,
        "symbol"@ != "volume_time_period"@,
        "symbol"@ != "eod"@,
        "symbol"@ != "rolling_period"@,
        "interval"@ != "outputsize"@,
        "interval"@ != "order"@,
        "interval"@ != "start_date"@,
        "interval"@ != "end_date"@,
        "interval"@ != "previous_close"@,
        "interval"@ != "volume_time_period"@,
        "interval"@ != "eod"@,
        "interval"@ != "rolling_period"@,
        "outputsize"@ != "order"@,
        "outputsize"@ != "start_date"@,
        "outputsize"@ != "end_date"@,
        "outputsize"@ != "previous_close"@,
        "outputsize"@ != "volume_time_period"@,
        "outputsize"@ != "eod"@,
        "outputsize"@ != "rolling_period"@,
        "order"@ != "start_date"@,
        "order"@ != "end_date"@,
        "order"@ != "previous_close"@,
        "order"@ != "volume_time_period"@,
        "order"@ != "eod"@,
        "order"@ != "rolling_period"@,
        "start_date"@ != "end_date"@,
        "start_date"@ != "previous_close"@,
        "start_date"@ != "volume_time_period"@,
        "start_date"@ != "eod"@,
        "start_date"@ != "rolling_period"@,
        "end_date"@ != "previous_close"@,
        "end_date"@ != "volume_time_period"@,
        "end_date"@ != "eod"@,
        "end_date"@ != "rolling_period"@,
        "previous_close"@ != "volume_time_period"@,
        "previous_close"@ != "eod"@,
        "previous_close"@ != "rolling_period"@,
        "volume_time_period"@ != "eod"@,
        "volume_time_period"@ != "rolling_period"@,
        "eod"@ != "rolling_period"@,
{
    reveal_strlit("exchange");
    reveal_strlit("mic_code");
    reveal_strlit("country");
    reveal_strlit("type");
    reveal_strlit("format");
    reveal_strlit("delimiter");
    reveal_strlit("dp");
    reveal_strlit("timezone");
    reveal_strlit("symbol");
    reveal_strlit("interval");
    reveal_strlit("outputsize");
    reveal_strlit("order");
    reveal_strlit("start_date");
    reveal_strlit("end_date");
    reveal_strlit("previous_close");
    reveal_strlit("volume_time_period");
    reveal_strlit("eod");
    reveal_strlit("rolling_period");
    assert("exchange"@.len() == 8);
    assert("mic_code"@.len() == 8);
    assert("country"@.len() == 7);
    assert("type"@.len() == 4);
    assert("format"@.len() == 6);
    assert("delimiter"@.len() == 9);
    assert("dp"@.len() == 2);
    assert("timezone"@.len() == 8);
    assert("symbol"@.len() == 6);
    assert("interval"@.len() == 8);
    assert("outputsize"@.len() == 10);
    assert("order"@.len() == 5);
    assert("start_date"@.len() == 10);
    assert("end_date"@.len() == 8);
    assert("previous_close"@.len() == 14);
    assert("volume_time_period"@.len() == 18);
    assert("eod"@.len() == 3);
    assert("rolling_period"@.len() == 14);
    assert("exchange"@[0] == 'e' && "exchange"@[1] == 'x');
    assert("mic_code"@[0] == 'm' && "mic_code"@[1] == 'i');
    assert("timezone"@[0] == 't' && "timezone"@[1] == 'i');
    assert("interval"@[0] == 'i' && "interval"@[1] == 'n');
    assert("end_date"@[0] == 'e' && "end_date"@[1] == 'n');
    assert("format"@[0] == 'f' && "format"@[1] == 'o');
    assert("symbol"@[0] == 's' && "symbol"@[1] == 'y');
    assert("outputsize"@[0] == 'o' && "outputsize"@[1] == 'u');
    assert("start_date"@[0] == 's' && "start_date"@[1] == 't');
    assert("previous_close"@[0] == 'p' && "previous_close"@[1] == 'r');
    assert("rolling_period"@[0] == 'r' && "rolling_period"@[1] == 'o');
}

/// The value of the first pair of the list that has the key.
pub open spec fn value_of(pairs: Seq<(Seq<char>, Seq<char>)>, key: Seq<char>) -> Option<Seq<char>>
    decreases pairs.len(),
{
    if pairs.len() == 0 {
        None
    } else if pairs[0].0 == key {
        Some(pairs[0].1)
    } else {
        value_of(pairs.subrange(1, pairs.len() as int), key)
    }
}

/// A key has a value in a list exactly where some pair of the list has the
/// key.
pub proof fn lemma_key_is_written_iff_valued(pairs: Seq<(Seq<char>, Seq<char>)>, k: Seq<char>)
    ensures
        emits_key(pairs, k) <==> value_of(pairs, k) is Some,
    decreases pairs.len(),
{
    if pairs.len() > 0 {
        let rest = pairs.subrange(1, pairs.len() as int);
        lemma_key_is_written_iff_valued(rest, k);
        if pairs[0].0 == k {
            assert(emits_key(pairs, k));
        } else {
            if emits_key(pairs, k) {
                let i = choose|i: int| 0 <= i < pairs.len() && (#[trigger] pairs[i]).0 == k;
                assert(rest[i - 1] == pairs[i]);
                assert(emits_key(rest, k));
            }
            if emits_key(rest, k) {
                let i = choose|i: int| 0 <= i < rest.len() && (#[trigger] rest[i]).0 == k;
                assert(pairs[i + 1] == rest[i]);
                assert(emits_key(pairs, k));
            }
        }
    }
}

/// Behind a list, the pair of one more field gives its key a value only
/// where the list had none for it.
pub proof fn lemma_value_after_entry(
    prefix: Seq<(Seq<char>, Seq<char>)>,
    key: Seq<char>,
    value: Option<Seq<char>>,
    k: Seq<char>,
)
    ensures
        value_of(prefix + entry(key, value), k) == if value_of(prefix, k) is Some {
            value_of(prefix, k)
        } else if k == key {
            value
        } else {
            None
        },
    decreases prefix.len(),
{
    let last = entry(key, value);
    let whole = prefix + last;
    if prefix.len() == 0 {
        assert(whole =~= last);
        assert(value_of(prefix, k) is None);
        if value is Some {
            let tail = last.subrange(1, last.len() as int);
            assert(tail.len() == 0);
            assert(value_of(tail, k) is None);
            assert(last[0] == (key, value.unwrap()));
        } else {
            assert(last.len() == 0);
        }
    } else {
        let rest = prefix.subrange(1, prefix.len() as int);
        assert(whole.subrange(1, whole.len() as int) =~= rest + last);
        assert(whole[0] == prefix[0]);
        lemma_value_after_entry(rest, key, value, k);
    }
}

/// What a list that got the pair of one more field holds under the key of
/// the field, where the list had nothing under it, and under another key.
pub proof fn lemma_values_after_entry(
    prefix: Seq<(Seq<char>, Seq<char>)>,
    key: Seq<char>,
    value: Option<Seq<char>>,
)
    ensures
        value_of(prefix, key) is None ==> value_of(prefix + entry(key, value), key) == value,
        forall|k: Seq<char>|
            k != key ==> #[trigger] value_of(prefix + entry(key, value), k) == value_of(prefix, k),
{
    lemma_value_after_entry(prefix, key, value, key);
    assert forall|k: Seq<char>| k != key implies #[trigger] value_of(
        prefix + entry(key, value),
        k,
    ) == value_of(prefix, k) by {
        lemma_value_after_entry(prefix, key, value, k);
    }
}

/// Under the wire name of each common parameter stands the text of the
/// parameter where it is present, and nothing where it is absent; no other
/// name of a parameter has a value.
#[verifier::spinoff_prover]
#[verifier::rlimit(40)]
pub proof fn lemma_common_values(p: CommonQueryParameters)
    ensures
        value_of(p.pairs_spec(), "exchange"@) == text_of(p.exchange),
        value_of(p.pairs_spec(), "mic_code"@) == text_of(p.mic_code),
        value_of(p.pairs_spec(), "country"@) == text_of(p.country),
        value_of(p.pairs_spec(), "type"@) == kind_of(p.instrument_type),
        value_of(p.pairs_spec(), "format"@) == format_of(p.format),
        value_of(p.pairs_spec(), "delimiter"@) == text_of(p.delimiter),
        value_of(p.pairs_spec(), "dp"@) == places_of(p.decimal_places),
        value_of(p.pairs_spec(), "timezone"@) == text_of(p.timezone),
        value_of(p.pairs_spec(), "symbol"@) is None,
        value_of(p.pairs_spec(), "interval"@) is None,
        value_of(p.pairs_spec(), "outputsize"@) is None,
        value_of(p.pairs_spec(), "order"@) is None,
        value_of(p.pairs_spec(), "start_date"@) is None,
        value_of(p.pairs_spec(), "end_date"@) is None,
        value_of(p.pairs_spec(), "previous_close"@) is None,
        value_of(p.pairs_spec(), "volume_time_period"@) is None,
        value_of(p.pairs_spec(), "eod"@) is None,
        value_of(p.pairs_spec(), "rolling_period"@) is None,
{
    lemma_wire_names_differ();
    let upto0 = Seq::<(Seq<char>, Seq<char>)>::empty();
    lemma_values_after_entry(upto0, "exchange"@, text_of(p.exchange));
    let upto1 = upto0 + entry("exchange"@, text_of(p.exchange));
    lemma_values_after_entry(upto1, "mic_code"@, text_of(p.mic_code));
    let upto2 = upto1 + entry("mic_code"@, text_of(p.mic_code));
    lemma_values_after_entry(upto2, "country"@, text_of(p.country));
    let upto3 = upto2 + entry("country"@, text_of(p.country));
    lemma_values_after_entry(upto3, "type"@, kind_of(p.instrument_type));
    let upto4 = upto3 + entry("type"@, kind_of(p.instrument_type));
    lemma_values_after_entry(upto4, "format"@, format_of(p.format));
    let upto5 = upto4 + entry("format"@, format_of(p.format));
    lemma_values_after_entry(upto5, "delimiter"@, text_of(p.delimiter));
    let upto6 = upto5 + entry("delimiter"@, text_of(p.delimiter));
    lemma_values_after_entry(upto6, "dp"@, places_of(p.decimal_places));
    let upto7 = upto6 + entry("dp"@, places_of(p.decimal_places));
    lemma_values_after_entry(upto7, "timezone"@, text_of(p.timezone));
    let upto8 = upto7 + entry("timezone"@, text_of(p.timezone));
    assert(p.pairs_spec() == upto8);
}

} // verus!
