//! The calls into other crates, each behind a contract that is stated here
//! and not proved.

use chrono::Datelike;
use chrono::Timelike;
use crate::json::Json;
use crate::json::JsonNumber;
use crate::timestamp::Date;
use crate::timestamp::Timestamp;
use vstd::prelude::*;

verus! {

#[verifier::external_type_specification]
#[verifier::external_body]
pub struct ExChronoParseError(chrono::ParseError);

#[verifier::external_type_specification]
#[verifier::external_body]
pub struct ExJsonValue(serde_json::Value);

/// What chrono reads from `text` under the pattern `%Y-%m-%d %H:%M:%S`, if
/// it accepts the text.
pub uninterp spec fn full_timestamp(text: Seq<char>) -> Option<Timestamp>;

/// What chrono reads from `text` under the pattern `%Y-%m-%d`, if it accepts
/// the text.
pub uninterp spec fn calendar_date(text: Seq<char>) -> Option<Date>;

/// `chrono::NaiveDateTime::parse_from_str` with the pattern
/// `%Y-%m-%d %H:%M:%S`. The contract claims only that the outcome is a
/// function of the text: success exactly where `full_timestamp` has a value,
/// and then that value, field by field.
#[verifier::external_body]
pub(crate) fn parse_full_timestamp(text: &str) -> (r: Result<Timestamp, chrono::ParseError>)
    ensures
        r.is_ok() == full_timestamp(text@).is_some(),
        r.is_ok() ==> full_timestamp(text@) == Some(r.unwrap()),
{
    match chrono::NaiveDateTime::parse_from_str(text, "%Y-%m-%d %H:%M:%S") {
        Ok(t) => Ok(
            Timestamp {
                year: t.year(),
                month: t.month(),
                day: t.day(),
                hour: t.hour(),
                minute: t.minute(),
                second: t.second(),
                nanosecond: t.nanosecond(),
            },
        ),
        Err(e) => Err(e),
    }
}

/// `chrono::NaiveDate::parse_from_str` with the pattern `%Y-%m-%d`. The
/// contract claims only that the outcome is a function of the text: success
/// exactly where `calendar_date` has a value, and then that value.
#[verifier::external_body]
pub(crate) fn parse_calendar_date(text: &str) -> (r: Result<Date, chrono::ParseError>)
    ensures
        r.is_ok() == calendar_date(text@).is_some(),
        r.is_ok() ==> calendar_date(text@) == Some(r.unwrap()),
{
    match chrono::NaiveDate::parse_from_str(text, "%Y-%m-%d") {
        Ok(d) => Ok(Date { year: d.year(), month: d.month(), day: d.day() }),
        Err(e) => Err(e),
    }
}

/// The ISO 8601 text that chrono writes for the timestamp, if the fields
/// are a time of the calendar.
pub uninterp spec fn timestamp_wire_text(t: Timestamp) -> Option<Seq<char>>;

/// Builds the `chrono::NaiveDateTime` of the fields (`NaiveDate::from_ymd_opt`,
/// `NaiveDate::and_hms_nano_opt`) and writes it with its `Debug` form, which
/// is the text chrono sends on the wire. The contract claims only that the
/// outcome is a function of the fields.
#[verifier::external_body]
pub(crate) fn timestamp_text(t: &Timestamp) -> (r: Option<String>)
    ensures
        r.is_some() == timestamp_wire_text(*t).is_some(),
        r.is_some() ==> timestamp_wire_text(*t) == Some(r.unwrap()@),
{
    let date = chrono::NaiveDate::from_ymd_opt(t.year, t.month, t.day)?;
    let time = date.and_hms_nano_opt(t.hour, t.minute, t.second, t.nanosecond)?;
    Some(format!("{:?}", time))
}

pub open spec fn digit_char(d: nat) -> char {
    if d == 0 {
        '0'
    } else if d == 1 {
        '1'
    } else if d == 2 {
        '2'
    } else if d == 3 {
        '3'
    } else if d == 4 {
        '4'
    } else if d == 5 {
        '5'
    } else if d == 6 {
        '6'
    } else if d == 7 {
        '7'
    } else if d == 8 {
        '8'
    } else {
        '9'
    }
}

/// The decimal digits of a number, without leading zeros.
pub open spec fn decimal_digits(n: nat) -> Seq<char>
    decreases n,
{
    if n < 10 {
        seq![digit_char(n)]
    } else {
        decimal_digits(n / 10).push(digit_char(n % 10))
    }
}

/// `u32::to_string`: the number in decimal digits.
#[verifier::external_body]
pub(crate) fn decimal_text(n: u32) -> (s: String)
    ensures
        s@ == decimal_digits(n as nat),
{
    n.to_string()
}

/// The pairs as texts.
pub open spec fn pairs_view(pairs: Seq<(String, String)>) -> Seq<(Seq<char>, Seq<char>)> {
    pairs.map_values(|p: (String, String)| (p.0@, p.1@))
}

/// The `application/x-www-form-urlencoded` text of the pairs, if the
/// encoder accepts them.
pub uninterp spec fn urlencoded(pairs: Seq<(Seq<char>, Seq<char>)>) -> Option<Seq<char>>;

/// `serde_urlencoded::to_string` on a list of pairs. The contract claims
/// only that the outcome is a function of the keys and values in their
/// order; a refusal comes back as the encoder's own words.
#[verifier::external_body]
pub(crate) fn urlencode(pairs: &Vec<(String, String)>) -> (r: Result<String, String>)
    ensures
        r.is_ok() == urlencoded(pairs_view(pairs@)).is_some(),
        r.is_ok() ==> urlencoded(pairs_view(pairs@)) == Some(r.unwrap()@),
{
    match serde_urlencoded::to_string(pairs) {
        Ok(s) => Ok(s),
        Err(e) => Err(e.to_string()),
    }
}

/// The document that serde_json reads from the text, if the text is JSON.
pub uninterp spec fn parsed_json(body: Seq<char>) -> Option<Json>;

/// `serde_json::from_str` to a `serde_json::Value`, handed on as a `Json`.
/// The contract claims only that the outcome is a function of the text; a
/// refusal comes back as the parser's own words.
#[verifier::external_body]
pub(crate) fn parse_json(body: &str) -> (r: Result<Json, String>)
    ensures
        r.is_ok() == parsed_json(body@).is_some(),
        r.is_ok() ==> parsed_json(body@) == Some(r.unwrap()),
{
    match serde_json::from_str::<serde_json::Value>(body) {
        Ok(v) => Ok(json_of(v)),
        Err(e) => Err(e.to_string()),
    }
}

/// Moves a `serde_json::Value` into a `Json`, variant by variant; a number
/// is kept through `Number::as_i64` and its `to_string`. Nothing is claimed
/// of the result.
#[verifier::external_body]
pub(crate) fn json_of(v: serde_json::Value) -> Json {
    match v {
        serde_json::Value::Null => Json::Null,
        serde_json::Value::Bool(b) => Json::Bool(b),
        serde_json::Value::Number(n) => Json::Number(
            JsonNumber { integer: n.as_i64(), text: n.to_string() },
        ),
        serde_json::Value::String(s) => Json::Text(s),
        serde_json::Value::Array(a) => Json::Array(a.into_iter().map(json_of).collect()),
        serde_json::Value::Object(o) => Json::Object(
            o.into_iter().map(|(k, x)| (k, json_of(x))).collect(),
        ),
    }
}

} // verus!
