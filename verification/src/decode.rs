//! The reading of typed members out of a JSON object.

use crate::codec::datetime_value;
use crate::codec::deserialize_td_datetime;
use crate::codec::decode_numeric_string;
use crate::codec::deserialize_td_range;
use crate::codec::is_float_text;
use crate::codec::range_agrees;
use crate::codec::range_outcome;
use crate::codec::Numeric;
use crate::codec::NumericRange;
use crate::codec::RangeOutcome;
use crate::errors::DecodeError;
use crate::errors::DecodeFailure;
use crate::json::Json;
use crate::timestamp::Timestamp;
use crate::query::Interval;
use vstd::prelude::*;

verus! {

/// The text of the member, where it is the text of a number.
pub open spec fn numeric_member(doc: Json, key: Seq<char>) -> Option<Seq<char>> {
    match doc.text_member(key) {
        Some(s) => if is_float_text(s) {
            Some(s)
        } else {
            None
        },
        None => None,
    }
}

/// What an optional number decodes to: an absent or null member is no
/// value, a text must be a number, anything else is refused (the outer
/// `None`).
pub open spec fn optional_numeric_member(doc: Json, key: Seq<char>) -> Option<Option<Seq<char>>> {
    match doc.member(key) {
        None => Some(None),
        Some(Json::Null) => Some(None),
        Some(Json::Text(s)) => if is_float_text(s@) {
            Some(Some(s@))
        } else {
            None
        },
        Some(_) => None,
    }
}

/// The timestamp of the member, where it is a text in one of the two forms.
pub open spec fn datetime_member(doc: Json, key: Seq<char>) -> Option<Timestamp> {
    match doc.text_member(key) {
        Some(s) => datetime_value(s),
        None => None,
    }
}

/// The two sides of the member, where it is the text of a range.
pub open spec fn range_member(doc: Json, key: Seq<char>) -> Option<(Seq<char>, Seq<char>)> {
    match doc.text_member(key) {
        Some(s) => match range_outcome(s) {
            RangeOutcome::Parts(low, high) => Some((low, high)),
            _ => None,
        },
        None => None,
    }
}

/// The value of the member, where it is an integer of 64 bits.
pub open spec fn integer_member(doc: Json, key: Seq<char>) -> Option<i64> {
    match doc.member(key) {
        Some(Json::Number(n)) => n.integer,
        _ => None,
    }
}

/// What an optional flag decodes to: an absent member is `false`, and a
/// member that is no boolean is refused.
pub open spec fn flag_member(doc: Json, key: Seq<char>) -> Option<bool> {
    match doc.member(key) {
        None => Some(false),
        Some(Json::Bool(b)) => Some(b),
        Some(_) => None,
    }
}

/// The items of the member, where it is an array.
pub open spec fn array_member(doc: Json, key: Seq<char>) -> Option<Seq<Json>> {
    match doc.member(key) {
        Some(Json::Array(items)) => Some(items@),
        _ => None,
    }
}

/// The first of the failures that is one, in their order.
pub open spec fn first_failure(failures: Seq<Option<DecodeFailure>>) -> Option<DecodeFailure> {
    first_failure_from(failures, 0)
}

/// The first of the failures at or behind `from` that is one.
pub open spec fn first_failure_from(failures: Seq<Option<DecodeFailure>>, from: int) -> Option<
    DecodeFailure,
>
    decreases failures.len() - from,
{
    if from < 0 || from >= failures.len() {
        None
    } else if failures[from] is Some {
        failures[from]
    } else {
        first_failure_from(failures, from + 1)
    }
}

/// What is wrong with the member as a text.
pub open spec fn text_failure(doc: Json, key: Seq<char>) -> Option<DecodeFailure> {
    match doc.text_member(key) {
        Some(_) => None,
        None => Some(DecodeFailure::Shape(key)),
    }
}

/// What is wrong with the member as a number.
pub open spec fn numeric_failure(doc: Json, key: Seq<char>) -> Option<DecodeFailure> {
    match doc.text_member(key) {
        Some(s) => if is_float_text(s) {
            None
        } else {
            Some(DecodeFailure::Number(s))
        },
        None => Some(DecodeFailure::Shape(key)),
    }
}

/// What is wrong with the member as an optional number.
pub open spec fn optional_numeric_failure(doc: Json, key: Seq<char>) -> Option<DecodeFailure> {
    match doc.member(key) {
        None => None,
        Some(Json::Null) => None,
        Some(Json::Text(s)) => if is_float_text(s@) {
            None
        } else {
            Some(DecodeFailure::Number(s@))
        },
        Some(_) => Some(DecodeFailure::Shape(key)),
    }
}

/// What is wrong with the member as a timestamp.
pub open spec fn datetime_failure(doc: Json, key: Seq<char>) -> Option<DecodeFailure> {
    match doc.text_member(key) {
        Some(s) => if datetime_value(s) is Some {
            None
        } else {
            Some(DecodeFailure::Datetime(s))
        },
        None => Some(DecodeFailure::Shape(key)),
    }
}

/// What is wrong with the member as a range.
pub open spec fn range_failure(doc: Json, key: Seq<char>) -> Option<DecodeFailure> {
    match doc.text_member(key) {
        Some(s) => match range_outcome(s) {
            RangeOutcome::Parts(_, _) => None,
            RangeOutcome::NoSeparator => Some(DecodeFailure::RangeSeparator),
            RangeOutcome::BadLow(t) => Some(DecodeFailure::RangeLow(t)),
            RangeOutcome::BadHigh(t) => Some(DecodeFailure::RangeHigh(t)),
        },
        None => Some(DecodeFailure::Shape(key)),
    }
}

/// What is wrong with the member as an integer.
pub open spec fn integer_failure(doc: Json, key: Seq<char>) -> Option<DecodeFailure> {
    match integer_member(doc, key) {
        Some(_) => None,
        None => Some(DecodeFailure::Shape(key)),
    }
}

/// What is wrong with the member as an optional flag.
pub open spec fn flag_failure(doc: Json, key: Seq<char>) -> Option<DecodeFailure> {
    match flag_member(doc, key) {
        Some(_) => None,
        None => Some(DecodeFailure::Shape(key)),
    }
}

/// What is wrong with the member as an interval.
pub open spec fn interval_failure(doc: Json, key: Seq<char>) -> Option<DecodeFailure> {
    match interval_member(doc, key) {
        Some(_) => None,
        None => Some(DecodeFailure::Shape(key)),
    }
}

/// The error of a member that is missing or of another kind.
pub fn shape_error(key: &str) -> (e: DecodeError)
    ensures
        e matches DecodeError::Shape(k) && k@ == key@,
{
    DecodeError::Shape(String::from_str(key))
}

/// The member as text; it must be a JSON string.
pub fn text_field(doc: &Json, key: &str) -> (r: Result<String, DecodeError>)
    ensures
        match doc.text_member(key@) {
            Some(s) => r matches Ok(t) && t@ == s,
            None => r matches Err(DecodeError::Shape(k)) && k@ == key@,
        },
        match r {
            Ok(_) => text_failure(*doc, key@) is None,
            Err(e) => text_failure(*doc, key@) == Some(e@),
        },
{
    match doc.get_text(key) {
        Some(s) => Ok(String::from_str(s)),
        None => Err(shape_error(key)),
    }
}

/// The member as a number; it must be a JSON string that holds one.
pub fn numeric_field(doc: &Json, key: &str) -> (r: Result<Numeric, DecodeError>)
    ensures
        match r {
            Ok(n) => numeric_member(*doc, key@) == Some(n@) && n.wf(),
            Err(e) => numeric_member(*doc, key@) is None && match doc.text_member(key@) {
                Some(s) => e matches DecodeError::Number(t) && t@ == s,
                None => e matches DecodeError::Shape(k) && k@ == key@,
            },
        },
        match r {
            Ok(_) => numeric_failure(*doc, key@) is None,
            Err(e) => numeric_failure(*doc, key@) == Some(e@),
        },
{
    match doc.get_text(key) {
        Some(s) => decode_numeric_string(s),
        None => Err(shape_error(key)),
    }
}

/// The member as a number, or no value where it is absent or null.
pub fn optional_numeric_field(doc: &Json, key: &str) -> (r: Result<Option<Numeric>, DecodeError>)
    ensures
        match r {
            Ok(Some(n)) => optional_numeric_member(*doc, key@) == Some(Some(n@)) && n.wf(),
            Ok(None) => optional_numeric_member(*doc, key@) == Some(None::<Seq<char>>),
            Err(e) => optional_numeric_member(*doc, key@) is None && match doc.member(key@) {
                Some(Json::Text(s)) => e matches DecodeError::Number(t) && t@ == s@,
                _ => e matches DecodeError::Shape(k) && k@ == key@,
            },
        },
        match r {
            Ok(_) => optional_numeric_failure(*doc, key@) is None,
            Err(e) => optional_numeric_failure(*doc, key@) == Some(e@),
        },
{
    match doc.get(key) {
        None => Ok(None),
        Some(Json::Null) => Ok(None),
        Some(Json::Text(s)) => match decode_numeric_string(s.as_str()) {
            Ok(n) => Ok(Some(n)),
            Err(e) => Err(e),
        },
        Some(_) => Err(shape_error(key)),
    }
}

/// The member as a timestamp; it must be a JSON string in one of the two
/// forms.
pub fn datetime_field(doc: &Json, key: &str) -> (r: Result<Timestamp, DecodeError>)
    ensures
        match r {
            Ok(t) => datetime_member(*doc, key@) == Some(t),
            Err(e) => datetime_member(*doc, key@) is None && match doc.text_member(key@) {
                Some(s) => e matches DecodeError::Datetime { text, .. } && text@ == s,
                None => e matches DecodeError::Shape(k) && k@ == key@,
            },
        },
        match r {
            Ok(_) => datetime_failure(*doc, key@) is None,
            Err(e) => datetime_failure(*doc, key@) == Some(e@),
        },
{
    match doc.get_text(key) {
        Some(s) => deserialize_td_datetime(s),
        None => Err(shape_error(key)),
    }
}

/// The member as a range; it must be a JSON string that holds one.
pub fn range_field(doc: &Json, key: &str) -> (r: Result<NumericRange, DecodeError>)
    ensures
        match r {
            Ok(p) => range_member(*doc, key@) == Some((p.start@, p.end@)),
            Err(e) => range_member(*doc, key@) is None,
        },
        match doc.text_member(key@) {
            Some(s) => range_agrees(r, range_outcome(s)),
            None => r matches Err(DecodeError::Shape(k)) && k@ == key@,
        },
        match r {
            Ok(_) => range_failure(*doc, key@) is None,
            Err(e) => range_failure(*doc, key@) == Some(e@),
        },
{
    match doc.get_text(key) {
        Some(s) => deserialize_td_range(s),
        None => Err(shape_error(key)),
    }
}

/// The member as an integer; it must be a JSON number that fits 64 bits.
pub fn integer_field(doc: &Json, key: &str) -> (r: Result<i64, DecodeError>)
    ensures
        match integer_member(*doc, key@) {
            Some(n) => r matches Ok(m) && m == n,
            None => r matches Err(DecodeError::Shape(k)) && k@ == key@,
        },
        match r {
            Ok(_) => integer_failure(*doc, key@) is None,
            Err(e) => integer_failure(*doc, key@) == Some(e@),
        },
{
    match doc.get(key) {
        Some(Json::Number(n)) => match n.integer {
            Some(i) => Ok(i),
            None => Err(shape_error(key)),
        },
        _ => Err(shape_error(key)),
    }
}

/// The member as a flag, `false` where it is absent.
pub fn flag_field(doc: &Json, key: &str) -> (r: Result<bool, DecodeError>)
    ensures
        match flag_member(*doc, key@) {
            Some(b) => r matches Ok(c) && c == b,
            None => r matches Err(DecodeError::Shape(k)) && k@ == key@,
        },
        match r {
            Ok(_) => flag_failure(*doc, key@) is None,
            Err(e) => flag_failure(*doc, key@) == Some(e@),
        },
{
    match doc.get(key) {
        None => Ok(false),
        Some(Json::Bool(b)) => Ok(*b),
        Some(_) => Err(shape_error(key)),
    }
}

/// The interval that the member names.
pub open spec fn interval_member(doc: Json, key: Seq<char>) -> Option<Interval> {
    match doc.text_member(key) {
        Some(s) => Interval::named(s),
        None => None,
    }
}

/// The member as an interval; it must be a JSON string that names one.
pub fn interval_field(doc: &Json, key: &str) -> (r: Result<Interval, DecodeError>)
    ensures
        match interval_member(*doc, key@) {
            Some(i) => r matches Ok(j) && j == i,
            None => r matches Err(DecodeError::Shape(k)) && k@ == key@,
        },
        match r {
            Ok(_) => interval_failure(*doc, key@) is None,
            Err(e) => interval_failure(*doc, key@) == Some(e@),
        },
{
    match doc.get_text(key) {
        Some(s) => match Interval::from_wire(s) {
            Some(i) => Ok(i),
            None => Err(shape_error(key)),
        },
        None => Err(shape_error(key)),
    }
}

} // verus!
