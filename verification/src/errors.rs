//! The error taxonomy of a call.

use vstd::prelude::*;

verus! {

/// Why a response body could not be turned into a typed value.
#[derive(Debug)]
pub enum DecodeError {
    /// The body is not a JSON document; the text is the parser's complaint.
    Syntax(String),
    /// The named member is missing or holds a JSON value of another kind.
    Shape(String),
    /// The text is neither a full timestamp nor a bare date. Both parse
    /// failures are kept.
    Datetime { text: String, full: chrono::ParseError, date: chrono::ParseError },
    /// The range text does not hold the separator.
    RangeSeparator,
    /// The text before the separator is not a number.
    RangeLow(String),
    /// The text after the separator is not a number.
    RangeHigh(String),
    /// The text is not a number.
    Number(String),
}

/// A `DecodeError` as contracts speak of it: the texts by their characters,
/// and without what another crate reported.
pub enum DecodeFailure {
    Syntax,
    Shape(Seq<char>),
    Datetime(Seq<char>),
    RangeSeparator,
    RangeLow(Seq<char>),
    RangeHigh(Seq<char>),
    Number(Seq<char>),
}

impl View for DecodeError {
    type V = DecodeFailure;

    open spec fn view(&self) -> DecodeFailure {
        match self {
            DecodeError::Syntax(_) => DecodeFailure::Syntax,
            DecodeError::Shape(key) => DecodeFailure::Shape(key@),
            DecodeError::Datetime { text, .. } => DecodeFailure::Datetime(text@),
            DecodeError::RangeSeparator => DecodeFailure::RangeSeparator,
            DecodeError::RangeLow(text) => DecodeFailure::RangeLow(text@),
            DecodeError::RangeHigh(text) => DecodeFailure::RangeHigh(text@),
            DecodeError::Number(text) => DecodeFailure::Number(text@),
        }
    }
}

/// Why a call failed. The variants exclude each other.
#[derive(Debug)]
pub enum Error {
    /// The transport failed below the application layer; the text is the
    /// transport's own description.
    HttpError(String),
    /// The request could not be written as a query string.
    QueryConstruction(QueryError),
    /// The body is not JSON, or not of the expected shape.
    ResponseParsing(DecodeError),
    /// The response is well formed and signals a failure.
    DataError(String),
}

/// Why a request could not be written as a query string.
#[derive(Debug)]
pub enum QueryError {
    /// A timestamp of the request is not a time of the calendar.
    Timestamp,
    /// The encoder refused the pairs; the text is its complaint.
    Encoding(String),
}

impl DecodeError {
    /// A one-line description for people.
    pub fn message(&self) -> (text: String)
        ensures
            text@ == self.message_spec(),
    {
        match self {
            DecodeError::Syntax(why) => String::from_str("the body is not JSON: ").concat(
                why.as_str(),
            ),
            DecodeError::Shape(key) => String::from_str("missing or unexpected member: ").concat(
                key.as_str(),
            ),
            DecodeError::Datetime { text, .. } => String::from_str(
                "unexpected date time format of ",
            ).concat(text.as_str()),
            DecodeError::RangeSeparator => String::from_str("couldn't find the range separator"),
            DecodeError::RangeLow(text) => String::from_str(
                "failed to parse the first range value: ",
            ).concat(text.as_str()),
            DecodeError::RangeHigh(text) => String::from_str(
                "failed to parse the second range value: ",
            ).concat(text.as_str()),
            DecodeError::Number(text) => String::from_str("failed to parse the number: ").concat(
                text.as_str(),
            ),
        }
    }

    pub open spec fn message_spec(self) -> Seq<char> {
        match self {
            DecodeError::Syntax(why) => "the body is not JSON: "@ + why@,
            DecodeError::Shape(key) => "missing or unexpected member: "@ + key@,
            DecodeError::Datetime { text, .. } => "unexpected date time format of "@ + text@,
            DecodeError::RangeSeparator => "couldn't find the range separator"@,
            DecodeError::RangeLow(text) => "failed to parse the first range value: "@ + text@,
            DecodeError::RangeHigh(text) => "failed to parse the second range value: "@ + text@,
            DecodeError::Number(text) => "failed to parse the number: "@ + text@,
        }
    }
}

impl QueryError {
    /// A one-line description for people.
    pub fn message(&self) -> (text: String)
        ensures
            text@ == self.message_spec(),
    {
        match self {
            QueryError::Timestamp => String::from_str("a timestamp is no time of the calendar"),
            QueryError::Encoding(why) => String::from_str("the encoder refused: ").concat(
                why.as_str(),
            ),
        }
    }

    pub open spec fn message_spec(self) -> Seq<char> {
        match self {
            QueryError::Timestamp => "a timestamp is no time of the calendar"@,
            QueryError::Encoding(why) => "the encoder refused: "@ + why@,
        }
    }
}

impl Error {
    /// The description of the failure that lies under this one; a failure
    /// that the data reports has none.
    pub fn cause(&self) -> (text: Option<String>)
        ensures
            match self {
                Error::HttpError(detail) => text matches Some(t) && t@ == detail@,
                Error::QueryConstruction(e) => text matches Some(t) && t@ == e.message_spec(),
                Error::ResponseParsing(e) => text matches Some(t) && t@ == e.message_spec(),
                Error::DataError(_) => text is None,
            },
    {
        match self {
            Error::HttpError(detail) => Some(detail.clone()),
            Error::QueryConstruction(e) => Some(e.message()),
            Error::ResponseParsing(e) => Some(e.message()),
            Error::DataError(_) => None,
        }
    }

    /// A one-line description for people.
    pub fn message(&self) -> (text: String)
        ensures
            text@ == self.message_spec(),
    {
        match self {
            Error::HttpError(detail) => String::from_str("HTTP error: ").concat(detail.as_str()),
            Error::QueryConstruction(_) => String::from_str("query construction error"),
            Error::ResponseParsing(_) => String::from_str("failed to parse the output"),
            Error::DataError(reason) => String::from_str("failed to obtain data: ").concat(
                reason.as_str(),
            ),
        }
    }

    pub open spec fn message_spec(self) -> Seq<char> {
        match self {
            Error::HttpError(detail) => "HTTP error: "@ + detail@,
            Error::QueryConstruction(_) => "query construction error"@,
            Error::ResponseParsing(_) => "failed to parse the output"@,
            Error::DataError(reason) => "failed to obtain data: "@ + reason@,
        }
    }
}

} // verus!
