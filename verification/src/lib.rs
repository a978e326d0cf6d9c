//! A typed client for the Twelve Data market-data REST API.
//!
//! Requests are turned into query strings, one HTTP GET is issued through a
//! transport supplied by the caller, and the JSON answer is classified and
//! decoded into typed values.

pub mod builders;
pub mod client;
pub mod codec;
pub mod decode;
pub mod errors;
pub mod fundamentals;
pub mod http_client;
pub mod json;
pub mod outside;
pub mod prices;
pub mod query;
pub mod timestamp;

pub use client::TwelveData;
pub use query::CommonQueryParameters;
pub use query::InstrumentType;
pub use query::Interval;
pub use query::Order;
pub use query::OutputFormat;
