//! The transport: whatever can perform one GET.

use crate::errors::Error;
use vstd::prelude::*;

verus! {

/// What a transport hands back: the status code and the body as text.
#[derive(Debug)]
pub struct Response {
    pub status: u16,
    pub body: String,
}

/// One GET of `url` with the credential `api_key`, sent as a header or as a
/// parameter of the query. A failure of the connection is reported as
/// `Error::HttpError`. Nothing is promised of the answer.
pub trait HttpClient {
    fn get(&self, url: &str, api_key: &str) -> Result<Response, Error>;
}

} // verus!
