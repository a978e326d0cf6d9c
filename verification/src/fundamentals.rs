//! The endpoints on a company's fundamentals.

use crate::decode::first_failure;
use crate::decode::first_failure_from;
use crate::decode::text_failure;
use crate::decode::text_field;
use crate::errors::DecodeError;
use crate::errors::DecodeFailure;
use crate::errors::Error;
use crate::json::Json;
use crate::outside::pairs_view;
use crate::query::encode_pairs;
use crate::query::encoded_agrees;
use crate::query::entry;
use crate::query::push_entry;
use vstd::prelude::*;

verus! {

/// The parameters of the `logo` endpoint. All four are required.
#[derive(Debug)]
pub struct LogoRequest {
    pub symbol: String,
    pub exchange: String,
    pub mic_code: String,
    pub country: String,
}

impl LogoRequest {
    /// The four pairs of the request, in the order of declaration.
    pub open spec fn pairs_spec(self) -> Seq<(Seq<char>, Seq<char>)> {
        Seq::empty() + entry("symbol"@, Some(self.symbol@)) + entry(
            "exchange"@,
            Some(self.exchange@),
        ) + entry("mic_code"@, Some(self.mic_code@)) + entry("country"@, Some(self.country@))
    }

    /// The four pairs of the request, in the order of declaration.
    pub fn query_pairs(&self) -> (out: Vec<(String, String)>)
        ensures
            pairs_view(out@) == self.pairs_spec(),
    {
        let mut out: Vec<(String, String)> = Vec::new();
        assert(pairs_view(out@) =~= Seq::empty());
        push_entry(&mut out, "symbol", Some(self.symbol.clone()));
        push_entry(&mut out, "exchange", Some(self.exchange.clone()));
        push_entry(&mut out, "mic_code", Some(self.mic_code.clone()));
        push_entry(&mut out, "country", Some(self.country.clone()));
        out
    }

    /// The request as a query string.
    pub fn encode(&self) -> (r: Result<String, Error>)
        ensures
            encoded_agrees(r, self.pairs_spec()),
    {
        let pairs = self.query_pairs();
        encode_pairs(&pairs)
    }
}

/// The answer of the `logo` endpoint.
#[derive(Debug)]
pub struct LogoResponse {
    pub url: String,
}

impl LogoResponse {
    /// Why the document does not hold such a value: what is wrong with the
    /// first member, in the order of declaration, that is missing or of
    /// another kind. `None` where nothing is wrong.
    pub open spec fn failure(doc: Json) -> Option<DecodeFailure> {
        first_failure(seq![
            text_failure(doc, "url"@),
        ])
    }

    /// The value holds, member by member, what the document says.
    pub open spec fn decodes(self, doc: Json) -> bool {
        &&& doc.text_member("url"@) == Some(self.url@)
    }

    /// The value that the document holds, or what is wrong with the first
    /// member that is missing or of another kind.
    pub fn from_json(doc: &Json) -> (r: Result<LogoResponse, DecodeError>)
        ensures
            match r {
                Ok(v) => Self::failure(*doc) is None && v.decodes(*doc),
                Err(e) => Self::failure(*doc) == Some(e@),
            },
    {
        proof {
            reveal_with_fuel(first_failure_from, 3);
        }
        let url = text_field(doc, "url")?;
        Ok(LogoResponse { url })
    }
}

} // verus!
