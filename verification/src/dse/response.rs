//! The payloads of the service, as decoded from JSON. Every field that the
//! service may leave out is optional.

use crate::decimal::RawNumber;
use vstd::prelude::*;

verus! {

/// The payload of the latest-quote endpoint.
#[derive(Clone, Debug, PartialEq, Eq)]
pub struct LatestQuoteResponse {
    pub symbol: Option<String>,
    pub close: RawNumber,
    pub open: Option<RawNumber>,
    pub high: Option<RawNumber>,
    pub low: Option<RawNumber>,
    pub volume: Option<RawNumber>,
    pub currency: Option<String>,
    pub timestamp: Option<String>,
}

/// The payload of the history endpoint.
#[derive(Clone, Debug, PartialEq, Eq)]
pub struct HistoricalResponse {
    pub symbol: Option<String>,
    pub quotes: Vec<HistoricalQuote>,
    pub currency: Option<String>,
}

/// One daily bar of the history endpoint.
#[derive(Clone, Debug, PartialEq, Eq)]
pub struct HistoricalQuote {
    pub date: String,
    pub open: Option<RawNumber>,
    pub high: Option<RawNumber>,
    pub low: Option<RawNumber>,
    pub close: RawNumber,
    pub volume: Option<RawNumber>,
}

/// The payload of the search endpoint.
#[derive(Clone, Debug, PartialEq, Eq)]
pub struct SearchResponse {
    pub results: Vec<SearchItem>,
}

/// One hit of the search endpoint. A hit that names no type is an equity:
/// see `default_equity`.
#[derive(Clone, Debug, PartialEq, Eq)]
pub struct SearchItem {
    pub symbol: String,
    pub name: String,
    pub asset_type: String,
    pub currency: Option<String>,
}

/// The payload of the profile endpoint.
#[derive(Clone, Debug, PartialEq, Eq)]
pub struct ProfileResponse {
    pub name: Option<String>,
    pub sector: Option<String>,
    pub industry: Option<String>,
    pub country: Option<String>,
    pub description: Option<String>,
    pub website: Option<String>,
    pub market_cap: Option<RawNumber>,
    pub employees: Option<u64>,
    pub logo_url: Option<String>,
}

/// The payload that the service sends with an error status, where it sends
/// one: its `error` or `message` text.
#[derive(Clone, Debug, PartialEq, Eq)]
pub struct ErrorResponse {
    pub error: Option<String>,
}

/// The asset type of a search hit that names none.
pub fn default_equity() -> (r: String)
    ensures
        r@ == "EQUITY"@,
{
    "EQUITY".to_owned()
}

} // verus!
