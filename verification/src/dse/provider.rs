//! Who the provider is and which requests it makes.

use crate::capabilities::{Coverage, ProviderCapabilities, RateLimit};
use crate::errors::{ErrorView, MarketDataError};
use crate::models::{InstrumentKind, ProviderInstrument, QuoteContext};
use crate::resolver::{resolve_currency, resolved_currency, ResolverChain};
use crate::router::ProviderEntry;
use crate::text::{join, percent_encode, percent_encoded, trim_trailing, without_trailing};
use crate::time::{format_instant, formatted_instant, Timestamp};
use vstd::prelude::*;
use vstd::string::StringSliceAdditionalSpecFns;

verus! {

/// Where the service listens unless told otherwise.
pub const DEFAULT_BASE_URL: &'static str = "http://localhost:9090";

/// The name that quotes, results and errors of this provider carry.
pub const PROVIDER_ID: &'static str = "DSE";

/// The currency of the exchange, used where nothing else names one.
pub const DEFAULT_CURRENCY: &'static str = "TZS";

/// The header that carries the API key.
pub const API_KEY_HEADER: &'static str = "X-API-Key";

/// The strftime pattern of the dates in requests and in daily bars.
pub const DATE_PATTERN: &'static str = "%Y-%m-%d";

/// What the provider declares of itself: equities only; the Dar es Salaam
/// exchange allowed by name, none denied, exchanges not named accepted; no
/// list of quote currencies; all four operations.
pub open spec fn declared(capabilities: ProviderCapabilities) -> bool {
    &&& capabilities.instrument_kinds@ == seq![InstrumentKind::Equity]
    &&& capabilities.coverage.equity_mic_allow matches Some(allow) && allow@.len() == 1
        && allow@[0]@ == "XDAR"@
    &&& capabilities.coverage.equity_mic_deny is None
    &&& capabilities.coverage.allow_unknown_mic
    &&& capabilities.coverage.metal_quote_ccy_allow is None
    &&& capabilities.supports_latest
    &&& capabilities.supports_historical
    &&& capabilities.supports_search
    &&& capabilities.supports_profile
}

/// The adapter's configuration: where the service is, and the key to
/// present to it.
#[derive(Debug)]
pub struct DseProvider {
    base_url: String,
    api_key: String,
}

impl DseProvider {
    /// The address of the service, without a slash at its end.
    pub closed spec fn address(self) -> Seq<char> {
        self.base_url@
    }

    /// The key presented to the service; empty where none is configured.
    pub closed spec fn key(self) -> Seq<char> {
        self.api_key@
    }

    /// A provider for the service at its default address.
    pub fn new(api_key: String) -> (r: DseProvider)
        ensures
            r.address() == without_trailing(DEFAULT_BASE_URL@, '/'),
            r.key() == api_key@,
    {
        DseProvider::with_base_url(api_key, DEFAULT_BASE_URL.to_owned())
    }

    /// A provider for the service at `base_url`; slashes at the end of the
    /// address are dropped.
    pub fn with_base_url(api_key: String, base_url: String) -> (r: DseProvider)
        ensures
            r.address() == without_trailing(base_url@, '/'),
            r.key() == api_key@,
    {
        DseProvider { base_url: trim_trailing(base_url.as_str(), '/'), api_key }
    }

    pub fn base_url(&self) -> (r: &str)
        ensures
            r@ == self.address(),
    {
        self.base_url.as_str()
    }

    pub fn api_key(&self) -> (r: &str)
        ensures
            r@ == self.key(),
    {
        self.api_key.as_str()
    }

    pub fn id(&self) -> (r: &'static str)
        ensures
            r@ == PROVIDER_ID@,
    {
        PROVIDER_ID
    }

    pub fn priority(&self) -> (r: u8)
        ensures
            r == 5,
    {
        5
    }

    /// Equities only, on the Dar es Salaam exchange and on exchanges not
    /// named, with all four operations.
    pub fn capabilities(&self) -> (r: ProviderCapabilities)
        ensures
            declared(r),
    {
        let mut kinds: Vec<InstrumentKind> = Vec::new();
        kinds.push(InstrumentKind::Equity);
        let mut allow: Vec<String> = Vec::new();
        allow.push("XDAR".to_owned());
        ProviderCapabilities {
            instrument_kinds: kinds,
            coverage: Coverage {
                equity_mic_allow: Some(allow),
                equity_mic_deny: None,
                allow_unknown_mic: true,
                metal_quote_ccy_allow: None,
            },
            supports_latest: true,
            supports_historical: true,
            supports_search: true,
            supports_profile: true,
        }
    }

    pub fn rate_limit(&self) -> (r: RateLimit)
        ensures
            r == (RateLimit { requests_per_minute: 120, max_concurrency: 5, min_delay_ms: 100 }),
    {
        RateLimit { requests_per_minute: 120, max_concurrency: 5, min_delay_ms: 100 }
    }

    /// What a router is told of the provider.
    pub fn entry(&self) -> (r: ProviderEntry)
        ensures
            r.id@ == PROVIDER_ID@,
            r.priority == 5,
            r.rate_limit == (RateLimit {
                requests_per_minute: 120,
                max_concurrency: 5,
                min_delay_ms: 100,
            }),
            declared(r.capabilities),
    {
        ProviderEntry {
            id: PROVIDER_ID.to_owned(),
            priority: self.priority(),
            capabilities: self.capabilities(),
            rate_limit: self.rate_limit(),
        }
    }

    /// The symbol of an equity; any other instrument is refused.
    pub fn extract_symbol(&self, instrument: &ProviderInstrument) -> (r: Result<
        String,
        MarketDataError,
    >)
        ensures
            match *instrument {
                ProviderInstrument::EquitySymbol { symbol } => r matches Ok(s) && s@ == symbol@,
                _ => r matches Err(e) && e@ == ErrorView::UnsupportedAssetType(
                    "DSE only supports equities"@,
                ),
            },
    {
        match instrument {
            ProviderInstrument::EquitySymbol { symbol } => Ok(symbol.clone()),
            _ => Err(MarketDataError::UnsupportedAssetType("DSE only supports equities".to_owned())),
        }
    }

    /// The currency to attribute to an answer that names none: what the
    /// resolver chain yields for this provider, else the hint of the request,
    /// else the shilling.
    pub fn get_currency(&self, chain: &ResolverChain, context: &QuoteContext) -> (r: String)
        ensures
            r@ == resolved_currency(*chain, PROVIDER_ID@, *context, DEFAULT_CURRENCY@),
    {
        resolve_currency(chain, PROVIDER_ID, context, DEFAULT_CURRENCY)
    }

    /// The header to send with every request: the API key, where one is
    /// configured.
    pub fn auth_header(&self) -> (r: Option<(&'static str, &str)>)
        ensures
            self.key().len() == 0 ==> r is None,
            self.key().len() > 0 ==> (r matches Some(h) && h.0@ == API_KEY_HEADER@ && h.1@
                == self.key()),
    {
        if self.api_key.as_str().is_empty() {
            None
        } else {
            Some((API_KEY_HEADER, self.api_key.as_str()))
        }
    }

    /// The address of a request: the address of the service, then the path.
    pub fn request_url(&self, path: &str) -> (r: String)
        ensures
            r@ == self.address() + path@,
    {
        join(self.base_url.as_str(), path)
    }
}

/// The path of the latest quote of a symbol.
pub open spec fn latest_quote_path_of(symbol: Seq<u8>) -> Seq<char> {
    "/api/v1/quotes/"@ + percent_encoded(symbol) + "/latest"@
}

/// The path of the daily bars of a symbol between two dates, given as text.
pub open spec fn history_path_of(symbol: Seq<u8>, start: Seq<char>, end: Seq<char>) -> Seq<char> {
    "/api/v1/quotes/"@ + percent_encoded(symbol) + "/history?start="@ + start + "&end="@ + end
}

/// The path of a symbol search.
pub open spec fn search_path_of(query: Seq<u8>) -> Seq<char> {
    "/api/v1/symbols/search?query="@ + percent_encoded(query)
}

/// The path of the profile of a symbol.
pub open spec fn profile_path_of(symbol: Seq<u8>) -> Seq<char> {
    "/api/v1/symbols/"@ + percent_encoded(symbol) + "/profile"@
}

pub fn latest_quote_path(symbol: &str) -> (r: String)
    ensures
        r@ == latest_quote_path_of(symbol.spec_bytes()),
{
    let encoded = percent_encode(symbol);
    let head = join("/api/v1/quotes/", encoded.as_str());
    join(head.as_str(), "/latest")
}

/// The path of the daily bars from the date of `start` to the date of `end`,
/// both dates in UTC. There is none where a date cannot be written.
pub fn history_path(symbol: &str, start: &Timestamp, end: &Timestamp) -> (r: Option<String>)
    ensures
        match (
            formatted_instant(start.secs as int, start.nanos as int, DATE_PATTERN@),
            formatted_instant(end.secs as int, end.nanos as int, DATE_PATTERN@),
        ) {
            (Some(from), Some(to)) => r matches Some(path) && path@ == history_path_of(
                symbol.spec_bytes(),
                from,
                to,
            ),
            _ => r is None,
        },
{
    let from = format_instant(start.secs, start.nanos, DATE_PATTERN);
    let to = format_instant(end.secs, end.nanos, DATE_PATTERN);
    match (from, to) {
        (Some(from), Some(to)) => Some(history_path_between(symbol, from.as_str(), to.as_str())),
        _ => None,
    }
}

/// The path of the daily bars between two dates that are already written.
pub fn history_path_between(symbol: &str, start: &str, end: &str) -> (r: String)
    ensures
        r@ == history_path_of(symbol.spec_bytes(), start@, end@),
{
    let encoded = percent_encode(symbol);
    let mut path = join("/api/v1/quotes/", encoded.as_str());
    path.append("/history?start=");
    path.append(start);
    path.append("&end=");
    path.append(end);
    path
}

pub fn search_path(query: &str) -> (r: String)
    ensures
        r@ == search_path_of(query.spec_bytes()),
{
    let encoded = percent_encode(query);
    join("/api/v1/symbols/search?query=", encoded.as_str())
}

pub fn profile_path(symbol: &str) -> (r: String)
    ensures
        r@ == profile_path_of(symbol.spec_bytes()),
{
    let encoded = percent_encode(symbol);
    let head = join("/api/v1/symbols/", encoded.as_str());
    join(head.as_str(), "/profile")
}

} // verus!
