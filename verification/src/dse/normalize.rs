//! From the payloads of the service to canonical values.
//!
//! Each payload arrives decoded, or as the decoder's complaint. A payload
//! that could not be decoded is a provider error; one that could is held to
//! the rules below.

use crate::chronology::{arranged, sort_chronologically};
use crate::decimal::{decimal_or_absent, fixed_or_absent, RawNumber};
use crate::dse::provider::DATE_PATTERN;
use crate::dse::response::{
    HistoricalQuote,
    HistoricalResponse,
    LatestQuoteResponse,
    ProfileResponse,
    SearchItem,
    SearchResponse,
};
use crate::dse::transport::provider_error;
use crate::errors::{ErrorView, MarketDataError};
use crate::models::{
    opt_text,
    quote_views,
    AssetProfile,
    AssetProfileView,
    Quote,
    QuoteView,
    SearchResult,
    SearchResultView,
};
use crate::text::{join, same_text, trim_whitespace, trimmed};
use crate::time::{
    calendar_day,
    current_time,
    parse_calendar_day,
    parse_rfc3339,
    rfc3339_instant,
    Timestamp,
};
use vstd::prelude::*;

verus! {

/// The time of day given to a daily bar: 14:00 UTC, in seconds.
pub const BAR_SECONDS: u32 = 50_400;

/// The error for a payload that could not be decoded; `what` names the
/// payload and `detail` is the decoder's complaint.
pub open spec fn undecodable(what: Seq<char>, detail: Seq<char>) -> ErrorView {
    provider_error("Failed to parse "@ + what + " response: "@ + detail)
}

fn decode_failure(what: &str, detail: &str) -> (r: MarketDataError)
    ensures
        r@ == undecodable(what@, detail@),
{
    let mut message = join("Failed to parse ", what);
    message.append(" response: ");
    message.append(detail);
    MarketDataError::ProviderError { provider: "DSE".to_owned(), message }
}

/// The currency that a payload names, else the one resolved for the request.
pub open spec fn stated_or(stated: Option<String>, resolved: Seq<char>) -> Seq<char> {
    match stated {
        Some(currency) => currency@,
        None => resolved,
    }
}

fn currency_of(stated: &Option<String>, resolved: &str) -> (r: String)
    ensures
        r@ == stated_or(*stated, resolved@),
{
    match stated {
        Some(currency) => currency.clone(),
        None => resolved.to_owned(),
    }
}

/// The view of a quote or of the error in its place.
pub open spec fn quote_outcome(result: Result<Quote, MarketDataError>) -> Result<
    QuoteView,
    ErrorView,
> {
    match result {
        Ok(quote) => Ok(quote@),
        Err(error) => Err(error@),
    }
}

/// The instant that a latest-quote payload states, where it states one that
/// can be read.
pub open spec fn stated_instant(timestamp: Option<String>) -> Option<Timestamp> {
    match timestamp {
        Some(text) => rfc3339_instant(text@),
        None => None,
    }
}

/// The canonical quote of a latest-quote payload, stamped `stamp`.
///
/// A close of exactly zero says that there is no quote. A close without a
/// fixed-point form fails the payload; any other number without one is left
/// out. The currency is the payload's own, else the resolved one.
pub open spec fn latest_quote_of(
    payload: LatestQuoteResponse,
    symbol: Seq<char>,
    currency: Seq<char>,
    stamp: Timestamp,
) -> Result<QuoteView, ErrorView> {
    match payload.close {
        RawNumber::Zero => Err(ErrorView::SymbolNotFound("No quote data for symbol: "@ + symbol)),
        RawNumber::Unrepresentable(text) => Err(
            ErrorView::ValidationFailed { message: "Invalid close price: "@ + text@ },
        ),
        RawNumber::Fixed(close) => Ok(
            QuoteView {
                timestamp: stamp,
                open: fixed_or_absent(payload.open),
                high: fixed_or_absent(payload.high),
                low: fixed_or_absent(payload.low),
                close,
                volume: fixed_or_absent(payload.volume),
                currency: stated_or(payload.currency, currency),
                source: "DSE"@,
            },
        ),
    }
}

/// Turns a latest-quote payload into a quote stamped `stamp`.
pub fn quote_from_latest(
    payload: &LatestQuoteResponse,
    symbol: &str,
    currency: &str,
    stamp: Timestamp,
) -> (r: Result<Quote, MarketDataError>)
    ensures
        quote_outcome(r) == latest_quote_of(*payload, symbol@, currency@, stamp),
{
    match &payload.close {
        RawNumber::Zero => Err(
            MarketDataError::SymbolNotFound(join("No quote data for symbol: ", symbol)),
        ),
        RawNumber::Unrepresentable(text) => Err(
            MarketDataError::ValidationFailed {
                message: join("Invalid close price: ", text.as_str()),
            },
        ),
        RawNumber::Fixed(close) => Ok(
            Quote {
                timestamp: stamp,
                open: decimal_or_absent(&payload.open),
                high: decimal_or_absent(&payload.high),
                low: decimal_or_absent(&payload.low),
                close: *close,
                volume: decimal_or_absent(&payload.volume),
                currency: currency_of(&payload.currency, currency),
                source: "DSE".to_owned(),
            },
        ),
    }
}

/// Reads the answer of the latest-quote endpoint. The quote is stamped with
/// the instant that the payload states; where it states none that can be
/// read, with the time of the reading.
pub fn parse_latest_quote(
    decoded: Result<LatestQuoteResponse, String>,
    symbol: &str,
    currency: &str,
) -> (r: Result<Quote, MarketDataError>)
    ensures
        match decoded {
            Err(detail) => quote_outcome(r) == Err::<QuoteView, ErrorView>(
                undecodable("quote"@, detail@),
            ),
            Ok(payload) => exists|stamp: Timestamp|
                {
                    &&& stated_instant(payload.timestamp) matches Some(stated) ==> stamp == stated
                    &&& quote_outcome(r) == #[trigger] latest_quote_of(
                        payload,
                        symbol@,
                        currency@,
                        stamp,
                    )
                },
        },
{
    match decoded {
        Err(detail) => Err(decode_failure("quote", detail.as_str())),
        Ok(payload) => {
            let stated = match &payload.timestamp {
                Some(text) => parse_rfc3339(text.as_str()),
                None => None,
            };
            let stamp = match stated {
                Some(instant) => instant,
                None => current_time(),
            };
            quote_from_latest(&payload, symbol, currency, stamp)
        },
    }
}

/// The canonical quote of one daily bar whose date is day `day`: `None`
/// where the date could not be read or the close has no fixed-point form.
pub open spec fn bar_of(row: HistoricalQuote, day: Option<i32>, currency: Seq<char>) -> Option<
    QuoteView,
> {
    match (day, row.close.fixed()) {
        (Some(d), Some(close)) => Some(
            QuoteView {
                timestamp: Timestamp::on_day(d as int, BAR_SECONDS as int),
                open: fixed_or_absent(row.open),
                high: fixed_or_absent(row.high),
                low: fixed_or_absent(row.low),
                close,
                volume: fixed_or_absent(row.volume),
                currency,
                source: "DSE"@,
            },
        ),
        _ => None,
    }
}

/// The day that the date of a daily bar names, where it can be read.
pub open spec fn row_day(row: HistoricalQuote) -> Option<i32> {
    calendar_day(row.date@, DATE_PATTERN@)
}

/// A row is malformed: its date cannot be read or its close has no
/// fixed-point form.
pub open spec fn malformed(row: HistoricalQuote) -> bool {
    row_day(row) is None || row.close.fixed() is None
}

/// The canonical quotes of the rows that are not malformed, in the order of
/// the rows.
pub open spec fn bars_of(rows: Seq<HistoricalQuote>, currency: Seq<char>) -> Seq<QuoteView>
    decreases rows.len(),
{
    if rows.len() == 0 {
        Seq::empty()
    } else {
        let front = bars_of(rows.drop_last(), currency);
        match bar_of(rows.last(), row_day(rows.last()), currency) {
            Some(bar) => front.push(bar),
            None => front,
        }
    }
}

/// How many rows are malformed.
pub open spec fn malformed_count(rows: Seq<HistoricalQuote>) -> nat
    decreases rows.len(),
{
    if rows.len() == 0 {
        0
    } else if malformed(rows.last()) {
        malformed_count(rows.drop_last()) + 1
    } else {
        malformed_count(rows.drop_last())
    }
}

/// The view of an optional quote.
pub open spec fn opt_quote(quote: Option<Quote>) -> Option<QuoteView> {
    match quote {
        Some(q) => Some(q@),
        None => None,
    }
}

/// Turns one daily bar into a quote at 14:00 UTC of day `day`.
pub fn bar_from_row(row: &HistoricalQuote, day: Option<i32>, currency: &str) -> (r: Option<Quote>)
    ensures
        opt_quote(r) == bar_of(*row, day, currency@),
{
    match (day, row.close.to_decimal()) {
        (Some(d), Some(close)) => Some(
            Quote {
                timestamp: Timestamp::at_day(d, BAR_SECONDS),
                open: decimal_or_absent(&row.open),
                high: decimal_or_absent(&row.high),
                low: decimal_or_absent(&row.low),
                close,
                volume: decimal_or_absent(&row.volume),
                currency: currency.to_owned(),
                source: "DSE".to_owned(),
            },
        ),
        _ => None,
    }
}

/// The view of a run of quotes or of the error in its place.
pub open spec fn quotes_outcome(result: Result<Vec<Quote>, MarketDataError>) -> Result<
    Seq<QuoteView>,
    ErrorView,
> {
    match result {
        Ok(quotes) => Ok(quote_views(quotes@)),
        Err(error) => Err(error@),
    }
}

/// Reads the answer of the history endpoint. A payload without rows is an
/// empty range. Malformed rows are left out, the others come back in
/// chronological order; none may be left.
pub fn parse_historical_quotes(decoded: Result<HistoricalResponse, String>, currency: &str) -> (r:
    Result<Vec<Quote>, MarketDataError>)
    ensures
        match decoded {
            Err(detail) => quotes_outcome(r) == Err::<Seq<QuoteView>, ErrorView>(
                undecodable("historical"@, detail@),
            ),
            Ok(payload) => if payload.quotes@.len() == 0 {
                quotes_outcome(r) == Err::<Seq<QuoteView>, ErrorView>(ErrorView::NoDataForRange)
            } else {
                r matches Ok(quotes) && arranged(
                    quote_views(quotes@),
                    bars_of(payload.quotes@, stated_or(payload.currency, currency@)),
                )
            },
        },
{
    match decoded {
        Err(detail) => Err(decode_failure("historical", detail.as_str())),
        Ok(payload) => {
            if payload.quotes.len() == 0 {
                return Err(MarketDataError::NoDataForRange);
            }
            let resolved = currency_of(&payload.currency, currency);
            let mut bars: Vec<Quote> = Vec::new();
            let mut i: usize = 0;
            while i < payload.quotes.len()
                invariant
                    i <= payload.quotes.len(),
                    quote_views(bars@) == bars_of(payload.quotes@.take(i as int), resolved@),
                decreases payload.quotes.len() - i,
            {
                let row = &payload.quotes[i];
                let day = parse_calendar_day(row.date.as_str(), DATE_PATTERN);
                let ghost before = quote_views(bars@);
                proof {
                    let next = payload.quotes@.take(i + 1);
                    assert(next.drop_last() =~= payload.quotes@.take(i as int));
                    assert(next.last() == *row);
                }
                match bar_from_row(row, day, resolved.as_str()) {
                    Some(bar) => {
                        bars.push(bar);
                        assert(quote_views(bars@) =~= before.push(bar@));
                    },
                    None => {},
                }
                i += 1;
            }
            proof {
                assert(payload.quotes@.take(payload.quotes.len() as int) =~= payload.quotes@);
            }
            Ok(sort_chronologically(bars))
        },
    }
}

/// The quotes of a range, which must hold at least one.
pub fn require_quotes(quotes: Vec<Quote>) -> (r: Result<Vec<Quote>, MarketDataError>)
    ensures
        quotes@.len() > 0 ==> r == Ok::<Vec<Quote>, MarketDataError>(quotes),
        quotes@.len() == 0 ==> (r matches Err(e) && e@ == ErrorView::NoDataForRange),
{
    if quotes.len() == 0 {
        Err(MarketDataError::NoDataForRange)
    } else {
        Ok(quotes)
    }
}

/// The historical quotes of a range: the rows of the payload that are not
/// malformed, in chronological order. With every row malformed, or without
/// rows, the range is empty.
pub fn historical_quotes(decoded: Result<HistoricalResponse, String>, currency: &str) -> (r: Result<
    Vec<Quote>,
    MarketDataError,
>)
    ensures
        match decoded {
            Err(detail) => quotes_outcome(r) == Err::<Seq<QuoteView>, ErrorView>(
                undecodable("historical"@, detail@),
            ),
            Ok(payload) => {
                let bars = bars_of(payload.quotes@, stated_or(payload.currency, currency@));
                if bars.len() == 0 {
                    quotes_outcome(r) == Err::<Seq<QuoteView>, ErrorView>(
                        ErrorView::NoDataForRange,
                    )
                } else {
                    &&& r matches Ok(quotes)
                    &&& arranged(quote_views(quotes@), bars)
                    &&& quotes@.len() == payload.quotes@.len() - malformed_count(payload.quotes@)
                }
            },
        },
{
    proof {
        if decoded is Ok {
            let payload = decoded->Ok_0;
            law_malformed_rows_left_out(payload.quotes@, stated_or(payload.currency, currency@));
        }
    }
    match parse_historical_quotes(decoded, currency) {
        Ok(quotes) => require_quotes(quotes),
        Err(error) => Err(error),
    }
}

/// Of `N` rows of which `M` are malformed, `N - M` become quotes.
pub proof fn law_malformed_rows_left_out(rows: Seq<HistoricalQuote>, currency: Seq<char>)
    ensures
        malformed_count(rows) <= rows.len(),
        bars_of(rows, currency).len() == rows.len() - malformed_count(rows),
    decreases rows.len(),
{
    if rows.len() > 0 {
        law_malformed_rows_left_out(rows.drop_last(), currency);
    }
}

/// The view of a profile or of the error in its place.
pub open spec fn profile_outcome(result: Result<AssetProfile, MarketDataError>) -> Result<
    AssetProfileView,
    ErrorView,
> {
    match result {
        Ok(profile) => Ok(profile@),
        Err(error) => Err(error@),
    }
}

/// The canonical profile of a profile payload. A payload without a name says
/// that the symbol is unknown. The market capitalisation is left out where
/// it has no fixed-point form.
pub open spec fn profile_of(payload: ProfileResponse, symbol: Seq<char>) -> Result<
    AssetProfileView,
    ErrorView,
> {
    if payload.name is None {
        Err(ErrorView::SymbolNotFound("No profile data for symbol: "@ + symbol))
    } else {
        Ok(
            AssetProfileView {
                source: Some("DSE"@),
                name: opt_text(payload.name),
                quote_type: Some("EQUITY"@),
                sector: opt_text(payload.sector),
                sectors: None,
                industry: opt_text(payload.industry),
                website: opt_text(payload.website),
                description: opt_text(payload.description),
                country: opt_text(payload.country),
                employees: payload.employees,
                logo_url: opt_text(payload.logo_url),
                market_cap: fixed_or_absent(payload.market_cap),
                pe_ratio: None,
                dividend_yield: None,
                week_52_high: None,
                week_52_low: None,
            },
        )
    }
}

/// Reads the answer of the profile endpoint.
pub fn parse_asset_profile(decoded: Result<ProfileResponse, String>, symbol: &str) -> (r: Result<
    AssetProfile,
    MarketDataError,
>)
    ensures
        match decoded {
            Err(detail) => profile_outcome(r) == Err::<AssetProfileView, ErrorView>(
                undecodable("profile"@, detail@),
            ),
            Ok(payload) => profile_outcome(r) == profile_of(payload, symbol@),
        },
{
    match decoded {
        Err(detail) => Err(decode_failure("profile", detail.as_str())),
        Ok(payload) => {
            if payload.name.is_none() {
                return Err(
                    MarketDataError::SymbolNotFound(join("No profile data for symbol: ", symbol)),
                );
            }
            let market_cap = decimal_or_absent(&payload.market_cap);
            Ok(
                AssetProfile {
                    source: Some("DSE".to_owned()),
                    name: payload.name,
                    quote_type: Some("EQUITY".to_owned()),
                    sector: payload.sector,
                    sectors: None,
                    industry: payload.industry,
                    website: payload.website,
                    description: payload.description,
                    country: payload.country,
                    employees: payload.employees,
                    logo_url: payload.logo_url,
                    market_cap,
                    pe_ratio: None,
                    dividend_yield: None,
                    week_52_high: None,
                    week_52_low: None,
                },
            )
        },
    }
}

/// The body of a reply is an empty JSON object, give or take the white
/// space around it.
pub open spec fn empty_object(body: Seq<char>) -> bool {
    trimmed(body) == "{}"@
}

pub fn is_empty_object(body: &str) -> (r: bool)
    ensures
        r == empty_object(body@),
{
    let inner = trim_whitespace(body);
    same_text(inner.as_str(), "{}")
}

/// Reads the answer of the profile endpoint from its body and from what the
/// decoder made of it. An empty object says that the symbol is unknown,
/// whatever the decoder made of it.
pub fn profile_from_body(body: &str, decoded: Result<ProfileResponse, String>, symbol: &str) -> (r:
    Result<AssetProfile, MarketDataError>)
    ensures
        if empty_object(body@) {
            profile_outcome(r) == Err::<AssetProfileView, ErrorView>(
                ErrorView::SymbolNotFound("No profile data for symbol: "@ + symbol@),
            )
        } else {
            match decoded {
                Err(detail) => profile_outcome(r) == Err::<AssetProfileView, ErrorView>(
                    undecodable("profile"@, detail@),
                ),
                Ok(payload) => profile_outcome(r) == profile_of(payload, symbol@),
            }
        },
{
    if is_empty_object(body) {
        Err(MarketDataError::SymbolNotFound(join("No profile data for symbol: ", symbol)))
    } else {
        parse_asset_profile(decoded, symbol)
    }
}

/// The canonical hit of one search hit: the exchange is Dar es Salaam, the
/// currency the hit's own or else the shilling.
pub open spec fn search_hit_of(item: SearchItem) -> SearchResultView {
    SearchResultView {
        symbol: item.symbol@,
        name: item.name@,
        exchange: "DSE"@,
        asset_type: item.asset_type@,
        exchange_mic: Some("XDAR"@),
        exchange_name: Some("Dar es Salaam Stock Exchange"@),
        currency: Some(stated_or(item.currency, "TZS"@)),
        data_source: Some("DSE"@),
    }
}

pub fn search_hit(item: &SearchItem) -> (r: SearchResult)
    ensures
        r@ == search_hit_of(*item),
{
    let currency = currency_of(&item.currency, "TZS");
    SearchResult::new(
        item.symbol.as_str(),
        item.name.as_str(),
        "DSE",
        item.asset_type.as_str(),
    ).with_exchange_mic("XDAR").with_exchange_name("Dar es Salaam Stock Exchange").with_currency(
        currency.as_str(),
    ).with_data_source("DSE")
}

/// Reads the answer of the search endpoint: one canonical hit for each hit
/// of the payload, in the same order.
pub fn parse_search_results(decoded: Result<SearchResponse, String>) -> (r: Result<
    Vec<SearchResult>,
    MarketDataError,
>)
    ensures
        match decoded {
            Err(detail) => r matches Err(e) && e@ == undecodable("search"@, detail@),
            Ok(payload) => r matches Ok(hits) && hits@.len() == payload.results@.len()
                && forall|i: int|
                0 <= i < hits@.len() ==> (#[trigger] hits@[i])@ == search_hit_of(
                    payload.results@[i],
                ),
        },
{
    match decoded {
        Err(detail) => Err(decode_failure("search", detail.as_str())),
        Ok(payload) => {
            let mut hits: Vec<SearchResult> = Vec::new();
            let mut i: usize = 0;
            while i < payload.results.len()
                invariant
                    i <= payload.results.len(),
                    hits@.len() == i,
                    forall|k: int|
                        0 <= k < i ==> (#[trigger] hits@[k])@ == search_hit_of(payload.results@[k]),
                decreases payload.results.len() - i,
            {
                hits.push(search_hit(&payload.results[i]));
                i += 1;
            }
            Ok(hits)
        },
    }
}

/// A close of exactly zero in a latest-quote payload is never a quote: the
/// answer is that the symbol has no data.
pub proof fn law_zero_close_is_no_quote(
    payload: LatestQuoteResponse,
    symbol: Seq<char>,
    currency: Seq<char>,
    stamp: Timestamp,
)
    requires
        payload.close is Zero,
    ensures
        latest_quote_of(payload, symbol, currency, stamp) == Err::<QuoteView, ErrorView>(
            ErrorView::SymbolNotFound("No quote data for symbol: "@ + symbol),
        ),
{
}

/// A latest-quote payload yields a quote only for a close that is not zero,
/// and the quote's close is the fixed-point form of the payload's. It is
/// zero only where that form is: for a close too small to show in it.
pub proof fn law_quote_carries_close(
    payload: LatestQuoteResponse,
    symbol: Seq<char>,
    currency: Seq<char>,
    stamp: Timestamp,
)
    ensures
        latest_quote_of(payload, symbol, currency, stamp) matches Ok(quote) ==> (payload.close
            matches RawNumber::Fixed(close) && quote.close == close),
{
}

} // verus!
