//! The canonical model: what is priced, the hints of a request, and the
//! quote, profile and search shapes that every provider normalizes into.

use crate::decimal::Decimal;
use crate::time::Timestamp;
use vstd::prelude::*;

verus! {

/// The characters of an optional text.
pub open spec fn opt_text(text: Option<String>) -> Option<Seq<char>> {
    match text {
        Some(t) => Some(t@),
        None => None,
    }
}

/// The kinds of instrument a provider may serve.
#[derive(Clone, Copy, Debug, PartialEq, Eq, Structural)]
pub enum InstrumentKind {
    Equity,
    Crypto,
    Fx,
    Metal,
}

/// What is being priced, in the form a provider takes it.
#[derive(Clone, Debug, PartialEq, Eq)]
pub enum ProviderInstrument {
    EquitySymbol { symbol: String },
    CryptoSymbol { symbol: String },
    CryptoPair { symbol: String, market: String },
    FxSymbol { symbol: String },
    FxPair { from: String, to: String },
    MetalSymbol { symbol: String, quote: String },
}

impl ProviderInstrument {
    pub open spec fn kind_of(self) -> InstrumentKind {
        match self {
            ProviderInstrument::EquitySymbol { .. } => InstrumentKind::Equity,
            ProviderInstrument::CryptoSymbol { .. } | ProviderInstrument::CryptoPair { .. } => {
                InstrumentKind::Crypto
            },
            ProviderInstrument::FxSymbol { .. } | ProviderInstrument::FxPair { .. } => {
                InstrumentKind::Fx
            },
            ProviderInstrument::MetalSymbol { .. } => InstrumentKind::Metal,
        }
    }

    /// The currency an instrument other than an equity is quoted in, where
    /// the instrument names one.
    pub open spec fn quote_currency_of(self) -> Option<Seq<char>> {
        match self {
            ProviderInstrument::CryptoPair { market, .. } => Some(market@),
            ProviderInstrument::FxPair { to, .. } => Some(to@),
            ProviderInstrument::MetalSymbol { quote, .. } => Some(quote@),
            _ => None,
        }
    }

    pub fn kind(&self) -> (r: InstrumentKind)
        ensures
            r == self.kind_of(),
    {
        match self {
            ProviderInstrument::EquitySymbol { .. } => InstrumentKind::Equity,
            ProviderInstrument::CryptoSymbol { .. } | ProviderInstrument::CryptoPair { .. } => {
                InstrumentKind::Crypto
            },
            ProviderInstrument::FxSymbol { .. } | ProviderInstrument::FxPair { .. } => {
                InstrumentKind::Fx
            },
            ProviderInstrument::MetalSymbol { .. } => InstrumentKind::Metal,
        }
    }

    pub fn quote_currency(&self) -> (r: Option<&str>)
        ensures
            match r {
                Some(c) => self.quote_currency_of() == Some(c@),
                None => self.quote_currency_of() is None,
            },
    {
        match self {
            ProviderInstrument::CryptoPair { market, .. } => Some(market.as_str()),
            ProviderInstrument::FxPair { to, .. } => Some(to.as_str()),
            ProviderInstrument::MetalSymbol { quote, .. } => Some(quote.as_str()),
            _ => None,
        }
    }
}

/// The hints that come with a quote request. Providers only read them.
#[derive(Clone, Debug, PartialEq, Eq)]
pub struct QuoteContext {
    /// Market identifier code of the exchange the instrument is listed on.
    pub exchange_mic: Option<String>,
    /// The currency the caller expects quotes in.
    pub currency_hint: Option<String>,
}

impl QuoteContext {
    /// A context without hints.
    pub fn new() -> (r: QuoteContext)
        ensures
            r.exchange_mic is None,
            r.currency_hint is None,
    {
        QuoteContext { exchange_mic: None, currency_hint: None }
    }

    pub fn with_exchange_mic(self, mic: &str) -> (r: QuoteContext)
        ensures
            opt_text(r.exchange_mic) == Some(mic@),
            r.currency_hint == self.currency_hint,
    {
        QuoteContext { exchange_mic: Some(mic.to_owned()), currency_hint: self.currency_hint }
    }

    pub fn with_currency_hint(self, currency: &str) -> (r: QuoteContext)
        ensures
            opt_text(r.currency_hint) == Some(currency@),
            r.exchange_mic == self.exchange_mic,
    {
        QuoteContext { exchange_mic: self.exchange_mic, currency_hint: Some(currency.to_owned()) }
    }
}

/// A canonical price record. `close` is always present; every price is a
/// fixed-point decimal.
#[derive(Clone, Debug, PartialEq, Eq)]
pub struct Quote {
    pub timestamp: Timestamp,
    pub open: Option<Decimal>,
    pub high: Option<Decimal>,
    pub low: Option<Decimal>,
    pub close: Decimal,
    pub volume: Option<Decimal>,
    pub currency: String,
    pub source: String,
}

/// A `Quote` with its texts as sequences of characters.
pub struct QuoteView {
    pub timestamp: Timestamp,
    pub open: Option<Decimal>,
    pub high: Option<Decimal>,
    pub low: Option<Decimal>,
    pub close: Decimal,
    pub volume: Option<Decimal>,
    pub currency: Seq<char>,
    pub source: Seq<char>,
}

impl View for Quote {
    type V = QuoteView;

    open spec fn view(&self) -> QuoteView {
        QuoteView {
            timestamp: self.timestamp,
            open: self.open,
            high: self.high,
            low: self.low,
            close: self.close,
            volume: self.volume,
            currency: self.currency@,
            source: self.source@,
        }
    }
}

/// The views of a run of quotes, in order.
pub open spec fn quote_views(quotes: Seq<Quote>) -> Seq<QuoteView> {
    quotes.map_values(|q: Quote| q@)
}

/// Descriptive data about an asset. Only `name` is expected of every
/// provider: a profile without one says that there is no profile.
#[derive(Clone, Debug, PartialEq, Eq)]
pub struct AssetProfile {
    pub source: Option<String>,
    pub name: Option<String>,
    pub quote_type: Option<String>,
    pub sector: Option<String>,
    pub sectors: Option<String>,
    pub industry: Option<String>,
    pub website: Option<String>,
    pub description: Option<String>,
    pub country: Option<String>,
    pub employees: Option<u64>,
    pub logo_url: Option<String>,
    pub market_cap: Option<Decimal>,
    pub pe_ratio: Option<Decimal>,
    pub dividend_yield: Option<Decimal>,
    pub week_52_high: Option<Decimal>,
    pub week_52_low: Option<Decimal>,
}

/// An `AssetProfile` with its texts as sequences of characters.
pub struct AssetProfileView {
    pub source: Option<Seq<char>>,
    pub name: Option<Seq<char>>,
    pub quote_type: Option<Seq<char>>,
    pub sector: Option<Seq<char>>,
    pub sectors: Option<Seq<char>>,
    pub industry: Option<Seq<char>>,
    pub website: Option<Seq<char>>,
    pub description: Option<Seq<char>>,
    pub country: Option<Seq<char>>,
    pub employees: Option<u64>,
    pub logo_url: Option<Seq<char>>,
    pub market_cap: Option<Decimal>,
    pub pe_ratio: Option<Decimal>,
    pub dividend_yield: Option<Decimal>,
    pub week_52_high: Option<Decimal>,
    pub week_52_low: Option<Decimal>,
}

impl View for AssetProfile {
    type V = AssetProfileView;

    open spec fn view(&self) -> AssetProfileView {
        AssetProfileView {
            source: opt_text(self.source),
            name: opt_text(self.name),
            quote_type: opt_text(self.quote_type),
            sector: opt_text(self.sector),
            sectors: opt_text(self.sectors),
            industry: opt_text(self.industry),
            website: opt_text(self.website),
            description: opt_text(self.description),
            country: opt_text(self.country),
            employees: self.employees,
            logo_url: opt_text(self.logo_url),
            market_cap: self.market_cap,
            pe_ratio: self.pe_ratio,
            dividend_yield: self.dividend_yield,
            week_52_high: self.week_52_high,
            week_52_low: self.week_52_low,
        }
    }
}

/// One hit of a symbol search.
#[derive(Clone, Debug, PartialEq, Eq)]
pub struct SearchResult {
    pub symbol: String,
    pub name: String,
    pub exchange: String,
    pub asset_type: String,
    pub exchange_mic: Option<String>,
    pub exchange_name: Option<String>,
    pub currency: Option<String>,
    pub data_source: Option<String>,
}

/// A `SearchResult` with its texts as sequences of characters.
pub struct SearchResultView {
    pub symbol: Seq<char>,
    pub name: Seq<char>,
    pub exchange: Seq<char>,
    pub asset_type: Seq<char>,
    pub exchange_mic: Option<Seq<char>>,
    pub exchange_name: Option<Seq<char>>,
    pub currency: Option<Seq<char>>,
    pub data_source: Option<Seq<char>>,
}

impl View for SearchResult {
    type V = SearchResultView;

    open spec fn view(&self) -> SearchResultView {
        SearchResultView {
            symbol: self.symbol@,
            name: self.name@,
            exchange: self.exchange@,
            asset_type: self.asset_type@,
            exchange_mic: opt_text(self.exchange_mic),
            exchange_name: opt_text(self.exchange_name),
            currency: opt_text(self.currency),
            data_source: opt_text(self.data_source),
        }
    }
}

impl SearchResult {
    /// A hit with the four mandatory texts and no exchange metadata yet.
    pub fn new(symbol: &str, name: &str, exchange: &str, asset_type: &str) -> (r: SearchResult)
        ensures
            r@ == (SearchResultView {
                symbol: symbol@,
                name: name@,
                exchange: exchange@,
                asset_type: asset_type@,
                exchange_mic: None,
                exchange_name: None,
                currency: None,
                data_source: None,
            }),
    {
        SearchResult {
            symbol: symbol.to_owned(),
            name: name.to_owned(),
            exchange: exchange.to_owned(),
            asset_type: asset_type.to_owned(),
            exchange_mic: None,
            exchange_name: None,
            currency: None,
            data_source: None,
        }
    }

    pub fn with_exchange_mic(self, mic: &str) -> (r: SearchResult)
        ensures
            r@ == (SearchResultView { exchange_mic: Some(mic@), ..self@ }),
    {
        let mut r = self;
        r.exchange_mic = Some(mic.to_owned());
        r
    }

    pub fn with_exchange_name(self, name: &str) -> (r: SearchResult)
        ensures
            r@ == (SearchResultView { exchange_name: Some(name@), ..self@ }),
    {
        let mut r = self;
        r.exchange_name = Some(name.to_owned());
        r
    }

    pub fn with_currency(self, currency: &str) -> (r: SearchResult)
        ensures
            r@ == (SearchResultView { currency: Some(currency@), ..self@ }),
    {
        let mut r = self;
        r.currency = Some(currency.to_owned());
        r
    }

    pub fn with_data_source(self, source: &str) -> (r: SearchResult)
        ensures
            r@ == (SearchResultView { data_source: Some(source@), ..self@ }),
    {
        let mut r = self;
        r.data_source = Some(source.to_owned());
        r
    }
}

} // verus!
