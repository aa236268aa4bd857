use market_data::decimal::{Decimal, RawNumber};
use market_data::dse::normalize::{
    bar_from_row, historical_quotes, parse_asset_profile, parse_latest_quote,
    parse_search_results, quote_from_latest,
};
use market_data::dse::provider::{
    history_path, history_path_between, latest_quote_path, profile_path, search_path, DseProvider,
};
use market_data::dse::response::{
    default_equity, HistoricalQuote, HistoricalResponse, LatestQuoteResponse, ProfileResponse,
    SearchItem, SearchResponse,
};
use market_data::errors::MarketDataError;
use market_data::models::{InstrumentKind, ProviderInstrument, QuoteContext};
use market_data::resolver::{CurrencyRule, ResolverChain};
use market_data::time::Timestamp;
use serde_json::Value;

fn number(v: f64) -> RawNumber {
    if v == 0.0 {
        return RawNumber::Zero;
    }
    match rust_decimal::Decimal::try_from(v) {
        Ok(d) => RawNumber::Fixed(Decimal::try_new(d.mantissa(), d.scale()).unwrap()),
        Err(_) => RawNumber::Unrepresentable(v.to_string()),
    }
}

fn exact(d: &Decimal) -> rust_decimal::Decimal {
    rust_decimal::Decimal::from_i128_with_scale(d.mantissa(), d.scale())
}

fn whole(n: i64) -> rust_decimal::Decimal {
    rust_decimal::Decimal::new(n, 0)
}

fn opt_number(v: Option<&Value>) -> Option<RawNumber> {
    v.and_then(|n| n.as_f64()).map(number)
}

fn opt_string(v: Option<&Value>) -> Option<String> {
    v.and_then(|s| s.as_str()).map(|s| s.to_string())
}

fn decode_latest(json: &str) -> Result<LatestQuoteResponse, String> {
    let v: Value = serde_json::from_str(json).map_err(|e| e.to_string())?;
    let close = v.get("close").and_then(|n| n.as_f64()).ok_or("missing field `close`")?;
    Ok(LatestQuoteResponse {
        symbol: opt_string(v.get("symbol")),
        close: number(close),
        open: opt_number(v.get("open")),
        high: opt_number(v.get("high")),
        low: opt_number(v.get("low")),
        volume: opt_number(v.get("volume")),
        currency: opt_string(v.get("currency")),
        timestamp: opt_string(v.get("timestamp")),
    })
}

fn decode_history(json: &str) -> Result<HistoricalResponse, String> {
    let v: Value = serde_json::from_str(json).map_err(|e| e.to_string())?;
    let rows = v.get("quotes").and_then(|q| q.as_array()).ok_or("missing field `quotes`")?;
    let mut quotes = Vec::new();
    for row in rows {
        quotes.push(HistoricalQuote {
            date: opt_string(row.get("date")).ok_or("missing field `date`")?,
            open: opt_number(row.get("open")),
            high: opt_number(row.get("high")),
            low: opt_number(row.get("low")),
            close: number(row.get("close").and_then(|n| n.as_f64()).ok_or("missing field `close`")?),
            volume: opt_number(row.get("volume")),
        });
    }
    Ok(HistoricalResponse {
        symbol: opt_string(v.get("symbol")),
        quotes,
        currency: opt_string(v.get("currency")),
    })
}

fn decode_search(json: &str) -> Result<SearchResponse, String> {
    let v: Value = serde_json::from_str(json).map_err(|e| e.to_string())?;
    let rows = v.get("results").and_then(|q| q.as_array()).ok_or("missing field `results`")?;
    let mut results = Vec::new();
    for row in rows {
        results.push(SearchItem {
            symbol: opt_string(row.get("symbol")).ok_or("missing field `symbol`")?,
            name: opt_string(row.get("name")).ok_or("missing field `name`")?,
            asset_type: opt_string(row.get("type")).unwrap_or_else(default_equity),
            currency: opt_string(row.get("currency")),
        });
    }
    Ok(SearchResponse { results })
}

fn decode_profile(json: &str) -> Result<ProfileResponse, String> {
    let v: Value = serde_json::from_str(json).map_err(|e| e.to_string())?;
    Ok(ProfileResponse {
        name: opt_string(v.get("name")),
        sector: opt_string(v.get("sector")),
        industry: opt_string(v.get("industry")),
        country: opt_string(v.get("country")),
        description: opt_string(v.get("description")),
        website: opt_string(v.get("website")),
        market_cap: opt_number(v.get("market_cap")),
        employees: v.get("employees").and_then(|n| n.as_u64()),
        logo_url: opt_string(v.get("logo_url")),
    })
}

#[test]
fn test_provider_id() {
    let provider = DseProvider::new("test-key".to_string());
    assert_eq!(provider.id(), "DSE");
}

#[test]
fn test_provider_priority() {
    let provider = DseProvider::new("test-key".to_string());
    assert_eq!(provider.priority(), 5);
}

#[test]
fn test_capabilities() {
    let provider = DseProvider::new("test-key".to_string());
    let caps = provider.capabilities();
    assert!(caps.supports_latest);
    assert!(caps.supports_historical);
    assert!(caps.supports_search);
    assert!(caps.supports_profile);
    assert_eq!(caps.instrument_kinds, vec![InstrumentKind::Equity]);
}

#[test]
fn test_extract_symbol_equity() {
    let provider = DseProvider::new("test-key".to_string());
    let instrument = ProviderInstrument::EquitySymbol { symbol: "TCC".into() };
    assert_eq!(provider.extract_symbol(&instrument).unwrap(), "TCC");
}

#[test]
fn test_extract_symbol_unsupported() {
    let provider = DseProvider::new("test-key".to_string());
    let instrument = ProviderInstrument::FxPair { from: "USD".into(), to: "TZS".into() };
    assert!(provider.extract_symbol(&instrument).is_err());
}

#[test]
fn test_parse_latest_quote_response() {
    let json = r#"{
            "symbol": "TCC",
            "close": 3200.0,
            "open": 3150.0,
            "high": 3250.0,
            "low": 3100.0,
            "volume": 15000,
            "currency": "TZS",
            "timestamp": "2026-02-10T14:00:00Z"
        }"#;

    let resp = decode_latest(json).unwrap();
    assert_eq!(exact(&resp.close.to_decimal().unwrap()), whole(3200));
    assert_eq!(resp.open.as_ref().map(|n| exact(&n.to_decimal().unwrap())), Some(whole(3150)));
    assert_eq!(resp.currency, Some("TZS".to_string()));

    let quote = parse_latest_quote(Ok(resp), "TCC", "USD").unwrap();
    assert_eq!(exact(&quote.close), whole(3200));
    assert_eq!(quote.open.map(|d| exact(&d)), Some(whole(3150)));
    assert_eq!(quote.high.map(|d| exact(&d)), Some(whole(3250)));
    assert_eq!(quote.low.map(|d| exact(&d)), Some(whole(3100)));
    assert_eq!(quote.volume.map(|d| exact(&d)), Some(whole(15000)));
    assert_eq!(quote.currency, "TZS");
    assert_eq!(quote.source, "DSE");
    assert_eq!(quote.timestamp, Timestamp { secs: 1770732000, nanos: 0 });
}

#[test]
fn test_parse_historical_response() {
    let json = r#"{
            "symbol": "TCC",
            "quotes": [
                { "date": "2025-01-02", "open": 3000, "high": 3050, "low": 2980, "close": 3020, "volume": 12000 },
                { "date": "2025-01-03", "close": 3040 }
            ],
            "currency": "TZS"
        }"#;

    let resp = decode_history(json).unwrap();
    assert_eq!(resp.quotes.len(), 2);
    assert_eq!(exact(&resp.quotes[0].close.to_decimal().unwrap()), whole(3020));
    assert!(resp.quotes[1].open.is_none());

    let quotes = historical_quotes(Ok(resp), "USD").unwrap();
    assert_eq!(quotes.len(), 2);
    assert_eq!(quotes[0].timestamp, Timestamp { secs: 1735826400, nanos: 0 });
    assert_eq!(quotes[1].timestamp, Timestamp { secs: 1735912800, nanos: 0 });
    assert_eq!(exact(&quotes[0].close), whole(3020));
    assert_eq!(exact(&quotes[1].close), whole(3040));
    assert_eq!(quotes[0].open.map(|d| exact(&d)), Some(whole(3000)));
    assert!(quotes[1].open.is_none());
    assert_eq!(quotes[0].currency, "TZS");
    assert_eq!(quotes[1].source, "DSE");
}

#[test]
fn test_parse_search_response() {
    let json = r#"{
            "results": [
                { "symbol": "TCC", "name": "Tanzania Cigarette Company", "type": "EQUITY", "currency": "TZS" },
                { "symbol": "CRDB", "name": "CRDB Bank", "currency": "TZS" }
            ]
        }"#;

    let resp = decode_search(json).unwrap();
    assert_eq!(resp.results.len(), 2);
    assert_eq!(resp.results[0].symbol, "TCC");
    assert_eq!(resp.results[1].asset_type, "EQUITY"); // default

    let hits = parse_search_results(Ok(resp)).unwrap();
    assert_eq!(hits.len(), 2);
    assert_eq!(hits[0].symbol, "TCC");
    assert_eq!(hits[0].name, "Tanzania Cigarette Company");
    assert_eq!(hits[1].symbol, "CRDB");
    assert_eq!(hits[1].asset_type, "EQUITY");
    assert_eq!(hits[1].exchange, "DSE");
    assert_eq!(hits[1].exchange_mic.as_deref(), Some("XDAR"));
    assert_eq!(hits[1].exchange_name.as_deref(), Some("Dar es Salaam Stock Exchange"));
    assert_eq!(hits[1].currency.as_deref(), Some("TZS"));
    assert_eq!(hits[1].data_source.as_deref(), Some("DSE"));
}

#[test]
fn test_parse_profile_response() {
    let json = r#"{
            "name": "CRDB Bank Plc",
            "sector": "Financial Services",
            "industry": "Banking",
            "country": "TZ",
            "description": "CRDB Bank Plc is a commercial bank in Tanzania.",
            "website": "https://www.crdbbank.co.tz",
            "market_cap": 1500000000000.0,
            "employees": 3500
        }"#;

    let resp = decode_profile(json).unwrap();
    assert_eq!(resp.name, Some("CRDB Bank Plc".to_string()));
    assert_eq!(resp.sector, Some("Financial Services".to_string()));
    assert_eq!(resp.country, Some("TZ".to_string()));
    assert_eq!(resp.employees, Some(3500));

    let profile = parse_asset_profile(Ok(resp), "CRDB").unwrap();
    assert_eq!(profile.name.as_deref(), Some("CRDB Bank Plc"));
    assert_eq!(profile.sector.as_deref(), Some("Financial Services"));
    assert_eq!(profile.industry.as_deref(), Some("Banking"));
    assert_eq!(profile.country.as_deref(), Some("TZ"));
    assert_eq!(profile.website.as_deref(), Some("https://www.crdbbank.co.tz"));
    assert_eq!(profile.employees, Some(3500));
    assert_eq!(profile.market_cap.map(|d| exact(&d)), Some(whole(1_500_000_000_000)));
    assert_eq!(profile.source.as_deref(), Some("DSE"));
    assert_eq!(profile.quote_type.as_deref(), Some("EQUITY"));
}

#[test]
fn test_parse_profile_response_minimal() {
    let json = r#"{ "name": "NMB Bank Plc" }"#;

    let resp = decode_profile(json).unwrap();
    assert_eq!(resp.name, Some("NMB Bank Plc".to_string()));
    assert!(resp.sector.is_none());
    assert!(resp.market_cap.is_none());

    let profile = parse_asset_profile(Ok(resp), "NMB").unwrap();
    assert_eq!(profile.name.as_deref(), Some("NMB Bank Plc"));
    assert!(profile.sector.is_none());
    assert!(profile.sectors.is_none());
    assert!(profile.industry.is_none());
    assert!(profile.website.is_none());
    assert!(profile.description.is_none());
    assert!(profile.country.is_none());
    assert!(profile.employees.is_none());
    assert!(profile.logo_url.is_none());
    assert!(profile.market_cap.is_none());
    assert!(profile.pe_ratio.is_none());
    assert!(profile.dividend_yield.is_none());
    assert!(profile.week_52_high.is_none());
    assert!(profile.week_52_low.is_none());
}

#[test]
fn test_base_url_trailing_slash() {
    let provider =
        DseProvider::with_base_url("key".to_string(), "http://localhost:8080/".to_string());
    assert_eq!(provider.base_url(), "http://localhost:8080");
}

#[test]
fn default_base_url_and_key() {
    let provider = DseProvider::new("test-key".to_string());
    assert_eq!(provider.base_url(), "http://localhost:9090");
    assert_eq!(provider.api_key(), "test-key");
    assert_eq!(provider.auth_header(), Some(("X-API-Key", "test-key")));
    assert_eq!(DseProvider::new(String::new()).auth_header(), None);
}

#[test]
fn every_trailing_slash_is_dropped() {
    let provider = DseProvider::with_base_url(String::new(), "http://h:1///".to_string());
    assert_eq!(provider.base_url(), "http://h:1");
    assert_eq!(provider.request_url("/api/v1/x"), "http://h:1/api/v1/x");
    let bare = DseProvider::with_base_url(String::new(), "//".to_string());
    assert_eq!(bare.base_url(), "");
}

#[test]
fn rate_limit_and_coverage_of_the_provider() {
    let provider = DseProvider::new(String::new());
    let limit = provider.rate_limit();
    assert_eq!(limit.requests_per_minute, 120);
    assert_eq!(limit.max_concurrency, 5);
    assert_eq!(limit.min_delay_ms, 100);
    let caps = provider.capabilities();
    assert_eq!(caps.coverage.equity_mic_allow, Some(vec!["XDAR".to_string()]));
    assert_eq!(caps.coverage.equity_mic_deny, None);
    assert!(caps.coverage.allow_unknown_mic);
    assert_eq!(caps.coverage.metal_quote_ccy_allow, None);
    let entry = provider.entry();
    assert_eq!(entry.id, "DSE");
    assert_eq!(entry.priority, 5);
}

#[test]
fn unsupported_instrument_names_the_reason() {
    let provider = DseProvider::new(String::new());
    let metal = ProviderInstrument::MetalSymbol { symbol: "XAU".into(), quote: "USD".into() };
    match provider.extract_symbol(&metal) {
        Err(MarketDataError::UnsupportedAssetType(message)) => {
            assert_eq!(message, "DSE only supports equities")
        }
        other => panic!("unexpected: {:?}", other),
    }
}

#[test]
fn paths_of_plain_symbols() {
    assert_eq!(latest_quote_path("TCC"), "/api/v1/quotes/TCC/latest");
    assert_eq!(profile_path("CRDB"), "/api/v1/symbols/CRDB/profile");
    assert_eq!(search_path("bank"), "/api/v1/symbols/search?query=bank");
    assert_eq!(
        history_path_between("TCC", "2025-01-02", "2025-01-31"),
        "/api/v1/quotes/TCC/history?start=2025-01-02&end=2025-01-31"
    );
}

#[test]
fn paths_percent_encode_what_a_url_cannot_carry() {
    assert_eq!(latest_quote_path("A B"), "/api/v1/quotes/A%20B/latest");
    assert_eq!(search_path("a/b?c=d&e"), "/api/v1/symbols/search?query=a%2Fb%3Fc%3Dd%26e");
    assert_eq!(profile_path("é"), "/api/v1/symbols/%C3%A9/profile");
    assert_eq!(search_path("a-b.c_d~e"), "/api/v1/symbols/search?query=a-b.c_d~e");
}

#[test]
fn history_path_writes_the_dates_of_the_instants() {
    let start = Timestamp { secs: 1735826400, nanos: 0 };
    let end = Timestamp { secs: 1738367999, nanos: 999_999_999 };
    assert_eq!(
        history_path("TCC", &start, &end).as_deref(),
        Some("/api/v1/quotes/TCC/history?start=2025-01-02&end=2025-01-31")
    );
    let beyond = Timestamp { secs: i64::MAX, nanos: 0 };
    assert_eq!(history_path("TCC", &start, &beyond), None);
}

#[test]
fn currency_falls_back_from_chain_to_hint_to_shilling() {
    let provider = DseProvider::new(String::new());
    let none = ResolverChain::new();
    assert_eq!(provider.get_currency(&none, &QuoteContext::new()), "TZS");
    assert_eq!(provider.get_currency(&none, &QuoteContext::new().with_currency_hint("USD")), "USD");
    let chain = ResolverChain::new().with_rule(CurrencyRule {
        provider: Some("DSE".to_string()),
        exchange_mic: Some("XNAI".to_string()),
        currency: "KES".to_string(),
    });
    let nairobi = QuoteContext::new().with_exchange_mic("XNAI").with_currency_hint("USD");
    assert_eq!(provider.get_currency(&chain, &nairobi), "KES");
    let elsewhere = QuoteContext::new().with_exchange_mic("XDAR").with_currency_hint("USD");
    assert_eq!(provider.get_currency(&chain, &elsewhere), "USD");
}

#[test]
fn latest_quote_takes_the_stamp_it_is_given() {
    let resp = decode_latest(r#"{ "close": 12.5 }"#).unwrap();
    let stamp = Timestamp { secs: 77, nanos: 5 };
    let quote = quote_from_latest(&resp, "TCC", "TZS", stamp).unwrap();
    assert_eq!(quote.timestamp, stamp);
    assert_eq!(exact(&quote.close), rust_decimal::Decimal::new(125, 1));
    assert_eq!(quote.currency, "TZS");
    assert!(quote.open.is_none() && quote.high.is_none() && quote.low.is_none());
    assert!(quote.volume.is_none());
}

#[test]
fn daily_bar_sits_at_two_in_the_afternoon() {
    let row = HistoricalQuote {
        date: "1970-01-01".to_string(),
        open: None,
        high: None,
        low: None,
        close: number(1.0),
        volume: None,
    };
    let bar = bar_from_row(&row, Some(719_163), "TZS").unwrap();
    assert_eq!(bar.timestamp, Timestamp { secs: 50_400, nanos: 0 });
    let next = bar_from_row(&row, Some(719_164), "TZS").unwrap();
    assert_eq!(next.timestamp, Timestamp { secs: 136_800, nanos: 0 });
    let before = bar_from_row(&row, Some(719_162), "TZS").unwrap();
    assert_eq!(before.timestamp, Timestamp { secs: -36_000, nanos: 0 });
    assert!(bar_from_row(&row, None, "TZS").is_none());
}
