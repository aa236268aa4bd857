use market_data::chronology::sort_chronologically;
use market_data::decimal::{decimal_or_absent, Decimal, RawNumber};
use market_data::dse::normalize::{
    historical_quotes, parse_asset_profile, parse_historical_quotes, parse_latest_quote,
    is_empty_object, parse_search_results, profile_from_body, quote_from_latest, require_quotes,
    search_hit,
};
use market_data::dse::response::{
    ErrorResponse, HistoricalQuote, HistoricalResponse, LatestQuoteResponse, ProfileResponse,
    SearchItem, SearchResponse,
};
use market_data::dse::transport::{
    classify_status, interpret_fetch, interpret_reply, FetchOutcome, HttpReply, ReplyKind,
};
use market_data::errors::MarketDataError;
use market_data::models::{Quote, SearchResult};
use market_data::text::{contains_text, join, same_text, trim_trailing};
use market_data::time::Timestamp;

fn number(v: f64) -> RawNumber {
    if v == 0.0 {
        return RawNumber::Zero;
    }
    match rust_decimal::Decimal::try_from(v) {
        Ok(d) => RawNumber::Fixed(Decimal::try_new(d.mantissa(), d.scale()).unwrap()),
        Err(_) => RawNumber::Unrepresentable(v.to_string()),
    }
}

fn exact(d: &Decimal) -> rust_decimal::Decimal {
    rust_decimal::Decimal::from_i128_with_scale(d.mantissa(), d.scale())
}

fn latest(close: f64) -> LatestQuoteResponse {
    LatestQuoteResponse {
        symbol: None,
        close: number(close),
        open: None,
        high: None,
        low: None,
        volume: None,
        currency: None,
        timestamp: None,
    }
}

fn row(date: &str, close: f64) -> HistoricalQuote {
    HistoricalQuote {
        date: date.to_string(),
        open: None,
        high: None,
        low: None,
        close: number(close),
        volume: None,
    }
}

fn history(rows: Vec<HistoricalQuote>) -> HistoricalResponse {
    HistoricalResponse { symbol: None, quotes: rows, currency: None }
}

fn quote_at(secs: i64, nanos: u32, source: &str) -> Quote {
    Quote {
        timestamp: Timestamp { secs, nanos },
        open: None,
        high: None,
        low: None,
        close: Decimal::try_new(1, 0).unwrap(),
        volume: None,
        currency: "TZS".to_string(),
        source: source.to_string(),
    }
}

#[test]
fn zero_close_is_symbol_not_found() {
    for zero in [0.0f64, -0.0] {
        match parse_latest_quote(Ok(latest(zero)), "TCC", "TZS") {
            Err(MarketDataError::SymbolNotFound(message)) => {
                assert_eq!(message, "No quote data for symbol: TCC")
            }
            other => panic!("unexpected: {:?}", other),
        }
    }
    let stamp = Timestamp { secs: 0, nanos: 0 };
    assert!(matches!(
        quote_from_latest(&latest(0.0), "TCC", "TZS", stamp),
        Err(MarketDataError::SymbolNotFound(_))
    ));
}

#[test]
fn close_without_fixed_point_form_fails_validation() {
    match parse_latest_quote(Ok(latest(1e300)), "TCC", "TZS") {
        Err(MarketDataError::ValidationFailed { message }) => {
            assert_eq!(message, format!("Invalid close price: {}", 1e300f64))
        }
        other => panic!("unexpected: {:?}", other),
    }
}

#[test]
fn optional_numbers_without_fixed_point_form_are_left_out() {
    let mut resp = latest(10.25);
    resp.open = Some(number(1e300));
    resp.high = Some(number(0.0));
    resp.low = Some(number(9.5));
    resp.currency = Some("KES".to_string());
    let quote = quote_from_latest(&resp, "TCC", "TZS", Timestamp { secs: 1, nanos: 2 }).unwrap();
    assert!(quote.open.is_none());
    assert_eq!(quote.high.map(|d| exact(&d)), Some(rust_decimal::Decimal::ZERO));
    assert_eq!(quote.low.map(|d| exact(&d)), Some(rust_decimal::Decimal::new(95, 1)));
    assert_eq!(exact(&quote.close), rust_decimal::Decimal::new(1025, 2));
    assert_eq!(quote.currency, "KES");
    assert_eq!(decimal_or_absent(&None), None);
    assert_eq!(decimal_or_absent(&Some(RawNumber::Zero)), Some(Decimal::zero()));
}

#[test]
fn unreadable_timestamp_is_replaced_by_the_time_of_reading() {
    let mut resp = latest(5.0);
    resp.timestamp = Some("yesterday".to_string());
    let before = chrono::Utc::now().timestamp();
    let quote = parse_latest_quote(Ok(resp), "TCC", "TZS").unwrap();
    let after = chrono::Utc::now().timestamp();
    assert!(before <= quote.timestamp.secs && quote.timestamp.secs <= after);
    let quote = parse_latest_quote(Ok(latest(5.0)), "TCC", "TZS").unwrap();
    assert!(before <= quote.timestamp.secs);
}

#[test]
fn stated_timestamp_is_read_in_utc() {
    let mut resp = latest(5.0);
    resp.timestamp = Some("2026-02-10T17:00:00.25+03:00".to_string());
    let quote = parse_latest_quote(Ok(resp), "TCC", "TZS").unwrap();
    assert_eq!(quote.timestamp, Timestamp { secs: 1770732000, nanos: 250_000_000 });
}

#[test]
fn undecodable_payloads_are_provider_errors() {
    match parse_latest_quote(Err("expected value".to_string()), "TCC", "TZS") {
        Err(MarketDataError::ProviderError { provider, message }) => {
            assert_eq!(provider, "DSE");
            assert_eq!(message, "Failed to parse quote response: expected value");
        }
        other => panic!("unexpected: {:?}", other),
    }
    match historical_quotes(Err("eof".to_string()), "TZS") {
        Err(MarketDataError::ProviderError { message, .. }) => {
            assert_eq!(message, "Failed to parse historical response: eof")
        }
        other => panic!("unexpected: {:?}", other),
    }
    match parse_asset_profile(Err("eof".to_string()), "TCC") {
        Err(MarketDataError::ProviderError { message, .. }) => {
            assert_eq!(message, "Failed to parse profile response: eof")
        }
        other => panic!("unexpected: {:?}", other),
    }
    match parse_search_results(Err("eof".to_string())) {
        Err(MarketDataError::ProviderError { message, .. }) => {
            assert_eq!(message, "Failed to parse search response: eof")
        }
        other => panic!("unexpected: {:?}", other),
    }
}

#[test]
fn two_good_rows_give_two_quotes_in_order() {
    let resp = history(vec![row("2025-01-02", 3020.0), row("2025-01-03", 3040.0)]);
    let quotes = historical_quotes(Ok(resp), "TZS").unwrap();
    assert_eq!(quotes.len(), 2);
    assert_eq!(quotes[0].timestamp, Timestamp { secs: 1735826400, nanos: 0 });
    assert_eq!(quotes[1].timestamp, Timestamp { secs: 1735912800, nanos: 0 });
    assert_eq!(quotes[0].currency, "TZS");
}

#[test]
fn malformed_rows_are_skipped_and_the_rest_sorted() {
    let resp = history(vec![
        row("2025-01-09", 9.0),
        row("09/01/2025", 1.0),
        row("2025-01-03", 3.0),
        row("2025-01-05", 1e300),
        row("2025-02-30", 2.0),
        row("2025-01-01", 1.0),
        row("", 4.0),
    ]);
    let quotes = historical_quotes(Ok(resp), "TZS").unwrap();
    let closes: Vec<_> = quotes.iter().map(|q| exact(&q.close)).collect();
    assert_eq!(
        closes,
        vec![
            rust_decimal::Decimal::new(1, 0),
            rust_decimal::Decimal::new(3, 0),
            rust_decimal::Decimal::new(9, 0)
        ]
    );
    assert!(quotes.windows(2).all(|w| w[0].timestamp.secs < w[1].timestamp.secs));
}

#[test]
fn rows_of_one_day_keep_their_order() {
    let mut a = row("2025-01-02", 1.0);
    a.volume = Some(number(1.0));
    let mut b = row("2025-01-02", 2.0);
    b.volume = Some(number(2.0));
    let resp = history(vec![row("2025-01-03", 9.0), a, b, row("2025-01-01", 7.0)]);
    let quotes = historical_quotes(Ok(resp), "TZS").unwrap();
    let closes: Vec<i128> = quotes.iter().map(|q| q.close.mantissa()).collect();
    assert_eq!(closes, vec![7, 1, 2, 9]);
}

#[test]
fn no_usable_row_is_no_data_for_range() {
    let all_bad = history(vec![row("x", 1.0), row("2025-01-02", 1e300)]);
    assert!(matches!(historical_quotes(Ok(all_bad), "TZS"), Err(MarketDataError::NoDataForRange)));
    assert!(matches!(
        historical_quotes(Ok(history(vec![])), "TZS"),
        Err(MarketDataError::NoDataForRange)
    ));
    assert!(matches!(
        parse_historical_quotes(Ok(history(vec![])), "TZS"),
        Err(MarketDataError::NoDataForRange)
    ));
    let all_bad = history(vec![row("x", 1.0)]);
    assert_eq!(parse_historical_quotes(Ok(all_bad), "TZS").unwrap().len(), 0);
    assert!(matches!(require_quotes(vec![]), Err(MarketDataError::NoDataForRange)));
    assert_eq!(require_quotes(vec![quote_at(1, 0, "a")]).unwrap().len(), 1);
}

#[test]
fn zero_close_in_a_daily_bar_is_a_price() {
    let resp = history(vec![row("2025-01-02", 0.0)]);
    let quotes = historical_quotes(Ok(resp), "TZS").unwrap();
    assert!(quotes[0].close.is_zero());
}

#[test]
fn history_uses_the_currency_of_the_payload() {
    let mut resp = history(vec![row("2025-01-02", 1.0)]);
    resp.currency = Some("KES".to_string());
    assert_eq!(historical_quotes(Ok(resp), "TZS").unwrap()[0].currency, "KES");
}

#[test]
fn sorting_is_chronological_and_stable() {
    let quotes = vec![
        quote_at(5, 0, "a"),
        quote_at(3, 9, "b"),
        quote_at(5, 0, "c"),
        quote_at(3, 1, "d"),
        quote_at(-1, 0, "e"),
        quote_at(5, 0, "f"),
    ];
    let sorted = sort_chronologically(quotes);
    let sources: Vec<&str> = sorted.iter().map(|q| q.source.as_str()).collect();
    assert_eq!(sources, vec!["e", "d", "b", "a", "c", "f"]);
    assert!(sort_chronologically(vec![]).is_empty());
    let t = Timestamp { secs: 3, nanos: 1 };
    assert!(t.is_before(&Timestamp { secs: 3, nanos: 2 }));
    assert!(!t.is_before(&t));
    assert!(!t.is_before(&Timestamp { secs: 2, nanos: 9 }));
}

#[test]
fn profile_without_a_name_is_symbol_not_found() {
    let empty = ProfileResponse {
        name: None,
        sector: Some("Banks".to_string()),
        industry: None,
        country: None,
        description: None,
        website: None,
        market_cap: None,
        employees: None,
        logo_url: None,
    };
    match parse_asset_profile(Ok(empty), "NMB") {
        Err(MarketDataError::SymbolNotFound(message)) => {
            assert_eq!(message, "No profile data for symbol: NMB")
        }
        other => panic!("unexpected: {:?}", other),
    }
}

#[test]
fn market_cap_without_fixed_point_form_is_left_out() {
    let resp = ProfileResponse {
        name: Some("N".to_string()),
        sector: None,
        industry: None,
        country: None,
        description: None,
        website: None,
        market_cap: Some(number(1e40)),
        employees: Some(1),
        logo_url: Some("l".to_string()),
    };
    let profile = parse_asset_profile(Ok(resp), "N").unwrap();
    assert!(profile.market_cap.is_none());
    assert_eq!(profile.logo_url.as_deref(), Some("l"));
}

#[test]
fn search_hit_defaults_to_the_shilling() {
    let item = SearchItem {
        symbol: "TBL".to_string(),
        name: "Tanzania Breweries".to_string(),
        asset_type: "ETF".to_string(),
        currency: None,
    };
    let hit = search_hit(&item);
    assert_eq!(hit.currency.as_deref(), Some("TZS"));
    assert_eq!(hit.asset_type, "ETF");
    let hits = parse_search_results(Ok(SearchResponse { results: vec![] })).unwrap();
    assert!(hits.is_empty());
    let bare = SearchResult::new("S", "N", "E", "T");
    assert!(bare.exchange_mic.is_none() && bare.currency.is_none() && bare.data_source.is_none());
    let dressed = bare.with_currency("USD").with_exchange_mic("XNYS");
    assert_eq!(dressed.currency.as_deref(), Some("USD"));
    assert_eq!(dressed.exchange_mic.as_deref(), Some("XNYS"));
    assert_eq!(dressed.symbol, "S");
}

fn reply(status: u16, text: &str, body: &str, message: Option<&str>) -> HttpReply {
    HttpReply {
        status,
        status_text: text.to_string(),
        body: Ok(body.to_string()),
        error_body: message.map(|m| ErrorResponse { error: Some(m.to_string()) }),
    }
}

#[test]
fn successful_reply_is_its_body() {
    assert_eq!(interpret_reply(reply(200, "200 OK", "{}", None)).unwrap(), "{}");
    assert_eq!(interpret_reply(reply(299, "299", "x", Some("ignored"))).unwrap(), "x");
    let unread = HttpReply {
        status: 204,
        status_text: "204 No Content".to_string(),
        body: Err("connection reset".to_string()),
        error_body: None,
    };
    match interpret_reply(unread) {
        Err(MarketDataError::ProviderError { provider, message }) => {
            assert_eq!(provider, "DSE");
            assert_eq!(message, "Failed to read response: connection reset");
        }
        other => panic!("unexpected: {:?}", other),
    }
}

#[test]
fn status_429_is_rate_limited_and_401_a_bad_key() {
    match interpret_reply(reply(429, "429 Too Many Requests", "", Some("slow down"))) {
        Err(MarketDataError::RateLimited { provider }) => assert_eq!(provider, "DSE"),
        other => panic!("unexpected: {:?}", other),
    }
    match interpret_reply(reply(401, "401 Unauthorized", "{\"error\":\"no\"}", Some("no"))) {
        Err(MarketDataError::ProviderError { message, .. }) => {
            assert_eq!(message, "Invalid or missing API key")
        }
        other => panic!("unexpected: {:?}", other),
    }
}

#[test]
fn failure_carries_the_vendor_message_or_the_status() {
    match interpret_reply(reply(404, "404 Not Found", "{\"error\":\"unknown\"}", Some("unknown"))) {
        Err(MarketDataError::ProviderError { message, .. }) => assert_eq!(message, "unknown"),
        other => panic!("unexpected: {:?}", other),
    }
    match interpret_reply(reply(500, "500 Internal Server Error", "oops", None)) {
        Err(MarketDataError::ProviderError { message, .. }) => {
            assert_eq!(message, "HTTP 500 Internal Server Error - oops")
        }
        other => panic!("unexpected: {:?}", other),
    }
    let silent = HttpReply {
        status: 199,
        status_text: "199 <unknown status code>".to_string(),
        body: Err("broken".to_string()),
        error_body: Some(ErrorResponse { error: None }),
    };
    match interpret_reply(silent) {
        Err(MarketDataError::ProviderError { message, .. }) => {
            assert_eq!(message, "HTTP 199 <unknown status code> - ")
        }
        other => panic!("unexpected: {:?}", other),
    }
    assert!(interpret_reply(reply(300, "300 Multiple Choices", "", None)).is_err());
}

#[test]
fn exchanges_without_a_reply() {
    match interpret_fetch(FetchOutcome::TimedOut) {
        Err(MarketDataError::Timeout { provider }) => assert_eq!(provider, "DSE"),
        other => panic!("unexpected: {:?}", other),
    }
    match interpret_fetch(FetchOutcome::Failed("dns".to_string())) {
        Err(MarketDataError::ProviderError { message, .. }) => {
            assert_eq!(message, "Request failed: dns")
        }
        other => panic!("unexpected: {:?}", other),
    }
    assert_eq!(interpret_fetch(FetchOutcome::Replied(reply(200, "200 OK", "b", None))).unwrap(), "b");
}

#[test]
fn decimals_are_held_to_their_range() {
    let max: i128 = 79_228_162_514_264_337_593_543_950_335;
    assert!(Decimal::try_new(max, 28).is_some());
    assert!(Decimal::try_new(-max, 0).is_some());
    assert!(Decimal::try_new(max + 1, 0).is_none());
    assert!(Decimal::try_new(-max - 1, 0).is_none());
    assert!(Decimal::try_new(1, 29).is_none());
    let d = Decimal::try_new(-12345, 3).unwrap();
    assert_eq!(d.mantissa(), -12345);
    assert_eq!(d.scale(), 3);
    assert!(!d.is_zero());
    assert!(Decimal::try_new(0, 7).unwrap().is_zero());
    assert_eq!(Decimal::zero(), Decimal::try_new(0, 0).unwrap());
    assert!(RawNumber::Zero.is_zero());
    assert!(!RawNumber::Fixed(Decimal::zero()).is_zero());
    assert_eq!(RawNumber::Unrepresentable("NaN".to_string()).to_decimal(), None);
}

#[test]
fn text_helpers() {
    assert!(same_text("XDAR", "XDAR"));
    assert!(!same_text("XDAR", "XDAS"));
    assert!(!same_text("XDAR", "XDA"));
    assert!(same_text("", ""));
    assert!(same_text("é€", "é€"));
    let list = vec!["a".to_string(), "bc".to_string()];
    assert!(contains_text(&list, "bc"));
    assert!(!contains_text(&list, "b"));
    assert!(!contains_text(&vec![], ""));
    assert_eq!(trim_trailing("a//b//", '/'), "a//b");
    assert_eq!(trim_trailing("///", '/'), "");
    assert_eq!(trim_trailing("abc", '/'), "abc");
    assert_eq!(trim_trailing("", '/'), "");
    assert_eq!(join("ab", "cd"), "abcd");
}

#[test]
fn statuses_are_sorted_before_the_body_is_read() {
    assert_eq!(classify_status(429), ReplyKind::RateLimited);
    assert_eq!(classify_status(401), ReplyKind::Unauthorized);
    assert_eq!(classify_status(200), ReplyKind::Success);
    assert_eq!(classify_status(299), ReplyKind::Success);
    assert_eq!(classify_status(199), ReplyKind::Failure);
    assert_eq!(classify_status(300), ReplyKind::Failure);
    assert_eq!(classify_status(404), ReplyKind::Failure);
    assert_eq!(classify_status(0), ReplyKind::Failure);
}

#[test]
fn empty_object_is_an_unknown_symbol() {
    assert!(is_empty_object("{}"));
    assert!(is_empty_object(" \n{}\t "));
    assert!(!is_empty_object("{ }"));
    assert!(!is_empty_object("{\"name\": null}"));
    assert!(!is_empty_object(""));
    let named = || ProfileResponse {
        name: Some("N".to_string()),
        sector: None,
        industry: None,
        country: None,
        description: None,
        website: None,
        market_cap: None,
        employees: None,
        logo_url: None,
    };
    match profile_from_body(" {} ", Ok(named()), "NMB") {
        Err(MarketDataError::SymbolNotFound(message)) => {
            assert_eq!(message, "No profile data for symbol: NMB")
        }
        other => panic!("unexpected: {:?}", other),
    }
    assert!(matches!(
        profile_from_body("{}", Err("eof".to_string()), "NMB"),
        Err(MarketDataError::SymbolNotFound(_))
    ));
    let profile = profile_from_body("{\"name\":\"N\"}", Ok(named()), "NMB").unwrap();
    assert_eq!(profile.name.as_deref(), Some("N"));
    assert!(matches!(
        profile_from_body("nonsense", Err("eof".to_string()), "NMB"),
        Err(MarketDataError::ProviderError { .. })
    ));
}
