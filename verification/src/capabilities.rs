//! What a provider declares of itself: the instruments and operations it
//! serves, its coverage, and the throughput it may be driven at.

use crate::models::{InstrumentKind, ProviderInstrument, QuoteContext};
use crate::text::{contains_text, lists};
use vstd::prelude::*;

verus! {

/// The four operations of a provider.
#[derive(Clone, Copy, Debug, PartialEq, Eq, Structural)]
pub enum Operation {
    Latest,
    Historical,
    Search,
    Profile,
}

/// Which exchanges and quote currencies a provider covers.
#[derive(Clone, Debug, PartialEq, Eq)]
pub struct Coverage {
    /// Exchanges the provider is known to cover.
    pub equity_mic_allow: Option<Vec<String>>,
    /// Exchanges the provider must not be asked about.
    pub equity_mic_deny: Option<Vec<String>>,
    /// Whether an exchange on neither list is accepted.
    pub allow_unknown_mic: bool,
    /// Quote currencies accepted for instruments other than equities.
    pub metal_quote_ccy_allow: Option<Vec<String>>,
}

/// The static declaration of one provider.
#[derive(Clone, Debug, PartialEq, Eq)]
pub struct ProviderCapabilities {
    pub instrument_kinds: Vec<InstrumentKind>,
    pub coverage: Coverage,
    pub supports_latest: bool,
    pub supports_historical: bool,
    pub supports_search: bool,
    pub supports_profile: bool,
}

/// The throughput policy of one provider.
#[derive(Clone, Copy, Debug, PartialEq, Eq, Structural)]
pub struct RateLimit {
    /// Ceiling on the requests admitted within any one minute.
    pub requests_per_minute: u32,
    /// Ceiling on the requests in flight at once.
    pub max_concurrency: u32,
    /// Least time between two successive requests, in milliseconds.
    pub min_delay_ms: u64,
}

/// The optional list is present and holds `item`.
pub open spec fn listed(list: Option<Vec<String>>, item: Seq<char>) -> bool {
    list matches Some(entries) && lists(entries@, item)
}

fn is_listed(list: &Option<Vec<String>>, item: &str) -> (r: bool)
    ensures
        r == listed(*list, item@),
{
    match list {
        Some(entries) => contains_text(entries, item),
        None => false,
    }
}

impl Coverage {
    /// An exchange on the deny-list is refused, whatever else holds; one on
    /// the allow-list is accepted; any other is accepted only where unknown
    /// exchanges are.
    pub open spec fn admits_mic(self, mic: Seq<char>) -> bool {
        if listed(self.equity_mic_deny, mic) {
            false
        } else if listed(self.equity_mic_allow, mic) {
            true
        } else {
            self.allow_unknown_mic
        }
    }

    /// Without a list of quote currencies every currency is accepted; with
    /// one, only those on it.
    pub open spec fn admits_quote_currency(self, currency: Seq<char>) -> bool {
        self.metal_quote_ccy_allow is Some ==> listed(self.metal_quote_ccy_allow, currency)
    }

    pub fn covers_mic(&self, mic: &str) -> (r: bool)
        ensures
            r == self.admits_mic(mic@),
    {
        if is_listed(&self.equity_mic_deny, mic) {
            false
        } else if is_listed(&self.equity_mic_allow, mic) {
            true
        } else {
            self.allow_unknown_mic
        }
    }

    pub fn covers_quote_currency(&self, currency: &str) -> (r: bool)
        ensures
            r == self.admits_quote_currency(currency@),
    {
        match &self.metal_quote_ccy_allow {
            Some(entries) => contains_text(entries, currency),
            None => true,
        }
    }
}

impl ProviderCapabilities {
    /// The provider declares the kind of the instrument, and its coverage
    /// admits the request: for an equity the exchange of the request, where
    /// it names one; for any other instrument its quote currency, where it
    /// has one.
    pub open spec fn serves(self, instrument: ProviderInstrument, context: QuoteContext) -> bool {
        &&& self.instrument_kinds@.contains(instrument.kind_of())
        &&& if instrument.kind_of() == InstrumentKind::Equity {
            context.exchange_mic matches Some(mic) ==> self.coverage.admits_mic(mic@)
        } else {
            instrument.quote_currency_of() matches Some(currency)
                ==> self.coverage.admits_quote_currency(currency)
        }
    }

    /// The provider implements the operation.
    pub open spec fn supports(self, operation: Operation) -> bool {
        match operation {
            Operation::Latest => self.supports_latest,
            Operation::Historical => self.supports_historical,
            Operation::Search => self.supports_search,
            Operation::Profile => self.supports_profile,
        }
    }

    pub fn declares_kind(&self, kind: InstrumentKind) -> (r: bool)
        ensures
            r == self.instrument_kinds@.contains(kind),
    {
        let mut i: usize = 0;
        while i < self.instrument_kinds.len()
            invariant
                i <= self.instrument_kinds.len(),
                forall|k: int| 0 <= k < i ==> self.instrument_kinds@[k] != kind,
            decreases self.instrument_kinds.len() - i,
        {
            if self.instrument_kinds[i] == kind {
                return true;
            }
            i += 1;
        }
        false
    }

    pub fn supports_operation(&self, operation: Operation) -> (r: bool)
        ensures
            r == self.supports(operation),
    {
        match operation {
            Operation::Latest => self.supports_latest,
            Operation::Historical => self.supports_historical,
            Operation::Search => self.supports_search,
            Operation::Profile => self.supports_profile,
        }
    }
}

/// Whether a provider with these capabilities may serve the instrument under
/// the hints of the request. Reads its arguments and nothing else.
pub fn matches(
    capabilities: &ProviderCapabilities,
    instrument: &ProviderInstrument,
    context: &QuoteContext,
) -> (r: bool)
    ensures
        r == capabilities.serves(*instrument, *context),
{
    let kind = instrument.kind();
    if !capabilities.declares_kind(kind) {
        return false;
    }
    if kind == InstrumentKind::Equity {
        match &context.exchange_mic {
            Some(mic) => capabilities.coverage.covers_mic(mic.as_str()),
            None => true,
        }
    } else {
        match instrument.quote_currency() {
            Some(currency) => capabilities.coverage.covers_quote_currency(currency),
            None => true,
        }
    }
}

/// An exchange on the deny-list is refused even where the allow-list names it
/// too.
pub proof fn law_deny_list_wins(coverage: Coverage, mic: Seq<char>)
    requires
        listed(coverage.equity_mic_deny, mic),
    ensures
        !coverage.admits_mic(mic),
{
}

} // verus!
