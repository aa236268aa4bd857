//! Currency resolution: an ordered chain of rules, then the hint of the
//! request, then the provider's own default.

use crate::models::{opt_text, QuoteContext};
use crate::text::same_text;
use vstd::prelude::*;

verus! {

/// One rule of the chain: requests of `provider` (of any provider where it
/// is absent) on the exchange `exchange_mic` (on any exchange, and without
/// one, where it is absent) are quoted in `currency`.
#[derive(Clone, Debug, PartialEq, Eq)]
pub struct CurrencyRule {
    pub provider: Option<String>,
    pub exchange_mic: Option<String>,
    pub currency: String,
}

impl CurrencyRule {
    pub open spec fn applies_to(self, provider: Seq<char>, context: QuoteContext) -> bool {
        &&& self.provider matches Some(p) ==> p@ == provider
        &&& self.exchange_mic matches Some(m) ==> opt_text(context.exchange_mic) == Some(m@)
    }

    pub fn applies(&self, provider: &str, context: &QuoteContext) -> (r: bool)
        ensures
            r == self.applies_to(provider@, *context),
    {
        let provider_fits = match &self.provider {
            Some(p) => same_text(p.as_str(), provider),
            None => true,
        };
        let exchange_fits = match &self.exchange_mic {
            Some(m) => match &context.exchange_mic {
                Some(requested) => same_text(requested.as_str(), m.as_str()),
                None => false,
            },
            None => true,
        };
        provider_fits && exchange_fits
    }
}

/// The currency of the first rule at or after `start` that applies.
pub open spec fn first_applicable(
    rules: Seq<CurrencyRule>,
    start: int,
    provider: Seq<char>,
    context: QuoteContext,
) -> Option<Seq<char>>
    decreases rules.len() - start,
{
    if start < 0 || start >= rules.len() {
        None
    } else if rules[start].applies_to(provider, context) {
        Some(rules[start].currency@)
    } else {
        first_applicable(rules, start + 1, provider, context)
    }
}

/// An ordered set of rules; the first that applies decides.
#[derive(Clone, Debug, PartialEq, Eq)]
pub struct ResolverChain {
    pub rules: Vec<CurrencyRule>,
}

impl ResolverChain {
    /// What the chain yields for a provider and a request, if anything.
    pub open spec fn currency_for(self, provider: Seq<char>, context: QuoteContext) -> Option<
        Seq<char>,
    > {
        first_applicable(self.rules@, 0, provider, context)
    }

    /// A chain without rules: it yields nothing.
    pub fn new() -> (r: ResolverChain)
        ensures
            r.rules@.len() == 0,
            forall|provider: Seq<char>, context: QuoteContext|
                #[trigger] r.currency_for(provider, context) is None,
    {
        ResolverChain { rules: Vec::new() }
    }

    /// The chain with `rule` after the rules it already has.
    pub fn with_rule(self, rule: CurrencyRule) -> (r: ResolverChain)
        ensures
            r.rules@ == self.rules@.push(rule),
    {
        let mut rules = self.rules;
        rules.push(rule);
        ResolverChain { rules }
    }

    pub fn get_currency(&self, provider: &str, context: &QuoteContext) -> (r: Option<String>)
        ensures
            opt_text(r) == self.currency_for(provider@, *context),
    {
        let mut i: usize = 0;
        while i < self.rules.len()
            invariant
                i <= self.rules.len(),
                self.currency_for(provider@, *context) == first_applicable(
                    self.rules@,
                    i as int,
                    provider@,
                    *context,
                ),
            decreases self.rules.len() - i,
        {
            if self.rules[i].applies(provider, context) {
                return Some(self.rules[i].currency.clone());
            }
            i += 1;
        }
        None
    }
}

/// The three tiers in their order: what the chain yields; failing that, the
/// hint of the request; failing that, the provider's default.
pub open spec fn resolved_currency(
    chain: ResolverChain,
    provider: Seq<char>,
    context: QuoteContext,
    hard_default: Seq<char>,
) -> Seq<char> {
    match chain.currency_for(provider, context) {
        Some(currency) => currency,
        None => match context.currency_hint {
            Some(hint) => hint@,
            None => hard_default,
        },
    }
}

/// The currency to attribute to a provider's answer when the answer names
/// none.
pub fn resolve_currency(
    chain: &ResolverChain,
    provider: &str,
    context: &QuoteContext,
    hard_default: &str,
) -> (r: String)
    ensures
        r@ == resolved_currency(*chain, provider@, *context, hard_default@),
{
    match chain.get_currency(provider, context) {
        Some(currency) => currency,
        None => match &context.currency_hint {
            Some(hint) => hint.clone(),
            None => hard_default.to_owned(),
        },
    }
}

/// Where the chain yields nothing and the request carries no hint, the
/// provider's default is the resolved currency.
pub proof fn law_default_without_chain_and_hint(
    chain: ResolverChain,
    provider: Seq<char>,
    context: QuoteContext,
    hard_default: Seq<char>,
)
    requires
        chain.currency_for(provider, context) is None,
        context.currency_hint is None,
    ensures
        resolved_currency(chain, provider, context, hard_default) == hard_default,
{
}

/// Two requests that differ in their hint alone, neither matched by the
/// chain: the one without a hint resolves to the default, the other to its
/// hint.
pub proof fn law_hint_replaces_default(
    chain: ResolverChain,
    provider: Seq<char>,
    plain: QuoteContext,
    hinted: QuoteContext,
    hint: String,
    hard_default: Seq<char>,
)
    requires
        plain.currency_hint is None,
        hinted.currency_hint == Some(hint),
        hinted.exchange_mic == plain.exchange_mic,
        chain.currency_for(provider, plain) is None,
    ensures
        resolved_currency(chain, provider, plain, hard_default) == hard_default,
        resolved_currency(chain, provider, hinted, hard_default) == hint@,
{
    law_chain_ignores_hint(chain, provider, plain, hinted);
}

/// What the chain yields does not depend on the hint.
pub proof fn law_chain_ignores_hint(
    chain: ResolverChain,
    provider: Seq<char>,
    a: QuoteContext,
    b: QuoteContext,
)
    requires
        a.exchange_mic == b.exchange_mic,
    ensures
        chain.currency_for(provider, a) == chain.currency_for(provider, b),
{
    lemma_first_applicable_ignores_hint(chain.rules@, 0, provider, a, b);
}

/// The chain yields the currency of the rule that applies and that no
/// earlier rule that applies precedes; it yields nothing only where no rule
/// applies.
pub proof fn law_first_rule_decides(
    rules: Seq<CurrencyRule>,
    start: int,
    provider: Seq<char>,
    context: QuoteContext,
)
    requires
        0 <= start,
    ensures
        match first_applicable(rules, start, provider, context) {
            Some(currency) => exists|i: int|
                {
                    &&& start <= i < rules.len()
                    &&& (#[trigger] rules[i]).applies_to(provider, context)
                    &&& rules[i].currency@ == currency
                    &&& forall|j: int|
                        start <= j < i ==> !(#[trigger] rules[j]).applies_to(provider, context)
                },
            None => forall|j: int|
                start <= j < rules.len() ==> !(#[trigger] rules[j]).applies_to(provider, context),
        },
    decreases rules.len() - start,
{
    if start < rules.len() {
        if rules[start].applies_to(provider, context) {
            assert(rules[start].currency@ == first_applicable(rules, start, provider, context)->0);
        } else {
            law_first_rule_decides(rules, start + 1, provider, context);
            match first_applicable(rules, start + 1, provider, context) {
                Some(currency) => {
                    let i = choose|i: int|
                        {
                            &&& start + 1 <= i < rules.len()
                            &&& (#[trigger] rules[i]).applies_to(provider, context)
                            &&& rules[i].currency@ == currency
                            &&& forall|j: int|
                                start + 1 <= j < i ==> !(#[trigger] rules[j]).applies_to(
                                    provider,
                                    context,
                                )
                        };
                    assert(rules[i].applies_to(provider, context));
                },
                None => {},
            }
        }
    }
}

proof fn lemma_first_applicable_ignores_hint(
    rules: Seq<CurrencyRule>,
    start: int,
    provider: Seq<char>,
    a: QuoteContext,
    b: QuoteContext,
)
    requires
        a.exchange_mic == b.exchange_mic,
    ensures
        first_applicable(rules, start, provider, a) == first_applicable(rules, start, provider, b),
    decreases rules.len() - start,
{
    if 0 <= start < rules.len() {
        lemma_first_applicable_ignores_hint(rules, start + 1, provider, a, b);
    }
}

} // verus!
