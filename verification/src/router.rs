//! The registry of providers, the choice and order of the candidates for a
//! request, and the next thing to do for a request on its way through them.
//!
//! The router decides; it calls no provider. A driver asks it which provider
//! to call next, makes the call, and reports how it ended.

use crate::capabilities::{Operation, ProviderCapabilities, RateLimit};
use crate::errors::{ErrorView, MarketDataError};
use crate::failover::{Failover, FailoverView};
use crate::models::{ProviderInstrument, QuoteContext};
use crate::rate_limiter::{Admission, LimiterView, RateLimiter};
use vstd::prelude::*;

verus! {

/// What the router knows of one registered provider.
#[derive(Clone, Debug, PartialEq, Eq)]
pub struct ProviderEntry {
    pub id: String,
    /// Lower values are tried first.
    pub priority: u8,
    pub capabilities: ProviderCapabilities,
    pub rate_limit: RateLimit,
}

/// The instrument a request is about, if it is about one.
pub open spec fn aimed_at(target: Option<&ProviderInstrument>) -> Option<ProviderInstrument> {
    match target {
        Some(instrument) => Some(*instrument),
        None => None,
    }
}

impl ProviderEntry {
    /// The provider implements the operation and, where the request is about
    /// an instrument, may serve it.
    pub open spec fn eligible(
        self,
        operation: Operation,
        target: Option<ProviderInstrument>,
        context: QuoteContext,
    ) -> bool {
        &&& self.capabilities.supports(operation)
        &&& target matches Some(instrument) ==> self.capabilities.serves(instrument, context)
    }

    pub fn is_eligible(
        &self,
        operation: Operation,
        target: Option<&ProviderInstrument>,
        context: &QuoteContext,
    ) -> (r: bool)
        ensures
            r == self.eligible(operation, aimed_at(target), *context),
    {
        if !self.capabilities.supports_operation(operation) {
            return false;
        }
        match target {
            Some(instrument) => crate::capabilities::matches(
                &self.capabilities,
                instrument,
                context,
            ),
            None => true,
        }
    }
}

/// The entry at `a` is tried before the entry at `b`: it has the lower
/// priority value or, with the same, was registered earlier.
pub open spec fn ranks_before(entries: Seq<ProviderEntry>, a: int, b: int) -> bool {
    entries[a].priority < entries[b].priority || (entries[a].priority == entries[b].priority && a
        < b)
}

/// `order` lists the positions of exactly the eligible entries, each before
/// every entry that it ranks before.
pub open spec fn candidate_order(
    entries: Seq<ProviderEntry>,
    operation: Operation,
    target: Option<ProviderInstrument>,
    context: QuoteContext,
    order: Seq<usize>,
) -> bool {
    &&& forall|k: int|
        0 <= k < order.len() ==> (#[trigger] order[k]) < entries.len() && entries[order[k] as int].eligible(
            operation,
            target,
            context,
        )
    &&& forall|i: int|
        0 <= i < entries.len() && (#[trigger] entries[i]).eligible(operation, target, context)
            ==> order.contains(i as usize)
    &&& forall|a: int, b: int|
        0 <= a < b < order.len() ==> ranks_before(
            entries,
            (#[trigger] order[a]) as int,
            (#[trigger] order[b]) as int,
        )
}

/// The registry as contracts see it: the entries in the order they were
/// registered in, and the limiter of each.
pub struct RouterView {
    pub entries: Seq<ProviderEntry>,
    pub limiters: Seq<LimiterView>,
}

/// What the driver of a request is to do next.
#[derive(Clone, Copy, Debug, PartialEq, Eq, Structural)]
pub enum Attempt {
    /// Call the provider at this position; it holds one of its slots.
    Invoke(usize),
    /// Ask again at this time.
    RetryAt(u64),
    /// Ask again after a request of the current candidate has been released.
    AwaitRelease,
    /// No candidate is left: surface the terminal error.
    Exhausted,
}

/// The next thing to do for a request at `now`, with the registry and the
/// progress as they then are.
///
/// The current candidate is asked for admission without waiting for the
/// window. Granted, it is the one to call. Denied, it counts as failed with
/// `RateLimited` and the next candidate is asked. A candidate that has to
/// wait for a slot or for its delay stays current. A candidate that the
/// registry no longer holds is passed over.
pub open spec fn next_step(router: RouterView, progress: FailoverView, now: u64) -> (
    RouterView,
    FailoverView,
    Attempt,
)
    decreases progress.candidates.len() - progress.tried,
{
    match progress.current() {
        None => (router, progress, Attempt::Exhausted),
        Some(i) => if i >= router.entries.len() || i >= router.limiters.len() {
            next_step(router, progress.skipped(), now)
        } else {
            let limiter = router.limiters[i as int];
            let asked = RouterView {
                entries: router.entries,
                limiters: router.limiters.update(i as int, limiter.after_request(now, false)),
            };
            match limiter.decision(now, false) {
                Admission::Granted => (asked, progress, Attempt::Invoke(i)),
                Admission::Denied => next_step(
                    asked,
                    progress.failed(ErrorView::RateLimited { provider: router.entries[i as int].id@ }),
                    now,
                ),
                Admission::RetryAt(t) => (asked, progress, Attempt::RetryAt(t)),
                Admission::AwaitRelease => (asked, progress, Attempt::AwaitRelease),
            }
        },
    }
}

/// One registered provider with its limiter.
struct Registered {
    entry: ProviderEntry,
    limiter: RateLimiter,
}

/// The registry of providers with the limiter of each.
pub struct Router {
    slots: Vec<Registered>,
}

impl View for Router {
    type V = RouterView;

    closed spec fn view(&self) -> RouterView {
        RouterView {
            entries: self.slots@.map_values(|s: Registered| s.entry),
            limiters: self.slots@.map_values(|s: Registered| s.limiter@),
        }
    }
}

impl Router {
    /// A registry without providers.
    pub fn new() -> (r: Router)
        ensures
            r@.entries.len() == 0,
            r@.limiters.len() == 0,
    {
        Router { slots: Vec::new() }
    }

    /// How many providers are registered.
    pub fn len(&self) -> (r: usize)
        ensures
            r == self@.entries.len(),
            r == self@.limiters.len(),
    {
        self.slots.len()
    }

    /// The entry at a position.
    pub fn entry(&self, index: usize) -> (r: Option<&ProviderEntry>)
        ensures
            index < self@.entries.len() ==> r == Some(&self@.entries[index as int]),
            index >= self@.entries.len() ==> r is None,
    {
        if index < self.slots.len() {
            Some(&self.slots[index].entry)
        } else {
            None
        }
    }

    /// Registers a provider after those already registered, with a limiter
    /// that has admitted nothing, and returns its position.
    pub fn register(&mut self, entry: ProviderEntry) -> (index: usize)
        ensures
            index == old(self)@.entries.len(),
            final(self)@.entries == old(self)@.entries.push(entry),
            final(self)@.limiters == old(self)@.limiters.push(
                LimiterView {
                    limit: entry.rate_limit,
                    recent: Seq::empty(),
                    in_flight: 0,
                    last_request: None,
                },
            ),
    {
        let index = self.slots.len();
        let limiter = RateLimiter::new(entry.rate_limit);
        self.slots.push(Registered { entry, limiter });
        proof {
            assert(final(self)@.entries =~= old(self)@.entries.push(entry));
            assert(self@.limiters =~= old(self)@.limiters.push(limiter@));
        }
        index
    }

    /// Takes the provider at a position out of the registry, with its
    /// limiter. Later providers move up by one.
    pub fn unregister(&mut self, index: usize) -> (r: Option<ProviderEntry>)
        ensures
            index < old(self)@.entries.len() ==> r == Some(old(self)@.entries[index as int])
                && final(self)@.entries == old(self)@.entries.remove(index as int)
                && final(self)@.limiters == old(self)@.limiters.remove(index as int),
            index >= old(self)@.entries.len() ==> r is None && final(self)@ == old(self)@,
    {
        if index < self.slots.len() {
            let slot = self.slots.remove(index);
            proof {
                assert(self@.entries =~= old(self)@.entries.remove(index as int));
                assert(self@.limiters =~= old(self)@.limiters.remove(index as int));
            }
            Some(slot.entry)
        } else {
            None
        }
    }

    /// The providers to try for a request, in the order to try them in:
    /// those that implement the operation and may serve the instrument, by
    /// ascending priority value, and in the order of registration where the
    /// values are equal.
    pub fn candidates(
        &self,
        operation: Operation,
        target: Option<&ProviderInstrument>,
        context: &QuoteContext,
    ) -> (order: Vec<usize>)
        ensures
            candidate_order(self@.entries, operation, aimed_at(target), *context, order@),
    {
        let ghost entries = self@.entries;
        let ghost aim = aimed_at(target);
        let mut order: Vec<usize> = Vec::new();
        let mut i: usize = 0;
        while i < self.slots.len()
            invariant
                i <= self.slots.len(),
                entries == self@.entries,
                entries.len() == self.slots.len(),
                aim == aimed_at(target),
                forall|k: int|
                    0 <= k < order.len() ==> (#[trigger] order@[k]) < i && entries[order@[k] as int].eligible(
                        operation,
                        aim,
                        *context,
                    ),
                forall|j: int|
                    0 <= j < i && (#[trigger] entries[j]).eligible(operation, aim, *context)
                        ==> order@.contains(j as usize),
                forall|a: int, b: int|
                    0 <= a < b < order.len() ==> ranks_before(
                        entries,
                        (#[trigger] order@[a]) as int,
                        (#[trigger] order@[b]) as int,
                    ),
            decreases self.slots.len() - i,
        {
            assert(entries[i as int] == self.slots@[i as int].entry);
            if self.slots[i].entry.is_eligible(operation, target, context) {
                let priority: u8 = self.slots[i].entry.priority;
                let mut p: usize = order.len();
                while p > 0 && self.slots[order[p - 1]].entry.priority > priority
                    invariant
                        p <= order.len(),
                        i < self.slots.len(),
                        entries == self@.entries,
                        entries.len() == self.slots.len(),
                        priority == entries[i as int].priority,
                        forall|k: int| 0 <= k < order.len() ==> (#[trigger] order@[k]) < i,
                        forall|k: int|
                            p <= k < order.len() ==> entries[(#[trigger] order@[k]) as int].priority
                                > priority,
                    decreases p,
                {
                    assert(entries[order@[p - 1] as int] == self.slots@[order@[p - 1] as int].entry);
                    p -= 1;
                }
                let ghost before = order@;
                proof {
                    if p > 0 {
                        assert(entries[before[p - 1] as int] == self.slots@[before[p - 1] as int].entry);
                    }
                }
                order.insert(p, i);
                proof {
                    let after = order@;
                    assert(after == before.insert(p as int, i));
                    assert forall|j: int|
                        0 <= j < i + 1 && (#[trigger] entries[j]).eligible(
                            operation,
                            aim,
                            *context,
                        ) implies after.contains(j as usize) by {
                        if j == i {
                            assert(after[p as int] == i);
                        } else {
                            assert(before.contains(j as usize));
                            let k = choose|k: int| 0 <= k < before.len() && before[k] == j as usize;
                            if k < p {
                                assert(after[k] == before[k]);
                            } else {
                                assert(after[k + 1] == before[k]);
                            }
                        }
                    }
                    assert forall|a: int, b: int| 0 <= a < b < after.len() implies ranks_before(
                        entries,
                        (#[trigger] after[a]) as int,
                        (#[trigger] after[b]) as int,
                    ) by {
                        if b < p {
                            assert(after[a] == before[a] && after[b] == before[b]);
                        } else if b == p {
                            assert(after[a] == before[a]);
                            if a < p - 1 {
                                assert(ranks_before(
                                    entries,
                                    before[a] as int,
                                    before[p - 1] as int,
                                ));
                            }
                        } else if a < p {
                            assert(after[a] == before[a] && after[b] == before[b - 1]);
                        } else if a == p {
                            assert(after[b] == before[b - 1]);
                        } else {
                            assert(after[a] == before[a - 1] && after[b] == before[b - 1]);
                        }
                    }
                }
            }
            i += 1;
        }
        order
    }

    /// Decides what the driver of a request is to do next, and records what
    /// the decision changes: the admissions asked of the limiters, the slot
    /// taken for the provider to call, and the candidates that were denied.
    pub fn next_attempt(&mut self, progress: &mut Failover, now: u64) -> (r: Attempt)
        ensures
            (final(self)@, final(progress)@, r) == next_step(old(self)@, old(progress)@, now),
            final(self)@.entries == old(self)@.entries,
            r matches Attempt::Invoke(i) ==> old(progress)@.candidates.contains(i) && i < old(
                self,
            )@.entries.len(),
    {
        loop
            invariant
                next_step(self@, progress@, now) == next_step(old(self)@, old(progress)@, now),
                self@.entries == old(self)@.entries,
                progress@.candidates == old(progress)@.candidates,
            decreases progress@.candidates.len() - progress@.tried,
        {
            let ghost router_before = self@;
            let ghost progress_before = progress@;
            match progress.current() {
                None => {
                    return Attempt::Exhausted;
                },
                Some(i) => {
                    if i >= self.slots.len() {
                        progress.skip();
                    } else {
                        let decision = self.slots[i].limiter.acquire(now, false);
                        proof {
                            assert(self@.entries =~= router_before.entries);
                            assert(self@.limiters =~= router_before.limiters.update(
                                i as int,
                                router_before.limiters[i as int].after_request(now, false),
                            ));
                        }
                        match decision {
                            Admission::Granted => {
                                return Attempt::Invoke(i);
                            },
                            Admission::Denied => {
                                let provider = self.slots[i].entry.id.clone();
                                progress.record_failure(MarketDataError::RateLimited { provider });
                            },
                            Admission::RetryAt(t) => {
                                return Attempt::RetryAt(t);
                            },
                            Admission::AwaitRelease => {
                                return Attempt::AwaitRelease;
                            },
                        }
                    }
                },
            }
        }
    }

    /// Gives back the slot that the provider at a position held for a call
    /// that has completed or been abandoned. Without such a provider nothing
    /// changes.
    pub fn release(&mut self, index: usize)
        ensures
            final(self)@.entries == old(self)@.entries,
            index < old(self)@.limiters.len() ==> final(self)@.limiters == old(
                self,
            )@.limiters.update(index as int, old(self)@.limiters[index as int].after_release()),
            index >= old(self)@.limiters.len() ==> final(self)@.limiters == old(self)@.limiters,
    {
        if index < self.slots.len() {
            self.slots[index].limiter.release();
            proof {
                assert(self@.entries =~= old(self)@.entries);
                assert(self@.limiters =~= old(self)@.limiters.update(
                    index as int,
                    old(self)@.limiters[index as int].after_release(),
                ));
            }
        }
    }
}

/// Whatever the limiters answer, the provider to call is one of the
/// candidates of the request and is registered; the registry keeps its
/// entries and the request its candidates.
pub proof fn law_only_candidates_invoked(router: RouterView, progress: FailoverView, now: u64)
    ensures
        next_step(router, progress, now).0.entries == router.entries,
        next_step(router, progress, now).1.candidates == progress.candidates,
        next_step(router, progress, now).2 matches Attempt::Invoke(i)
            ==> progress.candidates.contains(i) && i < router.entries.len(),
    decreases progress.candidates.len() - progress.tried,
{
    match progress.current() {
        None => {},
        Some(i) => {
            if i >= router.entries.len() || i >= router.limiters.len() {
                law_only_candidates_invoked(router, progress.skipped(), now);
            } else {
                let limiter = router.limiters[i as int];
                let asked = RouterView {
                    entries: router.entries,
                    limiters: router.limiters.update(i as int, limiter.after_request(now, false)),
                };
                if limiter.decision(now, false) == Admission::Denied {
                    law_only_candidates_invoked(
                        asked,
                        progress.failed(
                            ErrorView::RateLimited { provider: router.entries[i as int].id@ },
                        ),
                        now,
                    );
                }
            }
        },
    }
}

/// A provider whose capabilities do not match the instrument of a request
/// is never the one to call for it: not at any point of the request's
/// progress through the candidates chosen for it, whatever the limiters
/// answer.
pub proof fn law_unmatched_never_invoked(
    router: RouterView,
    operation: Operation,
    instrument: ProviderInstrument,
    context: QuoteContext,
    progress: FailoverView,
    now: u64,
    position: usize,
)
    requires
        candidate_order(
            router.entries,
            operation,
            Some(instrument),
            context,
            progress.candidates,
        ),
        position < router.entries.len(),
        !router.entries[position as int].capabilities.serves(instrument, context),
    ensures
        next_step(router, progress, now).2 != Attempt::Invoke(position),
{
    law_only_candidates_invoked(router, progress, now);
    if progress.candidates.contains(position) {
        let k = choose|k: int| 0 <= k < progress.candidates.len() && progress.candidates[k] == position;
        assert(router.entries[progress.candidates[k] as int].eligible(
            operation,
            Some(instrument),
            context,
        ));
    }
}

/// `order` lists exactly the positions in `members`, each before every
/// position that it ranks before.
spec fn ranked_listing(entries: Seq<ProviderEntry>, members: Set<usize>, order: Seq<usize>) -> bool {
    &&& forall|k: int| 0 <= k < order.len() ==> members.contains(#[trigger] order[k])
    &&& forall|i: usize| members.contains(i) ==> #[trigger] order.contains(i)
    &&& forall|a: int, b: int|
        0 <= a < b < order.len() ==> ranks_before(
            entries,
            (#[trigger] order[a]) as int,
            (#[trigger] order[b]) as int,
        )
}

proof fn lemma_ranked_listing_unique(
    entries: Seq<ProviderEntry>,
    members: Set<usize>,
    first: Seq<usize>,
    second: Seq<usize>,
)
    requires
        ranked_listing(entries, members, first),
        ranked_listing(entries, members, second),
    ensures
        first == second,
    decreases first.len(),
{
    if first.len() == 0 {
        if second.len() > 0 {
            assert(members.contains(second[0]));
            assert(first.contains(second[0]));
        }
        assert(first =~= second);
    } else {
        let a = first.last();
        assert(members.contains(first[first.len() - 1]));
        assert(second.contains(a));
        let ka = choose|k: int| 0 <= k < second.len() && second[k] == a;
        let b = second.last();
        assert(members.contains(second[second.len() - 1]));
        assert(first.contains(b));
        let kb = choose|k: int| 0 <= k < first.len() && first[k] == b;
        if ka < second.len() - 1 && kb < first.len() - 1 {
            assert(ranks_before(entries, second[ka] as int, second[second.len() - 1] as int));
            assert(ranks_before(entries, first[kb] as int, first[first.len() - 1] as int));
        }
        assert(a == b);
        let fewer = members.remove(a);
        lemma_without_last(entries, members, first);
        lemma_without_last(entries, members, second);
        lemma_ranked_listing_unique(entries, fewer, first.drop_last(), second.drop_last());
        assert(first =~= first.drop_last().push(a));
        assert(second =~= second.drop_last().push(b));
    }
}

proof fn lemma_without_last(entries: Seq<ProviderEntry>, members: Set<usize>, order: Seq<usize>)
    requires
        ranked_listing(entries, members, order),
        order.len() > 0,
    ensures
        ranked_listing(entries, members.remove(order.last()), order.drop_last()),
{
    let last = order.last();
    let front = order.drop_last();
    assert forall|k: int| 0 <= k < front.len() implies members.remove(last).contains(
        #[trigger] front[k],
    ) by {
        assert(front[k] == order[k]);
        assert(ranks_before(entries, order[k] as int, order[order.len() - 1] as int));
    }
    assert forall|i: usize| members.remove(last).contains(i) implies #[trigger] front.contains(
        i,
    ) by {
        assert(order.contains(i));
        let k = choose|k: int| 0 <= k < order.len() && order[k] == i;
        assert(front[k] == i);
    }
    assert forall|a: int, b: int| 0 <= a < b < front.len() implies ranks_before(
        entries,
        (#[trigger] front[a]) as int,
        (#[trigger] front[b]) as int,
    ) by {
        assert(front[a] == order[a] && front[b] == order[b]);
    }
}

/// The candidates of a request are determined: two orders that both list
/// exactly the eligible entries by rank are the same order.
pub proof fn law_candidate_order_unique(
    entries: Seq<ProviderEntry>,
    operation: Operation,
    target: Option<ProviderInstrument>,
    context: QuoteContext,
    first: Seq<usize>,
    second: Seq<usize>,
)
    requires
        candidate_order(entries, operation, target, context, first),
        candidate_order(entries, operation, target, context, second),
    ensures
        first == second,
{
    let members = Set::new(
        |i: usize| i < entries.len() && entries[i as int].eligible(operation, target, context),
    );
    assert(ranked_listing(entries, members, first)) by {
        assert forall|i: usize| members.contains(i) implies #[trigger] first.contains(i) by {
            assert(entries[i as int].eligible(operation, target, context));
        }
    }
    assert(ranked_listing(entries, members, second)) by {
        assert forall|i: usize| members.contains(i) implies #[trigger] second.contains(i) by {
            assert(entries[i as int].eligible(operation, target, context));
        }
    }
    lemma_ranked_listing_unique(entries, members, first, second);
}

} // verus!
