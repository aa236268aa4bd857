//! The throughput governor of one provider: a ceiling on the requests of any
//! one minute, a ceiling on the requests in flight, and a least delay between
//! successive requests.
//!
//! The limiter decides and records; it never waits. Time is handed in as
//! milliseconds on a clock of the caller's choice.

use crate::capabilities::RateLimit;
use vstd::prelude::*;

verus! {

/// Length of the sliding window, in milliseconds.
pub const WINDOW_MS: u64 = 60_000;

/// What the limiter answers to a request for admission.
#[derive(Clone, Copy, Debug, PartialEq, Eq, Structural)]
pub enum Admission {
    /// The request may go out now; it holds a slot until it is released.
    Granted,
    /// The ceiling of the minute is reached and the caller will not wait.
    Denied,
    /// Ask again at this time.
    RetryAt(u64),
    /// Every slot is in flight: ask again after a release.
    AwaitRelease,
}

/// The state of a limiter as contracts see it.
pub struct LimiterView {
    pub limit: RateLimit,
    /// Times of the admitted requests that the window may still hold.
    pub recent: Seq<u64>,
    /// Requests admitted and not yet released.
    pub in_flight: nat,
    /// Time of the last admitted request.
    pub last_request: Option<u64>,
}

/// An admission at `t` still counts at `now`: it is less than a window old.
pub open spec fn within_window(t: u64, now: u64) -> bool {
    t + WINDOW_MS > now
}

/// The entries of `recent` that still count at `now`, in their order.
pub open spec fn live_entries(recent: Seq<u64>, now: u64) -> Seq<u64>
    decreases recent.len(),
{
    if recent.len() == 0 {
        recent
    } else if within_window(recent.last(), now) {
        live_entries(recent.drop_last(), now).push(recent.last())
    } else {
        live_entries(recent.drop_last(), now)
    }
}

/// `a + b`, or the largest time where the sum does not fit.
pub open spec fn capped_sum(a: u64, b: u64) -> u64 {
    if a + b > u64::MAX {
        u64::MAX
    } else {
        (a + b) as u64
    }
}

fn capped_add(a: u64, b: u64) -> (r: u64)
    ensures
        r == capped_sum(a, b),
{
    if a > u64::MAX - b {
        u64::MAX
    } else {
        a + b
    }
}

impl LimiterView {
    /// Neither ceiling is exceeded.
    pub open spec fn within_limits(self) -> bool {
        &&& self.recent.len() <= self.limit.requests_per_minute
        &&& self.in_flight <= self.limit.max_concurrency
    }

    /// The answer to a request for admission at `now`.
    ///
    /// With the ceiling of the minute reached, a caller that will not wait is
    /// denied, and one that will is told when the oldest admission leaves the
    /// window. Otherwise a free slot is needed, then the least delay since
    /// the last admission; with both the request is granted.
    pub open spec fn decision(self, now: u64, blocking: bool) -> Admission {
        let live = live_entries(self.recent, now);
        if live.len() >= self.limit.requests_per_minute {
            if blocking && live.len() > 0 {
                Admission::RetryAt(capped_sum(live[0], WINDOW_MS))
            } else {
                Admission::Denied
            }
        } else if self.in_flight >= self.limit.max_concurrency {
            Admission::AwaitRelease
        } else {
            match self.last_request {
                Some(last) if now < last + self.limit.min_delay_ms => Admission::RetryAt(
                    capped_sum(last, self.limit.min_delay_ms),
                ),
                _ => Admission::Granted,
            }
        }
    }

    /// The state after a request for admission at `now`: expired entries are
    /// dropped, and a granted request is recorded and takes a slot. A request
    /// that is not granted takes none.
    pub open spec fn after_request(self, now: u64, blocking: bool) -> LimiterView {
        let live = live_entries(self.recent, now);
        if self.decision(now, blocking) == Admission::Granted {
            LimiterView {
                limit: self.limit,
                recent: live.push(now),
                in_flight: self.in_flight + 1,
                last_request: Some(now),
            }
        } else {
            LimiterView { recent: live, ..self }
        }
    }

    /// The state after a request in flight has completed or been abandoned.
    pub open spec fn after_release(self) -> LimiterView {
        LimiterView {
            in_flight: if self.in_flight > 0 {
                (self.in_flight - 1) as nat
            } else {
                0
            },
            ..self
        }
    }
}

/// The limiter of one provider.
#[derive(Debug)]
pub struct RateLimiter {
    limit: RateLimit,
    recent: Vec<u64>,
    in_flight: u32,
    last_request: Option<u64>,
}

impl View for RateLimiter {
    type V = LimiterView;

    closed spec fn view(&self) -> LimiterView {
        LimiterView {
            limit: self.limit,
            recent: self.recent@,
            in_flight: self.in_flight as nat,
            last_request: self.last_request,
        }
    }
}

impl RateLimiter {
    #[verifier::type_invariant]
    spec fn holds_limits(self) -> bool {
        self@.within_limits()
    }

    /// A limiter with nothing admitted yet.
    pub fn new(limit: RateLimit) -> (r: RateLimiter)
        ensures
            r@ == (LimiterView { limit, recent: Seq::empty(), in_flight: 0, last_request: None }),
    {
        RateLimiter { limit, recent: Vec::new(), in_flight: 0, last_request: None }
    }

    pub fn limit(&self) -> (r: RateLimit)
        ensures
            r == self@.limit,
    {
        self.limit
    }

    /// Requests admitted and not yet released.
    pub fn in_flight(&self) -> (r: u32)
        ensures
            r == self@.in_flight,
            r <= self@.limit.max_concurrency,
    {
        proof {
            use_type_invariant(self);
        }
        self.in_flight
    }

    /// Admissions that the window held at the last request.
    pub fn recent_count(&self) -> (r: usize)
        ensures
            r == self@.recent.len(),
            r <= self@.limit.requests_per_minute,
    {
        proof {
            use_type_invariant(self);
        }
        self.recent.len()
    }

    /// Asks for admission at `now`. `blocking` says whether the caller is
    /// willing to wait for the window; the limiter itself never waits.
    pub fn acquire(&mut self, now: u64, blocking: bool) -> (r: Admission)
        ensures
            r == old(self)@.decision(now, blocking),
            final(self)@ == old(self)@.after_request(now, blocking),
            final(self)@.within_limits(),
    {
        proof {
            use_type_invariant(&*self);
        }
        let live = keep_live(&self.recent, now);
        let decision = if live.len() >= self.limit.requests_per_minute as usize {
            if blocking && live.len() > 0 {
                Admission::RetryAt(capped_add(live[0], WINDOW_MS))
            } else {
                Admission::Denied
            }
        } else if self.in_flight >= self.limit.max_concurrency {
            Admission::AwaitRelease
        } else {
            match self.last_request {
                Some(last) if now < last || now - last < self.limit.min_delay_ms => {
                    Admission::RetryAt(capped_add(last, self.limit.min_delay_ms))
                },
                _ => Admission::Granted,
            }
        };
        let mut live = live;
        match decision {
            Admission::Granted => {
                live.push(now);
                self.recent = live;
                self.in_flight = self.in_flight + 1;
                self.last_request = Some(now);
            },
            _ => {
                self.recent = live;
            },
        }
        decision
    }

    /// Gives back the slot of a request that has completed or been abandoned.
    pub fn release(&mut self)
        ensures
            final(self)@ == old(self)@.after_release(),
            final(self)@.within_limits(),
    {
        proof {
            use_type_invariant(&*self);
        }
        if self.in_flight > 0 {
            self.in_flight = self.in_flight - 1;
        }
    }
}

/// No more entries are live than there are entries.
proof fn lemma_live_entries_bounded(recent: Seq<u64>, now: u64)
    ensures
        live_entries(recent, now).len() <= recent.len(),
    decreases recent.len(),
{
    if recent.len() > 0 {
        lemma_live_entries_bounded(recent.drop_last(), now);
    }
}

/// The state after requests for admission at `times`, one after the other,
/// by a caller that will not wait and releases nothing meanwhile.
pub open spec fn after_burst(start: LimiterView, times: Seq<u64>) -> LimiterView
    decreases times.len(),
{
    if times.len() == 0 {
        start
    } else {
        after_burst(start, times.drop_last()).after_request(times.last(), false)
    }
}

/// How many of the requests of such a burst are granted.
pub open spec fn granted_in_burst(start: LimiterView, times: Seq<u64>) -> nat
    decreases times.len(),
{
    if times.len() == 0 {
        0
    } else {
        let before = after_burst(start, times.drop_last());
        let earlier = granted_in_burst(start, times.drop_last());
        if before.decision(times.last(), false) == Admission::Granted {
            earlier + 1
        } else {
            earlier
        }
    }
}

/// How many entries of `recent` are at or after `from`.
pub open spec fn count_since(recent: Seq<u64>, from: u64) -> nat
    decreases recent.len(),
{
    if recent.len() == 0 {
        0
    } else if recent.last() >= from {
        count_since(recent.drop_last(), from) + 1
    } else {
        count_since(recent.drop_last(), from)
    }
}

/// A request for admission leaves both ceilings respected.
pub proof fn law_request_keeps_limits(state: LimiterView, now: u64, blocking: bool)
    requires
        state.within_limits(),
    ensures
        state.after_request(now, blocking).within_limits(),
        state.decision(now, blocking) != Admission::Granted ==> state.after_request(
            now,
            blocking,
        ).in_flight == state.in_flight,
{
    lemma_live_entries_bounded(state.recent, now);
}

/// A release leaves both ceilings respected.
pub proof fn law_release_keeps_limits(state: LimiterView)
    requires
        state.within_limits(),
    ensures
        state.after_release().within_limits(),
{
}

/// With the ceiling of the minute reached, a caller that will not wait is
/// denied and the slots in flight stay as they were.
pub proof fn law_exhausted_window_denies(state: LimiterView, now: u64)
    requires
        live_entries(state.recent, now).len() >= state.limit.requests_per_minute,
    ensures
        state.decision(now, false) == Admission::Denied,
        state.after_request(now, false).in_flight == state.in_flight,
{
}

/// Of the requests that a caller who will not wait makes within one window,
/// no more than `requests_per_minute` are granted, however many it makes;
/// each granted one takes exactly one slot, the others none, and neither
/// ceiling is ever exceeded.
pub proof fn law_burst_within_ceiling(start: LimiterView, times: Seq<u64>, from: u64)
    requires
        start.within_limits(),
        forall|i: int| 0 <= i < times.len() ==> from <= #[trigger] times[i] < from + WINDOW_MS,
    ensures
        granted_in_burst(start, times) <= start.limit.requests_per_minute,
        after_burst(start, times).within_limits(),
        after_burst(start, times).limit == start.limit,
        after_burst(start, times).in_flight == start.in_flight + granted_in_burst(start, times),
{
    lemma_burst(start, times, from);
    lemma_count_since_bounded(after_burst(start, times).recent, from);
}

proof fn lemma_burst(start: LimiterView, times: Seq<u64>, from: u64)
    requires
        start.within_limits(),
        forall|i: int| 0 <= i < times.len() ==> from <= #[trigger] times[i] < from + WINDOW_MS,
    ensures
        after_burst(start, times).within_limits(),
        after_burst(start, times).limit == start.limit,
        after_burst(start, times).in_flight == start.in_flight + granted_in_burst(start, times),
        granted_in_burst(start, times) <= count_since(after_burst(start, times).recent, from),
    decreases times.len(),
{
    if times.len() > 0 {
        let earlier = times.drop_last();
        let now = times.last();
        assert forall|i: int| 0 <= i < earlier.len() implies from <= #[trigger] earlier[i] < from
            + WINDOW_MS by {
            assert(earlier[i] == times[i]);
        }
        lemma_burst(start, earlier, from);
        let before = after_burst(start, earlier);
        law_request_keeps_limits(before, now, false);
        lemma_live_keeps_since(before.recent, now, from);
        let live = live_entries(before.recent, now);
        assert(times[times.len() - 1] == now);
        assert(live.push(now).drop_last() =~= live);
        assert(live.push(now).last() == now);
    }
}

proof fn lemma_live_keeps_since(recent: Seq<u64>, now: u64, from: u64)
    requires
        now < from + WINDOW_MS,
    ensures
        count_since(live_entries(recent, now), from) == count_since(recent, from),
    decreases recent.len(),
{
    if recent.len() > 0 {
        lemma_live_keeps_since(recent.drop_last(), now, from);
        if within_window(recent.last(), now) {
            let kept = live_entries(recent.drop_last(), now).push(recent.last());
            assert(kept.drop_last() =~= live_entries(recent.drop_last(), now));
        }
    }
}

proof fn lemma_count_since_bounded(recent: Seq<u64>, from: u64)
    ensures
        count_since(recent, from) <= recent.len(),
    decreases recent.len(),
{
    if recent.len() > 0 {
        lemma_count_since_bounded(recent.drop_last(), from);
    }
}

fn keep_live(recent: &Vec<u64>, now: u64) -> (r: Vec<u64>)
    ensures
        r@ == live_entries(recent@, now),
        r.len() <= recent.len(),
{
    let mut kept: Vec<u64> = Vec::new();
    let mut i: usize = 0;
    while i < recent.len()
        invariant
            i <= recent.len(),
            kept@ == live_entries(recent@.take(i as int), now),
            kept.len() <= i,
        decreases recent.len() - i,
    {
        let t: u64 = recent[i];
        proof {
            let next = recent@.take(i + 1);
            assert(next.drop_last() =~= recent@.take(i as int));
            assert(next.last() == t);
        }
        if now < t || now - t < WINDOW_MS {
            kept.push(t);
        }
        i += 1;
    }
    proof {
        assert(recent@.take(recent.len() as int) =~= recent@);
    }
    kept
}

} // verus!
