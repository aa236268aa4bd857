//! Putting quotes in chronological order without disturbing the order of
//! quotes that share an instant.

use crate::models::{quote_views, Quote, QuoteView};
use crate::time::Timestamp;
use vstd::prelude::*;

verus! {

/// The quotes of `bars` whose instant is `t`, in their order.
pub open spec fn bars_at(bars: Seq<QuoteView>, t: Timestamp) -> Seq<QuoteView>
    decreases bars.len(),
{
    if bars.len() == 0 {
        bars
    } else if bars.last().timestamp == t {
        bars_at(bars.drop_last(), t).push(bars.last())
    } else {
        bars_at(bars.drop_last(), t)
    }
}

/// No quote comes before an earlier one.
pub open spec fn chronological(bars: Seq<QuoteView>) -> bool {
    forall|i: int, j: int|
        0 <= i < j < bars.len() ==> (#[trigger] bars[i]).timestamp.at_or_before(
            (#[trigger] bars[j]).timestamp,
        )
}

/// Every quote comes strictly before the next.
pub open spec fn strictly_chronological(bars: Seq<QuoteView>) -> bool {
    forall|i: int, j: int|
        0 <= i < j < bars.len() ==> (#[trigger] bars[i]).timestamp.precedes(
            (#[trigger] bars[j]).timestamp,
        )
}

/// No two quotes share an instant.
pub open spec fn distinct_instants(bars: Seq<QuoteView>) -> bool {
    forall|i: int, j: int|
        0 <= i < j < bars.len() ==> (#[trigger] bars[i]).timestamp != (
        #[trigger] bars[j]).timestamp
}

/// `out` holds the quotes of `input`, each as often, in chronological order,
/// and those of one instant in the order that `input` has them in.
pub open spec fn arranged(out: Seq<QuoteView>, input: Seq<QuoteView>) -> bool {
    &&& out.len() == input.len()
    &&& chronological(out)
    &&& forall|t: Timestamp| #[trigger] bars_at(out, t) == bars_at(input, t)
}

/// Where to put a quote of instant `t` into the chronological `bars`: after
/// every quote that is not later.
fn slot_for(bars: &Vec<Quote>, t: &Timestamp) -> (p: usize)
    requires
        chronological(quote_views(bars@)),
    ensures
        p <= bars.len(),
        forall|k: int| 0 <= k < p ==> (#[trigger] bars@[k]).timestamp.at_or_before(*t),
        forall|k: int| p <= k < bars.len() ==> t.precedes((#[trigger] bars@[k]).timestamp),
{
    let mut p: usize = bars.len();
    while p > 0 && t.is_before(&bars[p - 1].timestamp)
        invariant
            p <= bars.len(),
            chronological(quote_views(bars@)),
            forall|k: int| p <= k < bars.len() ==> t.precedes((#[trigger] bars@[k]).timestamp),
        decreases p,
    {
        p -= 1;
    }
    proof {
        let views = quote_views(bars@);
        assert forall|k: int| 0 <= k < p implies (#[trigger] bars@[k]).timestamp.at_or_before(
            *t,
        ) by {
            assert(views[k].timestamp.at_or_before(views[p - 1].timestamp));
            assert(views[k].timestamp == bars@[k].timestamp);
        }
    }
    p
}

/// Puts the quotes in chronological order. Quotes of one instant keep the
/// order they came in.
pub fn sort_chronologically(quotes: Vec<Quote>) -> (out: Vec<Quote>)
    ensures
        arranged(quote_views(out@), quote_views(quotes@)),
{
    let ghost input = quote_views(quotes@);
    let mut rest = quotes;
    let mut out: Vec<Quote> = Vec::new();
    let ghost mut done: int = 0;
    proof {
        assert(input.skip(0) =~= input);
        assert(quote_views(out@) =~= input.take(0));
    }
    while rest.len() > 0
        invariant
            0 <= done <= input.len(),
            quote_views(rest@) == input.skip(done),
            arranged(quote_views(out@), input.take(done)),
        decreases rest.len(),
    {
        let ghost pending = rest@;
        let quote = rest.remove(0);
        let p = slot_for(&out, &quote.timestamp);
        proof {
            let before = quote_views(out@);
            let after = before.insert(p as int, quote@);
            assert(quote_views(pending).len() == pending.len());
            assert(done < input.len());
            assert(quote@ == input[done]) by {
                assert(quote_views(pending)[0] == pending[0]@);
                assert(input.skip(done)[0] == input[done]);
            }
            assert(quote_views(out@.insert(p as int, quote)) =~= after);
            assert(quote_views(rest@) =~= input.skip(done + 1)) by {
                assert forall|k: int| 0 <= k < rest@.len() implies quote_views(rest@)[k]
                    == input.skip(done + 1)[k] by {
                    assert(rest@[k] == pending[k + 1]);
                    assert(quote_views(pending)[k + 1] == pending[k + 1]@);
                    assert(input.skip(done)[k + 1] == input[done + k + 1]);
                }
            }
            assert(input.take(done + 1).drop_last() =~= input.take(done));
            assert forall|t: Timestamp| #[trigger]
                bars_at(after, t) == bars_at(input.take(done + 1), t) by {
                lemma_insert_among(before, p as int, quote@, t);
                assert(bars_at(before, t) == bars_at(input.take(done), t));
            }
            assert(chronological(after)) by {
                assert forall|i: int, j: int| 0 <= i < j < after.len() implies (
                #[trigger] after[i]).timestamp.at_or_before((#[trigger] after[j]).timestamp) by {
                    if j < p {
                        assert(after[i] == before[i] && after[j] == before[j]);
                    } else if j == p {
                        assert(after[i] == before[i]);
                        assert(before[i].timestamp == out@[i].timestamp);
                    } else if i < p {
                        assert(after[i] == before[i] && after[j] == before[j - 1]);
                    } else if i == p {
                        assert(after[j] == before[j - 1]);
                        assert(before[j - 1].timestamp == out@[j - 1].timestamp);
                    } else {
                        assert(after[i] == before[i - 1] && after[j] == before[j - 1]);
                    }
                }
            }
            done = done + 1;
        }
        out.insert(p, quote);
    }
    proof {
        assert(input.take(done) =~= input);
    }
    out
}

/// Inserting `quote` adds it to the quotes of its own instant, at their end
/// where no later quote shares that instant, and changes the quotes of no
/// other instant.
proof fn lemma_insert_among(bars: Seq<QuoteView>, p: int, quote: QuoteView, t: Timestamp)
    requires
        0 <= p <= bars.len(),
        forall|k: int| p <= k < bars.len() ==> (#[trigger] bars[k]).timestamp != quote.timestamp,
    ensures
        bars_at(bars.insert(p, quote), t) == if quote.timestamp == t {
            bars_at(bars, t).push(quote)
        } else {
            bars_at(bars, t)
        },
    decreases bars.len() - p,
{
    let grown = bars.insert(p, quote);
    if p == bars.len() {
        assert(grown.drop_last() =~= bars);
        assert(grown.last() == quote);
    } else {
        assert(grown.last() == bars.last());
        assert(grown.drop_last() =~= bars.drop_last().insert(p, quote));
        assert forall|k: int| p <= k < bars.drop_last().len() implies (
        #[trigger] bars.drop_last()[k]).timestamp != quote.timestamp by {
            assert(bars.drop_last()[k] == bars[k]);
        }
        lemma_insert_among(bars.drop_last(), p, quote, t);
        assert(bars[bars.len() - 1].timestamp != quote.timestamp);
    }
}

/// A run with two quotes of instant `t`, at `i` and `j`, has at least two
/// quotes of that instant.
proof fn lemma_two_at(bars: Seq<QuoteView>, i: int, j: int, t: Timestamp)
    requires
        0 <= i < j < bars.len(),
        bars[i].timestamp == t,
        bars[j].timestamp == t,
    ensures
        bars_at(bars, t).len() >= 2,
    decreases bars.len(),
{
    if j == bars.len() - 1 {
        lemma_one_at(bars.drop_last(), i, t);
    } else {
        lemma_two_at(bars.drop_last(), i, j, t);
    }
}

proof fn lemma_one_at(bars: Seq<QuoteView>, i: int, t: Timestamp)
    requires
        0 <= i < bars.len(),
        bars[i].timestamp == t,
    ensures
        bars_at(bars, t).len() >= 1,
    decreases bars.len(),
{
    if i < bars.len() - 1 {
        lemma_one_at(bars.drop_last(), i, t);
    }
}

/// A run without two quotes of one instant has at most one quote of any
/// instant.
proof fn lemma_distinct_at_most_one(bars: Seq<QuoteView>, t: Timestamp)
    requires
        distinct_instants(bars),
    ensures
        bars_at(bars, t).len() <= 1,
    decreases bars.len(),
{
    if bars.len() > 0 {
        let front = bars.drop_last();
        assert(distinct_instants(front)) by {
            assert forall|i: int, j: int| 0 <= i < j < front.len() implies (
            #[trigger] front[i]).timestamp != (#[trigger] front[j]).timestamp by {
                assert(front[i] == bars[i] && front[j] == bars[j]);
            }
        }
        lemma_distinct_at_most_one(front, t);
        if bars.last().timestamp == t && bars_at(front, t).len() >= 1 {
            lemma_member_at(front, t);
            let k = choose|k: int| 0 <= k < front.len() && front[k].timestamp == t;
            assert(bars[k].timestamp != bars[bars.len() - 1].timestamp);
        }
    }
}

proof fn lemma_member_at(bars: Seq<QuoteView>, t: Timestamp)
    requires
        bars_at(bars, t).len() >= 1,
    ensures
        exists|k: int| 0 <= k < bars.len() && bars[k].timestamp == t,
    decreases bars.len(),
{
    if bars.len() > 0 {
        if bars.last().timestamp == t {
            assert(bars[bars.len() - 1].timestamp == t);
        } else {
            lemma_member_at(bars.drop_last(), t);
            let k = choose|k: int| 0 <= k < bars.drop_last().len() && bars.drop_last()[k].timestamp
                == t;
            assert(bars[k].timestamp == t);
        }
    }
}

/// Where no two quotes of the input share an instant, its arrangement is
/// strictly chronological.
pub proof fn law_distinct_instants_strictly_ordered(out: Seq<QuoteView>, input: Seq<QuoteView>)
    requires
        arranged(out, input),
        distinct_instants(input),
    ensures
        strictly_chronological(out),
{
    assert forall|i: int, j: int| 0 <= i < j < out.len() implies (#[trigger] out[i]).timestamp.precedes(
        (#[trigger] out[j]).timestamp,
    ) by {
        if out[i].timestamp == out[j].timestamp {
            let t = out[i].timestamp;
            lemma_two_at(out, i, j, t);
            lemma_distinct_at_most_one(input, t);
            assert(bars_at(out, t) == bars_at(input, t));
        }
    }
}

} // verus!
