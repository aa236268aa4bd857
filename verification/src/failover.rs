//! The progress of one request through its candidates, and the error to
//! surface when all of them have failed.

use crate::errors::{ErrorClass, ErrorView, MarketDataError};
use vstd::prelude::*;

verus! {

/// The progress of one request through its candidates.
pub struct FailoverView {
    /// Positions of the candidates, in the order they are tried in.
    pub candidates: Seq<usize>,
    /// How many candidates are done with.
    pub tried: nat,
    /// The failures reported so far, oldest first.
    pub failures: Seq<ErrorView>,
}

/// The last failure of the class, if there is one.
pub open spec fn last_of_class(failures: Seq<ErrorView>, class: ErrorClass) -> Option<ErrorView>
    decreases failures.len(),
{
    if failures.len() == 0 {
        None
    } else if failures.last().class() == class {
        Some(failures.last())
    } else {
        last_of_class(failures.drop_last(), class)
    }
}

/// The error to surface when every candidate has failed: the last answer
/// that there is nothing; failing that, the last fault; failing that, the
/// last transient failure; and with no failure at all, that no provider is
/// available.
pub open spec fn terminal_error(failures: Seq<ErrorView>) -> ErrorView {
    match last_of_class(failures, ErrorClass::NotFound) {
        Some(error) => error,
        None => match last_of_class(failures, ErrorClass::Hard) {
            Some(error) => error,
            None => match last_of_class(failures, ErrorClass::Transient) {
                Some(error) => error,
                None => ErrorView::NoProvidersAvailable,
            },
        },
    }
}

impl FailoverView {
    /// The candidate to try now.
    pub open spec fn current(self) -> Option<usize> {
        if self.tried < self.candidates.len() {
            Some(self.candidates[self.tried as int])
        } else {
            None
        }
    }

    /// The progress after the current candidate has failed with `error`.
    pub open spec fn failed(self, error: ErrorView) -> FailoverView {
        FailoverView {
            candidates: self.candidates,
            tried: if self.tried < self.candidates.len() {
                self.tried + 1
            } else {
                self.tried
            },
            failures: self.failures.push(error),
        }
    }

    /// The progress after the current candidate has been passed over.
    pub open spec fn skipped(self) -> FailoverView {
        FailoverView {
            tried: if self.tried < self.candidates.len() {
                self.tried + 1
            } else {
                self.tried
            },
            ..self
        }
    }
}

/// The view of an optional error.
pub open spec fn opt_error(error: Option<MarketDataError>) -> Option<ErrorView> {
    match error {
        Some(e) => Some(e@),
        None => None,
    }
}

/// The last failure of each class, and the failures they were picked from.
struct Remembered {
    not_found: Option<MarketDataError>,
    hard: Option<MarketDataError>,
    transient: Option<MarketDataError>,
    failures: Ghost<Seq<ErrorView>>,
}

impl Remembered {
    spec fn consistent(self) -> bool {
        &&& opt_error(self.not_found) == last_of_class(self.failures@, ErrorClass::NotFound)
        &&& opt_error(self.hard) == last_of_class(self.failures@, ErrorClass::Hard)
        &&& opt_error(self.transient) == last_of_class(self.failures@, ErrorClass::Transient)
    }

    fn nothing() -> (r: Remembered)
        ensures
            r.consistent(),
            r.failures@ == Seq::<ErrorView>::empty(),
    {
        Remembered { not_found: None, hard: None, transient: None, failures: Ghost(Seq::empty()) }
    }

    fn with(self, error: MarketDataError) -> (r: Remembered)
        requires
            self.consistent(),
        ensures
            r.consistent(),
            r.failures@ == self.failures@.push(error@),
    {
        let ghost grown = self.failures@.push(error@);
        proof {
            assert(grown.drop_last() =~= self.failures@);
            assert(grown.last() == error@);
        }
        match error.class() {
            ErrorClass::NotFound => Remembered {
                not_found: Some(error),
                hard: self.hard,
                transient: self.transient,
                failures: Ghost(grown),
            },
            ErrorClass::Hard => Remembered {
                not_found: self.not_found,
                hard: Some(error),
                transient: self.transient,
                failures: Ghost(grown),
            },
            ErrorClass::Transient => Remembered {
                not_found: self.not_found,
                hard: self.hard,
                transient: Some(error),
                failures: Ghost(grown),
            },
        }
    }

    fn settle(self) -> (r: MarketDataError)
        requires
            self.consistent(),
        ensures
            r@ == terminal_error(self.failures@),
    {
        match self.not_found {
            Some(error) => error,
            None => match self.hard {
                Some(error) => error,
                None => match self.transient {
                    Some(error) => error,
                    None => MarketDataError::NoProvidersAvailable,
                },
            },
        }
    }
}

/// One request on its way through its candidates. It remembers the last
/// failure of each class, which is all that the choice of the error to
/// surface needs.
pub struct Failover {
    candidates: Vec<usize>,
    next: usize,
    remembered: Remembered,
}

impl View for Failover {
    type V = FailoverView;

    closed spec fn view(&self) -> FailoverView {
        FailoverView {
            candidates: self.candidates@,
            tried: self.next as nat,
            failures: self.remembered.failures@,
        }
    }
}

impl Failover {
    #[verifier::type_invariant]
    spec fn consistent(self) -> bool {
        &&& self.next <= self.candidates.len()
        &&& self.remembered.consistent()
    }

    /// A request that has tried none of its candidates yet.
    pub fn begin(candidates: Vec<usize>) -> (r: Failover)
        ensures
            r@ == (FailoverView { candidates: candidates@, tried: 0, failures: Seq::empty() }),
    {
        Failover { candidates, next: 0, remembered: Remembered::nothing() }
    }

    /// The candidate to try now; `None` when all are done with.
    pub fn current(&self) -> (r: Option<usize>)
        ensures
            r == self@.current(),
            r matches Some(i) ==> self@.candidates.contains(i),
    {
        proof {
            use_type_invariant(self);
        }
        if self.next < self.candidates.len() {
            Some(self.candidates[self.next])
        } else {
            None
        }
    }

    /// How many candidates are left, the current one included.
    pub fn remaining(&self) -> (r: usize)
        ensures
            r == self@.candidates.len() - self@.tried,
    {
        proof {
            use_type_invariant(self);
        }
        self.candidates.len() - self.next
    }

    /// Reports that the current candidate failed with `error`, and moves on
    /// to the next.
    pub fn record_failure(&mut self, error: MarketDataError)
        ensures
            final(self)@ == old(self)@.failed(error@),
    {
        proof {
            use_type_invariant(&*self);
        }
        let mut remembered = Remembered::nothing();
        core::mem::swap(&mut self.remembered, &mut remembered);
        self.remembered = remembered.with(error);
        if self.next < self.candidates.len() {
            self.next = self.next + 1;
        }
    }

    /// Passes over the current candidate without a failure to report.
    pub fn skip(&mut self)
        ensures
            final(self)@ == old(self)@.skipped(),
    {
        proof {
            use_type_invariant(&*self);
        }
        if self.next < self.candidates.len() {
            self.next = self.next + 1;
        }
    }

    /// The error to surface once no candidate is left.
    pub fn finish(self) -> (r: MarketDataError)
        ensures
            r@ == terminal_error(self@.failures),
    {
        proof {
            use_type_invariant(&self);
        }
        self.remembered.settle()
    }
}

/// What `last_of_class` picks is the failure of the class that no later
/// failure of the class follows; it picks nothing only where no failure is
/// of the class.
pub proof fn law_last_of_class(failures: Seq<ErrorView>, class: ErrorClass)
    ensures
        match last_of_class(failures, class) {
            Some(error) => exists|k: int|
                {
                    &&& 0 <= k < failures.len()
                    &&& #[trigger] failures[k] == error
                    &&& error.class() == class
                    &&& forall|j: int| k < j < failures.len() ==> (#[trigger] failures[j]).class() != class
                },
            None => forall|j: int| 0 <= j < failures.len() ==> (#[trigger] failures[j]).class() != class,
        },
    decreases failures.len(),
{
    if failures.len() > 0 {
        let front = failures.drop_last();
        let last = failures.len() - 1;
        if failures.last().class() == class {
            assert(failures[last] == failures.last());
        } else {
            law_last_of_class(front, class);
            match last_of_class(front, class) {
                Some(error) => {
                    let k = choose|k: int|
                        {
                            &&& 0 <= k < front.len()
                            &&& #[trigger] front[k] == error
                            &&& error.class() == class
                            &&& forall|j: int|
                                k < j < front.len() ==> (#[trigger] front[j]).class() != class
                        };
                    assert(failures[k] == error);
                    assert forall|j: int| k < j < failures.len() implies (
                    #[trigger] failures[j]).class() != class by {
                        if j < last {
                            assert(front[j] == failures[j]);
                        }
                    }
                },
                None => {
                    assert forall|j: int| 0 <= j < failures.len() implies (
                    #[trigger] failures[j]).class() != class by {
                        if j < last {
                            assert(front[j] == failures[j]);
                        }
                    }
                },
            }
        }
    }
}

/// An answer that there is nothing, from any candidate, is what surfaces:
/// the terminal error is then of that class, whatever faults and transient
/// failures the other candidates produced.
pub proof fn law_not_found_is_preferred(failures: Seq<ErrorView>, k: int)
    requires
        0 <= k < failures.len(),
        failures[k].class() == ErrorClass::NotFound,
    ensures
        terminal_error(failures).class() == ErrorClass::NotFound,
{
    law_last_of_class(failures, ErrorClass::NotFound);
}

} // verus!
