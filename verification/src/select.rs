//! Racing two futures: the outcome of whichever finishes first.

use crate::future::{ready_with, stays_open, Future, Poll};
use vstd::prelude::*;

verus! {

/// The future that finishes with the outcome of the side that finishes first.
/// The first side is always polled before the second.
pub struct Select<A, B> {
    pub a: A,
    pub b: B,
}

/// The result of a race whose first side stayed open, with `first` to poll
/// next time, and whose second side returned `second` at the same poll.
pub open spec fn select_second<A, B>(first: A, second: Poll<B>) -> Poll<Select<A, B>> where
    A: Future,
    B: Future<Item = A::Item, Error = A::Error>,
 {
    match second {
        Ok(outcome) => Ok(outcome),
        Err(next) => Err(Select { a: first, b: next }),
    }
}

/// A race with second side `b` may return `r` at a poll at which its first
/// side returned `first`. Once the first side has finished, the second is
/// not polled.
pub open spec fn select_step<A, B>(b: B, first: Poll<A>, r: Poll<Select<A, B>>) -> bool where
    A: Future,
    B: Future<Item = A::Item, Error = A::Error>,
 {
    match first {
        Ok(outcome) => r == Ok::<Result<A::Item, A::Error>, Select<A, B>>(outcome),
        Err(next) => exists|second: Poll<B>| #[trigger]
            b.polls_to(second) && r == select_second(next, second),
    }
}

impl<A, B> Future for Select<A, B> where A: Future, B: Future<Item = A::Item, Error = A::Error> {
    type Item = A::Item;

    type Error = A::Error;

    open spec fn wf(&self) -> bool {
        self.a.wf() && self.b.wf()
    }

    open spec fn polls_to(self, r: Poll<Self>) -> bool {
        exists|first: Poll<A>| #[trigger] self.a.polls_to(first) && select_step(self.b, first, r)
    }

    open spec fn may_yield(&self, outcome: Result<A::Item, A::Error>) -> bool {
        self.a.may_yield(outcome) || self.b.may_yield(outcome)
    }

    fn poll(self) -> (r: Poll<Self>) {
        let Select { a, b } = self;
        match a.poll() {
            Ok(outcome) => Ok(outcome),
            Err(first) => match b.poll() {
                Ok(outcome) => Ok(outcome),
                Err(second) => Err(Select { a: first, b: second }),
            },
        }
    }
}

impl<A, B> Select<A, B> where A: Future, B: Future<Item = A::Item, Error = A::Error> {
    /// Where the first side is finished, the race is finished with the first
    /// side's outcome, whatever the second side is: open, or finished too.
    pub proof fn lemma_first_wins(self, outcome: Result<A::Item, A::Error>, r: Poll<Self>)
        requires
            ready_with(self.a, outcome),
            self.polls_to(r),
        ensures
            r == Ok::<Result<A::Item, A::Error>, Self>(outcome),
    {
    }

    /// Where the first side stays open and the second is finished, the race
    /// is finished with the second side's outcome.
    pub proof fn lemma_second_wins(self, outcome: Result<A::Item, A::Error>, r: Poll<Self>)
        requires
            stays_open(self.a),
            ready_with(self.b, outcome),
            self.polls_to(r),
        ensures
            r == Ok::<Result<A::Item, A::Error>, Self>(outcome),
    {
    }

    /// A race finishes only when one of its sides does: while both stay
    /// open, so does the race.
    pub proof fn lemma_stays_open(self)
        requires
            stays_open(self.a),
            stays_open(self.b),
        ensures
            stays_open(self),
    {
    }
}

} // verus!
