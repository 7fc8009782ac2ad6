//! Waiting for two futures: the pair of their items, or the first error.

use crate::future::{ready_with, stays_open, Future, Poll};
use vstd::prelude::*;

verus! {

/// The future that finishes with the items of both sides, or with an error as
/// soon as one side fails.
pub struct Join<A, B> where A: Future, B: Future<Error = A::Error> {
    pub state: JoinState<A, B>,
}

/// Where a join stands. A side that has finished is never polled again: its
/// item is kept until the other side finishes too.
pub enum JoinState<A, B> where A: Future, B: Future<Error = A::Error> {
    /// Neither side has finished.
    Both(A, B),
    /// The first side has finished with the item held; the second has not.
    FirstDone(A::Item, B),
    /// The second side has finished with the item held; the first has not.
    SecondDone(A, B::Item),
}

/// The result of one poll of a join, from what its two sides returned at that
/// poll. A side that finished at an earlier poll counts as `Ok(Ok(item))`.
/// An error wins over everything else, the first side's over the second's.
pub open spec fn join_merge<A, B>(first: Poll<A>, second: Poll<B>) -> Poll<Join<A, B>> where
    A: Future,
    B: Future<Error = A::Error>,
 {
    match first {
        Ok(Err(e)) => Ok(Err(e)),
        Ok(Ok(x)) => match second {
            Ok(Err(e)) => Ok(Err(e)),
            Ok(Ok(y)) => Ok(Ok((x, y))),
            Err(b) => Err(Join { state: JoinState::FirstDone(x, b) }),
        },
        Err(a) => match second {
            Ok(Err(e)) => Ok(Err(e)),
            Ok(Ok(y)) => Err(Join { state: JoinState::SecondDone(a, y) }),
            Err(b) => Err(Join { state: JoinState::Both(a, b) }),
        },
    }
}

/// At one poll of a join in state `state`, the first side may return `first`
/// and the second `second`: a side that is still open is polled, a side that
/// has finished hands back the item held.
pub open spec fn join_sides<A, B>(state: JoinState<A, B>, first: Poll<A>, second: Poll<B>) -> bool where
    A: Future,
    B: Future<Error = A::Error>,
 {
    match state {
        JoinState::Both(a, b) => a.polls_to(first) && b.polls_to(second),
        JoinState::FirstDone(x, b) => first == Ok::<Result<A::Item, A::Error>, A>(Ok(x))
            && b.polls_to(second),
        JoinState::SecondDone(a, y) => a.polls_to(first) && second == Ok::<
            Result<B::Item, B::Error>,
            B,
        >(Ok(y)),
    }
}

/// Computes `join_merge`.
fn merge<A, B>(first: Poll<A>, second: Poll<B>) -> (r: Poll<Join<A, B>>) where
    A: Future,
    B: Future<Error = A::Error>,

    ensures
        r == join_merge(first, second),
{
    match first {
        Ok(Err(e)) => Ok(Err(e)),
        Ok(Ok(x)) => match second {
            Ok(Err(e)) => Ok(Err(e)),
            Ok(Ok(y)) => Ok(Ok((x, y))),
            Err(b) => Err(Join { state: JoinState::FirstDone(x, b) }),
        },
        Err(a) => match second {
            Ok(Err(e)) => Ok(Err(e)),
            Ok(Ok(y)) => Err(Join { state: JoinState::SecondDone(a, y) }),
            Err(b) => Err(Join { state: JoinState::Both(a, b) }),
        },
    }
}

impl<A, B> Future for Join<A, B> where A: Future, B: Future<Error = A::Error> {
    type Item = (A::Item, B::Item);

    type Error = A::Error;

    /// Every side that is still open may be polled.
    open spec fn wf(&self) -> bool {
        match self.state {
            JoinState::Both(a, b) => a.wf() && b.wf(),
            JoinState::FirstDone(_, b) => b.wf(),
            JoinState::SecondDone(a, _) => a.wf(),
        }
    }

    /// The sides return some pair of results that the state allows, and the
    /// join returns what `join_merge` makes of that pair.
    open spec fn polls_to(self, r: Poll<Self>) -> bool {
        exists|first: Poll<A>, second: Poll<B>| #[trigger]
            join_sides(self.state, first, second) && r == join_merge(first, second)
    }

    /// An error of either open side, or a pair of items that the sides may
    /// yield, where the item of a finished side is the one held.
    open spec fn may_yield(&self, outcome: Result<(A::Item, B::Item), A::Error>) -> bool {
        match self.state {
            JoinState::Both(a, b) => match outcome {
                Ok((x, y)) => a.may_yield(Ok(x)) && b.may_yield(Ok(y)),
                Err(e) => a.may_yield(Err(e)) || b.may_yield(Err(e)),
            },
            JoinState::FirstDone(x, b) => match outcome {
                Ok((x2, y)) => x2 == x && b.may_yield(Ok(y)),
                Err(e) => b.may_yield(Err(e)),
            },
            JoinState::SecondDone(a, y) => match outcome {
                Ok((x, y2)) => a.may_yield(Ok(x)) && y2 == y,
                Err(e) => a.may_yield(Err(e)),
            },
        }
    }

    fn poll(self) -> (r: Poll<Self>) {
        let (first, second) = match self.state {
            JoinState::Both(a, b) => (a.poll(), b.poll()),
            JoinState::FirstDone(x, b) => (Ok(Ok(x)), b.poll()),
            JoinState::SecondDone(a, y) => (a.poll(), Ok(Ok(y))),
        };
        assert(join_sides(self.state, first, second));
        merge(first, second)
    }
}

/// Every side of `state` that has not finished yet stays open.
pub open spec fn open_sides_stay<A, B>(state: JoinState<A, B>) -> bool where
    A: Future,
    B: Future<Error = A::Error>,
 {
    match state {
        JoinState::Both(a, b) => stays_open(a) && stays_open(b),
        JoinState::FirstDone(_, b) => stays_open(b),
        JoinState::SecondDone(a, _) => stays_open(a),
    }
}

impl<A, B> Join<A, B> where A: Future, B: Future<Error = A::Error> {
    /// Where both sides are finished with items, the join is finished with
    /// the pair of them, the first side's item first.
    pub proof fn lemma_both_succeed(self, x: A::Item, y: B::Item, r: Poll<Self>)
        requires
            self.state matches JoinState::Both(a, b) && ready_with(a, Ok(x)) && ready_with(
                b,
                Ok(y),
            ),
            self.polls_to(r),
        ensures
            r == Ok::<Result<(A::Item, B::Item), A::Error>, Self>(Ok((x, y))),
    {
    }

    /// Where the first side is finished with the error `e`, the join is
    /// finished with `e`, whatever the second side returns.
    pub proof fn lemma_first_fails(self, e: A::Error, r: Poll<Self>)
        requires
            self.state matches JoinState::Both(a, _) && ready_with(a, Err(e)),
            self.polls_to(r),
        ensures
            r == Ok::<Result<(A::Item, B::Item), A::Error>, Self>(Err(e)),
    {
    }

    /// Where the second side is finished with the error `e` and the first
    /// side does not fail, the join is finished with `e`: whether the first
    /// side is open, or finished with an item at this poll or an earlier one.
    pub proof fn lemma_second_fails(self, e: A::Error, r: Poll<Self>)
        requires
            match self.state {
                JoinState::Both(a, b) => ready_with(b, Err(e)) && forall|first: Poll<A>| #[trigger]
                    a.polls_to(first) ==> !(first matches Ok(Err(_))),
                JoinState::FirstDone(_, b) => ready_with(b, Err(e)),
                JoinState::SecondDone(_, _) => false,
            },
            self.polls_to(r),
        ensures
            r == Ok::<Result<(A::Item, B::Item), A::Error>, Self>(Err(e)),
    {
    }

    /// A join finishes only when a side of it does: while every side that is
    /// not finished stays open, so does the join, in the state it is in and
    /// with the item it holds.
    pub proof fn lemma_stays_open(self)
        requires
            open_sides_stay(self.state),
        ensures
            stays_open(self),
            forall|next: Self| #[trigger]
                self.polls_to(Err(next)) ==> match self.state {
                    JoinState::Both(_, _) => next.state is Both,
                    JoinState::FirstDone(x, _) => next.state matches JoinState::FirstDone(x2, _)
                        && x2 == x,
                    JoinState::SecondDone(_, y) => next.state matches JoinState::SecondDone(_, y2)
                        && y2 == y,
                },
    {
    }

    /// A join never polls a finished side again, and never gives up a held
    /// item: what is left of a join with one side finished has the same side
    /// finished, with the same item.
    pub proof fn lemma_one_way(self, next: Self)
        requires
            self.polls_to(Err(next)),
        ensures
            self.state matches JoinState::FirstDone(x, _) ==> next.state matches JoinState::FirstDone(
                x2,
                _,
            ) && x2 == x,
            self.state matches JoinState::SecondDone(_, y) ==> next.state matches JoinState::SecondDone(
                _,
                y2,
            ) && y2 == y,
    {
    }
}

} // verus!
