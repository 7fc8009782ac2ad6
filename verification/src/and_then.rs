//! Chaining on success: a second future is made from the first one's item.

use crate::future::{ready_with, stays_open, Future, IntoFuture, Poll};
use vstd::prelude::*;

verus! {

/// The future that runs `A`, hands its item to `F`, and runs what `F` returns.
/// An error of `A` ends the chain at once, and `F` is not called.
pub struct AndThen<A, B, F> where B: IntoFuture {
    pub state: AndThenState<A, B::Future, F>,
}

/// Where a chain stands. It never goes back from `Second` to `First`.
pub enum AndThenState<A, B, F> {
    /// The first future is open; the function waits for its outcome.
    First(A, F),
    /// The function has been called; the future made from its result is open.
    Second(B),
}

/// The result of a chain whose second future returned `second` at a poll.
pub open spec fn and_then_second<A, B, F>(second: Poll<B::Future>) -> Poll<AndThen<A, B, F>> where
    A: Future,
    B: IntoFuture<Error = A::Error>,
    F: FnOnce(A::Item) -> B,
 {
    match second {
        Ok(outcome) => Ok(outcome),
        Err(next) => Err(AndThen { state: AndThenState::Second(next) }),
    }
}

/// A chain in its first phase, with function `f`, may return `r` at a poll at
/// which its first future returned `first`. On an item, `f` is called with
/// it, and the future made from its result is polled once, at the same poll.
pub open spec fn and_then_first<A, B, F>(f: F, first: Poll<A>, r: Poll<AndThen<A, B, F>>) -> bool where
    A: Future,
    B: IntoFuture<Error = A::Error>,
    F: FnOnce(A::Item) -> B,
 {
    match first {
        Ok(Ok(item)) => exists|made: B, second: Poll<B::Future>|
            #![trigger f.ensures((item,), made), made.future_of().polls_to(second)]
            f.ensures((item,), made) && made.future_of().polls_to(second) && r
                == and_then_second::<A, B, F>(second),
        Ok(Err(e)) => r == Ok::<Result<B::Item, B::Error>, AndThen<A, B, F>>(Err(e)),
        Err(next) => r == Err::<Result<B::Item, B::Error>, AndThen<A, B, F>>(
            AndThen { state: AndThenState::First(next, f) },
        ),
    }
}

/// A chain may be polled. In the first phase: the first future may be, the
/// function accepts every item that it may yield, and whatever the function
/// returns for one converts into a future that may be polled. In the second
/// phase: the second future may be polled.
pub open spec fn and_then_wf<A, B, F>(state: AndThenState<A, B::Future, F>) -> bool where
    A: Future,
    B: IntoFuture<Error = A::Error>,
    F: FnOnce(A::Item) -> B,
 {
    match state {
        AndThenState::First(a, f) => {
            &&& a.wf()
            &&& forall|item: A::Item| #[trigger]
                a.may_yield(Ok(item)) ==> f.requires((item,))
            &&& forall|item: A::Item, made: B|
                a.may_yield(Ok(item)) && #[trigger] f.ensures((item,), made)
                    ==> made.future_of().wf()
        },
        AndThenState::Second(b) => b.wf(),
    }
}

/// One poll of a chain in state `state` may return `r`.
pub open spec fn and_then_polls_to<A, B, F>(state: AndThenState<A, B::Future, F>, r: Poll<AndThen<A, B, F>>) -> bool where
    A: Future,
    B: IntoFuture<Error = A::Error>,
    F: FnOnce(A::Item) -> B,
 {
    match state {
        AndThenState::First(a, f) => exists|first: Poll<A>| #[trigger]
            a.polls_to(first) && and_then_first(f, first, r),
        AndThenState::Second(b) => exists|second: Poll<B::Future>| #[trigger]
            b.polls_to(second) && r == and_then_second::<A, B, F>(second),
    }
}

/// A chain in state `state` may yield `outcome`. In the first phase that is
/// an error of the first future, or an outcome of a future that the function
/// may make from one of its items.
pub open spec fn and_then_may_yield<A, B, F>(
    state: AndThenState<A, B::Future, F>,
    outcome: Result<B::Item, B::Error>,
) -> bool where
    A: Future,
    B: IntoFuture<Error = A::Error>,
    F: FnOnce(A::Item) -> B,
 {
    match state {
        AndThenState::First(a, f) => {
            ||| outcome matches Err(e) && a.may_yield(Err(e))
            ||| exists|item: A::Item, made: B|
                #![trigger f.ensures((item,), made)]
                a.may_yield(Ok(item)) && f.ensures((item,), made)
                    && made.future_of().may_yield(outcome)
        },
        AndThenState::Second(b) => b.may_yield(outcome),
    }
}

/// Computes `and_then_second`.
fn lift_second<A, B, F>(second: Poll<B::Future>) -> (r: Poll<AndThen<A, B, F>>) where
    A: Future,
    B: IntoFuture<Error = A::Error>,
    F: FnOnce(A::Item) -> B,

    ensures
        r == and_then_second::<A, B, F>(second),
{
    match second {
        Ok(outcome) => Ok(outcome),
        Err(next) => Err(AndThen { state: AndThenState::Second(next) }),
    }
}

impl<A, B, F> Future for AndThen<A, B, F> where
    A: Future,
    B: IntoFuture<Error = A::Error>,
    F: FnOnce(A::Item) -> B,
 {
    type Item = B::Item;

    type Error = B::Error;

    open spec fn wf(&self) -> bool {
        and_then_wf::<A, B, F>(self.state)
    }

    open spec fn polls_to(self, r: Poll<Self>) -> bool {
        and_then_polls_to::<A, B, F>(self.state, r)
    }

    open spec fn may_yield(&self, outcome: Result<B::Item, B::Error>) -> bool {
        and_then_may_yield::<A, B, F>(self.state, outcome)
    }

    fn poll(self) -> (r: Poll<Self>) {
        AndThen::poll(self)
    }
}

impl<A, B, F> AndThen<A, B, F> where
    A: Future,
    B: IntoFuture<Error = A::Error>,
    F: FnOnce(A::Item) -> B,
 {
    /// Polls the future that is open. In the first phase, if the first
    /// future finished with an item, calls the function with it and polls the
    /// future made from its result, once. This is `Future::poll` for a chain,
    /// with its contract written out for the futures and the function at
    /// hand: a call on a value of this type finds it first.
    pub fn poll(self) -> (r: Result<Result<B::Item, B::Error>, Self>)
        requires
            and_then_wf::<A, B, F>(self.state),
        ensures
            and_then_polls_to::<A, B, F>(self.state, r),
            r matches Ok(outcome) ==> and_then_may_yield::<A, B, F>(self.state, outcome),
            r matches Err(next) ==> and_then_wf::<A, B, F>(next.state),
            r matches Err(next) ==> forall|o: Result<B::Item, B::Error>| #[trigger]
                and_then_may_yield::<A, B, F>(next.state, o) ==> and_then_may_yield::<A, B, F>(
                    self.state,
                    o,
                ),
    {
        match self.state {
            AndThenState::First(a, f) => {
                let first = a.poll();
                match first {
                    Ok(Ok(item)) => {
                        let made = f(item);
                        let second = made.into_future().poll();
                        let r = lift_second::<A, B, F>(second);
                        assert(and_then_first(f, first, r));
                        r
                    },
                    Ok(Err(e)) => Ok(Err(e)),
                    Err(next) => Err(AndThen { state: AndThenState::First(next, f) }),
                }
            },
            AndThenState::Second(b) => lift_second::<A, B, F>(b.poll()),
        }
    }

    /// What the three specification functions of `Future` mean for a chain,
    /// at one poll result and one outcome. A proof about one particular
    /// function, a closure for one, learns it here: that its type is a
    /// function type is known to Rust, and this lemma hands the consequence
    /// to the proof.
    pub proof fn lemma_spec(self, r: Poll<Self>, outcome: Result<B::Item, B::Error>)
        ensures
            self.wf() <==> and_then_wf::<A, B, F>(self.state),
            self.polls_to(r) <==> and_then_polls_to::<A, B, F>(self.state, r),
            self.may_yield(outcome) <==> and_then_may_yield::<A, B, F>(self.state, outcome),
    {
    }

    /// Where the first future is finished with the error `e`, the chain is
    /// finished with `e`, whatever the function is. And a chain whose first
    /// future may be polled and yields no item may be polled, whatever the
    /// function requires: it will not be called.
    pub proof fn lemma_failure_ends(self, e: A::Error, r: Poll<Self>)
        requires
            self.state matches AndThenState::First(a, _) && ready_with(a, Err(e)),
            self.polls_to(r),
        ensures
            r == Ok::<Result<B::Item, B::Error>, Self>(Err(e)),
            self.state matches AndThenState::First(a, _) && a.wf() && (forall|item: A::Item|
                !a.may_yield(Ok(item))) ==> self.wf(),
    {
    }

    /// Where the first future is finished with `item`, the function is
    /// called with it, and the chain returns what the first poll of the
    /// future made from the function's result returns.
    pub proof fn lemma_success_chains(self, item: A::Item, r: Poll<Self>)
        requires
            self.state matches AndThenState::First(a, _) && ready_with(a, Ok(item)),
            self.polls_to(r),
        ensures
            self.state matches AndThenState::First(_, f) && exists|made: B, second: Poll<B::Future>|
                #![trigger f.ensures((item,), made), made.future_of().polls_to(second)]
                f.ensures((item,), made) && made.future_of().polls_to(second) && r
                    == and_then_second::<A, B, F>(second),
    {
    }

    /// A chain finishes only when the future that is open in it does: while
    /// that one stays open, so does the chain, in the phase it is in and, in
    /// the first phase, with its function still to be called.
    pub proof fn lemma_stays_open(self)
        requires
            match self.state {
                AndThenState::First(a, _) => stays_open(a),
                AndThenState::Second(b) => stays_open(b),
            },
        ensures
            stays_open(self),
            forall|next: Self| #[trigger]
                self.polls_to(Err(next)) ==> match self.state {
                    AndThenState::First(_, f) => next.state matches AndThenState::First(_, kept) && kept
                        == f,
                    AndThenState::Second(_) => next.state is Second,
                },
    {
    }

    /// A chain never goes back: what is left of a chain in its second phase
    /// is in its second phase.
    pub proof fn lemma_one_way(self, next: Self)
        requires
            self.state is Second,
            self.polls_to(Err(next)),
        ensures
            next.state is Second,
    {
    }
}

} // verus!
