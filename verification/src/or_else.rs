//! Chaining on failure: a second future is made from the first one's error.

use crate::future::{ready_with, stays_open, Future, IntoFuture, Poll};
use vstd::prelude::*;

verus! {

/// The future that runs `A`, hands its error to `F`, and runs what `F`
/// returns. An item of `A` ends the chain at once, and `F` is not called.
pub struct OrElse<A, B, F> where B: IntoFuture {
    pub state: OrElseState<A, B::Future, F>,
}

/// Where a chain stands. It never goes back from `Second` to `First`.
pub enum OrElseState<A, B, F> {
    /// The first future is open; the function waits for its outcome.
    First(A, F),
    /// The function has been called; the future made from its result is open.
    Second(B),
}

/// The result of a chain whose second future returned `second` at a poll.
pub open spec fn or_else_second<A, B, F>(second: Poll<B::Future>) -> Poll<OrElse<A, B, F>> where
    A: Future,
    B: IntoFuture<Item = A::Item>,
    F: FnOnce(A::Error) -> B,
 {
    match second {
        Ok(outcome) => Ok(outcome),
        Err(next) => Err(OrElse { state: OrElseState::Second(next) }),
    }
}

/// A chain in its first phase, with function `f`, may return `r` at a poll at
/// which its first future returned `first`. On an error, `f` is called with
/// it, and the future made from its result is polled once, at the same poll.
pub open spec fn or_else_first<A, B, F>(f: F, first: Poll<A>, r: Poll<OrElse<A, B, F>>) -> bool where
    A: Future,
    B: IntoFuture<Item = A::Item>,
    F: FnOnce(A::Error) -> B,
 {
    match first {
        Ok(Ok(item)) => r == Ok::<Result<B::Item, B::Error>, OrElse<A, B, F>>(Ok(item)),
        Ok(Err(e)) => exists|made: B, second: Poll<B::Future>|
            #![trigger f.ensures((e,), made), made.future_of().polls_to(second)]
            f.ensures((e,), made) && made.future_of().polls_to(second) && r == or_else_second::<
                A,
                B,
                F,
            >(second),
        Err(next) => r == Err::<Result<B::Item, B::Error>, OrElse<A, B, F>>(
            OrElse { state: OrElseState::First(next, f) },
        ),
    }
}

/// A chain may be polled. In the first phase: the first future may be, the
/// function accepts every error that it may yield, and whatever the function
/// returns for one converts into a future that may be polled. In the second
/// phase: the second future may be polled.
pub open spec fn or_else_wf<A, B, F>(state: OrElseState<A, B::Future, F>) -> bool where
    A: Future,
    B: IntoFuture<Item = A::Item>,
    F: FnOnce(A::Error) -> B,
 {
    match state {
        OrElseState::First(a, f) => {
            &&& a.wf()
            &&& forall|e: A::Error| #[trigger] a.may_yield(Err(e)) ==> f.requires((e,))
            &&& forall|e: A::Error, made: B|
                a.may_yield(Err(e)) && #[trigger] f.ensures((e,), made)
                    ==> made.future_of().wf()
        },
        OrElseState::Second(b) => b.wf(),
    }
}

/// One poll of a chain in state `state` may return `r`.
pub open spec fn or_else_polls_to<A, B, F>(state: OrElseState<A, B::Future, F>, r: Poll<OrElse<A, B, F>>) -> bool where
    A: Future,
    B: IntoFuture<Item = A::Item>,
    F: FnOnce(A::Error) -> B,
 {
    match state {
        OrElseState::First(a, f) => exists|first: Poll<A>| #[trigger]
            a.polls_to(first) && or_else_first(f, first, r),
        OrElseState::Second(b) => exists|second: Poll<B::Future>| #[trigger]
            b.polls_to(second) && r == or_else_second::<A, B, F>(second),
    }
}

/// A chain in state `state` may yield `outcome`. In the first phase that is
/// an item of the first future, or an outcome of a future that the function
/// may make from one of its errors.
pub open spec fn or_else_may_yield<A, B, F>(
    state: OrElseState<A, B::Future, F>,
    outcome: Result<B::Item, B::Error>,
) -> bool where
    A: Future,
    B: IntoFuture<Item = A::Item>,
    F: FnOnce(A::Error) -> B,
 {
    match state {
        OrElseState::First(a, f) => {
            ||| outcome matches Ok(item) && a.may_yield(Ok(item))
            ||| exists|e: A::Error, made: B|
                #![trigger f.ensures((e,), made)]
                a.may_yield(Err(e)) && f.ensures((e,), made) && made.future_of().may_yield(
                    outcome,
                )
        },
        OrElseState::Second(b) => b.may_yield(outcome),
    }
}

/// Computes `or_else_second`.
fn lift_second<A, B, F>(second: Poll<B::Future>) -> (r: Poll<OrElse<A, B, F>>) where
    A: Future,
    B: IntoFuture<Item = A::Item>,
    F: FnOnce(A::Error) -> B,

    ensures
        r == or_else_second::<A, B, F>(second),
{
    match second {
        Ok(outcome) => Ok(outcome),
        Err(next) => Err(OrElse { state: OrElseState::Second(next) }),
    }
}

impl<A, B, F> Future for OrElse<A, B, F> where
    A: Future,
    B: IntoFuture<Item = A::Item>,
    F: FnOnce(A::Error) -> B,
 {
    type Item = B::Item;

    type Error = B::Error;

    open spec fn wf(&self) -> bool {
        or_else_wf::<A, B, F>(self.state)
    }

    open spec fn polls_to(self, r: Poll<Self>) -> bool {
        or_else_polls_to::<A, B, F>(self.state, r)
    }

    open spec fn may_yield(&self, outcome: Result<B::Item, B::Error>) -> bool {
        or_else_may_yield::<A, B, F>(self.state, outcome)
    }

    fn poll(self) -> (r: Poll<Self>) {
        OrElse::poll(self)
    }
}

impl<A, B, F> OrElse<A, B, F> where
    A: Future,
    B: IntoFuture<Item = A::Item>,
    F: FnOnce(A::Error) -> B,
 {
    /// Polls the future that is open. In the first phase, if the first
    /// future finished with an error, calls the function with it and polls the
    /// future made from its result, once. This is `Future::poll` for a chain,
    /// with its contract written out for the futures and the function at
    /// hand: a call on a value of this type finds it first.
    pub fn poll(self) -> (r: Result<Result<B::Item, B::Error>, Self>)
        requires
            or_else_wf::<A, B, F>(self.state),
        ensures
            or_else_polls_to::<A, B, F>(self.state, r),
            r matches Ok(outcome) ==> or_else_may_yield::<A, B, F>(self.state, outcome),
            r matches Err(next) ==> or_else_wf::<A, B, F>(next.state),
            r matches Err(next) ==> forall|o: Result<B::Item, B::Error>| #[trigger]
                or_else_may_yield::<A, B, F>(next.state, o) ==> or_else_may_yield::<A, B, F>(
                    self.state,
                    o,
                ),
    {
        match self.state {
            OrElseState::First(a, f) => {
                let first = a.poll();
                match first {
                    Ok(Ok(item)) => Ok(Ok(item)),
                    Ok(Err(e)) => {
                        let made = f(e);
                        let second = made.into_future().poll();
                        let r = lift_second::<A, B, F>(second);
                        assert(or_else_first(f, first, r));
                        r
                    },
                    Err(next) => Err(OrElse { state: OrElseState::First(next, f) }),
                }
            },
            OrElseState::Second(b) => lift_second::<A, B, F>(b.poll()),
        }
    }

    /// What the three specification functions of `Future` mean for a chain,
    /// at one poll result and one outcome. A proof about one particular
    /// function, a closure for one, learns it here: that its type is a
    /// function type is known to Rust, and this lemma hands the consequence
    /// to the proof.
    pub proof fn lemma_spec(self, r: Poll<Self>, outcome: Result<B::Item, B::Error>)
        ensures
            self.wf() <==> or_else_wf::<A, B, F>(self.state),
            self.polls_to(r) <==> or_else_polls_to::<A, B, F>(self.state, r),
            self.may_yield(outcome) <==> or_else_may_yield::<A, B, F>(self.state, outcome),
    {
    }

    /// Where the first future is finished with `item`, the chain is finished
    /// with `item`, whatever the function is. And a chain whose first future
    /// may be polled and yields no error may be polled, whatever the
    /// function requires: it will not be called.
    pub proof fn lemma_success_ends(self, item: A::Item, r: Poll<Self>)
        requires
            self.state matches OrElseState::First(a, _) && ready_with(a, Ok(item)),
            self.polls_to(r),
        ensures
            r == Ok::<Result<B::Item, B::Error>, Self>(Ok(item)),
            self.state matches OrElseState::First(a, _) && a.wf() && (forall|e: A::Error|
                !a.may_yield(Err(e))) ==> self.wf(),
    {
    }

    /// Where the first future is finished with the error `e`, the function
    /// is called with it, and the chain returns what the first poll of the
    /// future made from the function's result returns.
    pub proof fn lemma_failure_chains(self, e: A::Error, r: Poll<Self>)
        requires
            self.state matches OrElseState::First(a, _) && ready_with(a, Err(e)),
            self.polls_to(r),
        ensures
            self.state matches OrElseState::First(_, f) && exists|made: B, second: Poll<B::Future>|
                #![trigger f.ensures((e,), made), made.future_of().polls_to(second)]
                f.ensures((e,), made) && made.future_of().polls_to(second) && r
                    == or_else_second::<A, B, F>(second),
    {
    }

    /// A chain finishes only when the future that is open in it does: while
    /// that one stays open, so does the chain, in the phase it is in and, in
    /// the first phase, with its function still to be called.
    pub proof fn lemma_stays_open(self)
        requires
            match self.state {
                OrElseState::First(a, _) => stays_open(a),
                OrElseState::Second(b) => stays_open(b),
            },
        ensures
            stays_open(self),
            forall|next: Self| #[trigger]
                self.polls_to(Err(next)) ==> match self.state {
                    OrElseState::First(_, f) => next.state matches OrElseState::First(_, kept) && kept
                        == f,
                    OrElseState::Second(_) => next.state is Second,
                },
    {
    }

    /// A chain never goes back: what is left of a chain in its second phase
    /// is in its second phase.
    pub proof fn lemma_one_way(self, next: Self)
        requires
            self.state is Second,
            self.polls_to(Err(next)),
        ensures
            next.state is Second,
    {
    }
}

} // verus!
