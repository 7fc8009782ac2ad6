//! The poll contract and the conversion into a future.

use crate::and_then::{AndThen, AndThenState};
use crate::join::{Join, JoinState};
use crate::map::{MapErr, MapItem};
use crate::or_else::{OrElse, OrElseState};
use crate::select::Select;
use std::marker::PhantomData;
use vstd::prelude::*;

verus! {

/// What one poll returns: `Ok(outcome)` when the future has finished, and
/// `Err(next)` when it has not, with the future to poll next time.
pub type Poll<F> = Result<Result<<F as Future>::Item, <F as Future>::Error>, F>;

/// A single-shot computation that is advanced by polling.
///
/// Three specification functions describe an implementation:
/// `wf` says when a value may be polled, `polls_to` relates a value to each
/// result that one poll of it may return, and `may_yield` bounds the outcomes
/// that the value can ever finish with, now or after any number of polls.
///
/// `polls_to` is a relation, not a function: a future may depend on what is
/// outside it, as a receiver does, and the functions that a combinator holds
/// are known by their contracts alone. `may_yield` is what lets a combinator
/// hold a function that does not accept every value: the function has to
/// accept what the future before it may yield, and nothing else.
pub trait Future: Sized {
    type Item;

    type Error;

    /// The value may be polled. For a future that holds no function this is
    /// true; a combinator asks it of the futures it holds, and asks that its
    /// function can be called with whatever it will be handed.
    spec fn wf(&self) -> bool;

    /// One poll of `self` may return `r`.
    spec fn polls_to(self, r: Poll<Self>) -> bool;

    /// `self` may finish with `outcome`, at this poll or a later one.
    spec fn may_yield(&self, outcome: Result<Self::Item, Self::Error>) -> bool;

    /// Makes one attempt to finish. The future is consumed: the caller gets
    /// its outcome, or the only future that may be polled in its place.
    fn poll(self) -> (r: Poll<Self>)
        requires
            self.wf(),
        ensures
            self.polls_to(r),
            r matches Ok(outcome) ==> self.may_yield(outcome),
            r matches Err(next) ==> next.wf(),
            r matches Err(next) ==> forall|o: Result<Self::Item, Self::Error>| #[trigger]
                next.may_yield(o) ==> self.may_yield(o),
    ;

    /// This future on the heap. The box is a future with the same item and
    /// error, and polls as this one does.
    fn boxed(self) -> (handle: Box<Self>)
        ensures
            *handle == self,
    {
        Box::new(self)
    }

    /// The future that finishes with `f` of this one's item, or with this
    /// one's error.
    fn map<F, U>(self, f: F) -> (mapped: MapItem<Self, F, U>) where F: FnOnce(Self::Item) -> U
        ensures
            mapped.future == self,
            mapped.f == f,
    {
        MapItem { future: self, f: f, marker: PhantomData }
    }

    /// The future that finishes with this one's item, or with `f` of this
    /// one's error.
    fn map_err<F, E>(self, f: F) -> (mapped: MapErr<Self, F, E>) where F: FnOnce(Self::Error) -> E
        ensures
            mapped.future == self,
            mapped.f == f,
    {
        MapErr { future: self, f: f, marker: PhantomData }
    }
}

/// The combinators that take a second future, or a function that makes one.
/// Every future has them.
pub trait FutureExt: Future {
    /// The future that runs this one and then, on an item, the future that
    /// `f` makes from it. It starts in its first phase.
    fn and_then<F, B>(self, f: F) -> (chain: AndThen<Self, B, F>) where
        F: FnOnce(Self::Item) -> B,
        B: IntoFuture<Error = Self::Error>,

        ensures
            chain.state == AndThenState::<Self, B::Future, F>::First(self, f),
    {
        AndThen { state: AndThenState::First(self, f) }
    }

    /// The future that runs this one and then, on an error, the future that
    /// `f` makes from it. It starts in its first phase.
    fn or_else<F, B>(self, f: F) -> (chain: OrElse<Self, B, F>) where
        F: FnOnce(Self::Error) -> B,
        B: IntoFuture<Item = Self::Item>,

        ensures
            chain.state == OrElseState::<Self, B::Future, F>::First(self, f),
    {
        OrElse { state: OrElseState::First(self, f) }
    }

    /// The race between this future, polled first, and what `other` converts
    /// into.
    fn select<B>(self, other: B) -> (race: Select<Self, B::Future>) where
        B: IntoFuture<Item = Self::Item, Error = Self::Error>,

        ensures
            race == (Select { a: self, b: other.future_of() }),
    {
        Select { a: self, b: other.into_future() }
    }

    /// The join of this future, as first side, and what `other` converts
    /// into, with both sides open.
    fn join<B>(self, other: B) -> (joined: Join<Self, B::Future>) where
        B: IntoFuture<Error = Self::Error>,

        ensures
            joined.state == JoinState::<Self, B::Future>::Both(self, other.future_of()),
    {
        Join { state: JoinState::Both(self, other.into_future()) }
    }
}

impl<A: Future> FutureExt for A {

}

/// Every result that one poll of `x` may return is `Ok(outcome)`: `x` is
/// finished, with that outcome and no other.
pub open spec fn ready_with<X: Future>(x: X, outcome: Result<X::Item, X::Error>) -> bool {
    forall|r: Poll<X>| #[trigger] x.polls_to(r) ==> r == Ok::<Result<X::Item, X::Error>, X>(outcome)
}

/// Every result that one poll of `x` may return leaves it open.
pub open spec fn stays_open<X: Future>(x: X) -> bool {
    forall|r: Poll<X>| #[trigger] x.polls_to(r) ==> r is Err
}

/// `last` is what may be left of `first` after `n` successive polls that all
/// left it open.
pub open spec fn pends_to<X: Future>(first: X, n: nat, last: X) -> bool
    decreases n,
{
    if n == 0 {
        last == first
    } else {
        exists|mid: X| #[trigger] first.polls_to(Err(mid)) && pends_to(mid, (n - 1) as nat, last)
    }
}

/// Values that combinators accept where a future is expected.
pub trait IntoFuture: Sized {
    type Future: Future<Item = Self::Item, Error = Self::Error>;

    type Item;

    type Error;

    /// The future that `self` converts into.
    spec fn future_of(self) -> Self::Future;

    fn into_future(self) -> (r: Self::Future)
        ensures
            r == self.future_of(),
    ;
}

/// A future is its own converted form.
impl<F: Future> IntoFuture for F {
    type Future = F;

    type Item = F::Item;

    type Error = F::Error;

    open spec fn future_of(self) -> F {
        self
    }

    fn into_future(self) -> (r: F) {
        self
    }
}

} // verus!
