//! Transforming one side of the outcome and passing the other through.

use crate::future::{ready_with, stays_open, Future, Poll};
use std::marker::PhantomData;
use vstd::prelude::*;

verus! {

/// The future that applies `F` to the item of `A`. An error of `A` passes
/// through unchanged, and `F` is not called. `U` is what `F` returns.
#[derive(Debug)]
pub struct MapItem<A, F, U> {
    pub future: A,
    pub f: F,
    pub marker: PhantomData<U>,
}

impl<A: Clone, F: Clone, U> Clone for MapItem<A, F, U> {
    /// The copy holds a clone of the future and a clone of the function.
    fn clone(&self) -> (r: Self)
        ensures
            cloned(self.future, r.future),
            cloned(self.f, r.f),
    {
        MapItem { future: self.future.clone(), f: self.f.clone(), marker: PhantomData }
    }
}

impl<A: Copy, F: Copy, U> Copy for MapItem<A, F, U> {

}

/// A mapped future with function `f` may return `r` at a poll at which the
/// future it wraps returned `inner`. While that future is open, `f` is kept
/// for a later poll.
pub open spec fn map_step<U, A, F>(f: F, inner: Poll<A>, r: Poll<MapItem<A, F, U>>) -> bool where
    A: Future,
    F: FnOnce(A::Item) -> U,
 {
    match inner {
        Ok(Ok(item)) => match r {
            Ok(Ok(mapped)) => f.ensures((item,), mapped),
            _ => false,
        },
        Ok(Err(e)) => r == Ok::<Result<U, A::Error>, MapItem<A, F, U>>(Err(e)),
        Err(next) => r matches Err(kept) && kept.future == next && kept.f == f,
    }
}

/// A mapped future may be polled: the wrapped future may be, and the
/// function accepts every item that it may yield.
pub open spec fn map_wf<U, A, F>(future: A, f: F) -> bool where
    A: Future,
    F: FnOnce(A::Item) -> U,
 {
    &&& future.wf()
    &&& forall|item: A::Item| #[trigger] future.may_yield(Ok(item)) ==> f.requires((item,))
}

/// One poll of a mapped future may return `r`: the wrapped future returns
/// some result, and `r` is what `map_step` allows for it.
pub open spec fn map_polls_to<U, A, F>(future: A, f: F, r: Poll<MapItem<A, F, U>>) -> bool where
    A: Future,
    F: FnOnce(A::Item) -> U,
 {
    exists|inner: Poll<A>| #[trigger] future.polls_to(inner) && map_step(f, inner, r)
}

/// A mapped future may yield an error of the wrapped future, or what the
/// function may return for one of its items.
pub open spec fn map_may_yield<U, A, F>(future: A, f: F, outcome: Result<U, A::Error>) -> bool where
    A: Future,
    F: FnOnce(A::Item) -> U,
 {
    match outcome {
        Ok(mapped) => exists|item: A::Item| #[trigger]
            f.ensures((item,), mapped) && future.may_yield(Ok(item)),
        Err(e) => future.may_yield(Err(e)),
    }
}

impl<U, A, F> Future for MapItem<A, F, U> where A: Future, F: FnOnce(A::Item) -> U {
    type Item = U;

    type Error = A::Error;

    open spec fn wf(&self) -> bool {
        map_wf(self.future, self.f)
    }

    open spec fn polls_to(self, r: Poll<Self>) -> bool {
        map_polls_to(self.future, self.f, r)
    }

    open spec fn may_yield(&self, outcome: Result<U, A::Error>) -> bool {
        map_may_yield(self.future, self.f, outcome)
    }

    fn poll(self) -> (r: Poll<Self>) {
        MapItem::poll(self)
    }
}

impl<U, A, F> MapItem<A, F, U> where A: Future, F: FnOnce(A::Item) -> U {
    /// Polls the wrapped future once and, if it finished with an item, calls
    /// the function with it. This is `Future::poll` for a mapped future, with
    /// its contract written out for the future and the function at hand: a
    /// call on a value of this type finds it first.
    pub fn poll(self) -> (r: Result<Result<U, A::Error>, Self>)
        requires
            map_wf(self.future, self.f),
        ensures
            map_polls_to(self.future, self.f, r),
            r matches Ok(outcome) ==> map_may_yield(self.future, self.f, outcome),
            r matches Err(next) ==> map_wf(next.future, next.f),
            r matches Err(next) ==> forall|o: Result<U, A::Error>| #[trigger]
                map_may_yield(next.future, next.f, o) ==> map_may_yield(self.future, self.f, o),
    {
        let inner = self.future.poll();
        match inner {
            Ok(Ok(item)) => {
                let f = self.f;
                let mapped: U = f(item);
                Ok(Ok(mapped))
            },
            Ok(Err(e)) => Ok(Err(e)),
            Err(next) => Err(MapItem { future: next, f: self.f, marker: PhantomData }),
        }
    }

    /// What the three specification functions of `Future` mean for a mapped
    /// future, at one poll result and one outcome. A proof about one
    /// particular function, a closure for one, learns it here: that its type
    /// is a function type is known to Rust, and this lemma hands the
    /// consequence to the proof.
    pub proof fn lemma_spec(self, r: Poll<Self>, outcome: Result<U, A::Error>)
        ensures
            self.wf() <==> map_wf(self.future, self.f),
            self.polls_to(r) <==> map_polls_to(self.future, self.f, r),
            self.may_yield(outcome) <==> map_may_yield(self.future, self.f, outcome),
    {
    }

    /// Where the wrapped future is finished with `item`, the mapped future
    /// is finished with something that the function may return for `item`.
    pub proof fn lemma_maps_item(self, item: A::Item, r: Poll<Self>)
        requires
            ready_with(self.future, Ok(item)),
            self.polls_to(r),
        ensures
            r matches Ok(Ok(mapped)) && self.f.ensures((item,), mapped),
    {
    }

    /// Where the wrapped future is finished with the error `e`, the mapped
    /// future is finished with `e`, whatever the function is. And a mapped
    /// future whose wrapped future may be polled and yields no item may be
    /// polled, whatever the function requires: it will not be called.
    pub proof fn lemma_passes_error(self, e: A::Error, r: Poll<Self>)
        requires
            ready_with(self.future, Err(e)),
            self.polls_to(r),
        ensures
            r == Ok::<Result<U, A::Error>, Self>(Err(e)),
            self.future.wf() && (forall|item: A::Item| !self.future.may_yield(Ok(item)))
                ==> self.wf(),
    {
    }

    /// A mapped future finishes only when the future it wraps does: while
    /// that one stays open, so does this one.
    pub proof fn lemma_stays_open(self)
        requires
            stays_open(self.future),
        ensures
            stays_open(self),
    {
    }
}

/// The future that applies `F` to the error of `A`. An item of `A` passes
/// through unchanged, and `F` is not called. `E` is what `F` returns.
pub struct MapErr<A, F, E> {
    pub future: A,
    pub f: F,
    pub marker: PhantomData<E>,
}

/// A future with a mapped error and function `f` may return `r` at a poll at
/// which the future it wraps returned `inner`. While that future is open,
/// `f` is kept for a later poll.
pub open spec fn map_err_step<E, A, F>(f: F, inner: Poll<A>, r: Poll<MapErr<A, F, E>>) -> bool where
    A: Future,
    F: FnOnce(A::Error) -> E,
 {
    match inner {
        Ok(Ok(item)) => r == Ok::<Result<A::Item, E>, MapErr<A, F, E>>(Ok(item)),
        Ok(Err(e)) => match r {
            Ok(Err(mapped)) => f.ensures((e,), mapped),
            _ => false,
        },
        Err(next) => r matches Err(kept) && kept.future == next && kept.f == f,
    }
}

/// A future with a mapped error may be polled: the wrapped future may be,
/// and the function accepts every error that it may yield.
pub open spec fn map_err_wf<E, A, F>(future: A, f: F) -> bool where
    A: Future,
    F: FnOnce(A::Error) -> E,
 {
    &&& future.wf()
    &&& forall|e: A::Error| #[trigger] future.may_yield(Err(e)) ==> f.requires((e,))
}

/// One poll of a future with a mapped error may return `r`: the wrapped
/// future returns some result, and `r` is what `map_err_step` allows for it.
pub open spec fn map_err_polls_to<E, A, F>(future: A, f: F, r: Poll<MapErr<A, F, E>>) -> bool where
    A: Future,
    F: FnOnce(A::Error) -> E,
 {
    exists|inner: Poll<A>| #[trigger] future.polls_to(inner) && map_err_step(f, inner, r)
}

/// A future with a mapped error may yield an item of the wrapped future, or
/// what the function may return for one of its errors.
pub open spec fn map_err_may_yield<E, A, F>(future: A, f: F, outcome: Result<A::Item, E>) -> bool where
    A: Future,
    F: FnOnce(A::Error) -> E,
 {
    match outcome {
        Ok(item) => future.may_yield(Ok(item)),
        Err(mapped) => exists|e: A::Error| #[trigger]
            f.ensures((e,), mapped) && future.may_yield(Err(e)),
    }
}

impl<A, E, F> Future for MapErr<A, F, E> where A: Future, F: FnOnce(A::Error) -> E {
    type Item = A::Item;

    type Error = E;

    open spec fn wf(&self) -> bool {
        map_err_wf(self.future, self.f)
    }

    open spec fn polls_to(self, r: Poll<Self>) -> bool {
        map_err_polls_to(self.future, self.f, r)
    }

    open spec fn may_yield(&self, outcome: Result<A::Item, E>) -> bool {
        map_err_may_yield(self.future, self.f, outcome)
    }

    fn poll(self) -> (r: Poll<Self>) {
        MapErr::poll(self)
    }
}

impl<A, E, F> MapErr<A, F, E> where A: Future, F: FnOnce(A::Error) -> E {
    /// Polls the wrapped future once and, if it finished with an error,
    /// calls the function with it. This is `Future::poll` for a future with
    /// a mapped error, with its contract written out for the future and the
    /// function at hand: a call on a value of this type finds it first.
    pub fn poll(self) -> (r: Result<Result<A::Item, E>, Self>)
        requires
            map_err_wf(self.future, self.f),
        ensures
            map_err_polls_to(self.future, self.f, r),
            r matches Ok(outcome) ==> map_err_may_yield(self.future, self.f, outcome),
            r matches Err(next) ==> map_err_wf(next.future, next.f),
            r matches Err(next) ==> forall|o: Result<A::Item, E>| #[trigger]
                map_err_may_yield(next.future, next.f, o) ==> map_err_may_yield(
                    self.future,
                    self.f,
                    o,
                ),
    {
        let inner = self.future.poll();
        match inner {
            Ok(Ok(item)) => Ok(Ok(item)),
            Ok(Err(e)) => {
                let f = self.f;
                let mapped: E = f(e);
                Ok(Err(mapped))
            },
            Err(next) => Err(MapErr { future: next, f: self.f, marker: PhantomData }),
        }
    }

    /// What the three specification functions of `Future` mean for a future
    /// with a mapped error, at one poll result and one outcome, for a proof
    /// about one particular function.
    pub proof fn lemma_spec(self, r: Poll<Self>, outcome: Result<A::Item, E>)
        ensures
            self.wf() <==> map_err_wf(self.future, self.f),
            self.polls_to(r) <==> map_err_polls_to(self.future, self.f, r),
            self.may_yield(outcome) <==> map_err_may_yield(self.future, self.f, outcome),
    {
    }

    /// Where the wrapped future is finished with the error `e`, this future
    /// is finished with something that the function may return for `e`.
    pub proof fn lemma_maps_error(self, e: A::Error, r: Poll<Self>)
        requires
            ready_with(self.future, Err(e)),
            self.polls_to(r),
        ensures
            r matches Ok(Err(mapped)) && self.f.ensures((e,), mapped),
    {
    }

    /// Where the wrapped future is finished with `item`, this future is
    /// finished with `item`, whatever the function is. And such a future
    /// whose wrapped future may be polled and yields no error may be polled,
    /// whatever the function requires: it will not be called.
    pub proof fn lemma_passes_item(self, item: A::Item, r: Poll<Self>)
        requires
            ready_with(self.future, Ok(item)),
            self.polls_to(r),
        ensures
            r == Ok::<Result<A::Item, E>, Self>(Ok(item)),
            self.future.wf() && (forall|e: A::Error| !self.future.may_yield(Err(e)))
                ==> self.wf(),
    {
    }

    /// A future with a mapped error finishes only when the future it wraps
    /// does: while that one stays open, so does this one.
    pub proof fn lemma_stays_open(self)
        requires
            stays_open(self.future),
        ensures
            stays_open(self),
    {
    }
}

} // verus!
