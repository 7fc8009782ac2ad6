//! The future that is finished from the start.

use crate::future::{Future, IntoFuture, Poll};
use vstd::prelude::*;

verus! {

/// A future that holds its outcome already.
#[derive(Debug)]
pub struct FutureResult<T, E> {
    pub inner: Result<T, E>,
}

impl<T: Clone, E: Clone> Clone for FutureResult<T, E> {
    /// The copy holds a clone of the outcome, on the same side.
    fn clone(&self) -> (r: Self)
        ensures
            match (self.inner, r.inner) {
                (Ok(a), Ok(b)) => cloned(a, b),
                (Err(a), Err(b)) => cloned(a, b),
                _ => false,
            },
    {
        match &self.inner {
            Ok(item) => FutureResult { inner: Ok(item.clone()) },
            Err(error) => FutureResult { inner: Err(error.clone()) },
        }
    }
}

impl<T: Copy, E: Copy> Copy for FutureResult<T, E> {

}

/// A bare outcome converts into the future that is finished with it.
impl<T, E> IntoFuture for Result<T, E> {
    type Future = FutureResult<T, E>;

    type Item = T;

    type Error = E;

    open spec fn future_of(self) -> FutureResult<T, E> {
        FutureResult { inner: self }
    }

    fn into_future(self) -> (r: FutureResult<T, E>) {
        FutureResult { inner: self }
    }
}

impl<T, E> Future for FutureResult<T, E> {
    type Item = T;

    type Error = E;

    open spec fn wf(&self) -> bool {
        true
    }

    /// The only result is `Ok` of the outcome held, success or error alike.
    open spec fn polls_to(self, r: Poll<Self>) -> bool {
        r == Ok::<Result<T, E>, Self>(self.inner)
    }

    open spec fn may_yield(&self, outcome: Result<T, E>) -> bool {
        outcome == self.inner
    }

    fn poll(self) -> (r: Poll<Self>) {
        Ok(self.inner)
    }
}

/// A future made from a success may be polled, and its first poll returns
/// that success, finished.
pub proof fn lemma_success_is_ready<T, E>(item: T, r: Poll<FutureResult<T, E>>)
    ensures
        Ok::<T, E>(item).future_of().wf(),
        Ok::<T, E>(item).future_of().polls_to(r) <==> r == Ok::<Result<T, E>, FutureResult<T, E>>(
            Ok(item),
        ),
{
}

/// A future made from an error may be polled, and its first poll returns
/// that error, finished and unchanged.
pub proof fn lemma_failure_is_ready<T, E>(error: E, r: Poll<FutureResult<T, E>>)
    ensures
        Err::<T, E>(error).future_of().wf(),
        Err::<T, E>(error).future_of().polls_to(r) <==> r == Ok::<
            Result<T, E>,
            FutureResult<T, E>,
        >(Err(error)),
{
}

} // verus!
