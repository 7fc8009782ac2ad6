//! The future that never finishes.

use crate::future::{pends_to, Future, Poll};
use std::marker::PhantomData;
use vstd::prelude::*;

verus! {

/// A future that stays open at every poll. It holds nothing, so every value
/// of it is the same value, and it may be copied freely.
#[derive(Debug)]
pub struct Empty<T, E> {
    marker: PhantomData<(T, E)>,
}

impl<T, E> Empty<T, E> {
    /// The future that never finishes: a poll of it returns it unchanged, and
    /// there is no outcome that it may yield.
    pub fn new() -> (e: Empty<T, E>)
        ensures
            e.wf(),
            forall|r: Poll<Empty<T, E>>| e.polls_to(r) <==> r == Err::<Result<T, E>, Empty<T, E>>(e),
            forall|outcome: Result<T, E>| !e.may_yield(outcome),
    {
        Empty { marker: PhantomData }
    }
}

impl<T, E> Future for Empty<T, E> {
    type Item = T;

    type Error = E;

    open spec fn wf(&self) -> bool {
        true
    }

    /// The only result is `Err` of the future itself.
    open spec fn polls_to(self, r: Poll<Self>) -> bool {
        r == Err::<Result<T, E>, Self>(self)
    }

    open spec fn may_yield(&self, outcome: Result<T, E>) -> bool {
        false
    }

    fn poll(self) -> (r: Poll<Self>) {
        Err(self)
    }
}

impl<T, E> Clone for Empty<T, E> {
    fn clone(&self) -> (e: Empty<T, E>)
        ensures
            e == *self,
    {
        Empty::new()
    }
}

impl<T, E> Copy for Empty<T, E> {

}

/// However many polls have left the never-finishing future `e` open, it can
/// be left open once more, what is left of it is `e` itself, and the next
/// poll leaves it open again: it is never finished.
pub proof fn lemma_never_ready<T, E>(e: Empty<T, E>, n: nat, last: Empty<T, E>, r: Poll<Empty<T, E>>)
    requires
        pends_to(e, n, last),
        last.polls_to(r),
    ensures
        pends_to(e, n + 1, e),
        last == e,
        r == Err::<Result<T, E>, Empty<T, E>>(e),
    decreases n,
{
    if n > 0 {
        let mid = choose|mid: Empty<T, E>| #[trigger]
            e.polls_to(Err(mid)) && pends_to(mid, (n - 1) as nat, last);
        lemma_never_ready(mid, (n - 1) as nat, last, r);
        assert(e.polls_to(Err(e)) && pends_to(e, n, e));
    } else {
        assert(e.polls_to(Err(e)) && pends_to(e, 0, e));
    }
}

} // verus!
