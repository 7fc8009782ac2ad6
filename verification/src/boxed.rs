//! A future on the heap, behind a handle that owns it alone.

use crate::future::{ready_with, stays_open, Future, Poll};
use vstd::prelude::*;

verus! {

/// The result of one poll of a boxed future whose content returned `inner`:
/// the same outcome, or the content's continuation in a box.
pub open spec fn boxed_step<F: Future>(inner: Poll<F>) -> Poll<Box<F>> {
    match inner {
        Ok(outcome) => Ok(outcome),
        Err(next) => Err(Box::new(next)),
    }
}

/// A boxed future behaves as its content does.
impl<F: Future> Future for Box<F> {
    type Item = F::Item;

    type Error = F::Error;

    open spec fn wf(&self) -> bool {
        (**self).wf()
    }

    open spec fn polls_to(self, r: Poll<Self>) -> bool {
        exists|inner: Poll<F>| #[trigger] (*self).polls_to(inner) && r == boxed_step(inner)
    }

    open spec fn may_yield(&self, outcome: Result<F::Item, F::Error>) -> bool {
        (**self).may_yield(outcome)
    }

    fn poll(self) -> (r: Poll<Self>) {
        let content: F = *self;
        match content.poll() {
            Ok(outcome) => Ok(outcome),
            Err(next) => Err(Box::new(next)),
        }
    }
}

/// Boxing changes nothing that a caller can see: a boxed future is finished
/// with an outcome exactly when its content is, and stays open while its
/// content does.
pub proof fn lemma_boxed_same<F: Future>(handle: Box<F>, outcome: Result<F::Item, F::Error>)
    ensures
        handle.wf() <==> (*handle).wf(),
        handle.polls_to(Ok(outcome)) <==> (*handle).polls_to(Ok(outcome)),
        ready_with(*handle, outcome) ==> ready_with(handle, outcome),
        stays_open(*handle) ==> stays_open(handle),
{
    assert((*handle).polls_to(Ok(outcome)) ==> boxed_step::<F>(Ok(outcome)) == Ok::<
        Result<F::Item, F::Error>,
        Box<F>,
    >(outcome));
}

} // verus!
