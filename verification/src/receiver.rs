//! A channel's receiving end as a future of the next message.

use crate::future::{Future, Poll};
use std::sync::mpsc::Receiver;
use vstd::prelude::*;

verus! {

/// The receiving end of a channel of `std::sync::mpsc`. Nothing of what the
/// channel holds is visible to a proof.
#[verifier::external_type_specification]
#[verifier::external_body]
#[verifier::reject_recursive_types(T)]
pub struct ExReceiver<T>(Receiver<T>);

/// The error of a receiver whose channel has no sender left and no message
/// waiting.
#[derive(Clone, Copy, Debug, PartialEq, Eq)]
pub struct Disconnected;

/// What one attempt to receive without waiting found.
pub enum Received<T> {
    /// A message was waiting.
    Value(T),
    /// No message was waiting; a sender may still send one.
    Empty,
    /// No message was waiting, and every sender is gone.
    Disconnected,
}

/// Calls `Receiver::try_recv`, which takes a waiting message if there is one
/// and never blocks, and tells its three answers apart. Which of them comes
/// depends on what the senders have done, so nothing is claimed of it.
#[verifier::external_body]
fn try_receive<T>(rx: &Receiver<T>) -> (got: Received<T>) {
    match rx.try_recv() {
        Ok(message) => Received::Value(message),
        Err(std::sync::mpsc::TryRecvError::Empty) => Received::Empty,
        Err(std::sync::mpsc::TryRecvError::Disconnected) => Received::Disconnected,
    }
}

/// The result of a poll of `rx` at which the attempt to receive found `got`.
pub open spec fn receive_step<T>(rx: Receiver<T>, got: Received<T>) -> Poll<Receiver<T>> {
    match got {
        Received::Value(message) => Ok(Ok(message)),
        Received::Empty => Err(rx),
        Received::Disconnected => Ok(Err(Disconnected)),
    }
}

/// Turns what an attempt to receive on `rx` found into the result of the
/// poll: a message finishes the future, an empty channel leaves `rx` open,
/// and a channel without senders finishes it with `Disconnected`.
pub fn poll_received<T>(rx: Receiver<T>, got: Received<T>) -> (r: Poll<Receiver<T>>)
    ensures
        r == receive_step(rx, got),
{
    match got {
        Received::Value(message) => Ok(Ok(message)),
        Received::Empty => Err(rx),
        Received::Disconnected => Ok(Err(Disconnected)),
    }
}

impl<T> Future for Receiver<T> {
    type Item = T;

    type Error = Disconnected;

    open spec fn wf(&self) -> bool {
        true
    }

    /// Whatever the attempt to receive may find, the result is what
    /// `receive_step` makes of it.
    open spec fn polls_to(self, r: Poll<Self>) -> bool {
        exists|got: Received<T>| r == #[trigger] receive_step(self, got)
    }

    open spec fn may_yield(&self, outcome: Result<T, Disconnected>) -> bool {
        true
    }

    /// Makes one attempt to receive, without waiting.
    fn poll(self) -> (r: Poll<Self>) {
        let got = try_receive(&self);
        poll_received(self, got)
    }
}

} // verus!
