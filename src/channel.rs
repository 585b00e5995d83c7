//! Unbounded multi-producer, competing-consumer queues, provided by
//! async-std's channels.

use vstd::prelude::*;

use async_std::channel::{Receiver, SendError, Sender};

verus! {

/// The sending half of a queue; cloning it gives another handle on the same
/// queue.
#[verifier::external_type_specification]
#[verifier::external_body]
#[verifier::reject_recursive_types(T)]
pub struct ExSender<T>(Sender<T>);

/// The receiving half of a queue; each clone competes for the queued items.
#[verifier::external_type_specification]
#[verifier::external_body]
#[verifier::reject_recursive_types(T)]
pub struct ExReceiver<T>(Receiver<T>);

/// The item that could not be queued because the queue is closed.
#[verifier::external_type_specification]
#[verifier::reject_recursive_types(T)]
pub struct ExSendError<T>(SendError<T>);

/// Relies on `async_std::channel::unbounded`: a new open, empty queue with
/// no bound on its length.
#[verifier::external_body]
pub(crate) fn unbounded<T>() -> (Sender<T>, Receiver<T>) {
    async_std::channel::unbounded()
}

/// Relies on `Sender::send`, run to completion by `async_std::task::block_on`:
/// queues `msg`, or gives it back in the error when the queue is closed. On
/// an unbounded queue it never waits for room.
#[verifier::external_body]
pub(crate) fn send<T>(sender: &Sender<T>, msg: T) -> (r: Result<(), SendError<T>>)
    ensures
        r matches Err(e) ==> e.0 == msg,
{
    async_std::task::block_on(sender.send(msg))
}

/// Relies on `Sender::close`: closes the queue; items already queued can
/// still be received. Returns whether this call closed it.
#[verifier::external_body]
pub(crate) fn close<T>(sender: &Sender<T>) -> bool {
    sender.close()
}

/// Relies on `Sender::is_closed`: whether the queue is closed now.
#[verifier::external_body]
pub(crate) fn is_closed<T>(sender: &Sender<T>) -> bool {
    sender.is_closed()
}

/// Relies on `Sender::is_empty`: whether nothing is queued now.
#[verifier::external_body]
pub(crate) fn is_empty<T>(sender: &Sender<T>) -> bool {
    sender.is_empty()
}

/// Relies on `Sender`'s `Clone`: another handle on the same queue; the
/// handle is a shared pointer to the queue, and only that pointer is
/// cloned.
#[verifier::external_body]
pub(crate) fn clone_sender<T>(sender: &Sender<T>) -> (r: Sender<T>)
    ensures
        r == *sender,
{
    sender.clone()
}

/// Relies on `Receiver`'s `Clone`: another receiver that competes for the
/// items of the same queue.
#[verifier::external_body]
pub(crate) fn clone_receiver<T>(receiver: &Receiver<T>) -> Receiver<T> {
    receiver.clone()
}

} // verus!
