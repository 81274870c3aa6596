//! The channels between the manager, the queuer and the application: the
//! queues of `futures::channel`, and what the library assumes of them.
//!
//! What a send returns depends on what the task at the other end has done,
//! so nothing is promised of the results; the functions that use them say
//! what they do for every result.

use vstd::prelude::*;

verus! {

/// The sending half of an unbounded `futures` queue; opaque.
#[verifier::external_type_specification]
#[verifier::external_body]
#[verifier::reject_recursive_types(T)]
pub struct ExUnboundedSender<T>(futures::channel::mpsc::UnboundedSender<T>);

/// The receiving half of an unbounded `futures` queue; opaque.
#[verifier::external_type_specification]
#[verifier::external_body]
#[verifier::reject_recursive_types(T)]
pub struct ExUnboundedReceiver<T>(futures::channel::mpsc::UnboundedReceiver<T>);

/// The sending half of a bounded `futures` queue; opaque.
#[verifier::external_type_specification]
#[verifier::external_body]
#[verifier::reject_recursive_types(T)]
pub struct ExSender<T>(futures::channel::mpsc::Sender<T>);

/// The receiving half of a bounded `futures` queue; opaque.
#[verifier::external_type_specification]
#[verifier::external_body]
#[verifier::reject_recursive_types(T)]
pub struct ExReceiver<T>(futures::channel::mpsc::Receiver<T>);

/// The sending half of a `futures` channel for one value; opaque.
#[verifier::external_type_specification]
#[verifier::external_body]
#[verifier::reject_recursive_types(T)]
pub struct ExOneshotSender<T>(futures::channel::oneshot::Sender<T>);

/// The receiving half of a `futures` channel for one value; opaque.
#[verifier::external_type_specification]
#[verifier::external_body]
#[verifier::reject_recursive_types(T)]
pub struct ExOneshotReceiver<T>(futures::channel::oneshot::Receiver<T>);

/// The error of a `futures` one-value channel whose sender was dropped; opaque.
#[verifier::external_type_specification]
#[verifier::external_body]
pub struct ExCanceled(futures::channel::oneshot::Canceled);

/// `mpsc::unbounded` makes a new, empty, open queue without a bound and
/// returns its two halves. Nothing is stated of them: the halves are opaque.
pub assume_specification<T>[ futures::channel::mpsc::unbounded::<T> ]() -> (halves: (
    futures::channel::mpsc::UnboundedSender<T>,
    futures::channel::mpsc::UnboundedReceiver<T>,
))
;

/// `mpsc::channel` makes a new, empty, open queue with `buffer` shared slots
/// and one more for each sender. It panics when `buffer` is a quarter of the
/// address space or more, which the precondition rules out.
pub assume_specification<T>[ futures::channel::mpsc::channel::<T> ](buffer: usize) -> (halves: (
    futures::channel::mpsc::Sender<T>,
    futures::channel::mpsc::Receiver<T>,
))
    requires
        buffer < 0x1000_0000,
;

/// `oneshot::channel` makes a channel for a single value and returns its two
/// halves.
pub assume_specification<T>[ futures::channel::oneshot::channel::<T> ]() -> (halves: (
    futures::channel::oneshot::Sender<T>,
    futures::channel::oneshot::Receiver<T>,
))
;

/// Calls `UnboundedSender::unbounded_send`, which never waits: it queues the
/// message and returns `Ok`, or returns the message in an error when the
/// receiver is gone. The result says only which of the two happened.
#[verifier::external_body]
pub(crate) fn relay<T>(sender: &futures::channel::mpsc::UnboundedSender<T>, message: T) -> (sent:
    bool) {
    sender.unbounded_send(message).is_ok()
}

/// Calls `Sender::try_send`, which never waits: it queues the message and
/// returns `Ok`, or returns the message in an error when the queue is full
/// or the receiver is gone. The result says only which of the two happened.
#[verifier::external_body]
pub(crate) fn offer<T>(sender: &mut futures::channel::mpsc::Sender<T>, message: T) -> (sent: bool) {
    sender.try_send(message).is_ok()
}

/// Calls `oneshot::Sender::send`, which uses the sender up: it hands the
/// value to the receiver and returns `Ok`, or returns the value in an error
/// when the receiver was dropped. The result says only which of the two
/// happened.
#[verifier::external_body]
pub(crate) fn fulfil<T>(sender: futures::channel::oneshot::Sender<T>, value: T) -> (received: bool) {
    sender.send(value).is_ok()
}

} // verus!
