//! The channel between a filter and its collector: the unbounded queue of
//! `tokio::sync::mpsc`, and what the library assumes of it.
//!
//! What a call on one half returns depends on what the task holding the other
//! half has done in the meantime, so nothing is promised of the results;
//! the functions that use them say what they do for every result.

use vstd::prelude::*;

verus! {

/// The sending half of an unbounded `tokio` channel; opaque.
#[verifier::external_type_specification]
#[verifier::external_body]
#[verifier::reject_recursive_types(T)]
pub struct ExUnboundedSender<T>(tokio::sync::mpsc::UnboundedSender<T>);

/// The receiving half of an unbounded `tokio` channel; opaque.
#[verifier::external_type_specification]
#[verifier::external_body]
#[verifier::reject_recursive_types(T)]
pub struct ExUnboundedReceiver<T>(tokio::sync::mpsc::UnboundedReceiver<T>);

/// `unbounded_channel` makes a new, empty, open channel and returns its two
/// halves. Nothing is stated of them: the halves are opaque.
pub assume_specification<T>[ tokio::sync::mpsc::unbounded_channel::<T> ]() -> (halves: (
    tokio::sync::mpsc::UnboundedSender<T>,
    tokio::sync::mpsc::UnboundedReceiver<T>,
))
;

/// `UnboundedSender::is_closed` says whether the receiving half was closed or
/// dropped. The answer depends on the other task, so nothing is stated of it.
pub assume_specification<T>[ tokio::sync::mpsc::UnboundedSender::<T>::is_closed ](
    sender: &tokio::sync::mpsc::UnboundedSender<T>,
) -> (closed: bool)
;

/// `UnboundedReceiver::close` closes the receiving half without dropping it:
/// later sends fail. It returns nothing.
pub assume_specification<T>[ tokio::sync::mpsc::UnboundedReceiver::<T>::close ](
    receiver: &mut tokio::sync::mpsc::UnboundedReceiver<T>,
)
;

/// Calls `UnboundedSender::send`, which never waits: it queues `item` and
/// returns `Ok`, or returns the item in an error when the receiving half was
/// closed or dropped. The result says only which of the two happened.
#[verifier::external_body]
pub(crate) fn deliver<T>(sender: &tokio::sync::mpsc::UnboundedSender<T>, item: T) -> (delivered:
    bool) {
    sender.send(item).is_ok()
}

/// What a receiver finds when it looks into the channel without waiting.
#[derive(Debug)]
pub enum Reception<T> {
    /// An item was waiting.
    Item(T),
    /// Nothing is waiting, but a sender is still there.
    Empty,
    /// Nothing is waiting and nothing can come any more.
    Closed,
}

/// Calls `UnboundedReceiver::try_recv`, which never waits: it takes the
/// oldest waiting item, or reports that the channel is empty, or that it is
/// empty and disconnected. Which of these happens depends on the senders.
#[verifier::external_body]
pub(crate) fn try_receive<T>(receiver: &mut tokio::sync::mpsc::UnboundedReceiver<T>) -> (found:
    Reception<T>) {
    match receiver.try_recv() {
        Ok(item) => Reception::Item(item),
        Err(tokio::sync::mpsc::error::TryRecvError::Empty) => Reception::Empty,
        Err(tokio::sync::mpsc::error::TryRecvError::Disconnected) => Reception::Closed,
    }
}

} // verus!
