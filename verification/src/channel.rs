//! The unbounded channel of `tokio` that carries fragments from the
//! producers to the consumer. Nothing in this file is proved: each contract
//! says what the channel's source shows of the call.

use crate::queue::Polled;
use vstd::prelude::*;

verus! {

/// `tokio::sync::mpsc::UnboundedSender`, the sending half. Its inside is
/// hidden.
#[verifier::external_type_specification]
#[verifier::external_body]
#[verifier::reject_recursive_types(T)]
pub struct ExUnboundedSender<T>(tokio::sync::mpsc::UnboundedSender<T>);

/// `tokio::sync::mpsc::UnboundedReceiver`, the receiving half. Its inside
/// is hidden.
#[verifier::external_type_specification]
#[verifier::external_body]
#[verifier::reject_recursive_types(T)]
pub struct ExUnboundedReceiver<T>(tokio::sync::mpsc::UnboundedReceiver<T>);

/// `tokio::sync::mpsc::unbounded_channel`: a new channel, as its two halves.
/// Nothing is claimed of them.
pub assume_specification<T>[ tokio::sync::mpsc::unbounded_channel::<T> ]() -> (halves: (
    tokio::sync::mpsc::UnboundedSender<T>,
    tokio::sync::mpsc::UnboundedReceiver<T>,
));

/// `UnboundedSender::is_closed`: whether the receiving half is gone at the
/// moment of the call. The answer depends on what the other half did, so
/// nothing is claimed of it.
pub assume_specification<T>[ tokio::sync::mpsc::UnboundedSender::<T>::is_closed ](
    sender: &tokio::sync::mpsc::UnboundedSender<T>,
) -> (closed: bool);

/// `UnboundedSender::clone`: one more sender of the same channel. Nothing
/// is claimed of it.
pub assume_specification<T>[ <tokio::sync::mpsc::UnboundedSender<T> as Clone>::clone ](
    sender: &tokio::sync::mpsc::UnboundedSender<T>,
) -> (other: tokio::sync::mpsc::UnboundedSender<T>);

/// `UnboundedSender::send`: hands the message to the channel without
/// waiting. Whether the channel takes it depends on the receiving half; when
/// it does not, the error gives the same message back.
#[verifier::external_body]
pub(crate) fn send<T>(sender: &tokio::sync::mpsc::UnboundedSender<T>, message: T) -> (sent:
    Result<(), T>)
    ensures
        sent matches Err(returned) ==> returned == message,
{
    match sender.send(message) {
        Ok(()) => Ok(()),
        Err(tokio::sync::mpsc::error::SendError(returned)) => Err(returned),
    }
}

/// `UnboundedReceiver::try_recv`: takes the oldest waiting message, if there
/// is one, and otherwise tells an empty channel from a disconnected one. What
/// is found depends on the senders, so nothing is claimed of it.
#[verifier::external_body]
pub(crate) fn try_recv<T>(receiver: &mut tokio::sync::mpsc::UnboundedReceiver<T>) -> (polled:
    Polled<T>) {
    match receiver.try_recv() {
        Ok(message) => Polled::Item(message),
        Err(tokio::sync::mpsc::error::TryRecvError::Empty) => Polled::Empty,
        Err(tokio::sync::mpsc::error::TryRecvError::Disconnected) => Polled::Closed,
    }
}

} // verus!
