//! The two unidirectional queues that connect control-side callers to the
//! execution context owning the native engine. Delivery is fire-and-forget:
//! a send to a closed queue reports failure and nothing more.

use vstd::prelude::*;

verus! {

#[verifier::external_type_specification]
#[verifier::external_body]
#[verifier::reject_recursive_types(T)]
pub struct ExSender<T>(std::sync::mpsc::Sender<T>);

#[verifier::external_type_specification]
#[verifier::external_body]
#[verifier::reject_recursive_types(T)]
pub struct ExReceiver<T>(std::sync::mpsc::Receiver<T>);

/// Relies on std::sync::mpsc::channel: the sending and receiving end of a
/// fresh unbounded queue.
#[verifier::external_body]
pub(crate) fn channel_pair<T>() -> (std::sync::mpsc::Sender<T>, std::sync::mpsc::Receiver<T>) {
    std::sync::mpsc::channel()
}

/// Relies on std::sync::mpsc::Sender::clone: another handle onto the same
/// queue.
#[verifier::external_body]
pub(crate) fn clone_sender<T>(tx: &std::sync::mpsc::Sender<T>) -> std::sync::mpsc::Sender<T> {
    tx.clone()
}

/// Relies on std::sync::mpsc::Sender::send: enqueues without blocking and
/// fails only when the receiving end is gone; the message is dropped then.
#[verifier::external_body]
pub(crate) fn channel_send<T>(tx: &std::sync::mpsc::Sender<T>, msg: T) -> bool {
    tx.send(msg).is_ok()
}

} // verus!
