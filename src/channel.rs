//! The unbounded multi-producer queue that carries messages to one worker.
use vstd::prelude::*;

verus! {

#[verifier::external_type_specification]
#[verifier::external_body]
#[verifier::reject_recursive_types(T)]
pub struct ExSender<T>(crossbeam_channel::Sender<T>);

#[verifier::external_type_specification]
#[verifier::external_body]
#[verifier::reject_recursive_types(T)]
pub struct ExReceiver<T>(crossbeam_channel::Receiver<T>);

/// Relies on crossbeam_channel::unbounded: a new channel of unlimited
/// capacity, returned as its sending and its receiving half.
#[verifier::external_body]
pub(crate) fn new_unbounded<T>() -> (r: (crossbeam_channel::Sender<T>, crossbeam_channel::Receiver<T>)) {
    crossbeam_channel::unbounded()
}

/// Relies on crossbeam_channel::Sender::send: on an unbounded channel it does
/// not block; it fails only when the channel is disconnected, and then hands
/// the message back.
#[verifier::external_body]
pub(crate) fn send_message<T>(tx: &crossbeam_channel::Sender<T>, msg: T) -> (r: Result<(), T>)
    ensures
        r matches Err(m) ==> m == msg,
{
    tx.send(msg).map_err(|e| e.into_inner())
}

/// Relies on crossbeam_channel::Receiver::recv: blocks until a message comes,
/// and yields `None` once the channel is empty and disconnected.
#[verifier::external_body]
pub(crate) fn receive_message<T>(rx: &crossbeam_channel::Receiver<T>) -> (r: Option<T>) {
    rx.recv().ok()
}

} // verus!
