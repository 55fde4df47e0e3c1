//! The channel that carries batches of events from the producer to the
//! consumer.
//!
//! The channel is the standard library's. What this module states of it is
//! believed, not proved: it is kept to what the documentation of
//! `std::sync::mpsc` says.

use vstd::prelude::*;
use std::sync::mpsc::Receiver;
use std::sync::mpsc::Sender;
use crate::event::CursorEvent;
use crate::event::EventView;
use crate::event::event_views;

verus! {

/// Makes `std::sync::mpsc::Sender` known to the verifier, as a value of
/// which only [`batches_accepted`] speaks.
#[verifier::external_type_specification]
#[verifier::external_body]
#[verifier::reject_recursive_types(T)]
pub struct ExSender<T>(Sender<T>);

/// Makes `std::sync::mpsc::Receiver` known to the verifier, as a value of
/// which nothing is said.
#[verifier::external_type_specification]
#[verifier::external_body]
#[verifier::reject_recursive_types(T)]
pub struct ExReceiver<T>(Receiver<T>);

/// The batches that the channel has accepted through `sender`, oldest
/// first: those for which `send` on this handle returned `Ok`.
pub uninterp spec fn batches_accepted(sender: Sender<Vec<CursorEvent>>) -> Seq<Seq<EventView>>;

/// What one wait on the receiving end brought.
#[derive(Debug)]
pub enum Received {
    /// A batch arrived.
    Batch(Vec<CursorEvent>),
    /// The wait ran out with nothing to receive.
    Timeout,
    /// Every sender is gone and the channel is empty.
    Disconnected,
}

/// Calls `std::sync::mpsc::channel`. The sending end of a new channel has
/// had nothing accepted yet.
#[verifier::external_body]
pub(crate) fn open_channel() -> (ends: (Sender<Vec<CursorEvent>>, Receiver<Vec<CursorEvent>>))
    ensures
        batches_accepted(ends.0) == Seq::<Seq<EventView>>::empty(),
{
    std::sync::mpsc::channel()
}

/// Calls `Sender::send`, which never blocks. It returns `Ok` when the
/// receiver is still there, and the batch is then queued behind those
/// accepted before; it returns the batch in an error when the receiver is
/// gone, and nothing is queued. The result says which.
#[verifier::external_body]
pub(crate) fn send_batch(sender: &mut Sender<Vec<CursorEvent>>, batch: Vec<CursorEvent>) -> (accepted: bool)
    ensures
        accepted ==> batches_accepted(*final(sender)) == batches_accepted(*old(sender)).push(
            event_views(batch@),
        ),
        !accepted ==> batches_accepted(*final(sender)) == batches_accepted(*old(sender)),
{
    sender.send(batch).is_ok()
}

/// Calls `Receiver::recv_timeout` with a wait of `timeout_ms` milliseconds
/// and names the three outcomes. The call returns when a batch arrives,
/// when the channel is closed for good, or when the wait is over. Which of
/// the three comes depends on the sending side, so nothing is promised of
/// it.
#[verifier::external_body]
pub(crate) fn receive_batch(receiver: &Receiver<Vec<CursorEvent>>, timeout_ms: u64) -> Received {
    match receiver.recv_timeout(std::time::Duration::from_millis(timeout_ms)) {
        Ok(batch) => Received::Batch(batch),
        Err(std::sync::mpsc::RecvTimeoutError::Timeout) => Received::Timeout,
        Err(std::sync::mpsc::RecvTimeoutError::Disconnected) => Received::Disconnected,
    }
}

} // verus!
