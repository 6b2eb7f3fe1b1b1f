//! Trusted declarations for the delivery channel.
//!
//! A request cycle uses one fresh channel of capacity one: the worker sends
//! its outcome exactly once, the slot polls for it without blocking. The
//! channel is shared with a concurrently running worker thread, so nothing is
//! promised about which outcome a poll finds: the slot's own logic states
//! what it does with every outcome instead.

use vstd::prelude::*;

verus! {

#[verifier::external_type_specification]
#[verifier::external_body]
#[verifier::reject_recursive_types(T)]
pub struct ExSender<T>(crossbeam_channel::Sender<T>);

#[verifier::external_type_specification]
#[verifier::external_body]
#[verifier::reject_recursive_types(T)]
pub struct ExReceiver<T>(crossbeam_channel::Receiver<T>);

/// What one non-blocking poll of the delivery channel found.
pub enum PollOutcome<T> {
    /// The worker's message was waiting and has been taken out of the channel.
    Received(T),
    /// No message yet: the worker is still running.
    NotYet,
    /// The channel is empty and every sender is gone: the worker terminated
    /// without sending.
    Disconnected,
}

/// Relies on crossbeam_channel::bounded, called with capacity 1: returns the
/// two ends of a fresh channel that buffers one message, so the single send
/// of a worker never waits for the slot to poll.
#[verifier::external_body]
pub(crate) fn bounded_one<T>() -> (crossbeam_channel::Sender<T>, crossbeam_channel::Receiver<T>) {
    crossbeam_channel::bounded(1)
}

/// Relies on crossbeam_channel::Receiver::try_recv: it returns without
/// blocking, whether or not a message has arrived. Which variant comes back
/// depends on a concurrently running worker, so nothing more is promised.
#[verifier::external_body]
pub(crate) fn poll_receiver<T>(receiver: &crossbeam_channel::Receiver<T>) -> PollOutcome<T> {
    match receiver.try_recv() {
        Ok(value) => PollOutcome::Received(value),
        Err(crossbeam_channel::TryRecvError::Empty) => PollOutcome::NotYet,
        Err(crossbeam_channel::TryRecvError::Disconnected) => PollOutcome::Disconnected,
    }
}

/// Relies on crossbeam_channel::Sender::send: it buffers the message unless
/// every receiver is gone, waiting only while the channel is full, which on
/// the fresh one-slot channel of a single-send request never happens.
/// Returns whether the message was delivered.
#[verifier::external_body]
pub(crate) fn send_value<T>(sender: &crossbeam_channel::Sender<T>, value: T) -> bool {
    sender.send(value).is_ok()
}

} // verus!
