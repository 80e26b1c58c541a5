//! Trusted declarations for the rendezvous channels that connect the
//! session to its worker, and for the opaque error payloads.
//!
//! The channels are `std::sync::mpsc` rendezvous (zero-capacity) channels.
//! What a receive or send returns depends on the other thread, so none of
//! the wrappers promises which outcome comes back: the verified callers
//! state what they do for every outcome.

use vstd::prelude::*;

use rppal::spi::Error as SpiBusFault;

verus! {

#[verifier::external_type_specification]
#[verifier::external_body]
#[verifier::reject_recursive_types(T)]
pub struct ExSyncSender<T>(std::sync::mpsc::SyncSender<T>);

#[verifier::external_type_specification]
#[verifier::external_body]
#[verifier::reject_recursive_types(T)]
pub struct ExReceiver<T>(std::sync::mpsc::Receiver<T>);

#[verifier::external_type_specification]
#[verifier::external_body]
pub struct ExIoError(std::io::Error);

#[verifier::external_type_specification]
#[verifier::external_body]
pub struct ExSpiError(SpiBusFault);

/// What a non-blocking receive found.
pub enum RecvOutcome<T> {
    /// A message was waiting (its sender was blocked in a rendezvous send).
    Received(T),
    /// No sender was ready; poll again later.
    Empty,
    /// Every sender is gone; nothing will ever arrive.
    Disconnected,
}

/// What a non-blocking send achieved.
pub enum SendOutcome {
    /// A receiver took the message.
    Sent,
    /// No receiver was ready to take it; try again later.
    Full,
    /// Every receiver is gone; the message can never be delivered.
    Disconnected,
}

/// Relies on std::sync::mpsc::sync_channel with a bound of zero: the two
/// endpoints of a fresh rendezvous channel, where a send completes only
/// when a receive takes the message.
#[verifier::external_body]
pub(crate) fn rendezvous_channel<T>() -> (std::sync::mpsc::SyncSender<T>, std::sync::mpsc::Receiver<
    T,
>) {
    std::sync::mpsc::sync_channel(0)
}

/// Relies on std::sync::mpsc::Receiver::try_recv: it returns without
/// blocking, with a message, `Empty`, or `Disconnected`. Which outcome
/// comes back depends on the sending thread, so nothing is promised of it.
#[verifier::external_body]
pub(crate) fn channel_try_recv<T>(rx: &std::sync::mpsc::Receiver<T>) -> RecvOutcome<T> {
    match rx.try_recv() {
        Ok(v) => RecvOutcome::Received(v),
        Err(std::sync::mpsc::TryRecvError::Empty) => RecvOutcome::Empty,
        Err(std::sync::mpsc::TryRecvError::Disconnected) => RecvOutcome::Disconnected,
    }
}

/// Relies on std::sync::mpsc::SyncSender::try_send: it returns without
/// blocking, with `Sent`, `Full`, or `Disconnected`. Which outcome comes
/// back depends on the receiving thread, so nothing is promised of it.
#[verifier::external_body]
pub(crate) fn channel_try_send<T>(tx: &std::sync::mpsc::SyncSender<T>, message: T) -> SendOutcome {
    match tx.try_send(message) {
        Ok(()) => SendOutcome::Sent,
        Err(std::sync::mpsc::TrySendError::Full(_)) => SendOutcome::Full,
        Err(std::sync::mpsc::TrySendError::Disconnected(_)) => SendOutcome::Disconnected,
    }
}

/// Relies on std::sync::mpsc::Receiver::recv: it blocks until a message
/// arrives (`Some`) or every sender is gone (`None`).
#[verifier::external_body]
pub(crate) fn channel_recv<T>(rx: &std::sync::mpsc::Receiver<T>) -> Option<T> {
    match rx.recv() {
        Ok(v) => Some(v),
        Err(std::sync::mpsc::RecvError) => None,
    }
}

/// Relies on std::sync::mpsc::SyncSender::send: it blocks until a receiver
/// takes the message (`true`) or every receiver is gone (`false`).
#[verifier::external_body]
pub(crate) fn channel_send<T>(tx: &std::sync::mpsc::SyncSender<T>, message: T) -> bool {
    match tx.send(message) {
        Ok(()) => true,
        Err(std::sync::mpsc::SendError(_)) => false,
    }
}

} // verus!
