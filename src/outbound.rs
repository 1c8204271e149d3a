//! The per-device outbound queue and device identities.
//!
//! Each device has a bounded, ordered, single-consumer queue of frames; a
//! dedicated task drains it onto the device's connection.
use vstd::prelude::*;

use tokio::sync::mpsc::{Receiver, Sender};

use crate::messages::OutboundFrame;

verus! {

#[verifier::external_type_specification]
#[verifier::external_body]
#[verifier::reject_recursive_types(T)]
pub struct ExSender<T>(Sender<T>);

#[verifier::external_type_specification]
#[verifier::external_body]
#[verifier::reject_recursive_types(T)]
pub struct ExReceiver<T>(Receiver<T>);

/// Why a frame could not be queued.
#[derive(Clone, Copy, Debug, PartialEq, Eq)]
pub enum PushError {
    /// The queue holds as many frames as it can.
    Full,
    /// The receiving side is gone.
    Closed,
}

/// How many frames the queue behind a sender was made to hold: what
/// tokio's `Sender::max_capacity` reports.
pub uninterp spec fn queue_bound(tx: Sender<OutboundFrame>) -> usize;

/// Relies on tokio's `mpsc::channel`: a bounded queue that holds at most
/// `capacity` frames (the channel's semaphore keeps `bound = buffer`, which
/// `Sender::max_capacity` returns); it panics when `capacity` is zero or
/// above the semaphore's limit of `usize::MAX >> 3` permits.
#[verifier::external_body]
pub(crate) fn bounded_queue(capacity: usize) -> (r: (Sender<OutboundFrame>, Receiver<OutboundFrame>))
    requires
        0 < capacity <= usize::MAX / 8,
    ensures
        queue_bound(r.0) == capacity,
{
    tokio::sync::mpsc::channel(capacity)
}

/// Relies on tokio's `Sender::try_send`, which never waits: it queues the
/// frame, or fails with `Full` or `Closed`. Which of these comes depends on
/// what the consumer has done, so nothing is promised about it.
#[verifier::external_body]
pub(crate) fn try_push(tx: &Sender<OutboundFrame>, frame: OutboundFrame) -> (r: Result<(), PushError>) {
    match tx.try_send(frame) {
        Ok(()) => Ok(()),
        Err(tokio::sync::mpsc::error::TrySendError::Full(_)) => Err(PushError::Full),
        Err(tokio::sync::mpsc::error::TrySendError::Closed(_)) => Err(PushError::Closed),
    }
}

/// Relies on uuid's `Uuid::new_v4`: a random 128-bit identifier, handed back
/// as its integer value. Nothing is promised about which value comes. The
/// call panics only when the operating system cannot supply random bytes.
#[verifier::external_body]
pub(crate) fn random_identity() -> (r: u128) {
    uuid::Uuid::new_v4().as_u128()
}

} // verus!
