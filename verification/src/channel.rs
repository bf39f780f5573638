//! The delivery channel: the bounded queue that carries wire-ready frames from a
//! session's poller to its connection handler.

use tokio::sync::mpsc::error::TrySendError;
use tokio::sync::mpsc::{Receiver, Sender};
use vstd::prelude::*;

verus! {

/// The sending half of a `tokio` bounded channel. Its contents are shared with
/// other tasks, so nothing is known of a value of this type but its identity.
#[verifier::external_type_specification]
#[verifier::external_body]
#[verifier::reject_recursive_types(T)]
pub struct ExSender<T>(tokio::sync::mpsc::Sender<T>);

/// The receiving half of a `tokio` bounded channel, carried through untouched.
#[verifier::external_type_specification]
#[verifier::external_body]
#[verifier::reject_recursive_types(T)]
pub struct ExReceiver<T>(tokio::sync::mpsc::Receiver<T>);

/// One rendered frame in its wire form.
pub type Frame = String;

/// How many frames a delivery channel buffers before a send is turned away.
pub const DELIVERY_CAPACITY: usize = 10;

/// What became of one attempt to hand a frame to a delivery channel.
#[derive(Clone, Copy, Debug, PartialEq, Eq, Structural)]
pub enum Delivery {
    /// The frame was queued.
    Sent,
    /// The queue was full; the frame was dropped.
    Full,
    /// The receiving half is gone; the frame was dropped.
    Closed,
}

/// Calls `tokio::sync::mpsc::channel`, which panics on a capacity of zero or one
/// above its semaphore's limit of `usize::MAX >> 3` permits; both are excluded.
/// Nothing is claimed of the two halves.
#[verifier::external_body]
pub(crate) fn open_channel(capacity: usize) -> (ends: (Sender<Frame>, Receiver<Frame>))
    requires
        0 < capacity <= usize::MAX / 8,
{
    tokio::sync::mpsc::channel::<Frame>(capacity)
}

/// Calls `Sender::try_send`, which returns at once. Whether the frame is queued
/// depends on the receiving task, so nothing is claimed of the outcome.
#[verifier::external_body]
pub(crate) fn try_deliver(channel: &Sender<Frame>, frame: Frame) -> (outcome: Delivery) {
    match channel.try_send(frame) {
        Ok(()) => Delivery::Sent,
        Err(TrySendError::Full(_)) => Delivery::Full,
        Err(TrySendError::Closed(_)) => Delivery::Closed,
    }
}

} // verus!
