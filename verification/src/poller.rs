//! The frame poller's decisions: what one pass of a session's polling loop does
//! with the latest frame, and when the loop ends.

use crate::channel::{try_deliver, Delivery};
use crate::session_store::{close_requested, AppState};
use vstd::prelude::*;

verus! {

/// What the poller's loop does next.
#[derive(Clone, Copy, Debug, PartialEq, Eq, Structural)]
pub enum PollerStep {
    /// Sleep for the polling interval, then poll again.
    Wait,
    /// Leave the loop.
    Stop,
}

/// The step that follows one pass. `outcome` is what became of the delivery,
/// or `None` where nothing was delivered: there was no frame yet, or no
/// channel to hand it to. The loop ends when the receiving half of the channel
/// is gone or the session has been asked to close; a full queue is no reason.
pub open spec fn step_after(outcome: Option<Delivery>, close_requested: bool) -> PollerStep {
    if outcome == Some(Delivery::Closed) || close_requested {
        PollerStep::Stop
    } else {
        PollerStep::Wait
    }
}

/// The step that follows one pass, from what became of the delivery and from
/// the session's close flag.
pub fn after_delivery(outcome: Option<Delivery>, close_requested: bool) -> (step: PollerStep)
    ensures
        step == step_after(outcome, close_requested),
{
    match outcome {
        Some(Delivery::Closed) => PollerStep::Stop,
        _ => if close_requested {
            PollerStep::Stop
        } else {
            PollerStep::Wait
        },
    }
}

/// How long the poller sleeps between two passes, in milliseconds.
pub const POLL_INTERVAL_MS: u64 = 100;

/// What one pass of the polling loop did and what follows it.
#[derive(Clone, Copy, Debug, PartialEq, Eq, Structural)]
pub struct Pass {
    /// What became of the delivery; `None` where nothing was handed over.
    pub outcome: Option<Delivery>,
    /// What the loop does next.
    pub step: PollerStep,
}

/// One pass of the polling loop for session `id`: hands `frame`, the latest
/// frame in its wire form, to the session's delivery channel without waiting,
/// then looks at the close flag.
///
/// A frame is handed over exactly where there is one and the session is
/// registered; what becomes of it is the channel's affair and is reported.
/// The step is the one that follows that outcome and the close flag.
pub fn poll_once(store: &AppState, id: u128, frame: Option<String>) -> (pass: Pass)
    requires
        store.wf(),
    ensures
        pass.outcome is None <==> (frame is None || !store@.contains_key(id)),
        pass.step == step_after(pass.outcome, close_requested(store@, id)),
{
    let outcome = match frame {
        Some(text) => match store.get_delivery_channel(id) {
            Some(channel) => Some(try_deliver(channel, text)),
            None => None,
        },
        None => None,
    };
    Pass { outcome, step: after_delivery(outcome, store.is_close_requested(id)) }
}

} // verus!
