//! The inbound-relay decision: what the task that drains a session's own
//! inbound handle does with each receive outcome. Every received frame is
//! forwarded to the session's outbound queue in arrival order; falling
//! behind the lossy buffer is non-fatal — the oldest pending frames are
//! lost, the relay keeps receiving and later frames are still delivered;
//! only closure of the handle ends the task.

use vstd::prelude::*;
use crate::frame::Frame;

verus! {

/// One outcome of receiving from the session's own inbound handle.
#[derive(Clone, Debug, PartialEq, Eq)]
pub enum RelayEvent {
    /// A frame another session published for this one.
    Frame(Frame),
    /// The receiver fell behind and this many oldest pending frames were
    /// dropped; the next receive resumes from the oldest retained frame.
    Lagged(u64),
    /// The handle is closed: no frame can ever arrive again.
    Closed,
}

/// What the relay does with one receive outcome.
#[derive(Clone, Debug, PartialEq, Eq)]
pub enum RelayAction {
    /// Hand this frame, unchanged, to the session's outbound queue.
    Forward(Frame),
    /// Keep receiving: an observed gap is not fatal to the session.
    Skip,
    /// Stop the relay task: the handle is gone.
    Stop,
}

/// The relay's decision for one receive outcome: forward every received
/// frame unchanged, treat an overflow gap as non-fatal and keep going, and
/// stop only when the handle is closed.
pub fn relay_step(event: RelayEvent) -> (a: RelayAction)
    ensures
        a == (match event {
            RelayEvent::Frame(f) => RelayAction::Forward(f),
            RelayEvent::Lagged(_) => RelayAction::Skip,
            RelayEvent::Closed => RelayAction::Stop,
        }),
{
    match event {
        RelayEvent::Frame(f) => RelayAction::Forward(f),
        RelayEvent::Lagged(_) => RelayAction::Skip,
        RelayEvent::Closed => RelayAction::Stop,
    }
}

} // verus!
