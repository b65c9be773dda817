//! The inbound publish handle of a session: a lossy, capacity-bounded
//! broadcast channel. Other sessions publish frames into it; the owning
//! session drains it towards its own socket. Under sustained overflow the
//! oldest pending items are dropped, so delivery is best-effort.

use vstd::prelude::*;
use crate::frame::Frame;

verus! {

#[verifier::external_type_specification]
#[verifier::external_body]
#[verifier::reject_recursive_types(T)]
pub struct ExBroadcastSender<T>(tokio::sync::broadcast::Sender<T>);

#[verifier::external_type_specification]
#[verifier::external_body]
#[verifier::reject_recursive_types(T)]
pub struct ExBroadcastReceiver<T>(tokio::sync::broadcast::Receiver<T>);

/// Relies on tokio::sync::broadcast::Sender::clone: the clone is another
/// publish handle of the very same channel, so at this library's level of
/// abstraction it is the same value.
pub assume_specification<T>[ <tokio::sync::broadcast::Sender<T> as Clone>::clone ](
    s: &tokio::sync::broadcast::Sender<T>,
) -> (r: tokio::sync::broadcast::Sender<T>)
    ensures
        r == *s,
;

/// How many frames an inbound handle buffers before it starts dropping
/// its oldest pending frame.
pub const INBOUND_CAPACITY: usize = 100;

/// Relies on tokio::sync::broadcast::channel: a fresh channel whose sender
/// and receiver are connected to nothing else. It panics only on a capacity
/// of zero or above half the address space, which the preconditions rule
/// out.
#[verifier::external_body]
pub(crate) fn new_inbound_handle(capacity: usize) -> (r: (
    tokio::sync::broadcast::Sender<Frame>,
    tokio::sync::broadcast::Receiver<Frame>,
))
    requires
        capacity >= 1,
        capacity <= usize::MAX / 2,
{
    tokio::sync::broadcast::channel(capacity)
}

/// Relies on tokio::sync::broadcast::Sender::send: best-effort delivery to
/// whatever receivers are live at the moment of the call. The relay is
/// fire-and-forget, so the send result is deliberately ignored.
#[verifier::external_body]
pub(crate) fn publish_to(handle: &tokio::sync::broadcast::Sender<Frame>, frame: Frame) {
    let _ = handle.send(frame);
}

} // verus!
