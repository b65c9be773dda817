//! Session registration and cleanup: the two registry transitions every
//! session performs, at start and exactly once at its end.

use vstd::prelude::*;
use crate::channel::{new_inbound_handle, INBOUND_CAPACITY};
use crate::frame::Frame;
use crate::ids::fresh_generated_id;
use crate::registry::{Handle, Registry};

verus! {

/// How many frames a session's outbound queue holds before a producer into
/// it suspends: outgoing frames are never dropped, producers wait instead.
pub const OUTBOUND_CAPACITY: usize = 100;

/// The period, in seconds, at which a session enqueues a liveness probe
/// frame for its own socket.
pub const KEEPALIVE_PERIOD_SECS: u64 = 30;

/// What starting a session yields: the generated identifier it was
/// registered under, the publish half of its inbound handle (the value the
/// registry now maps the id to), and the receive half the session drains
/// towards its own socket.
pub struct SessionStart {
    pub generated_id: String,
    pub handle: Handle,
    pub inbox: tokio::sync::broadcast::Receiver<Frame>,
}

/// Starts a session: draws a fresh identifier, creates the session's
/// capacity-bounded inbound handle, and registers the publish half under
/// the generated id. The identifier is drawn at random; its uniqueness
/// among live sessions rests on that randomness and is not a promise of
/// this contract.
pub fn start_session(registry: &mut Registry) -> (r: SessionStart)
    requires
        old(registry).wf(),
    ensures
        final(registry).wf(),
        final(registry)@ == old(registry)@.insert(r.generated_id@, r.handle),
        r.generated_id@.len() == 36,
{
    let id = fresh_generated_id();
    let (handle, inbox) = new_inbound_handle(INBOUND_CAPACITY);
    registry.register(id.clone(), handle.clone());
    SessionStart { generated_id: id, handle, inbox }
}

/// Ends a session: removes its generated id from the registry, so a later
/// lookup for that id is absent. Aliases the session registered stay
/// behind, still mapping to its now-stale handle; every other id keeps the
/// handle it had.
pub fn end_session(registry: &mut Registry, generated_id: &String)
    requires
        old(registry).wf(),
    ensures
        final(registry).wf(),
        final(registry)@ == old(registry)@.remove(generated_id@),
{
    registry.remove(generated_id);
}

} // verus!
