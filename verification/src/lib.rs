//! A real-time message relay core: a shared registry mapping connection
//! identifiers to inbound publish handles, the per-frame routing decision of
//! a session's dispatcher, and the session registration and cleanup
//! protocol. Sockets, timers and task scheduling live outside; everything
//! that decides where a frame goes lives here.

pub mod channel;
pub mod dispatch;
pub mod frame;
pub mod ids;
pub mod json;
pub mod laws;
pub mod registry;
pub mod relay;
pub mod session;
