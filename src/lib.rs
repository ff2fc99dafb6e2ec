//! The core of a bridge between a chat platform's voice channel and a
//! WebRTC meeting room: the signaling message model and its JSON encoding,
//! the mapping of inbound signaling to WebRTC operations, the bounded queue
//! of local ICE candidates, the audio relay and the session's event loop.

pub mod json;
pub mod message;
pub mod negotiation;
pub mod candidates;
pub mod session;
pub mod relay;
pub mod bootstrap;
pub mod phase;
