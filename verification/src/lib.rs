//! Protocol engine for a streamed conversational chat service.
//!
//! The crate covers the session credential handling, the delimiter-framed
//! JSON object codec used on the websocket, the turn protocol state machine
//! with its single-flight busy gate, and the demultiplexing of inbound
//! frames into conversational events.  Network transport and rendering are
//! left to the embedding application.

pub mod bootstrap;
pub mod bytes;
pub mod codec;
pub mod conversation;
pub mod credential;
pub mod errors;
pub mod events;
pub mod history;
pub mod machine;
pub mod outbound;
