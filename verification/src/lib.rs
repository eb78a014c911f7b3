//! A callback-driven WebSocket client bridge.
//!
//! The wire protocol itself (framing, handshake, masking) is the business of
//! an external transport library; what this crate owns — and verifies — is the
//! bridging layer between a blocking, poll-based transport and an
//! event-callback programming model: the message and event vocabulary, the
//! per-iteration decisions of the worker loop (drain the outbound queue, read
//! one inbound frame, decide whether to dispatch, close, sleep or stop), and
//! the lifecycle of the caller-facing sender handle.

pub mod laws;
pub mod message;
pub mod sender;
pub mod worker;

pub use message::WsEvent;
pub use message::WsMessage;
pub use message::WireMessage;
pub use sender::WsSender;
