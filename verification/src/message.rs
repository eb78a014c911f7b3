//! The message vocabulary shared by the caller, the worker loop and the wire,
//! and the translation between the caller-facing and wire-facing forms.

use vstd::prelude::*;

verus! {

/// A message that the application can send, or receive as part of a
/// [`WsEvent::Message`] event.
#[derive(Clone, Debug, PartialEq, Eq)]
pub enum WsMessage {
    /// Binary data.
    Binary(Vec<u8>),
    /// Text.
    Text(String),
    /// An inbound frame of a kind this layer does not model further.
    /// It can never be sent: enqueueing it is a caller contract violation.
    Unknown(String),
    /// A ping control frame.
    Ping(Vec<u8>),
    /// A pong control frame.
    Pong(Vec<u8>),
}

/// An event dispatched to the application's callback by the worker loop.
#[derive(Clone, Debug, PartialEq, Eq)]
pub enum WsEvent {
    /// The handshake succeeded; the connection is open.
    Opened,
    /// A message arrived from the peer.
    Message(WsMessage),
    /// A fatal transport failure; always terminal for the connection.
    Error(String),
    /// The peer or the transport closed the stream; terminal.
    Closed,
}

/// The shape of a wire-level message as the transport library hands it over
/// or accepts it: the payload-bearing kinds carry their payload as plain
/// values, a close frame and an unclassified raw frame carry only their tag,
/// which is all the worker loop ever reads of them.
#[derive(Clone, Debug, PartialEq, Eq)]
pub enum WireMessage {
    /// A text data frame.
    Text(String),
    /// A binary data frame.
    Binary(Vec<u8>),
    /// A ping control frame.
    Ping(Vec<u8>),
    /// A pong control frame.
    Pong(Vec<u8>),
    /// A close frame.
    Close,
    /// A raw frame that is none of the classified kinds.
    Frame,
}

/// The wire form of an outbound message: payloads carry over unchanged.
/// Only sendable messages have a wire form; `Unknown` has none.
pub open spec fn wire_of_message(m: WsMessage) -> WireMessage
    recommends
        !(m is Unknown),
{
    match m {
        WsMessage::Text(text) => WireMessage::Text(text),
        WsMessage::Binary(data) => WireMessage::Binary(data),
        WsMessage::Ping(data) => WireMessage::Ping(data),
        WsMessage::Pong(data) => WireMessage::Pong(data),
        WsMessage::Unknown(_) => arbitrary(),
    }
}

/// The message carried by an inbound wire frame, if it is one that is
/// forwarded to the application: close frames and raw frames carry none.
pub open spec fn message_of_wire(w: WireMessage) -> Option<WsMessage> {
    match w {
        WireMessage::Text(text) => Some(WsMessage::Text(text)),
        WireMessage::Binary(data) => Some(WsMessage::Binary(data)),
        WireMessage::Ping(data) => Some(WsMessage::Ping(data)),
        WireMessage::Pong(data) => Some(WsMessage::Pong(data)),
        WireMessage::Close => None,
        WireMessage::Frame => None,
    }
}

/// Translate an outbound message to its wire form.
///
/// Payloads are handed over byte for byte; the caller must not pass
/// `Unknown`, which has no wire form.
pub fn outgoing_wire(msg: WsMessage) -> (w: WireMessage)
    requires
        !(msg is Unknown),
    ensures
        w == wire_of_message(msg),
{
    match msg {
        WsMessage::Text(text) => WireMessage::Text(text),
        WsMessage::Binary(data) => WireMessage::Binary(data),
        WsMessage::Ping(data) => WireMessage::Ping(data),
        WsMessage::Pong(data) => WireMessage::Pong(data),
        WsMessage::Unknown(_) => {
            proof {
                assert(false);
            }
            WireMessage::Frame
        },
    }
}

/// Round trip: a sendable message written to the wire and read back is the
/// same message, byte for byte — in particular a ping is written out, never
/// silently dropped by this layer.
pub proof fn lemma_wire_round_trip(m: WsMessage)
    requires
        !(m is Unknown),
    ensures
        message_of_wire(wire_of_message(m)) == Some(m),
{
}

} // verus!
