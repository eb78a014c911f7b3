//! The caller-facing sender handle: the producer end of the outbound channel
//! wrapped in an optional reference whose clearing is the sole close signal.
//!
//! The channel itself belongs to the standard library; this module declares
//! it and states only what its documentation promises. The handle's own
//! lifecycle — enqueue while open, drop silently once closed, clear at most
//! once, leak on request — is verified.

use vstd::prelude::*;

use crate::message::WsMessage;

verus! {

/// The producer end of the outbound channel, from the standard library's
/// multi-producer single-consumer queue; opaque here.
#[verifier::external_type_specification]
#[verifier::external_body]
#[verifier::reject_recursive_types(T)]
pub struct ExSender<T>(std::sync::mpsc::Sender<T>);

/// Relies on std::sync::mpsc::Sender::send: the message is queued for the
/// consumer unless the consumer has disconnected, in which case it is
/// dropped; messages from one producer arrive in the order they were sent.
/// The worker treats a disconnected consumer as a dead connection, so the
/// send result is deliberately ignored, as nothing is owed once the worker
/// is gone.
#[verifier::external_body]
fn channel_send(tx: &std::sync::mpsc::Sender<WsMessage>, msg: WsMessage) {
    let _ = tx.send(msg);
}

/// Relies on std::mem::forget: the producer end is leaked, never dropped, so
/// the consumer can never observe a disconnect from this handle.
#[verifier::external_body]
fn leak_producer(tx: Option<std::sync::mpsc::Sender<WsMessage>>) {
    std::mem::forget(tx);
}

/// This is how you send [`WsMessage`]s to the worker of a full-duplex
/// connection.
///
/// The handle owns the producer end of the outbound channel. Dropping the
/// handle — or calling [`WsSender::close`] — drops that producer end, which
/// the worker observes on its next outbound poll as the signal to close the
/// connection; [`WsSender::forget`] leaks the producer end instead, so the
/// connection outlives the handle.
pub struct WsSender {
    tx: Option<std::sync::mpsc::Sender<WsMessage>>,
    history: Ghost<Seq<WsMessage>>,
}

impl WsSender {
    /// Whether the handle still holds the producer end. Once it does not,
    /// no further message can be enqueued through it.
    pub closed spec fn is_open(&self) -> bool {
        self.tx is Some
    }

    /// The producer end the handle holds, if it still holds one.
    pub closed spec fn producer(&self) -> Option<std::sync::mpsc::Sender<WsMessage>> {
        self.tx
    }

    /// Every message this handle has handed to the channel, oldest first:
    /// exactly what the worker will poll off its end, in this order.
    pub closed spec fn sent_history(&self) -> Seq<WsMessage> {
        self.history@
    }

    /// Bind a fresh handle to the producer end of a worker's outbound
    /// channel; nothing has been sent through it yet.
    pub fn new(tx: std::sync::mpsc::Sender<WsMessage>) -> (s: WsSender)
        ensures
            s.is_open(),
            s.producer() == Some(tx),
            s.sent_history() == Seq::<WsMessage>::empty(),
    {
        WsSender { tx: Some(tx), history: Ghost(Seq::empty()) }
    }

    /// Send a message.
    ///
    /// You have to wait for [`crate::WsEvent::Opened`] before you can start
    /// sending messages. While the handle is open, the message is handed to
    /// the outbound channel, after everything sent before it; once the
    /// handle has been closed it is silently dropped, never queued.
    pub fn send(&mut self, msg: WsMessage)
        ensures
            old(self).is_open() ==> {
                &&& final(self).producer() == old(self).producer()
                &&& final(self).sent_history() == old(self).sent_history().push(msg)
            },
            !old(self).is_open() ==> *final(self) == *old(self),
    {
        match &self.tx {
            Some(tx) => {
                self.history = Ghost(self.history@.push(msg));
                channel_send(tx, msg);
            },
            None => {},
        }
    }

    /// Close the connection: clear the producer end, which the worker
    /// observes as the hang-up signal.
    ///
    /// This is called automatically when the sender is dropped. It is
    /// idempotent — clearing twice is a no-op — and always succeeds; the
    /// fallible signature is reserved for transports whose close can fail.
    pub fn close(&mut self) -> (r: Result<(), String>)
        ensures
            r is Ok,
            !final(self).is_open(),
            final(self).sent_history() == old(self).sent_history(),
    {
        self.tx = None;
        Ok(())
    }

    /// Forget about this sender without closing the connection: the producer
    /// end is leaked, so the worker is never signaled to close merely
    /// because this handle's scope ended.
    pub fn forget(self) {
        let WsSender { tx, history: _ } = self;
        leak_producer(tx);
    }
}

} // verus!
