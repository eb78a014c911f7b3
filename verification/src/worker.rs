//! The decisions of the connection worker: what one iteration of the
//! full-duplex loop does with its outbound poll and inbound read, what the
//! read-only loop does with each inbound frame, and models of whole runs of
//! both loops and of the event stream of a whole session; the laws that hold
//! of every run live in [`crate::laws`].
//!
//! The worker drains the outbound queue before it attempts a read, so a
//! caller-initiated shutdown is observed every iteration even under inbound
//! load; an iteration that moved no message in either direction asks the
//! caller of these functions to sleep one poll interval before retrying.

use vstd::prelude::*;

use crate::message::{message_of_wire, wire_of_message, WireMessage, WsEvent, WsMessage};

verus! {

/// What one non-blocking poll of the outbound channel produced.
#[derive(Clone, Debug, PartialEq, Eq)]
pub enum ChannelPoll {
    /// A queued message is ready to go out.
    Received(WsMessage),
    /// Nothing queued; the producer end is still alive.
    Empty,
    /// The producer end was dropped: the designed clean-shutdown signal.
    Disconnected,
}

/// What the worker is to do with the outbound side this iteration.
#[derive(Clone, Debug, PartialEq, Eq)]
pub enum OutboundPlan {
    /// Write this wire message to the socket.
    Write(WireMessage),
    /// Attempt a graceful close and stop cleanly: the caller hung up.
    ShutdownClean,
    /// Nothing to send; go on to the inbound side.
    Idle,
}

/// What the outbound half of one iteration came to, once the planned write
/// (if any) was attempted.
#[derive(Clone, Debug, PartialEq, Eq)]
pub enum OutboundStep {
    /// A queued message was written to the wire successfully.
    Sent(WsMessage),
    /// A queued message was taken off the channel but the write failed,
    /// with the transport's description of the failure.
    SendFailed(WsMessage, String),
    /// The producer end was dropped.
    Disconnected,
    /// The channel was empty.
    Empty,
}

/// What one read attempt on the socket produced.
#[derive(Clone, Debug, PartialEq, Eq)]
pub enum ReadPoll {
    /// A wire message arrived.
    Received(WireMessage),
    /// No data was ready; expected under non-blocking reads, not an error.
    WouldBlock,
    /// The transport failed, with its description of the failure.
    Failed(String),
}

/// Everything one iteration of the full-duplex loop reacts to.
#[derive(Clone, Debug, PartialEq, Eq)]
pub struct BridgeInput {
    /// The outcome of the outbound half of the iteration.
    pub outbound: OutboundStep,
    /// The outcome of the read attempt; consulted only when the outbound
    /// half did not already stop the loop.
    pub read: ReadPoll,
}

/// How one iteration leaves the loop.
#[derive(Clone, Debug, PartialEq, Eq)]
pub enum IterationOutcome {
    /// Keep looping; the flag asks for one idle-poll sleep first, and is set
    /// exactly when the iteration moved no message in either direction.
    Continue(bool),
    /// Stop without fault: the caller hung up or the peer sent a close frame.
    StopClean,
    /// Stop on a fatal transport failure, with its description.
    StopError(String),
}

/// Everything one iteration of the full-duplex loop decides.
#[derive(Clone, Debug, PartialEq, Eq)]
pub struct IterationStep {
    /// The wire message this iteration put on the wire, if any.
    pub write: Option<WireMessage>,
    /// The event to dispatch to the application, if any.
    pub event: Option<WsEvent>,
    /// Whether to attempt a best-effort graceful close of the socket
    /// (close handshake plus flush, errors ignored) before stopping.
    pub close_socket: bool,
    /// Whether and how the loop goes on.
    pub outcome: IterationOutcome,
}

/// An iteration input is well formed when any message it moved was sendable:
/// the worker never takes an `Unknown` message to the wire.
pub open spec fn input_wf(i: BridgeInput) -> bool {
    &&& (i.outbound matches OutboundStep::Sent(m) ==> !(m is Unknown))
    &&& (i.outbound matches OutboundStep::SendFailed(m, _) ==> !(m is Unknown))
}

/// The outbound half alone stops the loop exactly when the caller hung up or
/// a write failed.
pub open spec fn outbound_stops(o: OutboundStep) -> bool {
    o is Disconnected || o is SendFailed
}

/// The event an inbound read dispatches: data and control frames are
/// forwarded as messages, a close frame becomes `Closed`, a raw frame and a
/// would-block are silently ignored, and a failure becomes `Error`.
pub open spec fn inbound_event(r: ReadPoll) -> Option<WsEvent> {
    match r {
        ReadPoll::Received(w) => {
            if w is Close {
                Some(WsEvent::Closed)
            } else {
                match message_of_wire(w) {
                    Some(m) => Some(WsEvent::Message(m)),
                    None => None,
                }
            }
        },
        ReadPoll::WouldBlock => None,
        ReadPoll::Failed(e) => Some(WsEvent::Error(e)),
    }
}

/// The event one full iteration dispatches: a failed write reports `Error`,
/// a hang-up reports nothing, and otherwise the inbound read decides.
pub open spec fn iter_event(i: BridgeInput) -> Option<WsEvent> {
    match i.outbound {
        OutboundStep::Disconnected => None,
        OutboundStep::SendFailed(_, e) => Some(WsEvent::Error(e)),
        _ => inbound_event(i.read),
    }
}

/// The wire message one iteration wrote successfully, if any.
pub open spec fn iter_write(i: BridgeInput) -> Option<WireMessage> {
    match i.outbound {
        OutboundStep::Sent(m) => Some(wire_of_message(m)),
        _ => None,
    }
}

/// Whether one iteration attempts the best-effort graceful close: exactly on
/// the caller's hang-up and on a write failure. A received close frame needs
/// none — the transport answers it as part of reading.
pub open spec fn iter_close(i: BridgeInput) -> bool {
    outbound_stops(i.outbound)
}

/// How one iteration leaves the loop: hang-up and a received close frame
/// stop it cleanly, a failed write or read stops it with that error, and
/// anything else continues — sleeping exactly when no message moved.
pub open spec fn iter_outcome(i: BridgeInput) -> IterationOutcome {
    match i.outbound {
        OutboundStep::Disconnected => IterationOutcome::StopClean,
        OutboundStep::SendFailed(_, e) => IterationOutcome::StopError(e),
        _ => match i.read {
            ReadPoll::Received(w) => {
                if w is Close {
                    IterationOutcome::StopClean
                } else {
                    IterationOutcome::Continue(false)
                }
            },
            ReadPoll::WouldBlock => IterationOutcome::Continue(i.outbound is Empty),
            ReadPoll::Failed(e) => IterationOutcome::StopError(e),
        },
    }
}

/// Whether one iteration stops the loop.
pub open spec fn iter_stops(i: BridgeInput) -> bool {
    !(iter_outcome(i) is Continue)
}

/// What the worker is to do with one outbound poll.
pub open spec fn outbound_plan(poll: ChannelPoll) -> OutboundPlan {
    match poll {
        ChannelPoll::Received(m) => OutboundPlan::Write(wire_of_message(m)),
        ChannelPoll::Disconnected => OutboundPlan::ShutdownClean,
        ChannelPoll::Empty => OutboundPlan::Idle,
    }
}

/// Decide the outbound half of an iteration from one channel poll: a queued
/// message is translated and written, a hang-up shuts the connection down
/// cleanly, an empty channel is a no-op.
///
/// The caller must not poll an `Unknown` message into this function: that
/// message cannot be sent, and enqueueing one is a caller contract violation.
pub fn plan_outbound(poll: ChannelPoll) -> (p: OutboundPlan)
    requires
        poll matches ChannelPoll::Received(m) ==> !(m is Unknown),
    ensures
        p == outbound_plan(poll),
{
    match poll {
        ChannelPoll::Received(m) => OutboundPlan::Write(crate::message::outgoing_wire(m)),
        ChannelPoll::Disconnected => OutboundPlan::ShutdownClean,
        ChannelPoll::Empty => OutboundPlan::Idle,
    }
}

/// Decide everything one iteration of the full-duplex loop does, given what
/// its outbound half and its read attempt produced.
pub fn bridge_iteration(input: BridgeInput) -> (step: IterationStep)
    requires
        input_wf(input),
    ensures
        step.write == iter_write(input),
        step.event == iter_event(input),
        step.close_socket == iter_close(input),
        step.outcome == iter_outcome(input),
{
    match input.outbound {
        OutboundStep::Disconnected => IterationStep {
            write: None,
            event: None,
            close_socket: true,
            outcome: IterationOutcome::StopClean,
        },
        OutboundStep::SendFailed(_, e) => IterationStep {
            write: None,
            event: Some(WsEvent::Error(e.clone())),
            close_socket: true,
            outcome: IterationOutcome::StopError(e),
        },
        outbound => {
            let sent_wire: Option<WireMessage> = match outbound {
                OutboundStep::Sent(m) => Some(crate::message::outgoing_wire(m)),
                _ => None,
            };
            let polled_something = sent_wire.is_some();
            match input.read {
                ReadPoll::Received(w) => {
                    if matches!(w, WireMessage::Close) {
                        IterationStep {
                            write: sent_wire,
                            event: Some(WsEvent::Closed),
                            close_socket: false,
                            outcome: IterationOutcome::StopClean,
                        }
                    } else {
                        let event = match w {
                            WireMessage::Text(text) => Some(WsEvent::Message(WsMessage::Text(text))),
                            WireMessage::Binary(data) => Some(WsEvent::Message(WsMessage::Binary(data))),
                            WireMessage::Ping(data) => Some(WsEvent::Message(WsMessage::Ping(data))),
                            WireMessage::Pong(data) => Some(WsEvent::Message(WsMessage::Pong(data))),
                            WireMessage::Close => None,
                            WireMessage::Frame => None,
                        };
                        IterationStep {
                            write: sent_wire,
                            event,
                            close_socket: false,
                            outcome: IterationOutcome::Continue(false),
                        }
                    }
                },
                ReadPoll::WouldBlock => IterationStep {
                    write: sent_wire,
                    event: None,
                    close_socket: false,
                    outcome: IterationOutcome::Continue(!polled_something),
                },
                ReadPoll::Failed(e) => IterationStep {
                    write: sent_wire,
                    event: Some(WsEvent::Error(e.clone())),
                    close_socket: false,
                    outcome: IterationOutcome::StopError(e),
                },
            }
        },
    }
}

/// The event one read of the read-only loop dispatches. It differs from the
/// full-duplex loop's inbound mapping in one point: a read failure in this
/// mode is reported only through the loop's error return (and so the log),
/// never as an event.
pub open spec fn receiver_event(read: ReadPoll) -> Option<WsEvent> {
    match read {
        ReadPoll::Received(_) => inbound_event(read),
        ReadPoll::WouldBlock => None,
        ReadPoll::Failed(_) => None,
    }
}

/// How one iteration of the read-only loop leaves it: a close frame stops it
/// cleanly, a failure stops it with that error, and every other frame lets it
/// go on — always sleeping one poll interval, as that loop reads one message
/// at a time.
pub open spec fn receiver_outcome(read: ReadPoll) -> IterationOutcome {
    match read {
        ReadPoll::Received(w) => {
            if w is Close {
                IterationOutcome::StopClean
            } else {
                IterationOutcome::Continue(true)
            }
        },
        ReadPoll::WouldBlock => IterationOutcome::Continue(true),
        ReadPoll::Failed(e) => IterationOutcome::StopError(e),
    }
}

/// Decide everything one iteration of the read-only loop does with its
/// blocking read. A blocking read never would-blocks, so that outcome is
/// left out. The read-only worker never writes and never initiates a close;
/// a failed read stops it with the error, reported through the return value
/// alone, not as an event.
pub fn receiver_iteration(read: ReadPoll) -> (step: IterationStep)
    requires
        !(read is WouldBlock),
    ensures
        step.write is None,
        step.event == receiver_event(read),
        !step.close_socket,
        step.outcome == receiver_outcome(read),
{
    match read {
        ReadPoll::Received(w) => {
            if matches!(w, WireMessage::Close) {
                IterationStep {
                    write: None,
                    event: Some(WsEvent::Closed),
                    close_socket: false,
                    outcome: IterationOutcome::StopClean,
                }
            } else {
                let event = match w {
                    WireMessage::Text(text) => Some(WsEvent::Message(WsMessage::Text(text))),
                    WireMessage::Binary(data) => Some(WsEvent::Message(WsMessage::Binary(data))),
                    WireMessage::Ping(data) => Some(WsEvent::Message(WsMessage::Ping(data))),
                    WireMessage::Pong(data) => Some(WsEvent::Message(WsMessage::Pong(data))),
                    WireMessage::Close => None,
                    WireMessage::Frame => None,
                };
                IterationStep {
                    write: None,
                    event,
                    close_socket: false,
                    outcome: IterationOutcome::Continue(true),
                }
            }
        },
        ReadPoll::WouldBlock => IterationStep {
            write: None,
            event: None,
            close_socket: false,
            outcome: IterationOutcome::Continue(true),
        },
        ReadPoll::Failed(e) => IterationStep {
            write: None,
            event: None,
            close_socket: false,
            outcome: IterationOutcome::StopError(e),
        },
    }
}

/// How a whole run of the full-duplex loop ended, if it did.
#[derive(Clone, Debug, PartialEq, Eq)]
pub enum RunOutcome {
    /// The run worked through every given iteration without stopping.
    Running,
    /// The run stopped without fault.
    StoppedClean,
    /// The run stopped on a fatal failure, with its description.
    StoppedError(String),
}

/// Everything a run of the full-duplex loop did.
#[derive(Clone, Debug, PartialEq, Eq)]
pub struct RunResult {
    /// The events dispatched to the application, in dispatch order.
    pub events: Vec<WsEvent>,
    /// The wire messages written successfully, in write order.
    pub writes: Vec<WireMessage>,
    /// Whether the worker attempted the best-effort graceful close.
    pub close_attempted: bool,
    /// How the run ended.
    pub outcome: RunOutcome,
}

/// A run's iteration inputs are well formed when each one is.
pub open spec fn run_wf(s: Seq<BridgeInput>) -> bool {
    forall|k: int| 0 <= k < s.len() ==> input_wf(#[trigger] s[k])
}

/// The sequence an optional value contributes: its element, or nothing.
pub open spec fn seq_of_option<A>(o: Option<A>) -> Seq<A> {
    match o {
        Some(a) => seq![a],
        None => Seq::empty(),
    }
}

/// The events a run of the loop dispatches, in order: each iteration's
/// event up to and including the first iteration that stops the loop.
pub open spec fn run_events(s: Seq<BridgeInput>) -> Seq<WsEvent>
    decreases s.len(),
{
    if s.len() == 0 {
        Seq::empty()
    } else if iter_stops(s[0]) {
        seq_of_option(iter_event(s[0]))
    } else {
        seq_of_option(iter_event(s[0])) + run_events(s.drop_first())
    }
}

/// The wire messages a run of the loop writes successfully, in order.
pub open spec fn run_writes(s: Seq<BridgeInput>) -> Seq<WireMessage>
    decreases s.len(),
{
    if s.len() == 0 {
        Seq::empty()
    } else if iter_stops(s[0]) {
        seq_of_option(iter_write(s[0]))
    } else {
        seq_of_option(iter_write(s[0])) + run_writes(s.drop_first())
    }
}

/// The messages a run of the loop takes off the outbound channel and writes
/// successfully, in channel order.
pub open spec fn run_sent(s: Seq<BridgeInput>) -> Seq<WsMessage>
    decreases s.len(),
{
    if s.len() == 0 {
        Seq::empty()
    } else {
        let head = match s[0].outbound {
            OutboundStep::Sent(m) => seq![m],
            _ => Seq::empty(),
        };
        if iter_stops(s[0]) {
            head
        } else {
            head + run_sent(s.drop_first())
        }
    }
}

/// Whether a run of the loop ever attempts the best-effort graceful close.
pub open spec fn run_close(s: Seq<BridgeInput>) -> bool
    decreases s.len(),
{
    if s.len() == 0 {
        false
    } else {
        iter_close(s[0]) || (!iter_stops(s[0]) && run_close(s.drop_first()))
    }
}

/// How a run of the loop ends: with the first stopping iteration's outcome,
/// or not at all.
pub open spec fn run_outcome(s: Seq<BridgeInput>) -> RunOutcome
    decreases s.len(),
{
    if s.len() == 0 {
        RunOutcome::Running
    } else {
        match iter_outcome(s[0]) {
            IterationOutcome::Continue(_) => run_outcome(s.drop_first()),
            IterationOutcome::StopClean => RunOutcome::StoppedClean,
            IterationOutcome::StopError(e) => RunOutcome::StoppedError(e),
        }
    }
}

/// Run the full-duplex loop over a given sequence of iteration inputs,
/// stopping at the first iteration that stops it: the executable form of the
/// run model, iteration by iteration as the live worker performs them.
#[verifier::loop_isolation(false)]
pub fn run_bridge(inputs: Vec<BridgeInput>) -> (r: RunResult)
    requires
        run_wf(inputs@),
    ensures
        r.events@ == run_events(inputs@),
        r.writes@ == run_writes(inputs@),
        r.close_attempted == run_close(inputs@),
        r.outcome == run_outcome(inputs@),
{
    let ghost orig = inputs@;
    let mut pending = inputs;
    let mut events: Vec<WsEvent> = Vec::new();
    let mut writes: Vec<WireMessage> = Vec::new();
    while pending.len() > 0
        invariant
            run_wf(pending@),
            run_events(orig) == events@ + run_events(pending@),
            run_writes(orig) == writes@ + run_writes(pending@),
            run_close(orig) == run_close(pending@),
            run_outcome(orig) == run_outcome(pending@),
        decreases pending.len(),
    {
        let ghost before = pending@;
        let input = pending.remove(0);
        proof {
            assert(before.remove(0) =~= before.drop_first());
            assert(input == before[0]);
        }
        let step = bridge_iteration(input);
        let ghost events_before = events@;
        let ghost writes_before = writes@;
        if let Some(w) = step.write {
            writes.push(w);
        }
        if let Some(e) = step.event {
            events.push(e);
        }
        proof {
            assert(events@ =~= events_before + seq_of_option(iter_event(before[0])));
            assert(writes@ =~= writes_before + seq_of_option(iter_write(before[0])));
        }
        match step.outcome {
            IterationOutcome::Continue(_) => {
                proof {
                    assert(!iter_stops(before[0]));
                    assert(run_events(orig) =~= events@ + run_events(pending@));
                    assert(run_writes(orig) =~= writes@ + run_writes(pending@));
                }
            },
            IterationOutcome::StopClean => {
                proof {
                    assert(iter_stops(before[0]));
                    assert(run_events(before) == seq_of_option(iter_event(before[0])));
                    assert(run_writes(before) == seq_of_option(iter_write(before[0])));
                    assert(events@ =~= run_events(orig));
                    assert(writes@ =~= run_writes(orig));
                }
                return RunResult {
                    events,
                    writes,
                    close_attempted: step.close_socket,
                    outcome: RunOutcome::StoppedClean,
                };
            },
            IterationOutcome::StopError(e) => {
                proof {
                    assert(iter_stops(before[0]));
                    assert(run_events(before) == seq_of_option(iter_event(before[0])));
                    assert(run_writes(before) == seq_of_option(iter_write(before[0])));
                    assert(events@ =~= run_events(orig));
                    assert(writes@ =~= run_writes(orig));
                }
                return RunResult {
                    events,
                    writes,
                    close_attempted: step.close_socket,
                    outcome: RunOutcome::StoppedError(e),
                };
            },
        }
    }
    proof {
        assert(events@ =~= run_events(orig));
        assert(writes@ =~= run_writes(orig));
    }
    RunResult { events, writes, close_attempted: false, outcome: RunOutcome::Running }
}

/// Whether one iteration of the read-only loop stops it.
pub open spec fn receiver_stops(read: ReadPoll) -> bool {
    !(receiver_outcome(read) is Continue)
}

/// The events a run of the read-only loop dispatches, in order: each read's
/// event up to and including the first read that stops the loop.
pub open spec fn recv_run_events(s: Seq<ReadPoll>) -> Seq<WsEvent>
    decreases s.len(),
{
    if s.len() == 0 {
        Seq::empty()
    } else if receiver_stops(s[0]) {
        seq_of_option(receiver_event(s[0]))
    } else {
        seq_of_option(receiver_event(s[0])) + recv_run_events(s.drop_first())
    }
}

/// How a run of the read-only loop ends: with the first stopping read's
/// outcome, or not at all.
pub open spec fn recv_run_outcome(s: Seq<ReadPoll>) -> RunOutcome
    decreases s.len(),
{
    if s.len() == 0 {
        RunOutcome::Running
    } else {
        match receiver_outcome(s[0]) {
            IterationOutcome::Continue(_) => recv_run_outcome(s.drop_first()),
            IterationOutcome::StopClean => RunOutcome::StoppedClean,
            IterationOutcome::StopError(e) => RunOutcome::StoppedError(e),
        }
    }
}

/// Run the read-only loop over a given sequence of reads, stopping at the
/// first that stops it: the executable form of the read-only run model. The
/// read-only worker blocks for each read, so none of them would-blocks; it
/// writes nothing and never initiates a close.
#[verifier::loop_isolation(false)]
pub fn run_receiver(reads: Vec<ReadPoll>) -> (r: RunResult)
    requires
        forall|k: int| 0 <= k < reads@.len() ==> !((#[trigger] reads@[k]) is WouldBlock),
    ensures
        r.events@ == recv_run_events(reads@),
        r.writes@ == Seq::<WireMessage>::empty(),
        !r.close_attempted,
        r.outcome == recv_run_outcome(reads@),
{
    let ghost orig = reads@;
    let mut pending = reads;
    let mut events: Vec<WsEvent> = Vec::new();
    while pending.len() > 0
        invariant
            forall|k: int| 0 <= k < pending@.len() ==> !((#[trigger] pending@[k]) is WouldBlock),
            recv_run_events(orig) == events@ + recv_run_events(pending@),
            recv_run_outcome(orig) == recv_run_outcome(pending@),
        decreases pending.len(),
    {
        let ghost before = pending@;
        let read = pending.remove(0);
        proof {
            assert(before.remove(0) =~= before.drop_first());
            assert(read == before[0]);
        }
        let step = receiver_iteration(read);
        let ghost events_before = events@;
        if let Some(e) = step.event {
            events.push(e);
        }
        proof {
            assert(events@ =~= events_before + seq_of_option(receiver_event(before[0])));
        }
        match step.outcome {
            IterationOutcome::Continue(_) => {
                proof {
                    assert(recv_run_events(orig) =~= events@ + recv_run_events(pending@));
                }
            },
            IterationOutcome::StopClean => {
                proof {
                    assert(receiver_stops(before[0]));
                    assert(recv_run_events(before) == seq_of_option(receiver_event(before[0])));
                    assert(events@ =~= recv_run_events(orig));
                }
                return RunResult {
                    events,
                    writes: Vec::new(),
                    close_attempted: false,
                    outcome: RunOutcome::StoppedClean,
                };
            },
            IterationOutcome::StopError(e) => {
                proof {
                    assert(receiver_stops(before[0]));
                    assert(recv_run_events(before) == seq_of_option(receiver_event(before[0])));
                    assert(events@ =~= recv_run_events(orig));
                }
                return RunResult {
                    events,
                    writes: Vec::new(),
                    close_attempted: false,
                    outcome: RunOutcome::StoppedError(e),
                };
            },
        }
    }
    proof {
        assert(events@ =~= recv_run_events(orig));
    }
    RunResult { events, writes: Vec::new(), close_attempted: false, outcome: RunOutcome::Running }
}

/// The event, if any, reported when the handshake itself fails. Read-only
/// mode reports the failure only through its synchronous error return; in
/// full-duplex mode the sender handle has already escaped to the caller, so
/// the callback is also told.
pub open spec fn handshake_failure(full_duplex: bool, description: String) -> Option<WsEvent> {
    if full_duplex {
        Some(WsEvent::Error(description))
    } else {
        None
    }
}

/// Decide what event a handshake failure dispatches, given the mode.
pub fn handshake_failure_event(full_duplex: bool, description: String) -> (ev: Option<WsEvent>)
    ensures
        ev == handshake_failure(full_duplex, description),
{
    if full_duplex {
        Some(WsEvent::Error(description))
    } else {
        None
    }
}

/// Decide what event a stream the worker cannot put into non-blocking mode
/// dispatches: an unsupported stream variant is a fatal configuration error,
/// surfaced as `Error` before the worker terminates.
pub fn setup_failure_event(description: String) -> (ev: WsEvent)
    ensures
        ev == WsEvent::Error(description),
{
    WsEvent::Error(description)
}

/// The whole event stream of a full-duplex session whose handshake
/// succeeded: `Opened` first, then exactly what the loop dispatches.
pub open spec fn session_events(s: Seq<BridgeInput>) -> Seq<WsEvent> {
    seq![WsEvent::Opened] + run_events(s)
}

/// The whole event stream of a read-only session whose handshake succeeded.
pub open spec fn recv_session_events(s: Seq<ReadPoll>) -> Seq<WsEvent> {
    seq![WsEvent::Opened] + recv_run_events(s)
}

} // verus!

