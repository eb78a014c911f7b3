//! Whole-run scenarios of the full-duplex worker loop.

use ewebsock::worker::{
    run_bridge, BridgeInput, IterationOutcome, OutboundStep, ReadPoll, RunOutcome,
};
use ewebsock::worker::bridge_iteration;
use ewebsock::{WireMessage, WsEvent, WsMessage};

fn text(s: &str) -> WsMessage {
    WsMessage::Text(s.to_string())
}

#[test]
fn peer_closes_immediately() {
    // The peer answers the handshake with a close frame: the caller observes
    // `Opened` then `Closed`, never an `Error`.
    let mut observed = vec![WsEvent::Opened];
    let run = run_bridge(vec![BridgeInput {
        outbound: OutboundStep::Empty,
        read: ReadPoll::Received(WireMessage::Close),
    }]);
    observed.extend(run.events);
    assert_eq!(observed, vec![WsEvent::Opened, WsEvent::Closed]);
    assert_eq!(run.outcome, RunOutcome::StoppedClean);
    assert!(!run.close_attempted);
    assert!(run.writes.is_empty());
}

#[test]
fn enqueue_two_then_drop() {
    // "hi", "there", then the handle is dropped: the peer observes "hi",
    // "there", then a close attempt, in that order, and the run ends cleanly.
    let run = run_bridge(vec![
        BridgeInput { outbound: OutboundStep::Sent(text("hi")), read: ReadPoll::WouldBlock },
        BridgeInput { outbound: OutboundStep::Sent(text("there")), read: ReadPoll::WouldBlock },
        BridgeInput { outbound: OutboundStep::Disconnected, read: ReadPoll::WouldBlock },
    ]);
    assert_eq!(
        run.writes,
        vec![
            WireMessage::Text("hi".to_string()),
            WireMessage::Text("there".to_string()),
        ]
    );
    assert!(run.close_attempted);
    assert_eq!(run.outcome, RunOutcome::StoppedClean);
    assert_eq!(run.events, Vec::<WsEvent>::new());
}

#[test]
fn writes_keep_channel_order() {
    // Messages of every sendable kind go to the wire in enqueue order, with
    // inbound traffic interleaved.
    let run = run_bridge(vec![
        BridgeInput {
            outbound: OutboundStep::Sent(text("a")),
            read: ReadPoll::Received(WireMessage::Text("x".to_string())),
        },
        BridgeInput {
            outbound: OutboundStep::Sent(WsMessage::Binary(vec![1, 2, 3])),
            read: ReadPoll::WouldBlock,
        },
        BridgeInput {
            outbound: OutboundStep::Sent(WsMessage::Ping(vec![9])),
            read: ReadPoll::Received(WireMessage::Frame),
        },
        BridgeInput {
            outbound: OutboundStep::Sent(WsMessage::Pong(vec![7])),
            read: ReadPoll::WouldBlock,
        },
    ]);
    assert_eq!(
        run.writes,
        vec![
            WireMessage::Text("a".to_string()),
            WireMessage::Binary(vec![1, 2, 3]),
            WireMessage::Ping(vec![9]),
            WireMessage::Pong(vec![7]),
        ]
    );
    // The inbound text was dispatched; the raw frame was silently ignored.
    assert_eq!(run.events, vec![WsEvent::Message(text("x"))]);
    assert_eq!(run.outcome, RunOutcome::Running);
    assert!(!run.close_attempted);
}

#[test]
fn close_frame_is_terminal() {
    // A message, then a close frame, then more traffic that must never be
    // seen: exactly one `Closed`, as the last event.
    let run = run_bridge(vec![
        BridgeInput {
            outbound: OutboundStep::Empty,
            read: ReadPoll::Received(WireMessage::Binary(vec![5])),
        },
        BridgeInput {
            outbound: OutboundStep::Empty,
            read: ReadPoll::Received(WireMessage::Close),
        },
        BridgeInput {
            outbound: OutboundStep::Empty,
            read: ReadPoll::Received(WireMessage::Text("late".to_string())),
        },
    ]);
    assert_eq!(
        run.events,
        vec![
            WsEvent::Message(WsMessage::Binary(vec![5])),
            WsEvent::Closed,
        ]
    );
    assert_eq!(run.outcome, RunOutcome::StoppedClean);
    assert!(!run.close_attempted);
}

#[test]
fn write_failure_is_terminal() {
    // A failed write: exactly one `Error`, a close attempt, and no message
    // enqueued after the failure is ever written.
    let run = run_bridge(vec![
        BridgeInput { outbound: OutboundStep::Sent(text("ok")), read: ReadPoll::WouldBlock },
        BridgeInput {
            outbound: OutboundStep::SendFailed(text("lost"), "broken pipe".to_string()),
            read: ReadPoll::WouldBlock,
        },
        BridgeInput { outbound: OutboundStep::Sent(text("late")), read: ReadPoll::WouldBlock },
    ]);
    assert_eq!(run.events, vec![WsEvent::Error("broken pipe".to_string())]);
    assert_eq!(run.writes, vec![WireMessage::Text("ok".to_string())]);
    assert!(run.close_attempted);
    assert_eq!(run.outcome, RunOutcome::StoppedError("broken pipe".to_string()));
}

#[test]
fn read_failure_is_terminal() {
    let run = run_bridge(vec![BridgeInput {
        outbound: OutboundStep::Empty,
        read: ReadPoll::Failed("connection reset".to_string()),
    }]);
    assert_eq!(run.events, vec![WsEvent::Error("connection reset".to_string())]);
    assert_eq!(run.outcome, RunOutcome::StoppedError("connection reset".to_string()));
    assert!(!run.close_attempted);
}

#[test]
fn idle_iteration_sleeps() {
    // No work in either direction: sleep one interval. Any moved message
    // suppresses the sleep.
    let idle = bridge_iteration(BridgeInput {
        outbound: OutboundStep::Empty,
        read: ReadPoll::WouldBlock,
    });
    assert_eq!(idle.outcome, IterationOutcome::Continue(true));
    let busy = bridge_iteration(BridgeInput {
        outbound: OutboundStep::Sent(text("hi")),
        read: ReadPoll::WouldBlock,
    });
    assert_eq!(busy.outcome, IterationOutcome::Continue(false));
    assert_eq!(busy.write, Some(WireMessage::Text("hi".to_string())));
}

#[test]
fn would_block_is_not_an_error() {
    let step = bridge_iteration(BridgeInput {
        outbound: OutboundStep::Empty,
        read: ReadPoll::WouldBlock,
    });
    assert_eq!(step.event, None);
    assert!(!step.close_socket);
    assert_eq!(step.outcome, IterationOutcome::Continue(true));
}
