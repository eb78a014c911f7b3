//! Translation between the caller-facing and wire-facing message forms, the
//! per-poll decisions, and the read-only loop's decisions.

use ewebsock::message::outgoing_wire;
use ewebsock::worker::{
    handshake_failure_event, plan_outbound, receiver_iteration, run_receiver, setup_failure_event,
    ChannelPoll, IterationOutcome, OutboundPlan, ReadPoll, RunOutcome,
};
use ewebsock::{WireMessage, WsEvent, WsMessage};

#[test]
fn outgoing_payloads_carry_over() {
    assert_eq!(
        outgoing_wire(WsMessage::Text("hi".to_string())),
        WireMessage::Text("hi".to_string())
    );
    assert_eq!(
        outgoing_wire(WsMessage::Binary(vec![0, 255, 3])),
        WireMessage::Binary(vec![0, 255, 3])
    );
    assert_eq!(outgoing_wire(WsMessage::Ping(vec![1])), WireMessage::Ping(vec![1]));
    assert_eq!(outgoing_wire(WsMessage::Pong(vec![2])), WireMessage::Pong(vec![2]));
}

#[test]
fn plan_outbound_decides() {
    assert_eq!(
        plan_outbound(ChannelPoll::Received(WsMessage::Text("hi".to_string()))),
        OutboundPlan::Write(WireMessage::Text("hi".to_string()))
    );
    // A ping is translated and written like any other message, never dropped.
    assert_eq!(
        plan_outbound(ChannelPoll::Received(WsMessage::Ping(vec![8]))),
        OutboundPlan::Write(WireMessage::Ping(vec![8]))
    );
    assert_eq!(plan_outbound(ChannelPoll::Disconnected), OutboundPlan::ShutdownClean);
    assert_eq!(plan_outbound(ChannelPoll::Empty), OutboundPlan::Idle);
}

#[test]
fn receiver_dispatches_messages() {
    let step = receiver_iteration(ReadPoll::Received(WireMessage::Text("hey".to_string())));
    assert_eq!(step.event, Some(WsEvent::Message(WsMessage::Text("hey".to_string()))));
    assert_eq!(step.outcome, IterationOutcome::Continue(true));
    assert_eq!(step.write, None);
    assert!(!step.close_socket);
}

#[test]
fn receiver_ignores_raw_frames() {
    let step = receiver_iteration(ReadPoll::Received(WireMessage::Frame));
    assert_eq!(step.event, None);
    assert_eq!(step.outcome, IterationOutcome::Continue(true));
}

#[test]
fn receiver_stops_on_close_frame() {
    let step = receiver_iteration(ReadPoll::Received(WireMessage::Close));
    assert_eq!(step.event, Some(WsEvent::Closed));
    assert_eq!(step.outcome, IterationOutcome::StopClean);
}

#[test]
fn receiver_read_failure_is_quiet() {
    // The read-only loop reports a failed read only through its error
    // return (and so the log), never as an event.
    let step = receiver_iteration(ReadPoll::Failed("timed out".to_string()));
    assert_eq!(step.event, None);
    assert_eq!(step.outcome, IterationOutcome::StopError("timed out".to_string()));
}

#[test]
fn handshake_failure_reporting_differs_by_mode() {
    // Read-only mode fails the connect call outright and fires no event; in
    // full-duplex mode the handle has escaped, so the callback is also told.
    assert_eq!(handshake_failure_event(false, "refused".to_string()), None);
    assert_eq!(
        handshake_failure_event(true, "refused".to_string()),
        Some(WsEvent::Error("refused".to_string()))
    );
}

#[test]
fn receiver_run_opened_then_closed() {
    // Read-only session where the peer closes at once: the caller observes
    // `Opened` then `Closed`, never an `Error`.
    let mut observed = vec![WsEvent::Opened];
    let run = run_receiver(vec![ReadPoll::Received(WireMessage::Close)]);
    observed.extend(run.events);
    assert_eq!(observed, vec![WsEvent::Opened, WsEvent::Closed]);
    assert_eq!(run.outcome, RunOutcome::StoppedClean);
    assert!(!run.close_attempted);
    assert!(run.writes.is_empty());
}

#[test]
fn receiver_run_messages_then_close() {
    let run = run_receiver(vec![
        ReadPoll::Received(WireMessage::Text("one".to_string())),
        ReadPoll::Received(WireMessage::Frame),
        ReadPoll::Received(WireMessage::Ping(vec![3])),
        ReadPoll::Received(WireMessage::Close),
        ReadPoll::Received(WireMessage::Text("late".to_string())),
    ]);
    assert_eq!(
        run.events,
        vec![
            WsEvent::Message(WsMessage::Text("one".to_string())),
            WsEvent::Message(WsMessage::Ping(vec![3])),
            WsEvent::Closed,
        ]
    );
    assert_eq!(run.outcome, RunOutcome::StoppedClean);
}

#[test]
fn receiver_run_stops_on_failure() {
    let run = run_receiver(vec![
        ReadPoll::Received(WireMessage::Binary(vec![1])),
        ReadPoll::Failed("reset".to_string()),
    ]);
    // No event reports the failure in this mode: only the run's outcome.
    assert_eq!(run.events, vec![WsEvent::Message(WsMessage::Binary(vec![1]))]);
    assert_eq!(run.outcome, RunOutcome::StoppedError("reset".to_string()));
}

#[test]
fn setup_failure_is_an_error_event() {
    assert_eq!(
        setup_failure_event("unsupported stream".to_string()),
        WsEvent::Error("unsupported stream".to_string())
    );
}
