//! The laws of the worker loops, proved of every run of the models in
//! [`crate::worker`]: ordered delivery of outbound messages, clean shutdown
//! on hang-up, terminal close frames and errors, and no close signal without
//! cause.

use vstd::prelude::*;

use crate::message::{wire_of_message, WsEvent, WsMessage};
use crate::worker::{
    iter_close, iter_event, iter_outcome, iter_stops, outbound_stops, recv_run_events,
    recv_run_outcome, recv_session_events, run_close, run_events, run_outcome, run_sent, run_wf,
    run_writes, seq_of_option, session_events, BridgeInput, OutboundStep, ReadPoll, RunOutcome,
};
use crate::message::WireMessage;

verus! {

/// An iteration that lets the loop continue dispatches nothing terminal:
/// its event, if any, is a plain message.
proof fn lemma_continue_event(i: BridgeInput)
    requires
        iter_outcome(i) is Continue,
    ensures
        iter_event(i) matches Some(e) ==> e is Message,
{
}

/// Ordered delivery: over any run in which no write fails, the wire observes
/// exactly the messages the worker took off the outbound channel, in channel
/// order — no reordering, no drops, no duplication.
pub proof fn lemma_writes_follow_sends(s: Seq<BridgeInput>)
    requires
        run_wf(s),
        forall|k: int| 0 <= k < s.len() ==> !((#[trigger] s[k]).outbound is SendFailed),
    ensures
        run_writes(s).len() == run_sent(s).len(),
        forall|j: int|
            0 <= j < run_sent(s).len() ==> run_writes(s)[j] == wire_of_message(
                #[trigger] run_sent(s)[j],
            ),
    decreases s.len(),
{
    if s.len() == 0 {
    } else {
        let head_w = seq_of_option(crate::worker::iter_write(s[0]));
        let head_m = match s[0].outbound {
            OutboundStep::Sent(m) => seq![m],
            _ => Seq::<WsMessage>::empty(),
        };
        assert(!(s[0].outbound is SendFailed));
        assert(head_w.len() == head_m.len());
        assert(forall|j: int| 0 <= j < head_m.len() ==> head_w[j] == wire_of_message(head_m[j]));
        if !iter_stops(s[0]) {
            let t = s.drop_first();
            assert forall|k: int| 0 <= k < t.len() implies !((#[trigger] t[k]).outbound
                is SendFailed) && crate::worker::input_wf(t[k]) by {
                assert(t[k] == s[k + 1]);
            }
            lemma_writes_follow_sends(t);
            assert(run_writes(s) == head_w + run_writes(t));
            assert(run_sent(s) == head_m + run_sent(t));
            assert forall|j: int| 0 <= j < run_sent(s).len() implies run_writes(s)[j]
                == wire_of_message(#[trigger] run_sent(s)[j]) by {
                if j < head_m.len() {
                } else {
                    assert(run_sent(s)[j] == run_sent(t)[j - head_m.len()]);
                    assert(run_writes(s)[j] == run_writes(t)[j - head_w.len()]);
                }
            }
        }
    }
}

/// Clean shutdown on hang-up: when the producer end is found dropped after
/// some iterations that kept the loop going, the run attempts the graceful
/// close, ends cleanly, and never dispatches an `Error` event.
pub proof fn lemma_drop_closes_cleanly(s: Seq<BridgeInput>, k: int)
    requires
        0 <= k < s.len(),
        forall|j: int| 0 <= j < k ==> iter_outcome(#[trigger] s[j]) is Continue,
        s[k].outbound is Disconnected,
    ensures
        run_outcome(s) == RunOutcome::StoppedClean,
        run_close(s),
        forall|j: int| 0 <= j < run_events(s).len() ==> !((#[trigger] run_events(s)[j]) is Error),
    decreases k,
{
    if k == 0 {
        assert(iter_stops(s[0]));
        assert(iter_close(s[0]));
        assert(run_events(s) =~= Seq::<WsEvent>::empty());
    } else {
        assert(iter_outcome(s[0]) is Continue);
        lemma_continue_event(s[0]);
        let t = s.drop_first();
        assert forall|j: int| 0 <= j < k - 1 implies iter_outcome(#[trigger] t[j]) is Continue by {
            assert(t[j] == s[j + 1]);
        }
        assert(t[k - 1] == s[k]);
        lemma_drop_closes_cleanly(t, k - 1);
        let head = seq_of_option(iter_event(s[0]));
        assert(run_events(s) == head + run_events(t));
        assert forall|j: int| 0 <= j < run_events(s).len() implies !((#[trigger] run_events(
            s,
        )[j]) is Error) by {
            if j < head.len() {
                assert(iter_event(s[0]) == Some(head[j]));
            } else {
                assert(run_events(s)[j] == run_events(t)[j - head.len()]);
            }
        }
    }
}

/// A received close frame is terminal: the run ends cleanly, the last event
/// dispatched is the one `Closed`, and every event before it is a plain
/// message — no second `Closed`, no `Error`, and nothing after it.
pub proof fn lemma_close_frame_terminal(s: Seq<BridgeInput>, k: int)
    requires
        0 <= k < s.len(),
        forall|j: int| 0 <= j < k ==> iter_outcome(#[trigger] s[j]) is Continue,
        !outbound_stops(s[k].outbound),
        s[k].read == ReadPoll::Received(WireMessage::Close),
    ensures
        run_outcome(s) == RunOutcome::StoppedClean,
        run_events(s).len() >= 1,
        run_events(s)[run_events(s).len() - 1] == WsEvent::Closed,
        forall|j: int| 0 <= j < run_events(s).len() - 1 ==> (#[trigger] run_events(s)[j])
            is Message,
    decreases k,
{
    if k == 0 {
        assert(iter_event(s[0]) == Some(WsEvent::Closed));
        assert(iter_stops(s[0]));
        assert(run_events(s) =~= seq![WsEvent::Closed]);
    } else {
        assert(iter_outcome(s[0]) is Continue);
        lemma_continue_event(s[0]);
        let t = s.drop_first();
        assert forall|j: int| 0 <= j < k - 1 implies iter_outcome(#[trigger] t[j]) is Continue by {
            assert(t[j] == s[j + 1]);
        }
        assert(t[k - 1] == s[k]);
        lemma_close_frame_terminal(t, k - 1);
        let head = seq_of_option(iter_event(s[0]));
        assert(run_events(s) == head + run_events(t));
        assert(run_events(s)[run_events(s).len() - 1] == run_events(t)[run_events(t).len() - 1]);
        assert forall|j: int| 0 <= j < run_events(s).len() - 1 implies (#[trigger] run_events(
            s,
        )[j]) is Message by {
            if j < head.len() {
                assert(iter_event(s[0]) == Some(head[j]));
            } else {
                assert(run_events(s)[j] == run_events(t)[j - head.len()]);
            }
        }
    }
}

/// A write failure is terminal: the run ends with that error, the last event
/// dispatched is the one `Error` carrying the transport's description, every
/// event before it is a plain message, and nothing is written to the wire at
/// or after the failing iteration.
pub proof fn lemma_write_failure_terminal(s: Seq<BridgeInput>, k: int, m: WsMessage, e: String)
    requires
        0 <= k < s.len(),
        forall|j: int| 0 <= j < k ==> iter_outcome(#[trigger] s[j]) is Continue,
        s[k].outbound == OutboundStep::SendFailed(m, e),
    ensures
        run_outcome(s) == RunOutcome::StoppedError(e),
        run_events(s).len() >= 1,
        run_events(s)[run_events(s).len() - 1] == WsEvent::Error(e),
        forall|j: int| 0 <= j < run_events(s).len() - 1 ==> (#[trigger] run_events(s)[j])
            is Message,
        run_writes(s) == run_writes(s.take(k)),
        run_close(s),
    decreases k,
{
    if k == 0 {
        assert(iter_event(s[0]) == Some(WsEvent::Error(e)));
        assert(iter_stops(s[0]));
        assert(run_events(s) =~= seq![WsEvent::Error(e)]);
        assert(run_writes(s) =~= Seq::<WireMessage>::empty());
        assert(run_writes(s.take(0)) =~= Seq::<WireMessage>::empty());
    } else {
        assert(iter_outcome(s[0]) is Continue);
        lemma_continue_event(s[0]);
        let t = s.drop_first();
        assert forall|j: int| 0 <= j < k - 1 implies iter_outcome(#[trigger] t[j]) is Continue by {
            assert(t[j] == s[j + 1]);
        }
        assert(t[k - 1] == s[k]);
        lemma_write_failure_terminal(t, k - 1, m, e);
        let head = seq_of_option(iter_event(s[0]));
        assert(run_events(s) == head + run_events(t));
        assert(run_events(s)[run_events(s).len() - 1] == run_events(t)[run_events(t).len() - 1]);
        assert forall|j: int| 0 <= j < run_events(s).len() - 1 implies (#[trigger] run_events(
            s,
        )[j]) is Message by {
            if j < head.len() {
                assert(iter_event(s[0]) == Some(head[j]));
            } else {
                assert(run_events(s)[j] == run_events(t)[j - head.len()]);
            }
        }
        let head_w = seq_of_option(crate::worker::iter_write(s[0]));
        assert(run_writes(s) == head_w + run_writes(t));
        assert(s.take(k).len() == k);
        assert(s.take(k)[0] == s[0]);
        assert(s.take(k).drop_first() =~= t.take(k - 1));
        assert(run_writes(s.take(k)) == head_w + run_writes(s.take(k).drop_first()));
        assert(run_writes(s) == run_writes(s.take(k)));
    }
}

/// A read that lets the read-only loop continue dispatches nothing terminal:
/// its event, if any, is a plain message.
proof fn lemma_receiver_continue_event(r: ReadPoll)
    requires
        crate::worker::receiver_outcome(r) is Continue,
    ensures
        crate::worker::receiver_event(r) matches Some(e) ==> e is Message,
{
}

/// A received close frame is terminal for the read-only loop too: the run
/// ends cleanly, the last event dispatched is the one `Closed`, and every
/// event before it is a plain message.
pub proof fn lemma_receiver_close_frame_terminal(s: Seq<ReadPoll>, k: int)
    requires
        0 <= k < s.len(),
        forall|j: int| 0 <= j < k ==> crate::worker::receiver_outcome(#[trigger] s[j]) is Continue,
        s[k] == ReadPoll::Received(WireMessage::Close),
    ensures
        recv_run_outcome(s) == RunOutcome::StoppedClean,
        recv_run_events(s).len() >= 1,
        recv_run_events(s)[recv_run_events(s).len() - 1] == WsEvent::Closed,
        forall|j: int| 0 <= j < recv_run_events(s).len() - 1 ==> (#[trigger] recv_run_events(
            s,
        )[j]) is Message,
    decreases k,
{
    if k == 0 {
        assert(crate::worker::receiver_event(s[0]) == Some(WsEvent::Closed));
        assert(recv_run_events(s) =~= seq![WsEvent::Closed]);
    } else {
        lemma_receiver_continue_event(s[0]);
        let t = s.drop_first();
        assert forall|j: int| 0 <= j < k - 1 implies crate::worker::receiver_outcome(
            #[trigger] t[j],
        ) is Continue by {
            assert(t[j] == s[j + 1]);
        }
        assert(t[k - 1] == s[k]);
        lemma_receiver_close_frame_terminal(t, k - 1);
        let head = seq_of_option(crate::worker::receiver_event(s[0]));
        assert(recv_run_events(s) == head + recv_run_events(t));
        assert(recv_run_events(s)[recv_run_events(s).len() - 1] == recv_run_events(
            t,
        )[recv_run_events(t).len() - 1]);
        assert forall|j: int| 0 <= j < recv_run_events(s).len() - 1 implies (
        #[trigger] recv_run_events(s)[j]) is Message by {
            if j < head.len() {
                assert(crate::worker::receiver_event(s[0]) == Some(head[j]));
            } else {
                assert(recv_run_events(s)[j] == recv_run_events(t)[j - head.len()]);
            }
        }
    }
}

/// No close without cause: a run in which the producer end is never found
/// dropped and no write fails never signals the socket to close — in
/// particular, a forgotten (leaked) handle going out of scope does not.
pub proof fn lemma_no_close_without_signal(s: Seq<BridgeInput>)
    requires
        forall|k: int|
            0 <= k < s.len() ==> !((#[trigger] s[k]).outbound is Disconnected) && !(s[k].outbound
                is SendFailed),
    ensures
        !run_close(s),
    decreases s.len(),
{
    if s.len() == 0 {
    } else {
        assert(!iter_close(s[0]));
        if !iter_stops(s[0]) {
            let t = s.drop_first();
            assert forall|k: int| 0 <= k < t.len() implies !((#[trigger] t[k]).outbound
                is Disconnected) && !(t[k].outbound is SendFailed) by {
                assert(t[k] == s[k + 1]);
            }
            lemma_no_close_without_signal(t);
        }
    }
}

/// No iteration of the full-duplex loop ever dispatches `Opened`.
proof fn lemma_run_events_no_opened(s: Seq<BridgeInput>)
    ensures
        forall|j: int| 0 <= j < run_events(s).len() ==> !((#[trigger] run_events(s)[j]) is Opened),
    decreases s.len(),
{
    if s.len() == 0 {
    } else {
        if !iter_stops(s[0]) {
            lemma_run_events_no_opened(s.drop_first());
        }
        let head = seq_of_option(iter_event(s[0]));
        assert forall|j: int| 0 <= j < run_events(s).len() implies !((#[trigger] run_events(
            s,
        )[j]) is Opened) by {
            if j < head.len() {
                assert(iter_event(s[0]) == Some(head[j]));
            } else {
                assert(run_events(s)[j] == run_events(s.drop_first())[j - head.len()]);
            }
        }
    }
}

/// No read of the read-only loop ever dispatches `Opened`.
proof fn lemma_recv_run_events_no_opened(s: Seq<ReadPoll>)
    ensures
        forall|j: int|
            0 <= j < recv_run_events(s).len() ==> !((#[trigger] recv_run_events(s)[j]) is Opened),
    decreases s.len(),
{
    if s.len() == 0 {
    } else {
        if !crate::worker::receiver_stops(s[0]) {
            lemma_recv_run_events_no_opened(s.drop_first());
        }
        let head = seq_of_option(crate::worker::receiver_event(s[0]));
        assert forall|j: int| 0 <= j < recv_run_events(s).len() implies !((
        #[trigger] recv_run_events(s)[j]) is Opened) by {
            if j < head.len() {
                assert(crate::worker::receiver_event(s[0]) == Some(head[j]));
            } else {
                assert(recv_run_events(s)[j] == recv_run_events(s.drop_first())[j - head.len()]);
            }
        }
    }
}

/// `Opened` opens a full-duplex session: it is the first event after a
/// successful handshake, and no later event of the session is `Opened`.
pub proof fn lemma_opened_precedes_all(s: Seq<BridgeInput>)
    ensures
        session_events(s).len() >= 1,
        session_events(s)[0] == WsEvent::Opened,
        forall|j: int|
            1 <= j < session_events(s).len() ==> !((#[trigger] session_events(s)[j]) is Opened),
{
    lemma_run_events_no_opened(s);
    assert forall|j: int| 1 <= j < session_events(s).len() implies !((#[trigger] session_events(
        s,
    )[j]) is Opened) by {
        assert(session_events(s)[j] == run_events(s)[j - 1]);
    }
}

/// `Opened` opens a read-only session: it is the first event after a
/// successful handshake, and no later event of the session is `Opened`.
pub proof fn lemma_opened_precedes_all_receiver(s: Seq<ReadPoll>)
    ensures
        recv_session_events(s).len() >= 1,
        recv_session_events(s)[0] == WsEvent::Opened,
        forall|j: int|
            1 <= j < recv_session_events(s).len() ==> !((#[trigger] recv_session_events(s)[j])
                is Opened),
{
    lemma_recv_run_events_no_opened(s);
    assert forall|j: int| 1 <= j < recv_session_events(s).len() implies !((
    #[trigger] recv_session_events(s)[j]) is Opened) by {
        assert(recv_session_events(s)[j] == recv_run_events(s)[j - 1]);
    }
}

} // verus!

