//! The telemetry server's per-message policy and per-connection discipline.
//!
//! The host owns the listening socket and the framed transport; it turns
//! every read into an `InboundMessage` and hands it here. This module
//! decides, for each message, what is stored, what is ignored, and what ends
//! the connection — and proves that one connection's failure never reaches
//! past that connection.
use vstd::prelude::*;

use crate::attitude::AttitudeCell;
use crate::attitude::AttitudeText;
use crate::attitude::CellState;
use crate::telemetry::decode_spec;
use crate::telemetry::decode_attitude;

verus! {

/// One inbound event on an open connection, as the host read it from the
/// framed transport. A transport-level error is reported as `Fault`; the
/// policy treats it like a clean close, except for how it is reported.
pub enum InboundMessage {
    /// The peer closed the connection.
    Close,
    /// A binary message: the protocol carries text only.
    Binary,
    /// A text message body.
    Text(String),
    /// A control message (ping or pong): carries no telemetry.
    Control,
    /// A transport fault (reset, I/O error) surfaced by the host.
    Fault,
}

/// Why a connection's message loop ended.
#[derive(Debug, Clone, Copy, PartialEq, Eq, Structural)]
pub enum EndReason {
    /// The peer closed cleanly.
    CleanClose,
    /// A binary message or a malformed text body.
    ProtocolViolation,
    /// A transport fault; handled like a clean close.
    TransportFault,
}

/// What one message did: stored a sample (the display should redraw),
/// carried nothing, or ended the connection.
#[derive(Debug, Clone, Copy, PartialEq, Eq, Structural)]
pub enum MessageOutcome {
    /// A valid sample was written to the cell.
    Stored,
    /// Nothing to do; keep reading.
    Ignored,
    /// Stop reading from this connection.
    Ended(EndReason),
}

/// The outcome a message earns; it depends on the message alone, never on
/// any state, so no connection's traffic can change how a later one is read.
pub open spec fn outcome_of(msg: InboundMessage) -> MessageOutcome {
    match msg {
        InboundMessage::Close => MessageOutcome::Ended(EndReason::CleanClose),
        InboundMessage::Binary => MessageOutcome::Ended(EndReason::ProtocolViolation),
        InboundMessage::Text(t) => if decode_spec(t@) is Some {
            MessageOutcome::Stored
        } else {
            MessageOutcome::Ended(EndReason::ProtocolViolation)
        },
        InboundMessage::Control => MessageOutcome::Ignored,
        InboundMessage::Fault => MessageOutcome::Ended(EndReason::TransportFault),
    }
}

/// The cell state after one message: a decodable text body overwrites the
/// sample; every other message leaves the cell alone.
pub open spec fn cell_after(st: CellState, msg: InboundMessage) -> CellState {
    match msg {
        InboundMessage::Text(t) => match decode_spec(t@) {
            Some(a) => CellState { sample: a, ..st },
            None => st,
        },
        _ => st,
    }
}

/// Applies one inbound message to the cell, per the protocol table: close
/// ends the loop cleanly; binary is a violation; a decodable text body is
/// stored (and the display should redraw); a malformed one is a violation;
/// control messages are ignored; a transport fault ends the loop like a
/// clean close.
pub fn handle_message(cell: &mut AttitudeCell, msg: &InboundMessage) -> (outcome: MessageOutcome)
    ensures
        final(cell)@ == cell_after(old(cell)@, *msg),
        outcome == outcome_of(*msg),
{
    match msg {
        InboundMessage::Close => MessageOutcome::Ended(EndReason::CleanClose),
        InboundMessage::Binary => MessageOutcome::Ended(EndReason::ProtocolViolation),
        InboundMessage::Text(t) => match decode_attitude(t.as_str()) {
            Some(sample) => {
                cell.write(sample);
                assert(final(cell)@ =~= cell_after(old(cell)@, *msg));
                MessageOutcome::Stored
            },
            None => MessageOutcome::Ended(EndReason::ProtocolViolation),
        },
        InboundMessage::Control => MessageOutcome::Ignored,
        InboundMessage::Fault => MessageOutcome::Ended(EndReason::TransportFault),
    }
}

/// The cell state after the connection loop has consumed `msgs` in order:
/// each message is applied until one ends the loop; messages after that are
/// never read.
pub open spec fn cell_after_messages(st: CellState, msgs: Seq<InboundMessage>) -> CellState
    decreases msgs.len(),
{
    if msgs.len() == 0 {
        st
    } else {
        let st1 = cell_after(st, msgs[0]);
        if outcome_of(msgs[0]) is Ended {
            st1
        } else {
            cell_after_messages(st1, msgs.drop_first())
        }
    }
}

/// The state on connect: the flag goes up, the sample stays.
pub open spec fn connect_state(st: CellState) -> CellState {
    CellState { connected: true, ..st }
}

/// The state a whole connection leaves behind: connect, consume the
/// messages, disconnect.
pub open spec fn session_result(st: CellState, msgs: Seq<InboundMessage>) -> CellState {
    CellState { connected: false, ..cell_after_messages(connect_state(st), msgs) }
}

/// Runs one whole connection against the cell: raises the connectivity
/// flag, applies the messages in order until one ends the loop, then lowers
/// the flag — whatever ended the loop. Returns how the loop ended, or
/// `None` when the transcript ran out with the connection still open.
pub fn process_connection(cell: &mut AttitudeCell, msgs: &Vec<InboundMessage>) -> (ended: Option<
    EndReason,
>)
    ensures
        final(cell)@ == session_result(old(cell)@, msgs@),
{
    cell.set_connected(true);
    assert(cell@ =~= connect_state(old(cell)@));
    assert(msgs@.skip(0) =~= msgs@);
    let n = msgs.len();
    let mut i: usize = 0;
    let mut ended: Option<EndReason> = None;
    while i < n && ended.is_none()
        invariant
            0 <= i <= n,
            n == msgs@.len(),
            match ended {
                None => cell_after_messages(connect_state(old(cell)@), msgs@)
                    == cell_after_messages(cell@, msgs@.skip(i as int)),
                Some(_) => cell@ == cell_after_messages(connect_state(old(cell)@), msgs@),
            },
        decreases n - i,
    {
        assert(msgs@.skip(i as int).drop_first() =~= msgs@.skip(i as int + 1));
        assert(msgs@.skip(i as int)[0] == msgs@[i as int]);
        let outcome = handle_message(cell, &msgs[i]);
        match outcome {
            MessageOutcome::Ended(reason) => {
                ended = Some(reason);
            },
            _ => {},
        }
        i = i + 1;
    }
    assert(cell@ == cell_after_messages(connect_state(old(cell)@), msgs@)) by {
        if ended is None {
            assert(msgs@.skip(i as int) =~= Seq::<InboundMessage>::empty());
        }
    }
    cell.set_connected(false);
    assert(final(cell)@ =~= session_result(old(cell)@, msgs@));
    ended
}

/// The samples a connection stores, in order: the decoded bodies of the
/// text messages consumed before the loop ends.
pub open spec fn stored_samples(msgs: Seq<InboundMessage>) -> Seq<AttitudeText>
    decreases msgs.len(),
{
    if msgs.len() == 0 {
        seq![]
    } else if outcome_of(msgs[0]) is Ended {
        seq![]
    } else {
        (match msgs[0] {
            InboundMessage::Text(t) => match decode_spec(t@) {
                Some(a) => seq![a],
                None => seq![],
            },
            _ => seq![],
        }) + stored_samples(msgs.drop_first())
    }
}

/// Law: consuming messages never touches the connectivity flag; only
/// connect and disconnect do.
pub proof fn lemma_messages_preserve_connectivity(st: CellState, msgs: Seq<InboundMessage>)
    ensures
        cell_after_messages(st, msgs).connected == st.connected,
    decreases msgs.len(),
{
    if msgs.len() > 0 && !(outcome_of(msgs[0]) is Ended) {
        lemma_messages_preserve_connectivity(cell_after(st, msgs[0]), msgs.drop_first());
    }
}

/// Law: the last write wins. After a connection consumes any run of
/// messages, the cell holds the most recently stored sample — and the
/// initial sample if nothing was stored. Instantiating `msgs` with each
/// prefix of a transcript gives the value read after each write.
pub proof fn lemma_last_write_wins(st: CellState, msgs: Seq<InboundMessage>)
    ensures
        stored_samples(msgs).len() > 0 ==> cell_after_messages(st, msgs).sample == stored_samples(
            msgs,
        ).last(),
        stored_samples(msgs).len() == 0 ==> cell_after_messages(st, msgs).sample == st.sample,
    decreases msgs.len(),
{
    if msgs.len() > 0 && !(outcome_of(msgs[0]) is Ended) {
        let st1 = cell_after(st, msgs[0]);
        let tail = msgs.drop_first();
        lemma_last_write_wins(st1, tail);
        match msgs[0] {
            InboundMessage::Text(t) => match decode_spec(t@) {
                Some(a) => {
                    assert(stored_samples(msgs) == seq![a] + stored_samples(tail));
                    if stored_samples(tail).len() > 0 {
                        assert(stored_samples(msgs).last() == stored_samples(tail).last());
                    } else {
                        assert(stored_samples(msgs).last() == a);
                    }
                },
                None => {},
            },
            _ => {
                assert(stored_samples(msgs) =~= stored_samples(tail));
            },
        }
    }
}

/// Law: connectivity is true strictly between a connect and its
/// disconnect, and false once the connection is over — whichever way it
/// ended. `k` ranges over every moment within the session.
pub proof fn lemma_connectivity_window(st: CellState, msgs: Seq<InboundMessage>, k: int)
    requires
        0 <= k <= msgs.len(),
    ensures
        cell_after_messages(connect_state(st), msgs.take(k)).connected,
        !session_result(st, msgs).connected,
{
    lemma_messages_preserve_connectivity(connect_state(st), msgs.take(k));
}

/// Law: a connection's failure is confined to that connection. Whatever
/// traffic a first connection carried — violations included — a second
/// connection stores its own samples exactly as it would have on a fresh
/// cell, and leaves the flag down when it ends.
pub proof fn lemma_violation_confined(
    st: CellState,
    first: Seq<InboundMessage>,
    second: Seq<InboundMessage>,
)
    ensures
        stored_samples(second).len() > 0 ==> session_result(
            session_result(st, first),
            second,
        ).sample == stored_samples(second).last(),
        !session_result(session_result(st, first), second).connected,
{
    lemma_last_write_wins(connect_state(session_result(st, first)), second);
}

} // verus!
