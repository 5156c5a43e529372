//! The receiving end of the link: what an acknowledged packet does to the
//! sequence number and the delivered log, and the serving of one session.

pub mod lifecycle;
pub mod state;
pub mod state0;

use self::state::{bind, Deliver, Listening, Ready, Received};
use crate::types::list::{lemma_is_union_iff_push_front, seq_is_union, List};
use crate::types::messaging::{
    in_window, lemma_run_extends, lemma_run_has_no_duplicates, log_is_run, spec_next_seq, Packet,
    BYTES_PER_PACKET,
};
use crate::types::socket::{spec_received_pkt, spec_sent, Socket, SocketError, Transfer};
use crate::types::MyResult;
use vstd::prelude::*;

verus! {

/// The sequence number that a receiver expects after it has acknowledged a
/// packet numbered `pkt_seq`, having expected `seq`: one more, modulo 256,
/// for the packet expected; unchanged for any other.
pub open spec fn seq_after_ack(seq: u8, pkt_seq: u8) -> u8 {
    if pkt_seq == seq {
        spec_next_seq(seq)
    } else {
        seq
    }
}

/// The delivered log after a receiver has acknowledged a packet numbered
/// `pkt_seq`, having expected `seq`: the packet expected is entered at the
/// front; any other leaves the log as it was.
pub open spec fn log_after_ack(log: Seq<u8>, seq: u8, pkt_seq: u8) -> Seq<u8> {
    if pkt_seq == seq {
        seq![pkt_seq].add(log)
    } else {
        log
    }
}

/// The sequence number advances by one modulo 256 if and only if the packet
/// acknowledged was the one expected; otherwise it stays.
pub proof fn lemma_seq_advance(seq: u8, pkt_seq: u8)
    ensures
        seq_after_ack(seq, pkt_seq) == spec_next_seq(seq) <==> pkt_seq == seq,
        pkt_seq != seq ==> seq_after_ack(seq, pkt_seq) == seq,
{
}

/// On a fresh delivery the new log is the old one with the packet's number
/// in front: it is one longer, starts with that number, and holds every old
/// entry one place further back.
pub proof fn lemma_log_union(log: Seq<u8>, seq: u8, pkt_seq: u8)
    requires
        pkt_seq == seq,
    ensures
        seq_is_union(log_after_ack(log, seq, pkt_seq), log, pkt_seq),
        log_after_ack(log, seq, pkt_seq).len() == log.len() + 1,
        log_after_ack(log, seq, pkt_seq)[0] == pkt_seq,
        forall|i: int|
            0 <= i < log.len() ==> log_after_ack(log, seq, pkt_seq)[i + 1] == #[trigger] log[i],
{
    lemma_is_union_iff_push_front(log_after_ack(log, seq, pkt_seq), log, pkt_seq);
}

/// A packet in the window is still in the window once it was acknowledged,
/// and a log that is a run below the sequence number stays one.
pub proof fn lemma_ack_keeps_window_and_run(log: Seq<u8>, seq: u8, pkt_seq: u8)
    requires
        in_window(pkt_seq, seq),
        log_is_run(log, seq),
    ensures
        in_window(pkt_seq, seq_after_ack(seq, pkt_seq)),
        log_is_run(log_after_ack(log, seq, pkt_seq), seq_after_ack(seq, pkt_seq)),
{
    if pkt_seq == seq {
        lemma_run_extends(log, seq);
    }
}

/// When the same packet is acknowledged twice in a row, first as the one
/// expected and then as the repeat of it, the first acknowledgement enters
/// it in the log and the second changes nothing: it is in the log once.
/// When the first is already a repeat, neither enters it.
pub proof fn lemma_ack_is_idempotent(log: Seq<u8>, seq: u8, pkt_seq: u8)
    requires
        in_window(pkt_seq, seq),
    ensures
        ({
            let seq1 = seq_after_ack(seq, pkt_seq);
            let log1 = log_after_ack(log, seq, pkt_seq);
            let seq2 = seq_after_ack(seq1, pkt_seq);
            let log2 = log_after_ack(log1, seq1, pkt_seq);
            &&& in_window(pkt_seq, seq1)
            &&& seq2 == seq1
            &&& log2 == log1
            &&& pkt_seq == seq ==> log1 == seq![pkt_seq].add(log) && log2.len() == log.len() + 1
            &&& pkt_seq != seq ==> log2 == log
        }),
{
}

/// Why serving ended.
#[derive(Clone, Copy, PartialEq, Eq, Structural, Debug)]
pub enum Error {
    /// The address could not be bound, or the session broke.
    Failure,
}

/// What the transport is to do next for a session.
#[derive(Clone, Copy, PartialEq, Eq, Structural, Debug)]
pub enum Action {
    /// Read one packet.
    Read,
    /// Write this acknowledgement.
    Write(Packet),
}

/// What the action asked for came to.
#[derive(Clone, Copy, Debug)]
pub enum Event {
    /// The read: the two bytes it was given to fill, and what it came to.
    Read { buffer: [u8; 2], read: Transfer },
    /// The write came to this.
    Written(Transfer),
}

/// The session of a receiver, by its state.
enum Stage {
    Listening(Listening),
    Deliver(Deliver),
}

/// One session being served.
pub struct Receiver {
    stage: Stage,
}

/// What a receiver is, for its callers.
pub struct ReceiverView {
    /// The sequence number expected next.
    pub seq: u8,
    /// The delivered sequence numbers, newest first.
    pub delivered: Seq<u8>,
    /// The packet that awaits its acknowledgement, if one does.
    pub pending: Option<Packet>,
    /// The sequence numbers of the acknowledgements written, newest first.
    pub wire_sent: Seq<u8>,
    /// The sequence numbers of the packets read, newest first.
    pub wire_received: Seq<u8>,
}

/// Whether `event` answers what a receiver like `v` asked for: a read while
/// it listens, a write while a packet awaits its acknowledgement.
pub open spec fn expects(v: ReceiverView, event: Event) -> bool {
    match v.pending {
        None => event is Read,
        Some(_) => event is Written,
    }
}

/// What a receiver like `v` asks of the transport.
pub open spec fn spec_action(v: ReceiverView) -> Action {
    match v.pending {
        None => Action::Read,
        Some(pkt) => Action::Write(Packet { seq: pkt.seq, data: 0 }),
    }
}

/// What a receiver does when told what its last action came to: the
/// receiver after it and the packet to hand to the application, or nothing
/// where the session has failed.
///
/// A packet read in the window awaits its acknowledgement; one outside is
/// dropped. Once the acknowledgement is written the receiver listens again;
/// a fresh packet is then entered in the log, advances the sequence number,
/// and is handed to the application, while a repeat of the last one
/// delivered does none of that. A failed read or write ends the session.
pub open spec fn spec_handle(v: ReceiverView, event: Event) -> Option<
    (ReceiverView, Option<Packet>),
> {
    match (v.pending, event) {
        (None, Event::Read { buffer, read }) => match spec_received_pkt(buffer@, read) {
            MyResult::Value(pkt) => Some(
                (
                    ReceiverView {
                        pending: if in_window(pkt.seq, v.seq) {
                            Some(pkt)
                        } else {
                            None
                        },
                        wire_received: seq![pkt.seq].add(v.wire_received),
                        ..v
                    },
                    None,
                ),
            ),
            MyResult::Error(_) => None,
        },
        (Some(pkt), Event::Written(written)) => if spec_sent(BYTES_PER_PACKET as nat, written)
            is Value {
            Some(
                (
                    ReceiverView {
                        seq: seq_after_ack(v.seq, pkt.seq),
                        delivered: log_after_ack(v.delivered, v.seq, pkt.seq),
                        pending: None,
                        wire_sent: seq![pkt.seq].add(v.wire_sent),
                        ..v
                    },
                    if pkt.seq == v.seq {
                        Some(pkt)
                    } else {
                        None
                    },
                ),
            )
        } else {
            None
        },
        _ => None,
    }
}

impl View for Receiver {
    type V = ReceiverView;

    closed spec fn view(&self) -> ReceiverView {
        match self.stage {
            Stage::Listening(l) => ReceiverView {
                seq: l.seq(),
                delivered: l.delivered(),
                pending: None,
                wire_sent: l.session().sent@,
                wire_received: l.session().received@,
            },
            Stage::Deliver(d) => ReceiverView {
                seq: d.seq(),
                delivered: d.delivered(),
                pending: Some(d.pkt()),
                wire_sent: d.session().sent@,
                wire_received: d.session().received@,
            },
        }
    }
}

impl Receiver {
    /// The delivered log is the run of sequence numbers just below the one
    /// expected next, and a packet that awaits its acknowledgement is in
    /// the window.
    pub closed spec fn wf(&self) -> bool {
        match self.stage {
            Stage::Listening(l) => l.wf(),
            Stage::Deliver(d) => d.wf(),
        }
    }

    /// What `wf` lets callers know.
    pub proof fn lemma_wf(&self)
        requires
            self.wf(),
        ensures
            log_is_run(self@.delivered, self@.seq),
            self@.pending matches Some(pkt) ==> in_window(pkt.seq, self@.seq),
    {
        match self.stage {
            Stage::Listening(l) => {
                l.lemma_wf();
            },
            Stage::Deliver(d) => {
                d.lemma_wf();
            },
        }
    }

    /// While at most 256 packets have been delivered, the log holds each
    /// sequence number at most once.
    pub proof fn lemma_delivered_at_most_once(&self)
        requires
            self.wf(),
            self@.delivered.len() <= 256,
        ensures
            self@.delivered.no_duplicates(),
    {
        self.lemma_wf();
        lemma_run_has_no_duplicates(self@.delivered, self@.seq);
    }

    /// The receiver that serves the session on which `listening` listens.
    pub fn new(listening: Listening) -> (receiver: Receiver)
        requires
            listening.wf(),
        ensures
            receiver.wf(),
            receiver@ == (ReceiverView {
                seq: listening.seq(),
                delivered: listening.delivered(),
                pending: None,
                wire_sent: listening.session().sent@,
                wire_received: listening.session().received@,
            }),
    {
        Receiver { stage: Stage::Listening(listening) }
    }

    /// What the transport is to do next.
    pub fn action(&self) -> (action: Action)
        ensures
            action == spec_action(self@),
    {
        match &self.stage {
            Stage::Listening(_) => Action::Read,
            Stage::Deliver(d) => Action::Write(d.ack()),
        }
    }

    pub fn current_seq(&self) -> (seq: u8)
        ensures
            seq == self@.seq,
    {
        match &self.stage {
            Stage::Listening(l) => l.current_seq(),
            Stage::Deliver(d) => d.current_seq(),
        }
    }

    /// The delivered sequence numbers, newest first.
    pub fn delivered_log(&self) -> (log: &List<u8>)
        ensures
            log@ == self@.delivered,
    {
        match &self.stage {
            Stage::Listening(l) => l.delivered_log(),
            Stage::Deliver(d) => d.delivered_log(),
        }
    }
}

/// Serves one step of a session: takes what the last action came to, and
/// gives the receiver after it together with the packet to hand to the
/// application, if this step delivered one. `Failure` ends the session.
pub fn handle_connection(receiver: Receiver, event: Event) -> (served: MyResult<
    (Receiver, Option<Packet>),
    Error,
>)
    requires
        receiver.wf(),
        expects(receiver@, event),
    ensures
        match spec_handle(receiver@, event) {
            Some((after, handed)) => {
                &&& served matches MyResult::Value(s)
                &&& s.0.wf()
                &&& s.0@ == after
                &&& s.1 == handed
            },
            None => served == MyResult::<(Receiver, Option<Packet>), Error>::Error(Error::Failure),
        },
{
    let Receiver { stage } = receiver;
    match (stage, event) {
        (Stage::Listening(listening_state), Event::Read { buffer, read }) => {
            let res = listening_state.recv(buffer, read);
            match res {
                MyResult::Value(Received::Deliver(deliver)) => MyResult::Value(
                    (Receiver { stage: Stage::Deliver(deliver) }, None),
                ),
                MyResult::Value(Received::Listening(listening)) => MyResult::Value(
                    (Receiver { stage: Stage::Listening(listening) }, None),
                ),
                MyResult::Error(_) => MyResult::Error(Error::Failure),
            }
        },
        (Stage::Deliver(deliver), Event::Written(written)) => {
            let handed = if deliver.fresh() {
                Some(deliver.packet())
            } else {
                None
            };
            let res1 = deliver.deliver(written);
            match res1 {
                MyResult::Value(listening) => MyResult::Value(
                    (Receiver { stage: Stage::Listening(listening) }, handed),
                ),
                MyResult::Error(_) => MyResult::Error(Error::Failure),
            }
        },
        _ => unreached(),
    }
}

/// What an acceptance that is done gives the accept loop: a receiver for
/// the new session, to be served by a worker of its own, or nothing where
/// no session came of it, and the loop goes on either way.
pub fn accept_incoming(ready_state: &Ready, accepted: MyResult<Socket, SocketError>) -> (worker:
    Option<Receiver>)
    ensures
        accepted is Value ==> {
            &&& worker matches Some(receiver)
            &&& receiver.wf()
            &&& receiver@ == (ReceiverView {
                seq: 0,
                delivered: Seq::<u8>::empty(),
                pending: None,
                wire_sent: accepted->Value_0.sent@,
                wire_received: accepted->Value_0.received@,
            })
        },
        accepted is Error ==> worker.is_none(),
{
    let res = ready_state.accept(accepted);
    match res {
        MyResult::Value(listening) => Some(Receiver::new(listening)),
        MyResult::Error(_) => None,
    }
}

/// The endpoint to accept sessions on, if the address was bound; else
/// `Failure`.
pub fn serve(bound: bool) -> (ready: MyResult<Ready, Error>)
    ensures
        bound ==> ready is Value && ready->Value_0.socket.spec_read_timeout().is_none()
            && ready->Value_0.socket.spec_write_timeout().is_none(),
        !bound ==> ready == MyResult::<Ready, Error>::Error(Error::Failure),
{
    let res = bind(bound);
    match res {
        MyResult::Value(ready) => MyResult::Value(ready),
        MyResult::Error(_) => MyResult::Error(Error::Failure),
    }
}

/// A step that does not fail keeps the log a run below the sequence number
/// and keeps a pending packet in the window.
pub proof fn lemma_handle_keeps_run(v: ReceiverView, event: Event)
    requires
        log_is_run(v.delivered, v.seq),
        v.pending matches Some(pkt) ==> in_window(pkt.seq, v.seq),
        spec_handle(v, event) is Some,
    ensures
        ({
            let after = spec_handle(v, event)->Some_0.0;
            &&& log_is_run(after.delivered, after.seq)
            &&& after.pending matches Some(pkt) ==> in_window(pkt.seq, after.seq)
        }),
{
    match v.pending {
        Some(pkt) => {
            lemma_ack_keeps_window_and_run(v.delivered, v.seq, pkt.seq);
        },
        None => {},
    }
}

/// A packet is handed to the application by the step that enters it in the
/// log, and by no other: a step hands over a packet if and only if the log
/// grows, by that packet's sequence number.
pub proof fn lemma_handed_once(v: ReceiverView, event: Event)
    requires
        spec_handle(v, event) is Some,
    ensures
        ({
            let (after, handed) = spec_handle(v, event)->Some_0;
            &&& handed matches Some(pkt) ==> after.delivered == seq![pkt.seq].add(v.delivered)
            &&& handed.is_none() ==> after.delivered == v.delivered && after.seq == v.seq
        }),
{
}

/// When the same data packet arrives twice in a row at a receiver that
/// expects it, and both acknowledgements go out, the first arrival enters
/// it in the log and hands it to the application, the second does neither,
/// and each of the two puts an acknowledgement on the wire.
pub proof fn lemma_duplicate_is_acknowledged_and_not_logged(v: ReceiverView, buffer: [u8; 2])
    requires
        v.pending is None,
        buffer@[0] == v.seq,
    ensures
        ({
            let pkt = Packet { seq: buffer@[0], data: buffer@[1] };
            let read = Event::Read { buffer, read: Transfer::Moved(2) };
            let written = Event::Written(Transfer::Moved(2));
            let r1 = spec_handle(v, read);
            let r2 = spec_handle(r1->Some_0.0, written);
            let r3 = spec_handle(r2->Some_0.0, read);
            let r4 = spec_handle(r3->Some_0.0, written);
            &&& r1 is Some && r2 is Some && r3 is Some && r4 is Some
            &&& r2->Some_0.1 == Some(pkt)
            &&& r2->Some_0.0.delivered == seq![pkt.seq].add(v.delivered)
            &&& r2->Some_0.0.wire_sent == seq![pkt.seq].add(v.wire_sent)
            &&& r4->Some_0.1.is_none()
            &&& r4->Some_0.0.delivered == r2->Some_0.0.delivered
            &&& r4->Some_0.0.seq == r2->Some_0.0.seq
            &&& r4->Some_0.0.wire_sent == seq![pkt.seq].add(r2->Some_0.0.wire_sent)
        }),
{
}

/// What a receiver like `v` comes to over `events`, taken in order, together
/// with the packets handed to the application on the way, oldest first;
/// nothing where one of the steps fails.
pub open spec fn spec_serve(v: ReceiverView, events: Seq<Event>) -> Option<
    (ReceiverView, Seq<Packet>),
>
    decreases events.len(),
{
    if events.len() == 0 {
        Some((v, Seq::empty()))
    } else {
        match spec_serve(v, events.drop_last()) {
            None => None,
            Some((mid, handed)) => match spec_handle(mid, events.last()) {
                None => None,
                Some((after, None)) => Some((after, handed)),
                Some((after, Some(pkt))) => Some((after, handed.push(pkt))),
            },
        }
    }
}

/// The log that the packets `handed`, oldest first, leave behind: their
/// sequence numbers, newest first.
pub open spec fn log_of(handed: Seq<Packet>) -> Seq<u8>
    decreases handed.len(),
{
    if handed.len() == 0 {
        Seq::empty()
    } else {
        seq![handed.last().seq].add(log_of(handed.drop_last()))
    }
}

/// Over every run of events that does not fail, the log stays a run below
/// the sequence number and a pending packet stays in the window.
pub proof fn lemma_serve_keeps_run(v: ReceiverView, events: Seq<Event>)
    requires
        log_is_run(v.delivered, v.seq),
        v.pending matches Some(pkt) ==> in_window(pkt.seq, v.seq),
        spec_serve(v, events) is Some,
    ensures
        ({
            let after = spec_serve(v, events)->Some_0.0;
            &&& log_is_run(after.delivered, after.seq)
            &&& after.pending matches Some(pkt) ==> in_window(pkt.seq, after.seq)
        }),
    decreases events.len(),
{
    if events.len() > 0 {
        lemma_serve_keeps_run(v, events.drop_last());
        let mid = spec_serve(v, events.drop_last())->Some_0.0;
        lemma_handle_keeps_run(mid, events.last());
    }
}

/// Over every run of events that does not fail, the log grows by exactly
/// the packets handed to the application, each entered once and in the
/// order in which they were handed over.
pub proof fn lemma_serve_hands_over_what_it_logs(v: ReceiverView, events: Seq<Event>)
    requires
        spec_serve(v, events) is Some,
    ensures
        ({
            let (after, handed) = spec_serve(v, events)->Some_0;
            &&& after.delivered == log_of(handed).add(v.delivered)
            &&& log_of(handed).len() == handed.len()
        }),
    decreases events.len(),
{
    if events.len() == 0 {
        assert(log_of(Seq::<Packet>::empty()).add(v.delivered) =~= v.delivered);
    } else {
        lemma_serve_hands_over_what_it_logs(v, events.drop_last());
        let (mid, handed) = spec_serve(v, events.drop_last())->Some_0;
        lemma_handed_once(mid, events.last());
        let (after, h) = spec_handle(mid, events.last())->Some_0;
        match h {
            Some(pkt) => {
                let longer = handed.push(pkt);
                assert(longer.drop_last() =~= handed);
                assert(after.delivered =~= log_of(longer).add(v.delivered));
            },
            None => {},
        }
    }
}

/// On a session that began at sequence number zero with an empty log, after
/// any run of events that does not fail and delivers at most 256 packets,
/// the delivered log holds each sequence number at most once.
pub proof fn lemma_session_delivers_at_most_once(v: ReceiverView, events: Seq<Event>)
    requires
        v.seq == 0,
        v.delivered == Seq::<u8>::empty(),
        v.pending is None,
        spec_serve(v, events) is Some,
        spec_serve(v, events)->Some_0.0.delivered.len() <= 256,
    ensures
        spec_serve(v, events)->Some_0.0.delivered.no_duplicates(),
{
    lemma_serve_keeps_run(v, events);
    let after = spec_serve(v, events)->Some_0.0;
    lemma_run_has_no_duplicates(after.delivered, after.seq);
}

} // verus!
