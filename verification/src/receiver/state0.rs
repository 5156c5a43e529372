//! The receiver as one value with a state tag: it listens, acknowledges what
//! came in the window, and keeps the log of what it delivered.
//!
//! Each operation takes what the transport did and decides what follows. An
//! operation called in a state that does not allow it has no meaning here:
//! its precondition rules the call out.

use crate::receiver::{lemma_log_union, log_after_ack, seq_after_ack};
use crate::types::list::{seq_is_union, List};
use crate::types::messaging::{
    in_window, lemma_run_extends, lemma_run_has_no_duplicates, log_is_run, next_seq, previous_seq,
    spec_next_seq, Packet, BYTES_PER_PACKET,
};
use crate::types::socket::{spec_received_pkt, spec_sent, Socket, Transfer};
use crate::types::MyResult;
use vstd::prelude::*;

verus! {

/// Where the receiver stands.
#[derive(Clone, Copy, PartialEq, Eq, Structural, Debug)]
pub enum State {
    /// Waiting for a packet.
    Listen,
    /// A packet in the window was read and awaits its acknowledgement.
    Acknowledge,
    /// The session broke.
    Crash,
}

/// Why an operation of the receiver gave nothing.
#[derive(Clone, Copy, PartialEq, Eq, Structural, Debug)]
pub enum Error {
    /// The session broke; the receiver has crashed.
    Fatal,
    /// The packet read was outside the window and was dropped.
    OutOfOrderPacket,
}

/// One session's receiver.
pub struct ReceiverState {
    state: State,
    socket: Socket,
    seq: u8,
    acked: List<u8>,
}

/// A receiver for the session `socket`, listening at sequence number zero
/// with nothing delivered. Every session starts at zero, so that both ends
/// agree on the first packet; `initial_seq` does not change that.
pub fn new(socket: Socket, initial_seq: u8) -> (receiver: ReceiverState)
    ensures
        receiver.wf(),
        receiver.state() == State::Listen,
        receiver.seq() == 0,
        receiver.delivered() == Seq::<u8>::empty(),
        receiver.session() == socket,
{
    ReceiverState { state: State::Listen, socket, seq: 0, acked: List::new() }
}

/// Whether `pkt` is in the receive window at `seq`.
fn is_valid_pkt(pkt: &Packet, seq: u8) -> (valid: bool)
    ensures
        valid == in_window(pkt.seq, seq),
{
    pkt.seq == seq || pkt.seq == previous_seq(seq)
}

/// What a read gives a receiver that expects `seq`: the packet if both bytes
/// came and it is in the window, `OutOfOrderPacket` if it is outside, and
/// `Fatal` if the read did not give a packet.
pub open spec fn spec_recv(seq: u8, buffer: Seq<u8>, read: Transfer) -> MyResult<Packet, Error> {
    match spec_received_pkt(buffer, read) {
        MyResult::Value(pkt) => if in_window(pkt.seq, seq) {
            MyResult::Value(pkt)
        } else {
            MyResult::Error(Error::OutOfOrderPacket)
        },
        MyResult::Error(_) => MyResult::Error(Error::Fatal),
    }
}

/// Where a receiver stands after a read that gave `received`.
pub open spec fn state_after_recv(received: MyResult<Packet, Error>) -> State {
    match received {
        MyResult::Value(_) => State::Acknowledge,
        MyResult::Error(Error::OutOfOrderPacket) => State::Listen,
        MyResult::Error(_) => State::Crash,
    }
}

/// What the write of an acknowledgement gives: success if both bytes went
/// out, else `Fatal`.
pub open spec fn spec_ack(written: Transfer) -> MyResult<(), Error> {
    match spec_sent(BYTES_PER_PACKET as nat, written) {
        MyResult::Value(_) => MyResult::Value(()),
        MyResult::Error(_) => MyResult::Error(Error::Fatal),
    }
}

impl ReceiverState {
    /// Where the receiver stands.
    pub closed spec fn state(&self) -> State {
        self.state
    }

    /// The sequence number expected next.
    pub closed spec fn seq(&self) -> u8 {
        self.seq
    }

    /// The log of delivered sequence numbers, newest first.
    pub closed spec fn delivered(&self) -> Seq<u8> {
        self.acked@
    }

    /// The session's record.
    pub closed spec fn session(&self) -> Socket {
        self.socket
    }

    /// The delivered log is the run of sequence numbers just below the one
    /// expected next.
    pub closed spec fn wf(&self) -> bool {
        log_is_run(self.acked@, self.seq)
    }

    /// What `wf` says, over the public names.
    pub proof fn lemma_wf(&self)
        ensures
            self.wf() == log_is_run(self.delivered(), self.seq()),
    {
    }

    /// While at most 256 packets have been delivered, the log holds each
    /// sequence number at most once.
    pub proof fn lemma_delivered_at_most_once(&self)
        requires
            self.wf(),
            self.delivered().len() <= 256,
        ensures
            self.delivered().no_duplicates(),
    {
        lemma_run_has_no_duplicates(self.delivered(), self.seq());
    }

    /// Takes what the read of one packet came to. A packet in the window is
    /// handed back and awaits its acknowledgement. A packet outside it is
    /// dropped and the receiver listens on. A read that gave no packet
    /// crashes the receiver. The sequence number and the log stay.
    pub fn recv(&mut self, buffer: [u8; 2], read: Transfer) -> (received: MyResult<Packet, Error>)
        requires
            old(self).wf(),
            old(self).state() == State::Listen,
        ensures
            final(self).wf(),
            received == spec_recv(old(self).seq(), buffer@, read),
            final(self).state() == state_after_recv(received),
            final(self).seq() == old(self).seq(),
            final(self).delivered() == old(self).delivered(),
            final(self).session().sent@ == old(self).session().sent@,
            final(self).session().received@ == (match spec_received_pkt(buffer@, read) {
                MyResult::Value(pkt) => seq![pkt.seq].add(old(self).session().received@),
                MyResult::Error(_) => old(self).session().received@,
            }),
    {
        match self.state {
            State::Listen => {
                match self.socket.recv_pkt(buffer, read) {
                    MyResult::Value(pkt) => {
                        if is_valid_pkt(&pkt, self.seq) {
                            self.state = State::Acknowledge;
                            MyResult::Value(pkt)
                        } else {
                            MyResult::Error(Error::OutOfOrderPacket)
                        }
                    },
                    MyResult::Error(_) => {
                        self.state = State::Crash;
                        MyResult::Error(Error::Fatal)
                    },
                }
            },
            _ => unreached(),
        }
    }

    /// Takes what the write of `pkt`'s acknowledgement, `pkt.to_ack()`, came
    /// to. If both bytes went out the receiver listens again, and the
    /// session's record has the acknowledgement; a fresh packet, one with the
    /// sequence number expected, is then entered at the front of the log and
    /// the sequence number advances by one modulo 256, while a repeat of the
    /// last one delivered changes neither. If the write failed the receiver
    /// has crashed, and sequence number and log stay.
    pub fn ack(&mut self, pkt: Packet, written: Transfer) -> (acked: MyResult<(), Error>)
        requires
            old(self).wf(),
            old(self).state() == State::Acknowledge,
            in_window(pkt.seq, old(self).seq()),
        ensures
            final(self).wf(),
            acked == spec_ack(written),
            acked is Value ==> {
                &&& final(self).state() == State::Listen
                &&& final(self).session().sent@ == seq![pkt.seq].add(old(self).session().sent@)
                &&& final(self).seq() == seq_after_ack(old(self).seq(), pkt.seq)
                &&& final(self).delivered() == log_after_ack(
                    old(self).delivered(),
                    old(self).seq(),
                    pkt.seq,
                )
                &&& final(self).seq() == spec_next_seq(old(self).seq()) <==> pkt.seq == old(
                    self,
                ).seq()
                &&& pkt.seq != old(self).seq() ==> final(self).seq() == old(self).seq()
                &&& pkt.seq == old(self).seq() ==> seq_is_union(
                    final(self).delivered(),
                    old(self).delivered(),
                    pkt.seq,
                )
            },
            acked is Error ==> {
                &&& final(self).state() == State::Crash
                &&& final(self).session().sent@ == old(self).session().sent@
                &&& final(self).seq() == old(self).seq()
                &&& final(self).delivered() == old(self).delivered()
            },
            final(self).session().received@ == old(self).session().received@,
    {
        match self.state {
            State::Acknowledge => {
                let ack_pkt = pkt.to_ack();
                match self.socket.send_pkt(&ack_pkt, written) {
                    MyResult::Value(_) => {
                        if pkt.seq == self.seq {
                            proof {
                                lemma_run_extends(self.acked@, self.seq);
                                lemma_log_union(self.acked@, self.seq, pkt.seq);
                            }
                            self.acked.push(pkt.seq);
                            self.seq = next_seq(self.seq);
                        }
                        self.state = State::Listen;
                        MyResult::Value(())
                    },
                    MyResult::Error(_) => {
                        self.state = State::Crash;
                        MyResult::Error(Error::Fatal)
                    },
                }
            },
            _ => unreached(),
        }
    }

    /// Takes a new session after a crash and listens on it. The sequence
    /// number and the log are kept.
    pub fn recover(&mut self, socket: Socket)
        requires
            old(self).wf(),
            old(self).state() == State::Crash,
        ensures
            final(self).wf(),
            final(self).state() == State::Listen,
            final(self).seq() == old(self).seq(),
            final(self).delivered() == old(self).delivered(),
            final(self).session() == socket,
    {
        self.state = State::Listen;
        self.socket = socket;
    }

    pub fn current_state(&self) -> (state: State)
        ensures
            state == self.state(),
    {
        self.state
    }

    pub fn current_seq(&self) -> (seq: u8)
        ensures
            seq == self.seq(),
    {
        self.seq
    }

    /// The log of delivered sequence numbers, newest first.
    pub fn delivered_log(&self) -> (log: &List<u8>)
        ensures
            log@ == self.delivered(),
    {
        &self.acked
    }

    /// The session's record.
    pub fn socket(&self) -> (socket: &Socket)
        ensures
            *socket == self.session(),
    {
        &self.socket
    }
}

} // verus!
