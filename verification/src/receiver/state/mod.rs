//! The receiver as one type per state: a value of a state's type is the
//! licence to take that state's step, and the step consumes it.

pub mod error;

use self::error::ReceiverError;
use crate::receiver::{lemma_log_union, log_after_ack, seq_after_ack};
use crate::types::list::{seq_is_union, List};
use crate::types::messaging::{
    in_window, lemma_run_extends, lemma_run_has_no_duplicates, log_is_run, next_seq, previous_seq,
    spec_next_seq, Packet, BYTES_PER_PACKET,
};
use crate::types::socket::{
    spec_received_pkt, spec_sent, ServerSocket, Socket, SocketError, Transfer,
};
use crate::types::MyResult;
use vstd::prelude::*;

verus! {

/// A bound endpoint, ready to accept sessions.
pub struct Ready {
    pub socket: ServerSocket,
}

/// A session on which the receiver waits for a packet.
pub struct Listening {
    seq: u8,
    socket: Socket,
    delivered: List<u8>,
}

/// A session on which a packet in the window was read and awaits its
/// acknowledgement.
pub struct Deliver {
    socket: Socket,
    pkt: Packet,
    seq: u8,
    delivered: List<u8>,
}

/// Where a read left the receiver.
pub enum Received {
    /// The packet is in the window.
    Deliver(Deliver),
    /// The packet was outside the window and was dropped.
    Listening(Listening),
}

/// The endpoint that an attempt to bind gave.
pub fn bind(bound: bool) -> (ready: MyResult<Ready, ReceiverError>)
    ensures
        bound ==> ready is Value && ready->Value_0.socket.spec_read_timeout().is_none()
            && ready->Value_0.socket.spec_write_timeout().is_none(),
        !bound ==> ready == MyResult::<Ready, ReceiverError>::Error(ReceiverError::SocketError),
{
    let socket = ServerSocket::bind(bound);
    match socket {
        MyResult::Value(socket) => MyResult::Value(Ready { socket }),
        MyResult::Error(_) => MyResult::Error(ReceiverError::SocketError),
    }
}

impl Ready {
    /// The receiver for a session that the endpoint has finished accepting:
    /// it listens at sequence number zero with nothing delivered. Without a
    /// session there is none.
    pub fn accept(&self, accepted: MyResult<Socket, SocketError>) -> (listening: MyResult<
        Listening,
        ReceiverError,
    >)
        ensures
            accepted is Value ==> {
                &&& listening is Value
                &&& listening->Value_0.wf()
                &&& listening->Value_0.seq() == 0
                &&& listening->Value_0.delivered() == Seq::<u8>::empty()
                &&& listening->Value_0.session() == accepted->Value_0
            },
            accepted is Error ==> listening == MyResult::<Listening, ReceiverError>::Error(
                ReceiverError::SocketError,
            ),
    {
        match accepted {
            MyResult::Value(socket) => MyResult::Value(
                Listening { socket, seq: 0, delivered: List::new() },
            ),
            MyResult::Error(_) => MyResult::Error(ReceiverError::SocketError),
        }
    }
}

impl Listening {
    /// The sequence number expected next.
    pub closed spec fn seq(&self) -> u8 {
        self.seq
    }

    /// The log of delivered sequence numbers, newest first.
    pub closed spec fn delivered(&self) -> Seq<u8> {
        self.delivered@
    }

    /// The session's record.
    pub closed spec fn session(&self) -> Socket {
        self.socket
    }

    /// The delivered log is the run of sequence numbers just below the one
    /// expected next.
    pub closed spec fn wf(&self) -> bool {
        log_is_run(self.delivered@, self.seq)
    }

    /// What `wf` says, over the public names.
    pub proof fn lemma_wf(&self)
        ensures
            self.wf() == log_is_run(self.delivered(), self.seq()),
    {
    }

    /// While at most 256 packets have been delivered, the log holds each
    /// sequence number at most once.
    pub proof fn lemma_delivered_at_most_once(&self)
        requires
            self.wf(),
            self.delivered().len() <= 256,
        ensures
            self.delivered().no_duplicates(),
    {
        lemma_run_has_no_duplicates(self.delivered(), self.seq());
    }

    fn valid_pkt(&self, pkt: &Packet) -> (valid: bool)
        ensures
            valid == in_window(pkt.seq, self.seq()),
    {
        pkt.seq == self.seq || pkt.seq == previous_seq(self.seq)
    }

    /// Takes what the read of one packet came to. A packet in the window
    /// moves the receiver on to its acknowledgement. A packet outside it is
    /// dropped: the receiver listens on, and the caller reads again. A read
    /// that gave no packet ends the session with `RecvError`. The sequence
    /// number and the log stay.
    pub fn recv(self, buffer: [u8; 2], read: Transfer) -> (received: MyResult<
        Received,
        ReceiverError,
    >)
        requires
            self.wf(),
        ensures
            match spec_received_pkt(buffer@, read) {
                MyResult::Value(pkt) => {
                    &&& received is Value
                    &&& in_window(pkt.seq, self.seq()) ==> {
                        &&& received->Value_0 matches Received::Deliver(d)
                        &&& d.wf()
                        &&& d.pkt() == pkt
                        &&& d.seq() == self.seq()
                        &&& d.delivered() == self.delivered()
                        &&& d.session().sent@ == self.session().sent@
                        &&& d.session().received@ == seq![pkt.seq].add(self.session().received@)
                    }
                    &&& !in_window(pkt.seq, self.seq()) ==> {
                        &&& received->Value_0 matches Received::Listening(l)
                        &&& l.wf()
                        &&& l.seq() == self.seq()
                        &&& l.delivered() == self.delivered()
                        &&& l.session().sent@ == self.session().sent@
                        &&& l.session().received@ == seq![pkt.seq].add(self.session().received@)
                    }
                },
                MyResult::Error(_) => received == MyResult::<Received, ReceiverError>::Error(
                    ReceiverError::RecvError,
                ),
            },
    {
        let mut this = self;
        let res = this.socket.recv_pkt(buffer, read);
        match res {
            MyResult::Value(pkt) => {
                if this.valid_pkt(&pkt) {
                    MyResult::Value(
                        Received::Deliver(
                            Deliver {
                                socket: this.socket,
                                seq: this.seq,
                                pkt,
                                delivered: this.delivered,
                            },
                        ),
                    )
                } else {
                    MyResult::Value(Received::Listening(this))
                }
            },
            MyResult::Error(_) => MyResult::Error(ReceiverError::RecvError),
        }
    }

    pub fn current_seq(&self) -> (seq: u8)
        ensures
            seq == self.seq(),
    {
        self.seq
    }

    /// The log of delivered sequence numbers, newest first.
    pub fn delivered_log(&self) -> (log: &List<u8>)
        ensures
            log@ == self.delivered(),
    {
        &self.delivered
    }

    /// The session's record.
    pub fn socket(&self) -> (socket: &Socket)
        ensures
            *socket == self.session(),
    {
        &self.socket
    }
}

impl Deliver {
    /// The sequence number expected next.
    pub closed spec fn seq(&self) -> u8 {
        self.seq
    }

    /// The packet that awaits its acknowledgement.
    pub closed spec fn pkt(&self) -> Packet {
        self.pkt
    }

    /// The log of delivered sequence numbers, newest first.
    pub closed spec fn delivered(&self) -> Seq<u8> {
        self.delivered@
    }

    /// The session's record.
    pub closed spec fn session(&self) -> Socket {
        self.socket
    }

    /// Whether the packet is delivered for the first time.
    pub open spec fn is_fresh(&self) -> bool {
        self.pkt().seq == self.seq()
    }

    /// The log is the run of sequence numbers just below the one expected
    /// next, and the packet is in the window.
    pub closed spec fn wf(&self) -> bool {
        &&& log_is_run(self.delivered@, self.seq)
        &&& in_window(self.pkt.seq, self.seq)
    }

    /// What `wf` says, over the public names.
    pub proof fn lemma_wf(&self)
        ensures
            self.wf() == (log_is_run(self.delivered(), self.seq()) && in_window(
                self.pkt().seq,
                self.seq(),
            )),
    {
    }

    /// The acknowledgement to write: it carries the packet's sequence number.
    pub fn ack(&self) -> (ack: Packet)
        ensures
            ack == (Packet { seq: self.pkt().seq, data: 0 }),
    {
        self.pkt.to_ack()
    }

    /// Takes what the write of `self.ack()` came to. If both bytes went
    /// out, the receiver listens again and the session's record has the
    /// acknowledgement; a fresh packet is then entered at the front of the
    /// log and the sequence number advances by one modulo 256, while a
    /// repeat of the last one delivered changes neither. If the write failed
    /// the session ends with `SocketError`.
    pub fn deliver(self, written: Transfer) -> (listening: MyResult<Listening, ReceiverError>)
        requires
            self.wf(),
        ensures
            match spec_sent(BYTES_PER_PACKET as nat, written) {
                MyResult::Value(_) => {
                    &&& listening matches MyResult::Value(l)
                    &&& l.wf()
                    &&& l.session().sent@ == seq![self.pkt().seq].add(self.session().sent@)
                    &&& l.session().received@ == self.session().received@
                    &&& l.seq() == seq_after_ack(self.seq(), self.pkt().seq)
                    &&& l.delivered() == log_after_ack(
                        self.delivered(),
                        self.seq(),
                        self.pkt().seq,
                    )
                    &&& l.seq() == spec_next_seq(self.seq()) <==> self.is_fresh()
                    &&& !self.is_fresh() ==> l.seq() == self.seq()
                    &&& self.is_fresh() ==> seq_is_union(
                        l.delivered(),
                        self.delivered(),
                        self.pkt().seq,
                    )
                },
                MyResult::Error(_) => listening == MyResult::<Listening, ReceiverError>::Error(
                    ReceiverError::SocketError,
                ),
            },
    {
        let mut this = self;
        let ack = this.pkt.to_ack();
        let res = this.socket.send_pkt(&ack, written);
        match res {
            MyResult::Value(_) => {
                if this.pkt.seq == this.seq {
                    proof {
                        lemma_run_extends(this.delivered@, this.seq);
                        lemma_log_union(this.delivered@, this.seq, this.pkt.seq);
                    }
                    MyResult::Value(
                        Listening {
                            socket: this.socket,
                            seq: next_seq(this.seq),
                            delivered: this.delivered.add(this.pkt.seq),
                        },
                    )
                } else {
                    MyResult::Value(
                        Listening {
                            socket: this.socket,
                            seq: this.seq,
                            delivered: this.delivered,
                        },
                    )
                }
            },
            MyResult::Error(_) => MyResult::Error(ReceiverError::SocketError),
        }
    }

    /// The packet that awaits its acknowledgement.
    pub fn packet(&self) -> (pkt: Packet)
        ensures
            pkt == self.pkt(),
    {
        self.pkt
    }

    /// Whether the packet is delivered for the first time.
    pub fn fresh(&self) -> (fresh: bool)
        ensures
            fresh == self.is_fresh(),
    {
        self.pkt.seq == self.seq
    }

    pub fn current_seq(&self) -> (seq: u8)
        ensures
            seq == self.seq(),
    {
        self.seq
    }

    /// The log of delivered sequence numbers, newest first.
    pub fn delivered_log(&self) -> (log: &List<u8>)
        ensures
            log@ == self.delivered(),
    {
        &self.delivered
    }

    /// The session's record.
    pub fn socket(&self) -> (socket: &Socket)
        ensures
            *socket == self.session(),
    {
        &self.socket
    }
}

} // verus!
