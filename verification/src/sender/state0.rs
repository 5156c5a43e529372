//! The sender as one value with a state tag: it sends one packet, waits for
//! the acknowledgement that carries the same sequence number, and keeps the
//! log of what was acknowledged.
//!
//! Each operation takes what the transport did and decides what follows. An
//! operation called in a state that does not allow it has no meaning here:
//! its precondition rules the call out.

use crate::types::list::List;
use crate::types::messaging::{
    lemma_run_extends, log_is_run, next_seq, spec_next_seq, Packet, BYTES_PER_PACKET,
};
use crate::types::socket::{spec_received_pkt, spec_sent, Awaited, Socket, SocketError, Transfer};
use crate::types::MyResult;
use vstd::prelude::*;

verus! {

/// Where the sender stands.
#[derive(Clone, Copy, PartialEq, Eq, Structural, Debug)]
pub enum State {
    /// Nothing is in flight.
    Ready,
    /// A packet went out and awaits its acknowledgement.
    Pending,
    /// The session broke.
    Crashed,
}

/// Why an operation of the sender gave nothing.
#[derive(Clone, Copy, PartialEq, Eq, Structural, Debug)]
pub enum Error {
    /// The session broke; the sender has crashed.
    Fatal,
    /// No acknowledgement came in time; the packet is to be sent again.
    Timeout,
}

/// How a wait that did not fail ended.
#[derive(Clone, Copy, PartialEq, Eq, Structural, Debug)]
pub enum Waited {
    /// The acknowledgement came.
    Delivered,
    /// Another packet came. The wait goes on for the milliseconds left.
    StillPending { remaining: u64 },
}

/// What a wait of `timeout` milliseconds gives a sender whose packet in
/// flight carries `seq`.
///
/// Without a deadline the session counts as broken. A packet with the same
/// sequence number is the acknowledgement. Any other packet is stale: the
/// wait goes on with what is left of the time, and is over if nothing is
/// left. A read that ran into the deadline is a timeout; any other failed
/// read breaks the session.
pub open spec fn spec_wait(seq: u8, timeout: u64, awaited: Awaited) -> MyResult<Waited, Error> {
    match awaited {
        Awaited::NoDeadline => MyResult::Error(Error::Fatal),
        Awaited::Read { buffer, read, elapsed } => match spec_received_pkt(buffer@, read) {
            MyResult::Value(pkt) => if pkt.seq == seq {
                MyResult::Value(Waited::Delivered)
            } else if timeout > elapsed {
                MyResult::Value(Waited::StillPending { remaining: (timeout - elapsed) as u64 })
            } else {
                MyResult::Error(Error::Timeout)
            },
            MyResult::Error(SocketError::Timeout) => MyResult::Error(Error::Timeout),
            MyResult::Error(_) => MyResult::Error(Error::Fatal),
        },
    }
}

/// Where a sender stands after a wait that gave `waited`.
pub open spec fn state_after_wait(waited: MyResult<Waited, Error>) -> State {
    match waited {
        MyResult::Value(Waited::Delivered) => State::Ready,
        MyResult::Value(Waited::StillPending { .. }) => State::Pending,
        MyResult::Error(Error::Timeout) => State::Ready,
        MyResult::Error(Error::Fatal) => State::Crashed,
    }
}

/// The session's record of packets read, after a wait.
pub open spec fn received_after_wait(before: Seq<u8>, awaited: Awaited) -> Seq<u8> {
    match awaited {
        Awaited::NoDeadline => before,
        Awaited::Read { buffer, read, .. } => match spec_received_pkt(buffer@, read) {
            MyResult::Value(pkt) => seq![pkt.seq].add(before),
            MyResult::Error(_) => before,
        },
    }
}

/// What the write of a data packet gives: success if both bytes went out,
/// else `Fatal`.
pub open spec fn spec_send(written: Transfer) -> MyResult<(), Error> {
    match spec_sent(BYTES_PER_PACKET as nat, written) {
        MyResult::Value(_) => MyResult::Value(()),
        MyResult::Error(_) => MyResult::Error(Error::Fatal),
    }
}

/// One link's sender.
pub struct SenderState {
    state: State,
    socket: Socket,
    seq: u8,
    sent: List<u8>,
    sending: Option<u8>,
}

/// A sender on the session `socket`, ready at sequence number zero with
/// nothing acknowledged. Every session starts at zero, where the receiver
/// starts too; `initial_seq` does not change that.
pub fn new(socket: Socket, initial_seq: u8) -> (sender: SenderState)
    ensures
        sender.wf(),
        sender.state() == State::Ready,
        sender.seq() == 0,
        sender.acknowledged() == Seq::<u8>::empty(),
        sender.session() == socket,
{
    SenderState { state: State::Ready, socket, seq: 0, sent: List::new(), sending: None }
}

impl SenderState {
    /// Where the sender stands.
    pub closed spec fn state(&self) -> State {
        self.state
    }

    /// The sequence number of the packet in flight, or of the next one.
    pub closed spec fn seq(&self) -> u8 {
        self.seq
    }

    /// The log of acknowledged sequence numbers, newest first.
    pub closed spec fn acknowledged(&self) -> Seq<u8> {
        self.sent@
    }

    /// The payload in flight, while one is.
    pub closed spec fn in_flight(&self) -> Option<u8> {
        self.sending
    }

    /// The session's record.
    pub closed spec fn session(&self) -> Socket {
        self.socket
    }

    /// The log is the run of sequence numbers just below the current one,
    /// and a payload is remembered exactly while a packet is in flight.
    pub closed spec fn wf(&self) -> bool {
        &&& log_is_run(self.sent@, self.seq)
        &&& self.state == State::Pending <==> self.sending.is_some()
    }

    /// What `wf` says, over the public names.
    pub proof fn lemma_wf(&self)
        ensures
            self.wf() == (log_is_run(self.acknowledged(), self.seq()) && (self.state()
                == State::Pending <==> self.in_flight().is_some())),
    {
    }

    /// The packet that `send` presumes written for the payload `data`.
    pub fn packet(&self, data: u8) -> (pkt: Packet)
        ensures
            pkt == (Packet { seq: self.seq(), data }),
    {
        Packet { seq: self.seq, data }
    }

    /// Takes what the write of `self.packet(data)` came to. If both bytes
    /// went out, the packet is in flight and the session's record has it;
    /// else the sender has crashed. The sequence number and the log stay
    /// either way.
    pub fn send(&mut self, data: u8, written: Transfer) -> (sent: MyResult<(), Error>)
        requires
            old(self).wf(),
            old(self).state() == State::Ready,
        ensures
            final(self).wf(),
            sent == spec_send(written),
            sent is Value ==> {
                &&& final(self).state() == State::Pending
                &&& final(self).in_flight() == Some(data)
                &&& final(self).session().sent@ == seq![old(self).seq()].add(
                    old(self).session().sent@,
                )
            },
            sent is Error ==> {
                &&& final(self).state() == State::Crashed
                &&& final(self).in_flight().is_none()
                &&& final(self).session().sent@ == old(self).session().sent@
            },
            final(self).seq() == old(self).seq(),
            final(self).acknowledged() == old(self).acknowledged(),
            final(self).session().received@ == old(self).session().received@,
    {
        match self.state {
            State::Ready => {
                let pkt = Packet { seq: self.seq, data };
                match self.socket.send_pkt(&pkt, written) {
                    MyResult::Value(_) => {
                        self.state = State::Pending;
                        self.sending = Some(data);
                        MyResult::Value(())
                    },
                    MyResult::Error(_) => {
                        self.state = State::Crashed;
                        MyResult::Error(Error::Fatal)
                    },
                }
            },
            _ => unreached(),
        }
    }

    /// Takes what a wait of `timeout` milliseconds for the acknowledgement
    /// came to.
    ///
    /// On the acknowledgement the sequence number is entered at the front of
    /// the log and advances by one modulo 256, and the sender is ready. On a
    /// stale packet with time left the sender stays pending, and the
    /// caller waits again for the time left. On a timeout the sender is
    /// ready with the sequence number unchanged, so that the same packet
    /// goes out again. If the deadline could not be set or the read
    /// failed, the sender has crashed.
    pub fn wait_deliver(&mut self, timeout: u64, awaited: Awaited) -> (waited: MyResult<
        Waited,
        Error,
    >)
        requires
            old(self).wf(),
            old(self).state() == State::Pending,
        ensures
            final(self).wf(),
            waited == spec_wait(old(self).seq(), timeout, awaited),
            final(self).state() == state_after_wait(waited),
            waited == MyResult::<Waited, Error>::Value(Waited::Delivered) ==> {
                &&& final(self).seq() == spec_next_seq(old(self).seq())
                &&& final(self).acknowledged() == seq![old(self).seq()].add(
                    old(self).acknowledged(),
                )
            },
            waited != MyResult::<Waited, Error>::Value(Waited::Delivered) ==> {
                &&& final(self).seq() == old(self).seq()
                &&& final(self).acknowledged() == old(self).acknowledged()
            },
            final(self).state() == State::Pending ==> final(self).in_flight() == old(
                self,
            ).in_flight(),
            final(self).session().sent@ == old(self).session().sent@,
            final(self).session().received@ == received_after_wait(
                old(self).session().received@,
                awaited,
            ),
    {
        match self.state {
            State::Pending => {
                let r = self.socket.set_read_timeout(awaited.deadline_set());
                if r.is_err() {
                    self.state = State::Crashed;
                    self.sending = None;
                    return MyResult::Error(Error::Fatal);
                }
                match awaited {
                    Awaited::NoDeadline => unreached(),
                    Awaited::Read { buffer, read, elapsed } => {
                        match self.socket.recv_pkt(buffer, read) {
                            MyResult::Value(pkt) => {
                                if pkt.seq == self.seq {
                                    proof {
                                        lemma_run_extends(self.sent@, self.seq);
                                    }
                                    self.sent.push(self.seq);
                                    self.seq = next_seq(self.seq);
                                    self.state = State::Ready;
                                    self.sending = None;
                                    MyResult::Value(Waited::Delivered)
                                } else if timeout > elapsed {
                                    MyResult::Value(
                                        Waited::StillPending { remaining: timeout - elapsed },
                                    )
                                } else {
                                    self.state = State::Ready;
                                    self.sending = None;
                                    MyResult::Error(Error::Timeout)
                                }
                            },
                            MyResult::Error(SocketError::Timeout) => {
                                self.state = State::Ready;
                                self.sending = None;
                                MyResult::Error(Error::Timeout)
                            },
                            MyResult::Error(_) => {
                                self.state = State::Crashed;
                                self.sending = None;
                                MyResult::Error(Error::Fatal)
                            },
                        }
                    },
                }
            },
            _ => unreached(),
        }
    }

    /// Takes a new session after a crash. The sequence number and the log
    /// are kept, so that the packet that was in flight goes out again as it
    /// was.
    pub fn recover(&mut self, socket: Socket)
        requires
            old(self).wf(),
            old(self).state() == State::Crashed,
        ensures
            final(self).wf(),
            final(self).state() == State::Ready,
            final(self).seq() == old(self).seq(),
            final(self).acknowledged() == old(self).acknowledged(),
            final(self).in_flight().is_none(),
            final(self).session() == socket,
    {
        self.state = State::Ready;
        self.socket = socket;
    }

    pub fn current_state(&self) -> (state: State)
        ensures
            state == self.state(),
    {
        self.state
    }

    pub fn current_seq(&self) -> (seq: u8)
        ensures
            seq == self.seq(),
    {
        self.seq
    }

    /// The log of acknowledged sequence numbers, newest first.
    pub fn sent_log(&self) -> (log: &List<u8>)
        ensures
            log@ == self.acknowledged(),
    {
        &self.sent
    }

    /// The session's record.
    pub fn socket(&self) -> (socket: &Socket)
        ensures
            *socket == self.session(),
    {
        &self.socket
    }
}

} // verus!
