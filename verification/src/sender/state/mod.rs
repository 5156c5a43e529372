//! The sender as one type per state: a value of a state's type is the
//! licence to take that state's step, and the step consumes it.

use crate::types::messaging::{decimal, next_seq, spec_decimal, spec_next_seq, Packet, BYTES_PER_PACKET};
use crate::types::socket::{spec_received_pkt, spec_sent, Awaited, Socket, SocketError, Transfer};
use crate::types::MyResult;
use vstd::prelude::*;

verus! {

/// Why a step of the sender failed.
#[derive(Clone, Copy, PartialEq, Eq, Structural, Debug)]
pub enum SenderError {
    /// The packet with this payload did not go out.
    SendError { data: u8 },
    /// The connection could not be established.
    SocketError,
    /// The read for the acknowledgement failed.
    NoResponse,
    /// A step was asked for in a state that does not allow it. No step here
    /// gives this: the types rule such a call out.
    IllegalState,
    /// The read deadline could not be set.
    BadTimeoutInput,
}

/// The kinds of failure, without what they carry.
#[derive(Clone, Copy, PartialEq, Eq, Structural, Debug)]
pub enum ErrorKind {
    SendError,
    SocketError,
    NoResponse,
    IllegalState,
    BadTimeoutInput,
}

/// A failure together with the packet that it concerns, if any.
#[derive(Clone, Copy, Debug)]
pub struct Error {
    kind: ErrorKind,
    pkt: Option<Packet>,
}

impl Error {
    pub closed spec fn spec_kind(&self) -> ErrorKind {
        self.kind
    }

    pub closed spec fn spec_pkt(&self) -> Option<Packet> {
        self.pkt
    }

    pub fn new(kind: ErrorKind, pkt: Option<Packet>) -> (error: Error)
        ensures
            error.spec_kind() == kind,
            error.spec_pkt() == pkt,
    {
        Error { kind, pkt }
    }

    pub fn kind(&self) -> (kind: ErrorKind)
        ensures
            kind == self.spec_kind(),
    {
        self.kind
    }

    pub fn pkt(&self) -> (pkt: Option<Packet>)
        ensures
            pkt == self.spec_pkt(),
    {
        self.pkt
    }
}

impl SenderError {
    /// The kind of this failure.
    pub open spec fn spec_kind(self) -> ErrorKind {
        match self {
            SenderError::SendError { .. } => ErrorKind::SendError,
            SenderError::SocketError => ErrorKind::SocketError,
            SenderError::NoResponse => ErrorKind::NoResponse,
            SenderError::IllegalState => ErrorKind::IllegalState,
            SenderError::BadTimeoutInput => ErrorKind::BadTimeoutInput,
        }
    }

    /// The message for this failure.
    pub open spec fn message(self) -> Seq<char> {
        match self {
            SenderError::SendError { data } => "Failed to send data: "@.add(
                spec_decimal(data as nat),
            ),
            SenderError::SocketError => "Failed to connect"@,
            SenderError::NoResponse => "No response"@,
            SenderError::IllegalState => "Illegal state"@,
            SenderError::BadTimeoutInput => "BadTimeoutInput"@,
        }
    }

    pub fn kind(&self) -> (kind: ErrorKind)
        ensures
            kind == self.spec_kind(),
    {
        match self {
            SenderError::SendError { .. } => ErrorKind::SendError,
            SenderError::SocketError => ErrorKind::SocketError,
            SenderError::NoResponse => ErrorKind::NoResponse,
            SenderError::IllegalState => ErrorKind::IllegalState,
            SenderError::BadTimeoutInput => ErrorKind::BadTimeoutInput,
        }
    }

    pub fn to_string(&self) -> (message: String)
        ensures
            message@ == self.message(),
    {
        match self {
            SenderError::SendError { data } => {
                let mut message = String::from_str("Failed to send data: ");
                let number = decimal(*data);
                message.append(number.as_str());
                message
            },
            SenderError::SocketError => String::from_str("Failed to connect"),
            SenderError::NoResponse => String::from_str("No response"),
            SenderError::IllegalState => String::from_str("Illegal state"),
            SenderError::BadTimeoutInput => String::from_str("BadTimeoutInput"),
        }
    }
}

/// What a sender that is ready can do.
pub trait ReadyTrait: Sized {
    /// Takes what the write of the data packet for `data` came to.
    fn send(self, data: u8, written: Transfer) -> MyResult<Pending, SenderError>;
}

/// A link that is not connected: where to connect to, and the sequence
/// number at which sending goes on once it is.
pub struct Connect {
    seq: u8,
    remote_addr: String,
}

/// A connected sender with nothing in flight.
pub struct Ready {
    seq: u8,
    socket: Socket,
}

/// A connected sender whose packet awaits its acknowledgement.
pub struct Pending {
    seq: u8,
    socket: Socket,
    data: u8,
}

/// How a wait that did not fail ended.
pub enum Settled {
    /// The acknowledgement came; the sequence number has advanced.
    Delivered(Ready),
    /// No acknowledgement came in time; the sequence number is unchanged.
    TimedOut(Ready),
    /// Another packet came. The wait goes on for these milliseconds.
    StillPending(Pending, u64),
}

/// What a wait comes to, in kind.
#[derive(Clone, Copy, PartialEq, Eq, Structural, Debug)]
pub enum Verdict {
    Delivered,
    StillPending { remaining: u64 },
    TimedOut,
    /// The read deadline could not be set.
    NoDeadline,
    /// The read failed.
    Broken,
}

/// What a wait of `timeout` milliseconds gives a sender whose packet in
/// flight carries `seq`.
///
/// A wait of no time is over before it begins. Without a deadline nothing
/// was read. A packet with the same sequence number is the acknowledgement.
/// Any other packet is stale: the wait goes on with what is left of the
/// time, and is over if nothing is left. A read that ran into the deadline
/// is a timeout; any other failed read breaks the session.
pub open spec fn spec_verdict(seq: u8, timeout: u64, awaited: Awaited) -> Verdict {
    if timeout == 0 {
        Verdict::TimedOut
    } else {
        match awaited {
            Awaited::NoDeadline => Verdict::NoDeadline,
            Awaited::Read { buffer, read, elapsed } => match spec_received_pkt(buffer@, read) {
                MyResult::Value(pkt) => if pkt.seq == seq {
                    Verdict::Delivered
                } else if timeout > elapsed {
                    Verdict::StillPending { remaining: (timeout - elapsed) as u64 }
                } else {
                    Verdict::TimedOut
                },
                MyResult::Error(SocketError::Timeout) => Verdict::TimedOut,
                MyResult::Error(_) => Verdict::Broken,
            },
        }
    }
}

/// The session's record of packets read, after a wait of `timeout`
/// milliseconds.
pub open spec fn received_after_wait(before: Seq<u8>, timeout: u64, awaited: Awaited) -> Seq<u8> {
    if timeout == 0 {
        before
    } else {
        match awaited {
            Awaited::NoDeadline => before,
            Awaited::Read { buffer, read, .. } => match spec_received_pkt(buffer@, read) {
                MyResult::Value(pkt) => seq![pkt.seq].add(before),
                MyResult::Error(_) => before,
            },
        }
    }
}

/// The sender that an attempt to connect for the first time gave: ready at
/// sequence number zero on a fresh session, where the receiver starts too.
pub fn connect(established: bool) -> (ready: MyResult<Ready, SenderError>)
    ensures
        established ==> {
            &&& ready is Value
            &&& ready->Value_0.seq() == 0
            &&& ready->Value_0.session().is_fresh()
        },
        !established ==> ready == MyResult::<Ready, SenderError>::Error(SenderError::SocketError),
{
    reconnect(0, established)
}

/// The sender that an attempt to connect gave to a link that stands at
/// `seq`: ready on a fresh session, at that sequence number.
pub fn reconnect(seq: u8, established: bool) -> (ready: MyResult<Ready, SenderError>)
    ensures
        established ==> {
            &&& ready is Value
            &&& ready->Value_0.seq() == seq
            &&& ready->Value_0.session().is_fresh()
        },
        !established ==> ready == MyResult::<Ready, SenderError>::Error(SenderError::SocketError),
{
    let socket = Socket::connect(established);
    match socket {
        MyResult::Value(socket) => MyResult::Value(Ready { seq, socket }),
        MyResult::Error(_) => MyResult::Error(SenderError::SocketError),
    }
}

impl Connect {
    /// The sequence number at which sending goes on.
    pub closed spec fn seq(&self) -> u8 {
        self.seq
    }

    /// Where to connect to.
    pub closed spec fn addr(&self) -> Seq<char> {
        self.remote_addr@
    }

    /// A link to `remote_addr` that was never connected.
    pub fn new(remote_addr: String) -> (link: Connect)
        ensures
            link.seq() == 0,
            link.addr() == remote_addr@,
    {
        Connect { seq: 0, remote_addr }
    }

    /// A link to `remote_addr` that lost its session while `seq` was the
    /// sequence number.
    pub fn resume(remote_addr: String, seq: u8) -> (link: Connect)
        ensures
            link.seq() == seq,
            link.addr() == remote_addr@,
    {
        Connect { seq, remote_addr }
    }

    /// The sender that an attempt to connect gave: ready on a fresh session,
    /// at the sequence number that the link had.
    pub fn connect(&self, established: bool) -> (ready: MyResult<Ready, SenderError>)
        ensures
            established ==> {
                &&& ready is Value
                &&& ready->Value_0.seq() == self.seq()
                &&& ready->Value_0.session().is_fresh()
            },
            !established ==> ready == MyResult::<Ready, SenderError>::Error(
                SenderError::SocketError,
            ),
    {
        reconnect(self.seq, established)
    }

    pub fn current_seq(&self) -> (seq: u8)
        ensures
            seq == self.seq(),
    {
        self.seq
    }

    /// Where to connect to.
    pub fn remote_addr(&self) -> (addr: &String)
        ensures
            addr@ == self.addr(),
    {
        &self.remote_addr
    }
}

impl Ready {
    /// The sequence number of the next packet.
    pub closed spec fn seq(&self) -> u8 {
        self.seq
    }

    /// The session's record.
    pub closed spec fn session(&self) -> Socket {
        self.socket
    }

    /// The packet to write for the payload `data`.
    pub fn packet(&self, data: u8) -> (pkt: Packet)
        ensures
            pkt == (Packet { seq: self.seq(), data }),
    {
        Packet { seq: self.seq, data }
    }

    /// Takes what the write of `self.packet(data)` came to. If both bytes
    /// went out, the packet is in flight under the same sequence number and
    /// the session's record has it; else the step fails with the payload
    /// that did not go out.
    pub fn send(self, data: u8, written: Transfer) -> (pending: MyResult<Pending, SenderError>)
        ensures
            match spec_sent(BYTES_PER_PACKET as nat, written) {
                MyResult::Value(_) => {
                    &&& pending matches MyResult::Value(p)
                    &&& p.seq() == self.seq()
                    &&& p.data() == data
                    &&& p.session().sent@ == seq![self.seq()].add(self.session().sent@)
                    &&& p.session().received@ == self.session().received@
                },
                MyResult::Error(_) => pending == MyResult::<Pending, SenderError>::Error(
                    SenderError::SendError { data },
                ),
            },
    {
        let mut this = self;
        let pkt = Packet { seq: this.seq, data };
        let res = this.socket.send_pkt(&pkt, written);
        match res {
            MyResult::Value(_) => MyResult::Value(
                Pending { seq: this.seq, socket: this.socket, data },
            ),
            MyResult::Error(_) => MyResult::Error(SenderError::SendError { data }),
        }
    }

    pub fn current_seq(&self) -> (seq: u8)
        ensures
            seq == self.seq(),
    {
        self.seq
    }

    /// The session's record.
    pub fn socket(&self) -> (socket: &Socket)
        ensures
            *socket == self.session(),
    {
        &self.socket
    }
}

impl ReadyTrait for Ready {
    fn send(self, data: u8, written: Transfer) -> (pending: MyResult<Pending, SenderError>)
        ensures
            match spec_sent(BYTES_PER_PACKET as nat, written) {
                MyResult::Value(_) => {
                    &&& pending matches MyResult::Value(p)
                    &&& p.seq() == self.seq()
                    &&& p.data() == data
                    &&& p.session().sent@ == seq![self.seq()].add(self.session().sent@)
                    &&& p.session().received@ == self.session().received@
                },
                MyResult::Error(_) => pending == MyResult::<Pending, SenderError>::Error(
                    SenderError::SendError { data },
                ),
            },
    {
        Ready::send(self, data, written)
    }
}

impl Pending {
    /// The sequence number of the packet in flight.
    pub closed spec fn seq(&self) -> u8 {
        self.seq
    }

    /// The payload in flight.
    pub closed spec fn data(&self) -> u8 {
        self.data
    }

    /// The session's record.
    pub closed spec fn session(&self) -> Socket {
        self.socket
    }

    /// Takes what a wait of `timeout` milliseconds for the acknowledgement
    /// came to.
    ///
    /// On the acknowledgement the sender is ready at the next sequence
    /// number. On a timeout it is ready at the same one, so that the same
    /// packet goes out again. On a stale packet with time left it stays
    /// pending, and the caller waits again for the time left. If the
    /// deadline could not be set the step fails with `BadTimeoutInput`, and
    /// if the read failed, with `NoResponse`.
    pub fn wait_deliver(self, timeout: u64, awaited: Awaited) -> (settled: MyResult<
        Settled,
        SenderError,
    >)
        ensures
            match spec_verdict(self.seq(), timeout, awaited) {
                Verdict::Delivered => {
                    &&& settled matches MyResult::Value(Settled::Delivered(ready))
                    &&& ready.seq() == spec_next_seq(self.seq())
                    &&& ready.session().sent@ == self.session().sent@
                    &&& ready.session().received@ == received_after_wait(
                        self.session().received@,
                        timeout,
                        awaited,
                    )
                },
                Verdict::TimedOut => {
                    &&& settled matches MyResult::Value(Settled::TimedOut(ready))
                    &&& ready.seq() == self.seq()
                    &&& ready.session().sent@ == self.session().sent@
                    &&& ready.session().received@ == received_after_wait(
                        self.session().received@,
                        timeout,
                        awaited,
                    )
                },
                Verdict::StillPending { remaining } => {
                    &&& settled matches MyResult::Value(Settled::StillPending(pending, rest))
                    &&& rest == remaining
                    &&& 0 < rest <= timeout
                    &&& pending.seq() == self.seq()
                    &&& pending.data() == self.data()
                    &&& pending.session().sent@ == self.session().sent@
                    &&& pending.session().received@ == received_after_wait(
                        self.session().received@,
                        timeout,
                        awaited,
                    )
                },
                Verdict::NoDeadline => settled == MyResult::<Settled, SenderError>::Error(
                    SenderError::BadTimeoutInput,
                ),
                Verdict::Broken => settled == MyResult::<Settled, SenderError>::Error(
                    SenderError::NoResponse,
                ),
            },
    {
        let mut this = self;
        if timeout == 0 {
            return MyResult::Value(Settled::TimedOut(Ready { socket: this.socket, seq: this.seq }));
        }
        let r = this.socket.set_read_timeout(awaited.deadline_set());
        if r.is_err() {
            return MyResult::Error(SenderError::BadTimeoutInput);
        }
        match awaited {
            Awaited::NoDeadline => unreached(),
            Awaited::Read { buffer, read, elapsed } => {
                let seq = this.seq;
                let res = this.socket.recv_pkt(buffer, read);
                match res {
                    MyResult::Value(pkt) => {
                        if pkt.seq == seq {
                            MyResult::Value(
                                Settled::Delivered(
                                    Ready { socket: this.socket, seq: next_seq(seq) },
                                ),
                            )
                        } else if timeout > elapsed {
                            MyResult::Value(Settled::StillPending(this, timeout - elapsed))
                        } else {
                            MyResult::Value(Settled::TimedOut(Ready { socket: this.socket, seq }))
                        }
                    },
                    MyResult::Error(SocketError::Timeout) => MyResult::Value(
                        Settled::TimedOut(Ready { socket: this.socket, seq }),
                    ),
                    MyResult::Error(_) => MyResult::Error(SenderError::NoResponse),
                }
            },
        }
    }

    pub fn current_seq(&self) -> (seq: u8)
        ensures
            seq == self.seq(),
    {
        self.seq
    }

    /// The payload in flight.
    pub fn payload(&self) -> (data: u8)
        ensures
            data == self.data(),
    {
        self.data
    }

    /// The session's record.
    pub fn socket(&self) -> (socket: &Socket)
        ensures
            *socket == self.session(),
    {
        &self.socket
    }
}

} // verus!
