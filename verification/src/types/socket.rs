//! The session as the state machines see it: what each operation on the byte
//! stream came to, sorted into a closed set of errors, and a record of the
//! sequence numbers that went out and came in.
//!
//! Nothing here touches the stream. The caller performs the operation and
//! hands over what it came to.

use super::list::List;
use super::messaging::{spec_unmarshall, Packet, BYTES_PER_PACKET};
use super::MyResult;
use vstd::prelude::*;

verus! {

/// What can go wrong on the transport.
#[derive(Clone, Copy, PartialEq, Eq, Structural, Debug)]
pub enum SocketError {
    Timeout,
    SendError,
    RecvError,
    DestinationUnreachable,
    SetTimeoutFailed,
    BindError,
    AcceptError,
}

impl SocketError {
    /// The name of the error.
    pub open spec fn name(self) -> Seq<char> {
        match self {
            SocketError::Timeout => "Timeout"@,
            SocketError::SendError => "SendError"@,
            SocketError::RecvError => "RecvError"@,
            SocketError::DestinationUnreachable => "DestinationUnreachable"@,
            SocketError::SetTimeoutFailed => "SetTimeoutFailed"@,
            SocketError::BindError => "BindError"@,
            SocketError::AcceptError => "AcceptError"@,
        }
    }

    pub fn to_string(&self) -> (name: String)
        ensures
            name@ == self.name(),
    {
        match self {
            SocketError::Timeout => "Timeout".to_string(),
            SocketError::SendError => "SendError".to_string(),
            SocketError::RecvError => "RecvError".to_string(),
            SocketError::DestinationUnreachable => "DestinationUnreachable".to_string(),
            SocketError::SetTimeoutFailed => "SetTimeoutFailed".to_string(),
            SocketError::BindError => "BindError".to_string(),
            SocketError::AcceptError => "AcceptError".to_string(),
        }
    }
}

/// What one read or write on the byte stream came to.
#[derive(Clone, Copy, PartialEq, Eq, Structural, Debug)]
pub enum Transfer {
    /// The call returned after moving this many bytes.
    Moved(usize),
    /// The call gave up because it would have had to wait.
    WouldBlock,
    /// The deadline passed.
    TimedOut,
    /// The call failed in any other way.
    Failed,
}

/// How a write of `len` bytes is judged: it succeeded if and only if it moved
/// all of them.
pub open spec fn spec_sent(len: nat, written: Transfer) -> MyResult<(), SocketError> {
    match written {
        Transfer::Moved(n) if n == len => MyResult::Value(()),
        _ => MyResult::Error(SocketError::SendError),
    }
}

/// How a read into `len` bytes is judged: it succeeded if and only if it
/// filled them; a passed deadline is a timeout, and a short read or any
/// other failure is a receive error.
pub open spec fn spec_received(len: nat, read: Transfer) -> MyResult<(), SocketError> {
    match read {
        Transfer::Moved(n) => if n == len {
            MyResult::Value(())
        } else {
            MyResult::Error(SocketError::RecvError)
        },
        Transfer::WouldBlock => MyResult::Error(SocketError::Timeout),
        Transfer::TimedOut => MyResult::Error(SocketError::Timeout),
        Transfer::Failed => MyResult::Error(SocketError::RecvError),
    }
}

/// How a read of one packet into `buffer` is judged.
pub open spec fn spec_received_pkt(buffer: Seq<u8>, read: Transfer) -> MyResult<
    Packet,
    SocketError,
> {
    match spec_received(BYTES_PER_PACKET as nat, read) {
        MyResult::Value(_) => MyResult::Value(spec_unmarshall(buffer)),
        MyResult::Error(e) => MyResult::Error(e),
    }
}

/// What a wait for one packet under a read deadline came to.
#[derive(Clone, Copy, Debug)]
pub enum Awaited {
    /// The deadline could not be set, so nothing was read.
    NoDeadline,
    /// The deadline was set and one read was made: the two bytes it was
    /// given to fill, what it came to, and the milliseconds it took.
    Read { buffer: [u8; 2], read: Transfer, elapsed: u64 },
}

impl Awaited {
    /// Whether the deadline was set.
    pub fn deadline_set(&self) -> (set: bool)
        ensures
            set == !(self is NoDeadline),
    {
        match self {
            Awaited::NoDeadline => false,
            Awaited::Read { .. } => true,
        }
    }
}

/// One session's record: the sequence numbers of the packets written, and of
/// those read, newest first.
pub struct Socket {
    pub sent: List<u8>,
    pub received: List<u8>,
}

impl Socket {
    /// Whether nothing has been written or read on this session.
    pub open spec fn is_fresh(&self) -> bool {
        self.sent@.len() == 0 && self.received@.len() == 0
    }

    /// The session that an attempt to connect gave: a fresh one if the
    /// connection was established, else `DestinationUnreachable`.
    pub fn connect(established: bool) -> (session: MyResult<Socket, SocketError>)
        ensures
            established ==> session is Value && session->Value_0.is_fresh(),
            !established ==> session == MyResult::<Socket, SocketError>::Error(
                SocketError::DestinationUnreachable,
            ),
    {
        if established {
            MyResult::Value(Socket { sent: List::new(), received: List::new() })
        } else {
            MyResult::Error(SocketError::DestinationUnreachable)
        }
    }

    /// Judges the write of `pkt`'s two bytes, and records its sequence
    /// number if all of them went out.
    pub fn send_pkt(&mut self, pkt: &Packet, written: Transfer) -> (sent: MyResult<
        (),
        SocketError,
    >)
        ensures
            sent == spec_sent(BYTES_PER_PACKET as nat, written),
            sent is Value ==> final(self).sent@ == seq![pkt.seq].add(old(self).sent@),
            sent is Error ==> final(self).sent@ == old(self).sent@,
            final(self).received@ == old(self).received@,
    {
        let bytes = pkt.marshall();
        match self.send(bytes.as_slice(), written) {
            MyResult::Value(_) => {
                self.sent.push(pkt.seq);
                MyResult::Value(())
            },
            MyResult::Error(e) => MyResult::Error(e),
        }
    }

    /// Judges a write of `bytes`.
    pub fn send(&mut self, bytes: &[u8], written: Transfer) -> (sent: MyResult<(), SocketError>)
        ensures
            sent == spec_sent(bytes@.len(), written),
            final(self).sent@ == old(self).sent@,
            final(self).received@ == old(self).received@,
    {
        match written {
            Transfer::Moved(n) => if n == bytes.len() {
                MyResult::Value(())
            } else {
                MyResult::Error(SocketError::SendError)
            },
            _ => MyResult::Error(SocketError::SendError),
        }
    }

    /// Judges a read into `bytes`.
    pub fn recv(&mut self, bytes: &[u8], read: Transfer) -> (received: MyResult<(), SocketError>)
        ensures
            received == spec_received(bytes@.len(), read),
            final(self).sent@ == old(self).sent@,
            final(self).received@ == old(self).received@,
    {
        match read {
            Transfer::Moved(n) => if n == bytes.len() {
                MyResult::Value(())
            } else {
                MyResult::Error(SocketError::RecvError)
            },
            Transfer::WouldBlock => MyResult::Error(SocketError::Timeout),
            Transfer::TimedOut => MyResult::Error(SocketError::Timeout),
            Transfer::Failed => MyResult::Error(SocketError::RecvError),
        }
    }

    /// Judges the read of one packet into `buffer`, decodes it if both bytes
    /// came, and records its sequence number.
    pub fn recv_pkt(&mut self, buffer: [u8; 2], read: Transfer) -> (received: MyResult<
        Packet,
        SocketError,
    >)
        ensures
            received == spec_received_pkt(buffer@, read),
            received is Value ==> final(self).received@ == seq![received->Value_0.seq].add(
                old(self).received@,
            ),
            received is Error ==> final(self).received@ == old(self).received@,
            final(self).sent@ == old(self).sent@,
    {
        match read {
            Transfer::Moved(n) => if n == BYTES_PER_PACKET {
                let pkt = Packet::unmarshall(buffer);
                self.received.push(pkt.seq);
                MyResult::Value(pkt)
            } else {
                MyResult::Error(SocketError::RecvError)
            },
            Transfer::WouldBlock => MyResult::Error(SocketError::Timeout),
            Transfer::TimedOut => MyResult::Error(SocketError::Timeout),
            Transfer::Failed => MyResult::Error(SocketError::RecvError),
        }
    }

    /// Judges an attempt to set the read deadline.
    pub fn set_read_timeout(&self, set: bool) -> (done: MyResult<(), SocketError>)
        ensures
            done == spec_deadline_set(set),
    {
        if set {
            MyResult::Value(())
        } else {
            MyResult::Error(SocketError::SetTimeoutFailed)
        }
    }

    /// Judges an attempt to set the write deadline.
    pub fn set_write_timeout(&self, set: bool) -> (done: MyResult<(), SocketError>)
        ensures
            done == spec_deadline_set(set),
    {
        if set {
            MyResult::Value(())
        } else {
            MyResult::Error(SocketError::SetTimeoutFailed)
        }
    }
}

/// How an attempt to set a deadline is judged.
pub open spec fn spec_deadline_set(set: bool) -> MyResult<(), SocketError> {
    if set {
        MyResult::Value(())
    } else {
        MyResult::Error(SocketError::SetTimeoutFailed)
    }
}

/// A listening endpoint's settings: the deadlines, in milliseconds, that each
/// accepted session is to get.
pub struct ServerSocket {
    read_timeout: Option<u64>,
    write_timeout: Option<u64>,
}

/// Where the acceptance of one session stands: a deadline is still to be set
/// on it, or it is done.
pub enum Accepting {
    /// The session is up; its read deadline is to be set to this.
    ReadDeadline(Socket, u64),
    /// The session is up; its write deadline is to be set to this.
    WriteDeadline(Socket, u64),
    /// Nothing is left to do: the session, or why there is none.
    Done(MyResult<Socket, SocketError>),
}

impl ServerSocket {
    /// The read deadline that accepted sessions get.
    pub closed spec fn spec_read_timeout(&self) -> Option<u64> {
        self.read_timeout
    }

    /// The write deadline that accepted sessions get.
    pub closed spec fn spec_write_timeout(&self) -> Option<u64> {
        self.write_timeout
    }

    /// What follows once the session `s` has the deadlines before the write
    /// deadline.
    pub open spec fn after_read_deadline(&self, s: Socket) -> Accepting {
        match self.spec_write_timeout() {
            Some(t) => Accepting::WriteDeadline(s, t),
            None => Accepting::Done(MyResult::Value(s)),
        }
    }

    /// What follows once the session `s` is up.
    pub open spec fn after_accept(&self, s: Socket) -> Accepting {
        match self.spec_read_timeout() {
            Some(t) => Accepting::ReadDeadline(s, t),
            None => self.after_read_deadline(s),
        }
    }

    /// The session of an acceptance that still has a deadline to set.
    pub open spec fn pending_session(pending: Accepting) -> Socket
        recommends
            !(pending is Done),
    {
        match pending {
            Accepting::ReadDeadline(s, _) => s,
            Accepting::WriteDeadline(s, _) => s,
            Accepting::Done(_) => arbitrary(),
        }
    }

    /// What follows `pending` once its deadline was set, or could not be.
    pub open spec fn spec_accept_next(&self, pending: Accepting, set: bool) -> Accepting
        recommends
            !(pending is Done),
    {
        if !set {
            Accepting::Done(MyResult::Error(SocketError::SetTimeoutFailed))
        } else {
            match pending {
                Accepting::ReadDeadline(s, _) => self.after_read_deadline(s),
                Accepting::WriteDeadline(s, _) => Accepting::Done(MyResult::Value(s)),
                Accepting::Done(_) => arbitrary(),
            }
        }
    }

    /// The endpoint that an attempt to bind gave: one without deadlines if
    /// the address was bound, else `BindError`.
    pub fn bind(bound: bool) -> (endpoint: MyResult<ServerSocket, SocketError>)
        ensures
            bound ==> endpoint is Value && endpoint->Value_0.spec_read_timeout().is_none()
                && endpoint->Value_0.spec_write_timeout().is_none(),
            !bound ==> endpoint == MyResult::<ServerSocket, SocketError>::Error(
                SocketError::BindError,
            ),
    {
        if bound {
            MyResult::Value(ServerSocket { read_timeout: None, write_timeout: None })
        } else {
            MyResult::Error(SocketError::BindError)
        }
    }

    /// Begins the acceptance of a session. If none was accepted, that is
    /// `AcceptError`. Else the session is fresh, and what remains is to set
    /// the deadlines that this endpoint has, the read deadline first.
    pub fn accept(&self, accepted: bool) -> (step: Accepting)
        ensures
            !accepted ==> step == Accepting::Done(MyResult::Error(SocketError::AcceptError)),
            accepted ==> exists|s: Socket| s.is_fresh() && step == self.after_accept(s),
    {
        if !accepted {
            return Accepting::Done(MyResult::Error(SocketError::AcceptError));
        }
        let s = Socket { sent: List::new(), received: List::new() };
        assert(s.is_fresh());
        match self.read_timeout {
            Some(t) => Accepting::ReadDeadline(s, t),
            None => match self.write_timeout {
                Some(t) => Accepting::WriteDeadline(s, t),
                None => Accepting::Done(MyResult::Value(s)),
            },
        }
    }

    /// Goes on with an acceptance after the deadline that `pending` names
    /// was set, or could not be: `SetTimeoutFailed` if it could not, else the
    /// next deadline or the session.
    pub fn accept_next(&self, pending: Accepting, set: bool) -> (step: Accepting)
        requires
            !(pending is Done),
        ensures
            step == self.spec_accept_next(pending, set),
    {
        match pending {
            Accepting::ReadDeadline(s, _) => {
                let err = s.set_read_timeout(set);
                if err.is_err() {
                    return Accepting::Done(MyResult::Error(err.unwrap_err()));
                }
                match self.write_timeout {
                    Some(t) => Accepting::WriteDeadline(s, t),
                    None => Accepting::Done(MyResult::Value(s)),
                }
            },
            Accepting::WriteDeadline(s, _) => {
                let err = s.set_write_timeout(set);
                if err.is_err() {
                    return Accepting::Done(MyResult::Error(err.unwrap_err()));
                }
                Accepting::Done(MyResult::Value(s))
            },
            Accepting::Done(_) => unreached(),
        }
    }

    /// Accepted sessions get this read deadline from now on.
    pub fn set_read_timeout(&mut self, timeout: u64)
        ensures
            final(self).spec_read_timeout() == Some(timeout),
            final(self).spec_write_timeout() == old(self).spec_write_timeout(),
    {
        self.read_timeout = Some(timeout);
    }

    /// Accepted sessions get this write deadline from now on.
    pub fn set_write_timeout(&mut self, timeout: u64)
        ensures
            final(self).spec_write_timeout() == Some(timeout),
            final(self).spec_read_timeout() == old(self).spec_read_timeout(),
    {
        self.write_timeout = Some(timeout);
    }

    pub fn read_timeout(&self) -> (timeout: Option<u64>)
        ensures
            timeout == self.spec_read_timeout(),
    {
        self.read_timeout
    }

    pub fn write_timeout(&self) -> (timeout: Option<u64>)
        ensures
            timeout == self.spec_write_timeout(),
    {
        self.write_timeout
    }
}

} // verus!
