//! The sending end of the link: one payload at a time is taken from
//! connection to acknowledgement, with retransmission on timeout and
//! reconnection when the session breaks.
//!
//! The sender never touches the transport. It says what the transport is to
//! do next, an [`Action`], and is told what that came to, an [`Event`].

pub mod lifecycle;
pub mod state;
pub mod state0;

use self::state::{reconnect, spec_verdict, Pending, Ready, Settled, Verdict};
use crate::types::list::List;
use crate::types::messaging::{
    lemma_run_extends, log_is_run, next_seq, spec_next_seq, Packet, BYTES_PER_PACKET,
};
use crate::types::socket::{spec_sent, Awaited, Transfer};
use crate::types::MyResult;
use vstd::prelude::*;

verus! {

/// The first wait for an acknowledgement, in milliseconds. Each further
/// attempt on the same session waits twice as long as the one before.
pub const ACK_TIMEOUT: u64 = 1000;

/// The pause after the first failed attempt to connect, in milliseconds.
/// Each further failure doubles it.
pub const INITIAL_WAIT_TIME_RECONNECT: u64 = 10000;

/// Where the sending of one payload stands: which answer from the transport
/// the sender waits for.
#[derive(Clone, Copy, PartialEq, Eq, Structural, Debug)]
pub enum Phase {
    /// No payload is being sent.
    Idle,
    /// An attempt to connect was asked for; if it fails, a pause of `wait`
    /// milliseconds follows.
    Connecting { data: u8, wait: u64 },
    /// A pause of `wait` milliseconds was asked for; the next pause, if one
    /// is needed, is twice as long.
    Sleeping { data: u8, wait: u64 },
    /// The write of the data packet was asked for; its acknowledgement will
    /// be awaited for `timeout` milliseconds.
    Writing { data: u8, timeout: u64 },
    /// A wait for the acknowledgement was asked for, `remaining`
    /// milliseconds long, as the rest of an attempt of `timeout`.
    Waiting { data: u8, timeout: u64, remaining: u64 },
}

/// What the transport is to do next.
#[derive(Clone, Copy, PartialEq, Eq, Structural, Debug)]
pub enum Action {
    /// Nothing: the payload was delivered.
    Done,
    /// Connect to the remote address.
    Connect,
    /// Pause for this many milliseconds.
    Sleep(u64),
    /// Write this packet.
    Write(Packet),
    /// Set the read deadline to this many milliseconds and read one packet.
    Await(u64),
}

/// What the action asked for came to.
#[derive(Clone, Copy, Debug)]
pub enum Event {
    /// The attempt to connect succeeded, or did not.
    Connected(bool),
    /// The pause is over.
    Slept,
    /// The write came to this.
    Written(Transfer),
    /// The wait came to this.
    Awaited(Awaited),
}

/// The session of a sender, by its state.
enum Link {
    Disconnected,
    Ready(Ready),
    Pending(Pending),
}

/// One link's sender.
pub struct Sender {
    remote_addr: String,
    seq: u8,
    sent: List<u8>,
    link: Link,
    phase: Phase,
}

/// What a sender is, for its callers.
pub struct SenderView {
    /// The remote address.
    pub addr: Seq<char>,
    /// The sequence number of the packet in flight, or of the next one.
    pub seq: u8,
    /// The acknowledged sequence numbers, newest first.
    pub sent: Seq<u8>,
    /// Whether the sender holds a session.
    pub connected: bool,
    /// Where the sending of the current payload stands.
    pub phase: Phase,
}

/// Twice `t`, or the largest number of milliseconds that can be held if
/// that is less.
pub open spec fn spec_double(t: u64) -> u64 {
    if 2 * t <= u64::MAX {
        (2 * t) as u64
    } else {
        u64::MAX
    }
}

/// Twice `t`, or the largest number of milliseconds that can be held if
/// that is less.
pub fn double(t: u64) -> (twice: u64)
    ensures
        twice == spec_double(t),
{
    if t > u64::MAX / 2 {
        u64::MAX
    } else {
        t * 2
    }
}

/// Whether `event` answers what a sender in `phase` asked for.
pub open spec fn expects(phase: Phase, event: Event) -> bool {
    match phase {
        Phase::Idle => false,
        Phase::Connecting { .. } => event is Connected,
        Phase::Sleeping { .. } => event is Slept,
        Phase::Writing { .. } => event is Written,
        Phase::Waiting { .. } => event is Awaited,
    }
}

/// The sender that begins to connect for the payload `data`, as it does
/// first and again whenever its session broke: the pause after a failure
/// starts over at its initial length.
pub open spec fn spec_recover(v: SenderView, data: u8) -> (SenderView, Action) {
    (
        SenderView {
            connected: false,
            phase: Phase::Connecting { data, wait: INITIAL_WAIT_TIME_RECONNECT },
            ..v
        },
        Action::Connect,
    )
}

/// The sender that writes the packet for `data`, to await its
/// acknowledgement for `timeout` milliseconds.
pub open spec fn spec_transmit(v: SenderView, data: u8, timeout: u64) -> (SenderView, Action) {
    (
        SenderView { connected: true, phase: Phase::Writing { data, timeout }, ..v },
        Action::Write(Packet { seq: v.seq, data }),
    )
}

/// What a sender does with the payload `data`: it writes the packet at
/// once if it holds a session, and connects first if it does not.
pub open spec fn spec_send(v: SenderView, data: u8) -> (SenderView, Action) {
    if v.connected {
        spec_transmit(v, data, ACK_TIMEOUT)
    } else {
        spec_recover(v, data)
    }
}

/// What a sender does when told what its last action came to.
///
/// Connected, it writes the packet, with the first timeout. Not connected,
/// it pauses, and then tries again with the pause doubled. A packet
/// written is awaited; one that did not go out breaks the session. The
/// acknowledgement ends the sending: the sequence number is logged and
/// advances by one modulo 256. A timeout has the same packet written again,
/// under the same sequence number, with the timeout doubled. A stale
/// packet has the wait go on for the time left. A broken session has the
/// sender connect anew and then send the same packet, under the same
/// sequence number, with the first timeout.
pub open spec fn spec_step(v: SenderView, event: Event) -> (SenderView, Action) {
    match (v.phase, event) {
        (Phase::Connecting { data, wait }, Event::Connected(established)) => if established {
            spec_transmit(v, data, ACK_TIMEOUT)
        } else {
            (SenderView { phase: Phase::Sleeping { data, wait }, ..v }, Action::Sleep(wait))
        },
        (Phase::Sleeping { data, wait }, Event::Slept) => (
            SenderView { phase: Phase::Connecting { data, wait: spec_double(wait) }, ..v },
            Action::Connect,
        ),
        (Phase::Writing { data, timeout }, Event::Written(written)) => if spec_sent(
            BYTES_PER_PACKET as nat,
            written,
        ) is Value {
            (
                SenderView { phase: Phase::Waiting { data, timeout, remaining: timeout }, ..v },
                Action::Await(timeout),
            )
        } else {
            spec_recover(v, data)
        },
        (Phase::Waiting { data, timeout, remaining }, Event::Awaited(awaited)) => match spec_verdict(
            v.seq,
            remaining,
            awaited,
        ) {
            Verdict::Delivered => (
                SenderView {
                    seq: spec_next_seq(v.seq),
                    sent: seq![v.seq].add(v.sent),
                    phase: Phase::Idle,
                    ..v
                },
                Action::Done,
            ),
            Verdict::TimedOut => spec_transmit(v, data, spec_double(timeout)),
            Verdict::StillPending { remaining: rest } => (
                SenderView { phase: Phase::Waiting { data, timeout, remaining: rest }, ..v },
                Action::Await(rest),
            ),
            Verdict::NoDeadline => spec_recover(v, data),
            Verdict::Broken => spec_recover(v, data),
        },
        _ => (v, Action::Done),
    }
}

/// A sender for the link to `remote_addr`: not connected, at sequence
/// number zero, with nothing acknowledged and nothing to send.
pub fn init(remote_addr: String) -> (sender: Sender)
    ensures
        sender.wf(),
        sender@ == (SenderView {
            addr: remote_addr@,
            seq: 0,
            sent: Seq::<u8>::empty(),
            connected: false,
            phase: Phase::Idle,
        }),
{
    Sender { remote_addr, seq: 0, sent: List::new(), link: Link::Disconnected, phase: Phase::Idle }
}

impl View for Sender {
    type V = SenderView;

    closed spec fn view(&self) -> SenderView {
        SenderView {
            addr: self.remote_addr@,
            seq: self.seq,
            sent: self.sent@,
            connected: !(self.link is Disconnected),
            phase: self.phase,
        }
    }
}

impl Sender {
    /// The session fits the phase and carries the sender's sequence number,
    /// every wait has time to run, and the log is the run of sequence
    /// numbers just below the current one.
    pub closed spec fn wf(&self) -> bool {
        &&& log_is_run(self.sent@, self.seq)
        &&& match self.link {
            Link::Disconnected => true,
            Link::Ready(ready) => ready.seq() == self.seq,
            Link::Pending(pending) => pending.seq() == self.seq,
        }
        &&& match self.phase {
            Phase::Idle => !(self.link is Pending),
            Phase::Connecting { .. } => self.link is Disconnected,
            Phase::Sleeping { .. } => self.link is Disconnected,
            Phase::Writing { timeout, .. } => self.link is Ready && timeout > 0,
            Phase::Waiting { data, timeout, remaining } => {
                &&& self.link matches Link::Pending(pending)
                &&& pending.data() == data
                &&& 0 < remaining <= timeout
            },
        }
    }

    /// What `wf` lets callers know: the log is a run below the sequence
    /// number, a sender that is connecting or pausing holds no session, one
    /// that is writing or waiting holds one, and a wait has time left.
    pub proof fn lemma_wf(&self)
        requires
            self.wf(),
        ensures
            log_is_run(self@.sent, self@.seq),
            self@.phase is Connecting || self@.phase is Sleeping ==> !self@.connected,
            self@.phase is Writing || self@.phase is Waiting ==> self@.connected,
            self@.phase matches Phase::Waiting { timeout, remaining, .. } ==> 0 < remaining
                <= timeout,
            self@.phase matches Phase::Writing { timeout, .. } ==> 0 < timeout,
    {
    }

    /// Whether the sender holds a session.
    pub fn is_connected(&self) -> (connected: bool)
        ensures
            connected == self@.connected,
    {
        match self.link {
            Link::Disconnected => false,
            _ => true,
        }
    }

    /// Where the sending of the current payload stands.
    pub fn phase(&self) -> (phase: Phase)
        ensures
            phase == self@.phase,
    {
        self.phase
    }

    pub fn current_seq(&self) -> (seq: u8)
        ensures
            seq == self@.seq,
    {
        self.seq
    }

    /// The acknowledged sequence numbers, newest first.
    pub fn sent_log(&self) -> (log: &List<u8>)
        ensures
            log@ == self@.sent,
    {
        &self.sent
    }

    /// The remote address.
    pub fn remote_addr(&self) -> (addr: &String)
        ensures
            addr@ == self@.addr,
    {
        &self.remote_addr
    }

    /// Begins to connect for the payload `data`, with the pause after a
    /// failure at its initial length. A session that the sender still holds
    /// is dropped.
    fn connect(self, data: u8) -> (next: (Sender, Action))
        requires
            log_is_run(self.sent@, self.seq),
        ensures
            next.0.wf(),
            (next.0@, next.1) == spec_recover(self@, data),
    {
        let Sender { remote_addr, seq, sent, link, phase } = self;
        (
            Sender {
                remote_addr,
                seq,
                sent,
                link: Link::Disconnected,
                phase: Phase::Connecting { data, wait: INITIAL_WAIT_TIME_RECONNECT },
            },
            Action::Connect,
        )
    }

    /// Recovers from a broken session by connecting anew. The sequence
    /// number and the log are kept.
    fn recover(self, data: u8) -> (next: (Sender, Action))
        requires
            log_is_run(self.sent@, self.seq),
        ensures
            next.0.wf(),
            (next.0@, next.1) == spec_recover(self@, data),
    {
        self.connect(data)
    }

    /// Begins the sending of `data`: connects first if there is no session.
    fn connect_if_required(self, data: u8) -> (next: (Sender, Action))
        requires
            self.wf(),
            self@.phase is Idle,
        ensures
            next.0.wf(),
            (next.0@, next.1) == spec_send(self@, data),
    {
        match self.is_connected() {
            true => {
                let Sender { remote_addr, seq, sent, link, phase } = self;
                match link {
                    Link::Ready(ready) => {
                        let pkt = ready.packet(data);
                        (
                            Sender {
                                remote_addr,
                                seq,
                                sent,
                                link: Link::Ready(ready),
                                phase: Phase::Writing { data, timeout: ACK_TIMEOUT },
                            },
                            Action::Write(pkt),
                        )
                    },
                    _ => unreached(),
                }
            },
            false => self.connect(data),
        }
    }

    /// Takes a payload to send and says what the transport is to do first.
    /// The payload is not zero: zero marks an acknowledgement.
    pub fn send(self, data: u8) -> (next: (Sender, Action))
        requires
            self.wf(),
            self@.phase is Idle,
            data != 0,
        ensures
            next.0.wf(),
            (next.0@, next.1) == spec_send(self@, data),
            !(next.0@.phase is Idle),
    {
        self.connect_if_required(data)
    }

    /// Takes what an attempt to connect came to.
    fn try_connect(self, data: u8, wait: u64, established: bool) -> (next: (Sender, Action))
        requires
            self.wf(),
            self@.phase == (Phase::Connecting { data, wait }),
        ensures
            next.0.wf(),
            (next.0@, next.1) == spec_step(self@, Event::Connected(established)),
    {
        let Sender { remote_addr, seq, sent, link, phase } = self;
        match reconnect(seq, established) {
            MyResult::Value(ready) => {
                let pkt = ready.packet(data);
                (
                    Sender {
                        remote_addr,
                        seq,
                        sent,
                        link: Link::Ready(ready),
                        phase: Phase::Writing { data, timeout: ACK_TIMEOUT },
                    },
                    Action::Write(pkt),
                )
            },
            MyResult::Error(_) => (
                Sender {
                    remote_addr,
                    seq,
                    sent,
                    link: Link::Disconnected,
                    phase: Phase::Sleeping { data, wait },
                },
                Action::Sleep(wait),
            ),
        }
    }

    /// Takes what the write of the data packet and, after it, each wait for
    /// its acknowledgement came to.
    fn send_data(self, event: Event) -> (next: (Sender, Action))
        requires
            self.wf(),
            self@.phase is Writing || self@.phase is Waiting,
            expects(self@.phase, event),
        ensures
            next.0.wf(),
            (next.0@, next.1) == spec_step(self@, event),
    {
        let Sender { remote_addr, seq, sent, link, phase } = self;
        match (phase, event, link) {
            (Phase::Writing { data, timeout }, Event::Written(written), Link::Ready(ready)) => {
                match ready.send(data, written) {
                    MyResult::Value(pending) => (
                        Sender {
                            remote_addr,
                            seq,
                            sent,
                            link: Link::Pending(pending),
                            phase: Phase::Waiting { data, timeout, remaining: timeout },
                        },
                        Action::Await(timeout),
                    ),
                    MyResult::Error(_) => {
                        let crashed = Sender {
                            remote_addr,
                            seq,
                            sent,
                            link: Link::Disconnected,
                            phase,
                        };
                        crashed.recover(data)
                    },
                }
            },
            (
                Phase::Waiting { data, timeout, remaining },
                Event::Awaited(awaited),
                Link::Pending(pending),
            ) => {
                match pending.wait_deliver(remaining, awaited) {
                    MyResult::Value(Settled::Delivered(ready)) => {
                        let mut sent = sent;
                        proof {
                            lemma_run_extends(sent@, seq);
                        }
                        sent.push(seq);
                        (
                            Sender {
                                remote_addr,
                                seq: next_seq(seq),
                                sent,
                                link: Link::Ready(ready),
                                phase: Phase::Idle,
                            },
                            Action::Done,
                        )
                    },
                    MyResult::Value(Settled::TimedOut(ready)) => {
                        let pkt = ready.packet(data);
                        (
                            Sender {
                                remote_addr,
                                seq,
                                sent,
                                link: Link::Ready(ready),
                                phase: Phase::Writing { data, timeout: double(timeout) },
                            },
                            Action::Write(pkt),
                        )
                    },
                    MyResult::Value(Settled::StillPending(pending, rest)) => (
                        Sender {
                            remote_addr,
                            seq,
                            sent,
                            link: Link::Pending(pending),
                            phase: Phase::Waiting { data, timeout, remaining: rest },
                        },
                        Action::Await(rest),
                    ),
                    MyResult::Error(_) => {
                        let crashed = Sender {
                            remote_addr,
                            seq,
                            sent,
                            link: Link::Disconnected,
                            phase,
                        };
                        crashed.recover(data)
                    },
                }
            },
            _ => unreached(),
        }
    }

    /// Takes what the last action came to and says what the transport is to
    /// do next. `Action::Done` ends the sending of the payload.
    pub fn step(self, event: Event) -> (next: (Sender, Action))
        requires
            self.wf(),
            expects(self@.phase, event),
        ensures
            next.0.wf(),
            (next.0@, next.1) == spec_step(self@, event),
    {
        match (self.phase, event) {
            (Phase::Connecting { data, wait }, Event::Connected(established)) => self.try_connect(
                data,
                wait,
                established,
            ),
            (Phase::Sleeping { data, wait }, Event::Slept) => {
                let Sender { remote_addr, seq, sent, link, phase } = self;
                (
                    Sender {
                        remote_addr,
                        seq,
                        sent,
                        link: Link::Disconnected,
                        phase: Phase::Connecting { data, wait: double(wait) },
                    },
                    Action::Connect,
                )
            },
            _ => self.send_data(event),
        }
    }
}

/// The sequence number of a sender changes only when a payload is
/// delivered, and then by one modulo 256; and whenever a packet is written,
/// it carries the sequence number that the sender has.
pub proof fn lemma_step_seq(v: SenderView, event: Event)
    requires
        expects(v.phase, event),
    ensures
        ({
            let (after, action) = spec_step(v, event);
            &&& action is Done ==> after.seq == spec_next_seq(v.seq) && after.sent == seq![
                v.seq,
            ].add(v.sent) && after.phase is Idle
            &&& !(action is Done) ==> after.seq == v.seq && after.sent == v.sent && !(after.phase is Idle)
            &&& action matches Action::Write(pkt) ==> pkt.seq == v.seq && pkt.seq == after.seq
        }),
{
}

} // verus!
