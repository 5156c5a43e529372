//! What holds of the two ends of a link together.

use crate::receiver::{spec_action, spec_handle, ReceiverView};
use crate::sender::state::{spec_verdict, Verdict};
use crate::sender::{spec_step, Action, Phase, SenderView};
use crate::types::messaging::{in_window, spec_marshall, spec_next_seq, Packet};
use crate::types::socket::{Awaited, Transfer};
use vstd::prelude::*;

verus! {

/// The acknowledgement that a receiver writes for a packet is the one that
/// the sender of that packet waits for, whenever it arrives within a wait
/// that has time to run.
pub proof fn lemma_ack_is_accepted(pkt: Packet, buffer: [u8; 2], timeout: u64, elapsed: u64)
    requires
        timeout > 0,
        buffer@ == spec_marshall(Packet { seq: pkt.seq, data: 0 }),
    ensures
        spec_verdict(pkt.seq, timeout, Awaited::Read { buffer, read: Transfer::Moved(2), elapsed })
            == Verdict::Delivered,
{
}

/// One exchange over a transport that works. The sender writes its packet;
/// the receiver, which expects that packet or has already delivered it and
/// lost the acknowledgement, reads it and writes the acknowledgement; the
/// sender reads that.
///
/// Afterwards both ends stand at the next sequence number. The receiver has
/// entered the packet in its log and handed it to the application if and
/// only if it had not delivered it before.
pub proof fn lemma_exchange_delivers_once(
    s: SenderView,
    r: ReceiverView,
    data: u8,
    timeout: u64,
    data_bytes: [u8; 2],
    ack_bytes: [u8; 2],
    elapsed: u64,
)
    requires
        s.phase == (Phase::Writing { data, timeout }),
        timeout > 0,
        r.pending is None,
        in_window(s.seq, r.seq),
        data_bytes@ == spec_marshall(Packet { seq: s.seq, data }),
        ack_bytes@ == spec_marshall(Packet { seq: s.seq, data: 0 }),
    ensures
        ({
            let pkt = Packet { seq: s.seq, data };
            let moved = Transfer::Moved(2);
            let (s1, asked1) = spec_step(s, crate::sender::Event::Written(moved));
            let read = spec_handle(r, crate::receiver::Event::Read { buffer: data_bytes, read: moved });
            let r1 = read->Some_0.0;
            let written = spec_handle(r1, crate::receiver::Event::Written(moved));
            let (r2, handed) = written->Some_0;
            let (s2, asked2) = spec_step(
                s1,
                crate::sender::Event::Awaited(
                    Awaited::Read { buffer: ack_bytes, read: moved, elapsed },
                ),
            );
            &&& asked1 == Action::Await(timeout)
            &&& read is Some
            &&& spec_action(r1) == crate::receiver::Action::Write(Packet { seq: s.seq, data: 0 })
            &&& written is Some
            &&& asked2 == Action::Done
            &&& s2.seq == spec_next_seq(s.seq)
            &&& s2.sent == seq![s.seq].add(s.sent)
            &&& r2.seq == spec_next_seq(s.seq)
            &&& r2.pending is None
            &&& in_window(s2.seq, r2.seq)
            &&& r.seq == s.seq ==> handed == Some(pkt) && r2.delivered == seq![s.seq].add(
                r.delivered,
            )
            &&& r.seq != s.seq ==> handed.is_none() && r2.delivered == r.delivered
        }),
{
}

/// When the acknowledgement is lost, the sender's wait runs out and it
/// writes the same packet again, under the same sequence number; the
/// receiver, which has delivered it, still has it in its window.
pub proof fn lemma_lost_ack_is_repaired(
    s: SenderView,
    r: ReceiverView,
    data: u8,
    timeout: u64,
    data_bytes: [u8; 2],
    silence: [u8; 2],
)
    requires
        s.phase == (Phase::Writing { data, timeout }),
        timeout > 0,
        r.pending is None,
        r.seq == s.seq,
        data_bytes@ == spec_marshall(Packet { seq: s.seq, data }),
    ensures
        ({
            let moved = Transfer::Moved(2);
            let (s1, _) = spec_step(s, crate::sender::Event::Written(moved));
            let r1 = spec_handle(
                r,
                crate::receiver::Event::Read { buffer: data_bytes, read: moved },
            )->Some_0.0;
            let r2 = spec_handle(r1, crate::receiver::Event::Written(moved))->Some_0.0;
            let (s2, asked) = spec_step(
                s1,
                crate::sender::Event::Awaited(
                    Awaited::Read { buffer: silence, read: Transfer::TimedOut, elapsed: timeout },
                ),
            );
            &&& asked == Action::Write(Packet { seq: s.seq, data })
            &&& s2.seq == s.seq
            &&& s2.phase is Writing
            &&& r2.pending is None
            &&& in_window(s2.seq, r2.seq)
            &&& r2.delivered == seq![s.seq].add(r.delivered)
        }),
{
}

} // verus!
