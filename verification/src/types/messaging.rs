//! The packet and its two-byte wire form.

use vstd::prelude::*;

verus! {

/// The number of bytes one packet takes on the wire.
pub const BYTES_PER_PACKET: usize = 2;

/// The largest sequence number; the one after it is zero.
pub const MAX_SEQ: u8 = 255;

/// One packet: a sequence number and a payload byte. A payload of zero marks
/// an acknowledgement.
#[derive(Clone, Copy, PartialEq, Eq, Structural, Debug)]
pub struct Packet {
    pub seq: u8,
    pub data: u8,
}

/// The sequence number after `seq`, modulo 256.
pub open spec fn spec_next_seq(seq: u8) -> u8 {
    ((seq + 1) % 256) as u8
}

/// The sequence number before `seq`, modulo 256.
pub open spec fn spec_previous_seq(seq: u8) -> u8 {
    ((seq + 255) % 256) as u8
}

/// The two bytes that stand for `p` on the wire.
pub open spec fn spec_marshall(p: Packet) -> Seq<u8> {
    seq![p.seq, p.data]
}

/// The packet that two bytes stand for.
pub open spec fn spec_unmarshall(bytes: Seq<u8>) -> Packet
    recommends
        bytes.len() == 2,
{
    Packet { seq: bytes[0], data: bytes[1] }
}

/// The sequence number after `seq`; after 255 comes 0.
pub fn next_seq(seq: u8) -> (next: u8)
    ensures
        next == spec_next_seq(seq),
        seq < MAX_SEQ ==> next == seq + 1,
        seq == MAX_SEQ ==> next == 0,
{
    if seq == MAX_SEQ {
        0
    } else {
        seq + 1
    }
}

/// The sequence number before `seq`; before 0 comes 255.
pub fn previous_seq(seq: u8) -> (previous: u8)
    ensures
        previous == spec_previous_seq(seq),
        seq > 0 ==> previous == seq - 1,
        seq == 0 ==> previous == MAX_SEQ,
{
    if seq == 0 {
        MAX_SEQ
    } else {
        seq - 1
    }
}

/// The character for the digit `d`.
pub open spec fn spec_digit(d: nat) -> char
    recommends
        d < 10,
{
    if d == 0 {
        '0'
    } else if d == 1 {
        '1'
    } else if d == 2 {
        '2'
    } else if d == 3 {
        '3'
    } else if d == 4 {
        '4'
    } else if d == 5 {
        '5'
    } else if d == 6 {
        '6'
    } else if d == 7 {
        '7'
    } else if d == 8 {
        '8'
    } else {
        '9'
    }
}

/// `n` written in decimal, without leading zeros.
pub open spec fn spec_decimal(n: nat) -> Seq<char>
    decreases n,
{
    if n < 10 {
        seq![spec_digit(n)]
    } else {
        spec_decimal(n / 10).push(spec_digit(n % 10))
    }
}

/// `p` written as `(seq:data)`, both in decimal.
pub open spec fn spec_to_string(p: Packet) -> Seq<char> {
    seq!['('].add(spec_decimal(p.seq as nat)).add(seq![':']).add(spec_decimal(p.data as nat)).add(
        seq![')'],
    )
}

fn digit_str(d: u8) -> (s: &'static str)
    requires
        d < 10,
    ensures
        s@ == seq![spec_digit(d as nat)],
{
    proof {
        reveal_strlit("0");
        reveal_strlit("1");
        reveal_strlit("2");
        reveal_strlit("3");
        reveal_strlit("4");
        reveal_strlit("5");
        reveal_strlit("6");
        reveal_strlit("7");
        reveal_strlit("8");
        reveal_strlit("9");
    }
    let s = match d {
        0 => "0",
        1 => "1",
        2 => "2",
        3 => "3",
        4 => "4",
        5 => "5",
        6 => "6",
        7 => "7",
        8 => "8",
        _ => "9",
    };
    assert(s@ =~= seq![spec_digit(d as nat)]);
    s
}

/// `n` written in decimal, without leading zeros.
pub fn decimal(n: u8) -> (s: String)
    ensures
        s@ == spec_decimal(n as nat),
{
    let mut s = String::from_str("");
    proof {
        reveal_strlit("");
        reveal_with_fuel(spec_decimal, 3);
    }
    if n >= 100 {
        s.append(digit_str(n / 100));
    }
    if n >= 10 {
        s.append(digit_str((n / 10) % 10));
    }
    s.append(digit_str(n % 10));
    assert(s@ =~= spec_decimal(n as nat));
    s
}

/// The acknowledgement that carries `seq`.
pub fn ack_with_seq(seq: u8) -> (ack: Packet)
    ensures
        ack == (Packet { seq, data: 0 }),
{
    Packet { seq, data: 0 }
}

impl Packet {
    /// Whether this packet is an acknowledgement: its payload is zero.
    pub open spec fn spec_is_ack(&self) -> bool {
        self.data == 0
    }

    /// Whether this packet is an acknowledgement: its payload is zero.
    #[verifier::when_used_as_spec(spec_is_ack)]
    pub fn is_ack(&self) -> (is: bool)
        ensures
            is == self.spec_is_ack(),
    {
        self.data == 0
    }

    pub fn new(seq: u8, data: u8) -> (pkt: Self)
        ensures
            pkt == (Packet { seq, data }),
    {
        Packet { seq, data }
    }

    /// The acknowledgement of this packet: the same sequence number, no payload.
    pub fn to_ack(&self) -> (ack: Packet)
        ensures
            ack == (Packet { seq: self.seq, data: 0 }),
            ack.is_ack(),
    {
        Packet { seq: self.seq, data: 0 }
    }

    /// Whether this packet acknowledges `pkt`.
    pub fn is_ack_of(&self, pkt: &Packet) -> (acks: bool)
        ensures
            acks == (self.is_ack() && self.seq == pkt.seq),
    {
        self.data == 0 && self.seq == pkt.seq
    }

    /// The wire form: the sequence number, then the payload.
    pub fn marshall(&self) -> (bytes: [u8; 2])
        ensures
            bytes@ == spec_marshall(*self),
    {
        [self.seq, self.data]
    }

    /// The packet that two bytes from the wire stand for. Any two bytes decode.
    pub fn unmarshall(data: [u8; 2]) -> (pkt: Self)
        ensures
            pkt == spec_unmarshall(data@),
    {
        Packet { seq: data[0], data: data[1] }
    }

    /// The packet as `(seq:data)`, both numbers in decimal.
    pub fn to_string(&self) -> (s: String)
        ensures
            s@ == spec_to_string(*self),
    {
        proof {
            reveal_strlit("(");
            reveal_strlit(":");
            reveal_strlit(")");
        }
        let mut res = String::from_str("(");
        let r2 = decimal(self.seq);
        let r4 = decimal(self.data);
        res.append(r2.as_str());
        res.append(":");
        res.append(r4.as_str());
        res.append(")");
        assert(res@ =~= spec_to_string(*self));
        res
    }

    /// The packet as `Packet(seq:data)`.
    pub fn to_string_verbose(&self) -> (s: String)
        ensures
            s@ == "Packet"@.add(spec_to_string(*self)),
    {
        let mut res = String::from_str("Packet");
        let plain = self.to_string();
        res.append(plain.as_str());
        res
    }

    pub fn seq(&self) -> (seq: u8)
        ensures
            seq == self.seq,
    {
        self.seq
    }

    pub fn data(&self) -> (data: u8)
        ensures
            data == self.data,
    {
        self.data
    }
}

/// Decoding what was encoded gives the packet back, for every packet.
pub proof fn lemma_codec_round_trip(p: Packet)
    ensures
        spec_marshall(p).len() == BYTES_PER_PACKET,
        spec_unmarshall(spec_marshall(p)) == p,
{
}

/// Encoding what was decoded gives the two bytes back, for every two bytes.
pub proof fn lemma_codec_round_trip_bytes(bytes: Seq<u8>)
    requires
        bytes.len() == BYTES_PER_PACKET,
    ensures
        spec_marshall(spec_unmarshall(bytes)) == bytes,
{
    assert(spec_marshall(spec_unmarshall(bytes)) =~= bytes);
}

/// Whether a packet with sequence number `pkt_seq` is in the receive window
/// at `seq`: it is the one expected next, or the one delivered last.
pub open spec fn in_window(pkt_seq: u8, seq: u8) -> bool {
    pkt_seq == seq || pkt_seq == spec_previous_seq(seq)
}

/// Whether `log` is the run of consecutive sequence numbers that ends just
/// below `seq`, newest first: `seq - 1`, `seq - 2`, and so on, modulo 256.
/// The log of a machine that started empty and advances by one on each entry
/// is such a run.
pub open spec fn log_is_run(log: Seq<u8>, seq: u8) -> bool {
    forall|i: int| 0 <= i < log.len() ==> (#[trigger] log[i]) as int == (seq as int - 1 - i) % 256
}

/// A run stays a run when the next sequence number is put in front and the
/// machine advances.
pub proof fn lemma_run_extends(log: Seq<u8>, seq: u8)
    requires
        log_is_run(log, seq),
    ensures
        log_is_run(seq![seq].add(log), spec_next_seq(seq)),
{
    let next = spec_next_seq(seq);
    let longer = seq![seq].add(log);
    assert forall|i: int| 0 <= i < longer.len() implies (#[trigger] longer[i]) as int == (next as int
        - 1 - i) % 256 by {
        if i == 0 {
        } else {
            assert(longer[i] == log[i - 1]);
            assert(log[i - 1] as int == (seq as int - 1 - (i - 1)) % 256);
            if seq == 255 {
                assert((0 - 1 - i) % 256 == (255 - i) % 256) by (nonlinear_arith);
            }
        }
    }
}

/// A run of at most 256 entries holds each sequence number at most once.
pub proof fn lemma_run_has_no_duplicates(log: Seq<u8>, seq: u8)
    requires
        log_is_run(log, seq),
        log.len() <= 256,
    ensures
        log.no_duplicates(),
{
    assert forall|i: int, j: int| 0 <= i < log.len() && 0 <= j < log.len() && i != j implies log[i]
        != log[j] by {
        let a = seq as int - 1 - i;
        let b = seq as int - 1 - j;
        if log[i] == log[j] {
            assert(a % 256 == b % 256);
            assert(a == b) by (nonlinear_arith)
                requires
                    a % 256 == b % 256,
                    -256 < a - b < 256,
            {
            }
        }
    }
}

/// Stepping forward and then back, or back and then forward, returns to the
/// same sequence number, also across the wrap.
pub proof fn lemma_seq_steps_cancel(seq: u8)
    ensures
        spec_previous_seq(spec_next_seq(seq)) == seq,
        spec_next_seq(spec_previous_seq(seq)) == seq,
        spec_next_seq(seq) != seq,
        spec_previous_seq(seq) != seq,
{
}

} // verus!
