use perfect_link::messaging::Message;
use perfect_link::types::messaging::{
    ack_with_seq, decimal, next_seq, previous_seq, Packet, BYTES_PER_PACKET, MAX_SEQ,
};

#[test]
fn marshall_is_seq_then_data() {
    assert_eq!(Packet::new(7, 100).marshall(), [7, 100]);
    assert_eq!(Packet::new(0, 0).marshall(), [0, 0]);
    assert_eq!(Packet::new(255, 255).marshall(), [255, 255]);
    assert_eq!(Packet::new(1, 2).marshall().len(), BYTES_PER_PACKET);
}

#[test]
fn unmarshall_reads_seq_then_data() {
    assert_eq!(Packet::unmarshall([7, 100]), Packet { seq: 7, data: 100 });
    assert_eq!(Packet::unmarshall([100, 7]), Packet { seq: 100, data: 7 });
}

#[test]
fn codec_round_trips_for_every_packet() {
    for seq in 0..=255u8 {
        for data in 0..=255u8 {
            let p = Packet::new(seq, data);
            assert_eq!(Packet::unmarshall(p.marshall()), p);
            assert_eq!(Packet::unmarshall([seq, data]).marshall(), [seq, data]);
        }
    }
}

#[test]
fn an_acknowledgement_carries_the_same_seq_and_no_payload() {
    let p = Packet::new(5, 99);
    assert_eq!(p.to_ack(), Packet { seq: 5, data: 0 });
    assert_eq!(ack_with_seq(5), Packet { seq: 5, data: 0 });
    assert!(p.to_ack().is_ack_of(&p));
    assert!(!p.is_ack_of(&p));
    assert!(!Packet::new(6, 0).is_ack_of(&p));
    assert_eq!(p.seq(), 5);
    assert_eq!(p.data(), 99);
    assert!(p.to_ack().is_ack());
    assert!(!p.is_ack());
    assert!(Packet::new(0, 0).is_ack());
    assert!(!Packet::new(0, 1).is_ack());
}

#[test]
fn sequence_numbers_wrap_at_256() {
    assert_eq!(next_seq(0), 1);
    assert_eq!(next_seq(254), 255);
    assert_eq!(next_seq(255), 0);
    assert_eq!(previous_seq(0), 255);
    assert_eq!(previous_seq(1), 0);
    assert_eq!(previous_seq(255), 254);
    assert_eq!(MAX_SEQ, 255);
    for s in 0..=255u8 {
        assert_eq!(previous_seq(next_seq(s)), s);
        assert_eq!(next_seq(previous_seq(s)), s);
        assert_eq!(next_seq(s), s.wrapping_add(1));
    }
}

#[test]
fn decimal_matches_the_usual_rendering() {
    assert_eq!(decimal(0), "0");
    assert_eq!(decimal(9), "9");
    assert_eq!(decimal(10), "10");
    assert_eq!(decimal(99), "99");
    assert_eq!(decimal(100), "100");
    assert_eq!(decimal(105), "105");
    assert_eq!(decimal(255), "255");
    for n in 0..=255u8 {
        assert_eq!(decimal(n), format!("{}", n));
    }
}

#[test]
fn packet_to_string() {
    assert_eq!(Packet::new(1, 2).to_string(), "(1:2)");
    assert_eq!(Packet::new(255, 0).to_string(), "(255:0)");
    assert_eq!(Packet::new(10, 200).to_string_verbose(), "Packet(10:200)");
}

#[test]
fn message_marshall() {
    assert_eq!(Message::Data { id: 3, data: 9 }.marshall(), vec![0, 3, 9]);
    assert_eq!(Message::Ack { id: 3 }.marshall(), vec![1, 3]);
    assert_eq!(Message::Data { id: 3, data: 9 }.id(), 3);
    assert_eq!(Message::Ack { id: 4 }.id(), 4);
}

#[test]
fn message_unmarshall() {
    assert_eq!(Message::unmarshall(&[0, 3, 9]), Some(Message::Data { id: 3, data: 9 }));
    assert_eq!(Message::unmarshall(&[1, 3]), Some(Message::Ack { id: 3 }));
    assert_eq!(Message::unmarshall(&[1, 3, 77]), Some(Message::Ack { id: 3 }));
    assert_eq!(Message::unmarshall(&[0, 3, 9, 77]), Some(Message::Data { id: 3, data: 9 }));
    assert_eq!(Message::unmarshall(&[]), None);
    assert_eq!(Message::unmarshall(&[0]), None);
    assert_eq!(Message::unmarshall(&[1]), None);
    assert_eq!(Message::unmarshall(&[0, 3]), None);
    assert_eq!(Message::unmarshall(&[2, 3, 9]), None);
    assert_eq!(Message::unmarshall(&[255, 0]), None);
}

#[test]
fn message_round_trips() {
    for id in 0..=255u8 {
        let ack = Message::Ack { id };
        assert_eq!(Message::unmarshall(&ack.marshall()), Some(ack));
        for data in [0u8, 1, 127, 255] {
            let m = Message::Data { id, data };
            assert_eq!(Message::unmarshall(&m.marshall()), Some(m));
        }
    }
}
