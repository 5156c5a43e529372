use perfect_link::receiver::state::error::ReceiverError;
use perfect_link::receiver::state::{bind, Listening, Received};
use perfect_link::receiver::state0::{new, Error, ReceiverState, State};
use perfect_link::receiver::{accept_incoming, handle_connection, serve, Action, Event, Receiver};
use perfect_link::types::list::List;
use perfect_link::types::messaging::Packet;
use perfect_link::types::socket::{Socket, SocketError, Transfer};
use perfect_link::types::MyResult;

fn to_vec(list: &List<u8>) -> Vec<u8> {
    let mut out = Vec::new();
    for i in 0..list.len() {
        out.push(*list.lookup(i));
    }
    out
}

fn session() -> Socket {
    Socket::connect(true).unwrap()
}

const OK: Transfer = Transfer::Moved(2);

/// A receiver that has delivered the packets 0 .. n.
fn receiver_at(n: usize) -> ReceiverState {
    let mut r = new(session(), 0);
    for i in 0..n {
        let seq = (i % 256) as u8;
        let pkt = r.recv([seq, 1], OK).unwrap();
        assert_eq!(r.ack(pkt, OK), MyResult::Value(()));
    }
    r
}

fn listening_at(n: usize) -> Listening {
    let ready = bind(true).unwrap();
    let mut l = ready.accept(MyResult::Value(session())).unwrap();
    for i in 0..n {
        let seq = (i % 256) as u8;
        l = match l.recv([seq, 1], OK).unwrap() {
            Received::Deliver(d) => d.deliver(OK).unwrap(),
            Received::Listening(_) => panic!("the packet is in the window"),
        };
    }
    l
}

#[test]
fn a_receiver_starts_listening_at_zero() {
    let r = new(session(), 9);
    assert_eq!(r.current_state(), State::Listen);
    assert_eq!(r.current_seq(), 0);
    assert!(r.delivered_log().is_empty());
}

#[test]
fn a_fresh_packet_is_delivered_once() {
    let mut r = new(session(), 0);
    let pkt = r.recv([0, 42], OK).unwrap();
    assert_eq!(pkt, Packet { seq: 0, data: 42 });
    assert_eq!(r.current_state(), State::Acknowledge);
    assert_eq!(r.current_seq(), 0);
    assert_eq!(r.ack(pkt, OK), MyResult::Value(()));
    assert_eq!(r.current_state(), State::Listen);
    assert_eq!(r.current_seq(), 1);
    assert_eq!(to_vec(r.delivered_log()), vec![0]);
    assert_eq!(to_vec(&r.socket().sent), vec![0]);
    assert_eq!(to_vec(&r.socket().received), vec![0]);
}

#[test]
fn duplicate_data_is_acknowledged_again_and_not_logged_again() {
    let mut r = receiver_at(5);
    assert_eq!(r.current_seq(), 5);
    let first = r.recv([5, 99], OK).unwrap();
    assert_eq!(r.ack(first, OK), MyResult::Value(()));
    assert_eq!(r.current_seq(), 6);
    assert_eq!(to_vec(r.delivered_log()), vec![5, 4, 3, 2, 1, 0]);
    let sent_before = r.socket().sent.len();
    let second = r.recv([5, 99], OK).unwrap();
    assert_eq!(second, Packet { seq: 5, data: 99 });
    assert_eq!(r.ack(second, OK), MyResult::Value(()));
    assert_eq!(r.current_seq(), 6);
    assert_eq!(to_vec(r.delivered_log()), vec![5, 4, 3, 2, 1, 0]);
    assert_eq!(r.socket().sent.len(), sent_before + 1);
    assert_eq!(*r.socket().sent.lookup(0), 5);
    assert_eq!(*r.socket().sent.lookup(1), 5);
}

#[test]
fn a_packet_outside_the_window_is_dropped() {
    let mut r = receiver_at(4);
    let log = to_vec(r.delivered_log());
    assert_eq!(r.recv([100, 5], OK), MyResult::Error(Error::OutOfOrderPacket));
    assert_eq!(r.current_state(), State::Listen);
    assert_eq!(r.current_seq(), 4);
    assert_eq!(to_vec(r.delivered_log()), log);
    assert_eq!(r.recv([5, 5], OK), MyResult::Error(Error::OutOfOrderPacket));
    assert_eq!(r.recv([2, 5], OK), MyResult::Error(Error::OutOfOrderPacket));
    assert_eq!(r.recv([3, 5], OK), MyResult::Value(Packet { seq: 3, data: 5 }));
}

#[test]
fn the_window_at_zero_holds_255() {
    let mut r = new(session(), 0);
    assert_eq!(r.recv([7, 100], OK), MyResult::Error(Error::OutOfOrderPacket));
    assert_eq!(r.recv([1, 100], OK), MyResult::Error(Error::OutOfOrderPacket));
    let pkt = r.recv([255, 100], OK).unwrap();
    assert_eq!(r.ack(pkt, OK), MyResult::Value(()));
    assert_eq!(r.current_seq(), 0);
    assert!(r.delivered_log().is_empty());
}

#[test]
fn the_sequence_number_wraps() {
    let mut r = receiver_at(255);
    assert_eq!(r.current_seq(), 255);
    let pkt = r.recv([255, 9], OK).unwrap();
    assert_eq!(r.ack(pkt, OK), MyResult::Value(()));
    assert_eq!(r.current_seq(), 0);
    assert_eq!(*r.delivered_log().lookup(0), 255);
    let pkt = r.recv([0, 11], OK).unwrap();
    assert_eq!(r.ack(pkt, OK), MyResult::Value(()));
    assert_eq!(r.current_seq(), 1);
    assert_eq!(*r.delivered_log().lookup(0), 0);
    assert_eq!(*r.delivered_log().lookup(1), 255);
    let len = r.delivered_log().len();
    assert_eq!(len, 257);
    let pkt = r.recv([0, 11], OK).unwrap();
    assert_eq!(r.ack(pkt, OK), MyResult::Value(()));
    assert_eq!(r.current_seq(), 1);
    assert_eq!(r.delivered_log().len(), len);
}

#[test]
fn the_log_holds_each_number_once_up_to_256_deliveries() {
    let r = receiver_at(256);
    let log = to_vec(r.delivered_log());
    assert_eq!(log.len(), 256);
    for i in 0..log.len() {
        assert_eq!(log[i], 255 - i as u8);
        for j in (i + 1)..log.len() {
            assert_ne!(log[i], log[j]);
        }
    }
    assert_eq!(r.current_seq(), 0);
}

#[test]
fn a_failed_read_crashes_the_receiver() {
    for read in [Transfer::Failed, Transfer::TimedOut, Transfer::WouldBlock, Transfer::Moved(1)] {
        let mut r = receiver_at(2);
        assert_eq!(r.recv([2, 1], read), MyResult::Error(Error::Fatal));
        assert_eq!(r.current_state(), State::Crash);
        assert_eq!(r.current_seq(), 2);
        assert_eq!(to_vec(r.delivered_log()), vec![1, 0]);
    }
}

#[test]
fn a_failed_write_crashes_the_receiver_and_recover_keeps_seq_and_log() {
    let mut r = receiver_at(2);
    let pkt = r.recv([2, 1], OK).unwrap();
    assert_eq!(r.ack(pkt, Transfer::Moved(1)), MyResult::Error(Error::Fatal));
    assert_eq!(r.current_state(), State::Crash);
    assert_eq!(r.current_seq(), 2);
    assert_eq!(to_vec(r.delivered_log()), vec![1, 0]);
    r.recover(session());
    assert_eq!(r.current_state(), State::Listen);
    assert_eq!(r.current_seq(), 2);
    assert_eq!(to_vec(r.delivered_log()), vec![1, 0]);
    assert!(r.socket().sent.is_empty());
    let pkt = r.recv([2, 1], OK).unwrap();
    assert_eq!(r.ack(pkt, OK), MyResult::Value(()));
    assert_eq!(r.current_seq(), 3);
}

#[test]
fn receiver_error_names() {
    assert_eq!(ReceiverError::SocketError.to_string(), "SocketError");
    assert_eq!(ReceiverError::RecvError.to_string(), "RecvError");
}

#[test]
fn bind_and_accept_by_type() {
    assert!(matches!(bind(false), MyResult::Error(ReceiverError::SocketError)));
    let ready = bind(true).unwrap();
    assert!(matches!(
        ready.accept(MyResult::Error(SocketError::AcceptError)),
        MyResult::Error(ReceiverError::SocketError)
    ));
    let l = ready.accept(MyResult::Value(session())).unwrap();
    assert_eq!(l.current_seq(), 0);
    assert!(l.delivered_log().is_empty());
}

#[test]
fn deliver_by_type_tells_fresh_from_repeat() {
    let l = listening_at(5);
    assert_eq!(l.current_seq(), 5);
    let d = match l.recv([5, 99], OK).unwrap() {
        Received::Deliver(d) => d,
        Received::Listening(_) => panic!("the packet is in the window"),
    };
    assert!(d.fresh());
    assert_eq!(d.packet(), Packet { seq: 5, data: 99 });
    assert_eq!(d.ack(), Packet { seq: 5, data: 0 });
    let l = d.deliver(OK).unwrap();
    assert_eq!(l.current_seq(), 6);
    assert_eq!(to_vec(l.delivered_log()), vec![5, 4, 3, 2, 1, 0]);
    let d = match l.recv([5, 99], OK).unwrap() {
        Received::Deliver(d) => d,
        Received::Listening(_) => panic!("the packet is in the window"),
    };
    assert!(!d.fresh());
    assert_eq!(d.ack(), Packet { seq: 5, data: 0 });
    let l = d.deliver(OK).unwrap();
    assert_eq!(l.current_seq(), 6);
    assert_eq!(to_vec(l.delivered_log()), vec![5, 4, 3, 2, 1, 0]);
    assert_eq!(*l.socket().sent.lookup(0), 5);
    assert_eq!(*l.socket().sent.lookup(1), 5);
}

#[test]
fn recv_by_type_drops_what_is_outside_the_window() {
    let l = listening_at(4);
    let l = match l.recv([100, 5], OK).unwrap() {
        Received::Listening(l) => l,
        Received::Deliver(_) => panic!("the packet is outside the window"),
    };
    assert_eq!(l.current_seq(), 4);
    assert_eq!(to_vec(l.delivered_log()), vec![3, 2, 1, 0]);
    assert_eq!(*l.socket().received.lookup(0), 100);
}

#[test]
fn receiver_failures_by_type() {
    let l = listening_at(1);
    assert!(matches!(l.recv([1, 1], Transfer::Failed), MyResult::Error(ReceiverError::RecvError)));
    let l = listening_at(1);
    assert!(matches!(
        l.recv([1, 1], Transfer::TimedOut),
        MyResult::Error(ReceiverError::RecvError)
    ));
    let l = listening_at(1);
    let d = match l.recv([1, 1], OK).unwrap() {
        Received::Deliver(d) => d,
        Received::Listening(_) => panic!("the packet is in the window"),
    };
    assert!(matches!(d.deliver(Transfer::Failed), MyResult::Error(ReceiverError::SocketError)));
}

fn serve_one(receiver: Receiver, pkt: Packet) -> (Receiver, Option<Packet>, Option<Packet>) {
    assert_eq!(receiver.action(), Action::Read);
    let (receiver, handed) =
        handle_connection(receiver, Event::Read { buffer: pkt.marshall(), read: OK }).unwrap();
    assert_eq!(handed, None);
    match receiver.action() {
        Action::Read => (receiver, None, None),
        Action::Write(ack) => {
            let (receiver, handed) = handle_connection(receiver, Event::Written(OK)).unwrap();
            (receiver, Some(ack), handed)
        }
    }
}

#[test]
fn serving_hands_each_payload_over_once() {
    let ready = serve(true).unwrap();
    let receiver = accept_incoming(&ready, MyResult::Value(session())).unwrap();
    let (receiver, ack, handed) = serve_one(receiver, Packet::new(0, 10));
    assert_eq!(ack, Some(Packet { seq: 0, data: 0 }));
    assert_eq!(handed, Some(Packet { seq: 0, data: 10 }));
    let (receiver, ack, handed) = serve_one(receiver, Packet::new(0, 10));
    assert_eq!(ack, Some(Packet { seq: 0, data: 0 }));
    assert_eq!(handed, None);
    let (receiver, ack, handed) = serve_one(receiver, Packet::new(9, 10));
    assert_eq!(ack, None);
    assert_eq!(handed, None);
    let (receiver, ack, handed) = serve_one(receiver, Packet::new(1, 20));
    assert_eq!(ack, Some(Packet { seq: 1, data: 0 }));
    assert_eq!(handed, Some(Packet { seq: 1, data: 20 }));
    assert_eq!(receiver.current_seq(), 2);
    assert_eq!(to_vec(receiver.delivered_log()), vec![1, 0]);
}

#[test]
fn serving_ends_on_a_broken_session() {
    assert!(matches!(serve(false), MyResult::Error(perfect_link::receiver::Error::Failure)));
    let ready = serve(true).unwrap();
    assert!(accept_incoming(&ready, MyResult::Error(SocketError::AcceptError)).is_none());
    let receiver = accept_incoming(&ready, MyResult::Value(session())).unwrap();
    assert!(matches!(
        handle_connection(receiver, Event::Read { buffer: [0, 0], read: Transfer::Failed }),
        MyResult::Error(perfect_link::receiver::Error::Failure)
    ));
    let receiver = accept_incoming(&ready, MyResult::Value(session())).unwrap();
    let (receiver, _) =
        handle_connection(receiver, Event::Read { buffer: [0, 5], read: OK }).unwrap();
    assert!(matches!(
        handle_connection(receiver, Event::Written(Transfer::Moved(1))),
        MyResult::Error(perfect_link::receiver::Error::Failure)
    ));
}

fn from_vec(newest_first: &[u8]) -> List<u8> {
    let mut list = List::new();
    for x in newest_first.iter().rev() {
        list.push(*x);
    }
    list
}

#[test]
fn a_fresh_delivery_is_the_union_of_the_old_log_and_the_packet() {
    let mut r = receiver_at(9);
    let before = from_vec(&to_vec(r.delivered_log()));
    let pkt = r.recv([9, 1], OK).unwrap();
    assert_eq!(r.ack(pkt, OK), MyResult::Value(()));
    assert!(r.delivered_log().is_union(&before, 9));
    assert_eq!(r.delivered_log().len(), before.len() + 1);
    assert_eq!(*r.delivered_log().lookup(0), 9);
    for i in 0..before.len() {
        assert_eq!(*r.delivered_log().lookup(i + 1), *before.lookup(i));
    }
    let pkt = r.recv([9, 1], OK).unwrap();
    assert_eq!(r.ack(pkt, OK), MyResult::Value(()));
    assert!(r.delivered_log().is_union(&before, 9));
    assert!(r.delivered_log().equals(&from_vec(&[9, 8, 7, 6, 5, 4, 3, 2, 1, 0])));
}
