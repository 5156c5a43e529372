use perfect_link::sender::state::{
    connect, reconnect, Connect, ErrorKind, ReadyTrait, SenderError, Settled,
};
use perfect_link::sender::state0::{new, Error, State, Waited};
use perfect_link::sender::{
    double, init, Action, Event, Phase, Sender, ACK_TIMEOUT, INITIAL_WAIT_TIME_RECONNECT,
};
use perfect_link::types::list::List;
use perfect_link::types::messaging::Packet;
use perfect_link::types::socket::{Awaited, Socket, Transfer};
use perfect_link::types::MyResult;

fn to_vec(list: &List<u8>) -> Vec<u8> {
    let mut out = Vec::new();
    for i in 0..list.len() {
        out.push(*list.lookup(i));
    }
    out
}

fn session() -> Socket {
    Socket::connect(true).unwrap()
}

const OK: Transfer = Transfer::Moved(2);

fn ack(seq: u8, elapsed: u64) -> Awaited {
    Awaited::Read { buffer: [seq, 0], read: OK, elapsed }
}

fn no_answer(elapsed: u64) -> Awaited {
    Awaited::Read { buffer: [0, 0], read: Transfer::TimedOut, elapsed }
}

#[test]
fn a_sender_starts_ready_at_zero() {
    let s = new(session(), 9);
    assert_eq!(s.current_state(), State::Ready);
    assert_eq!(s.current_seq(), 0);
    assert!(s.sent_log().is_empty());
    assert_eq!(s.packet(7), Packet { seq: 0, data: 7 });
}

#[test]
fn send_then_acknowledgement_advances_the_sequence_number() {
    let mut s = new(session(), 0);
    assert_eq!(s.send(10, OK), MyResult::Value(()));
    assert_eq!(s.current_state(), State::Pending);
    assert_eq!(s.current_seq(), 0);
    assert_eq!(to_vec(&s.socket().sent), vec![0]);
    assert_eq!(s.wait_deliver(1000, ack(0, 3)), MyResult::Value(Waited::Delivered));
    assert_eq!(s.current_state(), State::Ready);
    assert_eq!(s.current_seq(), 1);
    assert_eq!(to_vec(s.sent_log()), vec![0]);
    assert_eq!(s.packet(20), Packet { seq: 1, data: 20 });
}

#[test]
fn a_timeout_keeps_the_sequence_number() {
    let mut s = new(session(), 0);
    assert_eq!(s.send(42, OK), MyResult::Value(()));
    assert_eq!(s.wait_deliver(1000, no_answer(1000)), MyResult::Error(Error::Timeout));
    assert_eq!(s.current_state(), State::Ready);
    assert_eq!(s.current_seq(), 0);
    assert!(s.sent_log().is_empty());
    assert_eq!(s.send(42, OK), MyResult::Value(()));
    assert_eq!(
        s.wait_deliver(2000, Awaited::Read { buffer: [0, 0], read: Transfer::WouldBlock, elapsed: 5 }),
        MyResult::Error(Error::Timeout)
    );
    assert_eq!(s.current_seq(), 0);
}

#[test]
fn a_stale_acknowledgement_leaves_the_rest_of_the_time() {
    let mut s = new(session(), 0);
    assert_eq!(s.send(1, OK), MyResult::Value(()));
    assert_eq!(s.wait_deliver(1000, ack(0, 1)), MyResult::Value(Waited::Delivered));
    assert_eq!(s.send(2, OK), MyResult::Value(()));
    assert_eq!(
        s.wait_deliver(1000, ack(0, 400)),
        MyResult::Value(Waited::StillPending { remaining: 600 })
    );
    assert_eq!(s.current_state(), State::Pending);
    assert_eq!(s.current_seq(), 1);
    assert_eq!(
        s.wait_deliver(600, ack(0, 599)),
        MyResult::Value(Waited::StillPending { remaining: 1 })
    );
    assert_eq!(s.wait_deliver(1, ack(0, 1)), MyResult::Error(Error::Timeout));
    assert_eq!(s.current_state(), State::Ready);
    assert_eq!(s.current_seq(), 1);
    assert_eq!(s.send(2, OK), MyResult::Value(()));
    assert_eq!(s.wait_deliver(1000, ack(0, 2000)), MyResult::Error(Error::Timeout));
    assert_eq!(to_vec(s.sent_log()), vec![0]);
}

#[test]
fn a_broken_session_crashes_the_sender_and_recover_keeps_the_sequence_number() {
    let mut s = new(session(), 0);
    for seq in 0..7u8 {
        assert_eq!(s.send(1, OK), MyResult::Value(()));
        assert_eq!(s.wait_deliver(1000, ack(seq, 1)), MyResult::Value(Waited::Delivered));
    }
    assert_eq!(s.send(100, OK), MyResult::Value(()));
    assert_eq!(
        s.wait_deliver(1000, Awaited::Read { buffer: [0, 0], read: Transfer::Failed, elapsed: 3 }),
        MyResult::Error(Error::Fatal)
    );
    assert_eq!(s.current_state(), State::Crashed);
    assert_eq!(s.current_seq(), 7);
    s.recover(session());
    assert_eq!(s.current_state(), State::Ready);
    assert_eq!(s.current_seq(), 7);
    assert_eq!(s.packet(100), Packet { seq: 7, data: 100 });
    assert_eq!(to_vec(s.sent_log()), vec![6, 5, 4, 3, 2, 1, 0]);
    assert_eq!(s.send(100, Transfer::Moved(1)), MyResult::Error(Error::Fatal));
    assert_eq!(s.current_state(), State::Crashed);
    s.recover(session());
    assert_eq!(s.send(100, OK), MyResult::Value(()));
    assert_eq!(s.wait_deliver(1000, Awaited::NoDeadline), MyResult::Error(Error::Fatal));
    assert_eq!(s.current_state(), State::Crashed);
    assert_eq!(s.current_seq(), 7);
    s.recover(session());
    assert_eq!(
        s.send(100, OK),
        MyResult::Value(())
    );
    assert_eq!(
        s.wait_deliver(1000, Awaited::Read { buffer: [7, 0], read: Transfer::Moved(1), elapsed: 3 }),
        MyResult::Error(Error::Fatal)
    );
}

#[test]
fn the_sender_sequence_number_wraps() {
    let mut s = new(session(), 0);
    for i in 0..256usize {
        let seq = i as u8;
        assert_eq!(s.current_seq(), seq);
        assert_eq!(s.send(1, OK), MyResult::Value(()));
        assert_eq!(s.wait_deliver(1000, ack(seq, 1)), MyResult::Value(Waited::Delivered));
    }
    assert_eq!(s.current_seq(), 0);
    assert_eq!(*s.sent_log().lookup(0), 255);
    assert_eq!(s.sent_log().len(), 256);
}

#[test]
fn sender_error_messages() {
    assert_eq!(SenderError::SendError { data: 7 }.to_string(), "Failed to send data: 7");
    assert_eq!(SenderError::SendError { data: 255 }.to_string(), "Failed to send data: 255");
    assert_eq!(SenderError::SocketError.to_string(), "Failed to connect");
    assert_eq!(SenderError::NoResponse.to_string(), "No response");
    assert_eq!(SenderError::IllegalState.to_string(), "Illegal state");
    assert_eq!(SenderError::BadTimeoutInput.to_string(), "BadTimeoutInput");
    assert_eq!(SenderError::SendError { data: 7 }.kind(), ErrorKind::SendError);
    assert_eq!(SenderError::NoResponse.kind(), ErrorKind::NoResponse);
    let e = perfect_link::sender::state::Error::new(ErrorKind::NoResponse, Some(Packet::new(1, 2)));
    assert_eq!(e.kind(), ErrorKind::NoResponse);
    assert_eq!(e.pkt(), Some(Packet { seq: 1, data: 2 }));
}

#[test]
fn connect_by_type() {
    assert!(matches!(connect(false), MyResult::Error(SenderError::SocketError)));
    let ready = connect(true).unwrap();
    assert_eq!(ready.current_seq(), 0);
    assert!(ready.socket().sent.is_empty());
    let ready = reconnect(7, true).unwrap();
    assert_eq!(ready.current_seq(), 7);
    assert!(matches!(reconnect(7, false), MyResult::Error(SenderError::SocketError)));
    let link = Connect::new("localhost:8080".to_string());
    assert_eq!(link.current_seq(), 0);
    assert_eq!(link.remote_addr(), "localhost:8080");
    let link = Connect::resume("localhost:8080".to_string(), 9);
    assert_eq!(link.connect(true).unwrap().current_seq(), 9);
    assert!(matches!(link.connect(false), MyResult::Error(SenderError::SocketError)));
}

#[test]
fn send_and_wait_by_type() {
    let ready = connect(true).unwrap();
    assert_eq!(ready.packet(1), Packet { seq: 0, data: 1 });
    let pending = ready.send(1, OK).unwrap();
    assert_eq!(pending.current_seq(), 0);
    assert_eq!(pending.payload(), 1);
    assert_eq!(to_vec(&pending.socket().sent), vec![0]);
    let ready = match pending.wait_deliver(10_000, ack(0, 5)).unwrap() {
        Settled::Delivered(ready) => ready,
        _ => panic!("the acknowledgement came"),
    };
    assert_eq!(ready.current_seq(), 1);
    let pending = ready.send(2, OK).unwrap();
    let (pending, rest) = match pending.wait_deliver(1000, ack(0, 250)).unwrap() {
        Settled::StillPending(pending, rest) => (pending, rest),
        _ => panic!("a stale acknowledgement came"),
    };
    assert_eq!(rest, 750);
    assert_eq!(pending.current_seq(), 1);
    assert_eq!(pending.payload(), 2);
    let ready = match pending.wait_deliver(rest, no_answer(750)).unwrap() {
        Settled::TimedOut(ready) => ready,
        _ => panic!("nothing came"),
    };
    assert_eq!(ready.current_seq(), 1);
    let pending = ReadyTrait::send(ready, 2, OK).unwrap();
    let ready = match pending.wait_deliver(0, ack(1, 0)).unwrap() {
        Settled::TimedOut(ready) => ready,
        _ => panic!("a wait of no time is over at once"),
    };
    assert_eq!(ready.current_seq(), 1);
    assert!(ready.socket().received.is_empty() || *ready.socket().received.lookup(0) == 0);
}

#[test]
fn sender_failures_by_type() {
    let ready = connect(true).unwrap();
    assert!(matches!(
        ready.send(9, Transfer::Moved(1)),
        MyResult::Error(SenderError::SendError { data: 9 })
    ));
    let ready = connect(true).unwrap();
    assert!(matches!(
        ready.send(9, Transfer::Failed),
        MyResult::Error(SenderError::SendError { data: 9 })
    ));
    let pending = connect(true).unwrap().send(9, OK).unwrap();
    assert!(matches!(
        pending.wait_deliver(1000, Awaited::NoDeadline),
        MyResult::Error(SenderError::BadTimeoutInput)
    ));
    let pending = connect(true).unwrap().send(9, OK).unwrap();
    assert!(matches!(
        pending.wait_deliver(
            1000,
            Awaited::Read { buffer: [0, 0], read: Transfer::Failed, elapsed: 1 }
        ),
        MyResult::Error(SenderError::NoResponse)
    ));
    let pending = connect(true).unwrap().send(9, OK).unwrap();
    assert!(matches!(
        pending.wait_deliver(
            1000,
            Awaited::Read { buffer: [0, 0], read: Transfer::Moved(1), elapsed: 1 }
        ),
        MyResult::Error(SenderError::NoResponse)
    ));
    let pending = connect(true).unwrap().send(9, OK).unwrap();
    assert!(matches!(
        pending.wait_deliver(1000, ack(3, 1000)),
        MyResult::Value(Settled::TimedOut(_))
    ));
}

#[test]
fn doubling_saturates() {
    assert_eq!(double(0), 0);
    assert_eq!(double(1000), 2000);
    assert_eq!(double(u64::MAX / 2), u64::MAX - 1);
    assert_eq!(double(u64::MAX / 2 + 1), u64::MAX);
    assert_eq!(double(u64::MAX), u64::MAX);
    assert_eq!(ACK_TIMEOUT, 1000);
    assert_eq!(INITIAL_WAIT_TIME_RECONNECT, 10_000);
}

fn connected_sender() -> Sender {
    let (s, a) = init("localhost:8080".to_string()).send(1);
    assert_eq!(a, Action::Connect);
    let (s, a) = s.step(Event::Connected(true));
    assert_eq!(a, Action::Write(Packet { seq: 0, data: 1 }));
    let (s, a) = s.step(Event::Written(OK));
    assert_eq!(a, Action::Await(1000));
    let (s, a) = s.step(Event::Awaited(ack(0, 1)));
    assert_eq!(a, Action::Done);
    s
}

#[test]
fn a_new_sender_is_idle_and_not_connected() {
    let s = init("localhost:8080".to_string());
    assert!(!s.is_connected());
    assert_eq!(s.phase(), Phase::Idle);
    assert_eq!(s.current_seq(), 0);
    assert!(s.sent_log().is_empty());
    assert_eq!(s.remote_addr(), "localhost:8080");
}

#[test]
fn the_first_send_connects_with_doubling_pauses() {
    let (s, a) = init("localhost:8080".to_string()).send(10);
    assert_eq!(a, Action::Connect);
    assert_eq!(s.phase(), Phase::Connecting { data: 10, wait: 10_000 });
    let (s, a) = s.step(Event::Connected(false));
    assert_eq!(a, Action::Sleep(10_000));
    let (s, a) = s.step(Event::Slept);
    assert_eq!(a, Action::Connect);
    let (s, a) = s.step(Event::Connected(false));
    assert_eq!(a, Action::Sleep(20_000));
    let (s, a) = s.step(Event::Slept);
    assert_eq!(a, Action::Connect);
    let (s, a) = s.step(Event::Connected(false));
    assert_eq!(a, Action::Sleep(40_000));
    let (s, a) = s.step(Event::Slept);
    assert_eq!(a, Action::Connect);
    assert!(!s.is_connected());
    let (s, a) = s.step(Event::Connected(true));
    assert_eq!(a, Action::Write(Packet { seq: 0, data: 10 }));
    assert!(s.is_connected());
    assert_eq!(s.phase(), Phase::Writing { data: 10, timeout: 1000 });
}

#[test]
fn a_connected_sender_writes_at_once() {
    let s = connected_sender();
    assert!(s.is_connected());
    assert_eq!(s.current_seq(), 1);
    let (s, a) = s.send(20);
    assert_eq!(a, Action::Write(Packet { seq: 1, data: 20 }));
    let (s, a) = s.step(Event::Written(OK));
    assert_eq!(a, Action::Await(1000));
    assert_eq!(s.phase(), Phase::Waiting { data: 20, timeout: 1000, remaining: 1000 });
    let (s, a) = s.step(Event::Awaited(ack(1, 10)));
    assert_eq!(a, Action::Done);
    assert_eq!(s.phase(), Phase::Idle);
    assert_eq!(s.current_seq(), 2);
    assert_eq!(to_vec(s.sent_log()), vec![1, 0]);
}

#[test]
fn each_timeout_doubles_the_wait_and_keeps_the_packet() {
    let (mut s, mut a) = connected_sender().send(42);
    let mut timeout = 1000;
    for _ in 0..5 {
        assert_eq!(a, Action::Write(Packet { seq: 1, data: 42 }));
        let next = s.step(Event::Written(OK));
        s = next.0;
        assert_eq!(next.1, Action::Await(timeout));
        let next = s.step(Event::Awaited(no_answer(timeout)));
        s = next.0;
        a = next.1;
        timeout *= 2;
        assert_eq!(s.current_seq(), 1);
    }
    assert_eq!(a, Action::Write(Packet { seq: 1, data: 42 }));
    assert_eq!(s.phase(), Phase::Writing { data: 42, timeout: 32_000 });
    let (s, a) = s.step(Event::Written(OK));
    assert_eq!(a, Action::Await(32_000));
    let (s, a) = s.step(Event::Awaited(ack(1, 7)));
    assert_eq!(a, Action::Done);
    assert_eq!(s.current_seq(), 2);
}

#[test]
fn stale_acknowledgements_use_up_the_wait() {
    let (s, _) = connected_sender().send(42);
    let (s, a) = s.step(Event::Written(OK));
    assert_eq!(a, Action::Await(1000));
    let (s, a) = s.step(Event::Awaited(ack(0, 300)));
    assert_eq!(a, Action::Await(700));
    assert_eq!(s.phase(), Phase::Waiting { data: 42, timeout: 1000, remaining: 700 });
    let (s, a) = s.step(Event::Awaited(ack(0, 699)));
    assert_eq!(a, Action::Await(1));
    let (s, a) = s.step(Event::Awaited(ack(0, 5)));
    assert_eq!(a, Action::Write(Packet { seq: 1, data: 42 }));
    assert_eq!(s.phase(), Phase::Writing { data: 42, timeout: 2000 });
}

#[test]
fn a_broken_session_reconnects_and_starts_over_with_the_first_timeout() {
    let (s, _) = connected_sender().send(100);
    let (s, _) = s.step(Event::Written(OK));
    let (s, a) = s.step(Event::Awaited(no_answer(1000)));
    assert_eq!(a, Action::Write(Packet { seq: 1, data: 100 }));
    let (s, a) = s.step(Event::Written(OK));
    assert_eq!(a, Action::Await(2000));
    let (s, a) = s.step(Event::Awaited(Awaited::Read {
        buffer: [0, 0],
        read: Transfer::Failed,
        elapsed: 12,
    }));
    assert_eq!(a, Action::Connect);
    assert!(!s.is_connected());
    assert_eq!(s.phase(), Phase::Connecting { data: 100, wait: 10_000 });
    assert_eq!(s.current_seq(), 1);
    let (s, a) = s.step(Event::Connected(false));
    assert_eq!(a, Action::Sleep(10_000));
    let (s, a) = s.step(Event::Slept);
    assert_eq!(a, Action::Connect);
    let (s, a) = s.step(Event::Connected(true));
    assert_eq!(a, Action::Write(Packet { seq: 1, data: 100 }));
    let (s, a) = s.step(Event::Written(Transfer::Moved(1)));
    assert_eq!(a, Action::Connect);
    assert!(!s.is_connected());
    let (s, a) = s.step(Event::Connected(true));
    assert_eq!(a, Action::Write(Packet { seq: 1, data: 100 }));
    let (s, a) = s.step(Event::Written(OK));
    assert_eq!(a, Action::Await(1000));
    let (s, a) = s.step(Event::Awaited(Awaited::NoDeadline));
    assert_eq!(a, Action::Connect);
    let (s, a) = s.step(Event::Connected(true));
    assert_eq!(a, Action::Write(Packet { seq: 1, data: 100 }));
    let (s, _) = s.step(Event::Written(OK));
    let (s, a) = s.step(Event::Awaited(ack(1, 1)));
    assert_eq!(a, Action::Done);
    assert_eq!(s.current_seq(), 2);
    assert_eq!(to_vec(s.sent_log()), vec![1, 0]);
}
