use service_pre::channels::mio_channel::MioChannel;
use service_pre::channels::mpsc::MpscChannel;
use service_pre::eventloop::mio_poll::{poll_outcome, trigger_readiness, MioEvents, MioPoll};
use service_pre::error::ErrorKind;
use service_pre::eventloop::{Event, Events, Poll, Ready, TriggerReady};
use service_pre::{SpawnChannel, SpawnRecv, SpawnSend};
use std::time::Duration;

#[test]
fn new_events_are_empty() {
    let mut ev = <MioEvents as Events>::with_capacity(16);
    assert_eq!(ev.1, 0);
    assert_eq!(ev.next_event(), None);
}

#[test]
fn send_on_mio_channel_makes_its_receiver_readable() {
    let poll = MioPoll::new().unwrap();
    let mut ch = MioChannel(MpscChannel);
    let (mut s, mut r) = SpawnChannel::<u8>::new(&mut ch).unwrap();
    poll.0.register(&r.reg, mio::Token(3), mio::Ready::readable(), mio::PollOpt::edge()).unwrap();
    let mut events = <MioEvents as Events>::with_capacity(16);
    let n = poll.poll(&mut events, Some(Duration::from_millis(10))).unwrap();
    assert_eq!(n, 0);
    assert_eq!(events.next_event(), None);
    s.send(5).unwrap();
    let n = poll.poll(&mut events, Some(Duration::from_millis(1000))).unwrap();
    assert_eq!(n, 1);
    assert_eq!(events.next_event(), Some(Event { kind: Ready::Readable, token: 3 }));
    assert_eq!(events.next_event(), None);
    assert_eq!(r.recv().unwrap(), Some(5));
    let w = <MioChannel<MpscChannel> as SpawnChannel<u8>>::get_weak_send(&s);
    assert!(w.is_some());
}

#[test]
fn writable_trigger() {
    let poll = MioPoll::new().unwrap();
    let (reg, set) = mio::Registration::new2();
    poll.0.register(&reg, mio::Token(9), mio::Ready::writable(), mio::PollOpt::edge()).unwrap();
    trigger_readiness(&set, Ready::Writable).unwrap();
    let mut events = <MioEvents as Events>::with_capacity(4);
    poll.poll(&mut events, Some(Duration::from_millis(1000))).unwrap();
    assert_eq!(events.next_event(), Some(Event { kind: Ready::Writable, token: 9 }));
    TriggerReady::set_readiness(&set, Ready::Readable).unwrap();
}


#[test]
fn poll_outcome_hands_on_the_count_and_restarts_reading() {
    let mut pos = 5usize;
    assert_eq!(poll_outcome(Ok(3), &mut pos).unwrap(), 3);
    assert_eq!(pos, 0);
}

#[test]
fn poll_outcome_keeps_the_position_on_failure() {
    let mut pos = 5usize;
    let e = poll_outcome(Err(std::io::Error::new(std::io::ErrorKind::WouldBlock, "later")), &mut pos).unwrap_err();
    assert!(matches!(e.kind, ErrorKind::Yield));
    assert_eq!(pos, 5);
    let e = poll_outcome(Err(std::io::Error::new(std::io::ErrorKind::Interrupted, "sig")), &mut pos).unwrap_err();
    assert!(matches!(e.kind, ErrorKind::Io(ref x) if x.kind() == std::io::ErrorKind::Interrupted));
    assert_eq!(pos, 5);
}
