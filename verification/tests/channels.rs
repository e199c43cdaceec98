use service_pre::channels::default::{DefaultRecv, DefaultRecvChannel};
use service_pre::channels::mpsc::{send_outcome, try_recv_outcome, MpscChannel};
use service_pre::channels::rc::{LocalRc, LocalRcChannel};
use service_pre::channels::void::{NoChannel, NoRecv, NoSend};
use service_pre::channels::{send_with_handle, HandleSend, SpawnSendWithHandle};
use service_pre::error::{ErrorKind, ErrorLevel, TryRecvFailure};
use service_pre::spawn::void::NoHandle;
use service_pre::{SpawnChannel, SpawnRecv, SpawnSend};
use std::collections::VecDeque;
use std::sync::mpsc::{Receiver, Sender};

#[test]
fn no_recv_gives_nothing() {
    let mut r = NoRecv;
    assert_eq!(SpawnRecv::<u8>::recv(&mut r).unwrap(), None);
    assert_eq!(NoRecv::nothing::<u8>().unwrap(), None);
}

#[test]
fn no_send_is_a_bug() {
    let mut s = NoSend;
    assert!(!<NoSend as SpawnSend<u8>>::CAN_SEND);
    let e = s.send(1u8).unwrap_err();
    assert_eq!(e.level(), ErrorLevel::Panic);
    match e.kind {
        ErrorKind::Bug(m) => assert_eq!(m, "Spawner does not support send"),
        _ => panic!("expected a bug"),
    }
}

#[test]
fn no_channel_has_no_weak_send() {
    let (s, _r) = SpawnChannel::<u8>::new(&mut NoChannel).unwrap();
    assert!(<NoChannel as SpawnChannel<u8>>::get_weak_send(&s).is_none());
}

#[test]
fn vecdeque_send_pushes_at_front() {
    let mut q: VecDeque<u8> = VecDeque::new();
    {
        let mut s = &mut q;
        s.send(1).unwrap();
        s.send(2).unwrap();
    }
    assert_eq!(q, VecDeque::from(vec![2, 1]));
}

#[test]
fn send_with_handle_gives_back_when_cannot_send() {
    let mut s = NoSend;
    let mut h = NoHandle;
    assert_eq!(send_with_handle(&mut s, &mut h, 5u8).unwrap(), Some(5));
}

#[test]
fn send_with_handle_sends_to_a_running_service() {
    let mut q: VecDeque<u8> = VecDeque::new();
    {
        let mut s = &mut q;
        let mut h = NoHandle;
        assert_eq!(send_with_handle(&mut s, &mut h, 5u8).unwrap(), None);
    }
    assert_eq!(q, VecDeque::from(vec![5]));
}

#[test]
fn handle_send_sends_and_unyields() {
    let mut q: VecDeque<u8> = VecDeque::new();
    {
        let mut hs = HandleSend(&mut q, NoHandle);
        hs.send(1).unwrap();
        assert_eq!(hs.send_with_handle(2).unwrap(), None);
    }
    assert_eq!(q, VecDeque::from(vec![2, 1]));
    let mut hs = HandleSend(NoSend, NoHandle);
    assert_eq!(hs.send_with_handle(3u8).unwrap(), Some(3));
}

#[test]
fn default_recv_gives_default_when_empty() {
    let mut r = DefaultRecv(NoRecv, 9u8);
    assert_eq!(r.recv().unwrap(), Some(9));
    assert_eq!(r.recv().unwrap(), Some(9));
}

#[test]
fn default_recv_gives_what_arrived_first() {
    let mut ch = DefaultRecvChannel(LocalRcChannel, 9u8);
    let (mut s, mut r) = ch.new().unwrap();
    s.send(1).unwrap();
    assert_eq!(r.recv().unwrap(), Some(1));
    assert_eq!(r.recv().unwrap(), Some(9));
}

#[test]
fn local_rc_channel_is_fifo() {
    let (mut s, mut r): (LocalRc<u8>, LocalRc<u8>) = LocalRcChannel.new().unwrap();
    assert!(<LocalRcChannel as SpawnChannel<u8>>::get_weak_send(&s).is_none());
    s.send(1).unwrap();
    s.send(2).unwrap();
    s.send(3).unwrap();
    assert_eq!(r.recv().unwrap(), Some(1));
    assert_eq!(r.recv().unwrap(), Some(2));
    assert_eq!(r.recv().unwrap(), Some(3));
    assert_eq!(r.recv().unwrap(), None);
}

#[test]
fn mpsc_channel_round_trip() {
    let (mut s, mut r): (Sender<u8>, Receiver<u8>) = MpscChannel.new().unwrap();
    assert_eq!(SpawnRecv::recv(&mut r).unwrap(), None);
    let mut w = <MpscChannel as SpawnChannel<u8>>::get_weak_send(&s).unwrap();
    SpawnSend::send(&mut s, 1).unwrap();
    SpawnSend::send(&mut w, 2).unwrap();
    assert_eq!(SpawnRecv::recv(&mut r).unwrap(), Some(1));
    assert_eq!(SpawnRecv::recv(&mut r).unwrap(), Some(2));
}

#[test]
fn mpsc_disconnected_receiver_fails() {
    let (s, mut r): (Sender<u8>, Receiver<u8>) = MpscChannel.new().unwrap();
    drop(s);
    let e = SpawnRecv::recv(&mut r).unwrap_err();
    assert!(matches!(e.kind, ErrorKind::ChannelTryRecv(TryRecvFailure::Disconnected)));
}

#[test]
fn mpsc_send_to_dropped_receiver_fails() {
    let (mut s, r): (Sender<u8>, Receiver<u8>) = MpscChannel.new().unwrap();
    drop(r);
    let e = SpawnSend::send(&mut s, 1).unwrap_err();
    match e.kind {
        ErrorKind::ChannelSend(d) => assert_eq!(d, "sending on a closed channel"),
        _ => panic!("expected a send error"),
    }
}

#[test]
fn outcomes_of_channel_polls_and_sends() {
    assert_eq!(try_recv_outcome::<u8>(Ok(4)).unwrap(), Some(4));
    assert_eq!(try_recv_outcome::<u8>(Err(TryRecvFailure::Empty)).unwrap(), None);
    assert!(try_recv_outcome::<u8>(Err(TryRecvFailure::Disconnected)).is_err());
    assert!(send_outcome(Ok(())).is_ok());
    assert!(matches!(send_outcome(Err("x".to_string())).unwrap_err().kind, ErrorKind::ChannelSend(_)));
}

#[test]
fn local_rc_borrowed_elsewhere_is_a_bug() {
    let (mut s, mut r): (LocalRc<u8>, LocalRc<u8>) = LocalRcChannel.new().unwrap();
    let held = s.clone();
    let guard = held.borrow();
    let e = s.send(1).unwrap_err();
    assert!(matches!(e.kind, ErrorKind::Bug(ref m) if m == "local queue already borrowed"));
    assert_eq!(e.level(), ErrorLevel::Panic);
    assert!(r.recv().is_err());
    drop(guard);
    s.send(2).unwrap();
    assert_eq!(r.recv().unwrap(), Some(2));
}
