//! Std mpsc channel as service channel: a non blocking receive, and a send that fails when the
//! receiver is gone.
use vstd::prelude::*;

use crate::error::{Error, ErrorKind, Result, TryRecvFailure};
use crate::{SpawnChannel, SpawnRecv, SpawnSend};

use std::sync::mpsc::{Receiver as MpscReceiver, Sender as MpscSender, TryRecvError};

verus! {

#[verifier::external_type_specification]
#[verifier::external_body]
#[verifier::reject_recursive_types(T)]
pub struct ExMpscSender<T>(MpscSender<T>);

#[verifier::external_type_specification]
#[verifier::external_body]
#[verifier::reject_recursive_types(T)]
pub struct ExMpscReceiver<T>(MpscReceiver<T>);

/// Calls `std::sync::mpsc::channel`: a new channel, its sender and its receiver. Nothing is
/// claimed of them: what they carry depends on how they are used.
#[verifier::external_body]
fn mpsc_channel<C>() -> (MpscSender<C>, MpscReceiver<C>) {
    std::sync::mpsc::channel()
}

/// Calls `Receiver::try_recv`, telling its two failures apart. Nothing is claimed of the
/// result: it depends on what the senders, on any thread, have sent.
#[verifier::external_body]
fn mpsc_try_recv<C>(r: &MpscReceiver<C>) -> core::result::Result<C, TryRecvFailure> {
    match r.try_recv() {
        Ok(c) => Ok(c),
        Err(TryRecvError::Empty) => Err(TryRecvFailure::Empty),
        Err(TryRecvError::Disconnected) => Err(TryRecvFailure::Disconnected),
    }
}

/// Calls `Sender::send`; a failure is given as the description of the send error. Nothing is
/// claimed of the result: it depends on whether the receiver, on any thread, is still there.
#[verifier::external_body]
fn mpsc_send<C>(s: &MpscSender<C>, c: C) -> core::result::Result<(), String> {
    match s.send(c) {
        Ok(()) => Ok(()),
        Err(e) => Err(e.to_string()),
    }
}

/// Calls `Sender::clone`: another sender on the same channel. Nothing is claimed of it: std
/// documents a distinct sender, counted on its own.
#[verifier::external_body]
fn mpsc_sender_clone<C>(s: &MpscSender<C>) -> MpscSender<C> {
    s.clone()
}

/// What a receive gives for what the channel poll gave: a command, nothing when the channel is
/// empty, and an error when every sender is gone.
pub fn try_recv_outcome<C>(res: core::result::Result<C, TryRecvFailure>) -> (r: Result<Option<C>>)
    ensures
        res matches Ok(c) ==> r == Ok::<Option<C>, Error>(Some(c)),
        res == Err::<C, TryRecvFailure>(TryRecvFailure::Empty) ==> r == Ok::<Option<C>, Error>(None),
        res == Err::<C, TryRecvFailure>(TryRecvFailure::Disconnected) ==> (r matches Err(e)
            && e.kind == ErrorKind::ChannelTryRecv(TryRecvFailure::Disconnected)),
        r matches Err(e) ==> e.kind == ErrorKind::ChannelTryRecv(TryRecvFailure::Disconnected),
{
    match res {
        Ok(t) => Ok(Some(t)),
        Err(e) => {
            if let TryRecvFailure::Empty = e {
                Ok(None)
            } else {
                Err(Error::from_try_recv(e))
            }
        },
    }
}

/// What a send gives for what the channel send gave: a failure becomes a channel send error
/// with the failure's description.
pub fn send_outcome(res: core::result::Result<(), String>) -> (r: Result<()>)
    ensures
        res is Ok ==> r is Ok,
        res matches Err(d) ==> (r matches Err(e) && e.kind == ErrorKind::ChannelSend(d)),
{
    match res {
        Ok(()) => Ok(()),
        Err(d) => Err(Error::from_send_failure(d)),
    }
}

impl<C> SpawnRecv<C> for MpscReceiver<C> {
    /// A receive fails only when every sender is gone.
    open spec fn recv_ensures(&self, r: Result<Option<C>>) -> bool {
        r matches Err(e) ==> e.kind == ErrorKind::ChannelTryRecv(TryRecvFailure::Disconnected)
    }

    fn recv(&mut self) -> (r: Result<Option<C>>)
        ensures
            r matches Err(e) ==> e.kind == ErrorKind::ChannelTryRecv(TryRecvFailure::Disconnected),
    {
        try_recv_outcome(mpsc_try_recv(self))
    }
}

impl<C> SpawnSend<C> for MpscSender<C> {
    const CAN_SEND: bool = true;

    /// A send fails only as a channel send error.
    open spec fn send_ensures(&self, c: C, r: Result<()>) -> bool {
        r matches Err(e) ==> e.kind is ChannelSend
    }

    fn send(&mut self, t: C) -> (r: Result<()>)
        ensures
            r matches Err(e) ==> e.kind is ChannelSend,
    {
        send_outcome(mpsc_send(self, t))
    }
}

/// Mpsc channel as service send/recv.
pub struct MpscChannel;

impl<C: Send> SpawnChannel<C> for MpscChannel {
    type WeakSend = MpscSender<C>;
    type Send = MpscSender<C>;
    type Recv = MpscReceiver<C>;

    /// Building never fails.
    open spec fn new_ensures(&self, r: Result<(MpscSender<C>, MpscReceiver<C>)>) -> bool {
        r is Ok
    }

    fn new(&mut self) -> Result<(MpscSender<C>, MpscReceiver<C>)> {
        Ok(mpsc_channel())
    }

    /// There always is a weak send: a clone of the sender.
    open spec fn weak_send_ensures(s: &MpscSender<C>, r: Option<MpscSender<C>>) -> bool {
        r is Some
    }

    /// There always is a weak send: a clone of the sender.
    fn get_weak_send(s: &MpscSender<C>) -> (r: Option<MpscSender<C>>)
        ensures
            r is Some,
    {
        Some(mpsc_sender_clone(s))
    }
}

/// An mpsc sender can always send (a send may still fail at run time).
pub proof fn lemma_mpsc_send_can_send<C>()
    ensures
        <MpscSender<C> as SpawnSend<C>>::CAN_SEND,
{
}

} // verus!
