//! A channel that carries nothing.
use vstd::prelude::*;

use crate::error::{ErrorKind, ErrorLevel, Result};
use crate::{SpawnChannel, SpawnRecv, SpawnSend};

verus! {

#[derive(Clone, Debug)]
pub struct NoChannel;

/// A receiver on which nothing ever arrives.
#[derive(Clone, Debug)]
pub struct NoRecv;

/// A sender that cannot send.
#[derive(Clone, Debug)]
pub struct NoSend;

impl<Command> SpawnChannel<Command> for NoChannel {
    type WeakSend = NoSend;
    type Send = NoSend;
    type Recv = NoRecv;

    /// Building never fails.
    open spec fn new_ensures(&self, r: Result<(NoSend, NoRecv)>) -> bool {
        r is Ok
    }

    /// There is no weak send.
    open spec fn weak_send_ensures(s: &NoSend, r: Option<NoSend>) -> bool {
        r is None
    }

    fn new(&mut self) -> Result<(NoSend, NoRecv)> {
        Ok((NoSend, NoRecv))
    }

    fn get_weak_send(s: &NoSend) -> Option<NoSend> {
        None
    }
}

impl NoRecv {
    /// What the receiver gives: nothing, ever.
    pub fn nothing<C>() -> (r: Result<Option<C>>)
        ensures
            r == Ok::<Option<C>, crate::error::Error>(None),
    {
        Ok(None)
    }
}

impl<Command> SpawnRecv<Command> for NoRecv {
    /// Nothing is ever received.
    open spec fn recv_ensures(&self, r: Result<Option<Command>>) -> bool {
        r == Ok::<Option<Command>, crate::error::Error>(None)
    }

    #[inline]
    fn recv(&mut self) -> Result<Option<Command>> {
        NoRecv::nothing()
    }
}

impl<C> SpawnSend<C> for NoSend {
    const CAN_SEND: bool = false;

    /// Sending is a bug.
    open spec fn send_ensures(&self, c: C, r: Result<()>) -> bool {
        r matches Err(e) && (e.kind matches ErrorKind::Bug(msg) && msg@ == "Spawner does not support send"@)
    }

    /// Sending is a bug: callers test `CAN_SEND` first.
    #[inline]
    fn send(&mut self, c: C) -> (r: Result<()>)
        ensures
            r matches Err(e) && (e.kind matches ErrorKind::Bug(msg)
                && msg@ == "Spawner does not support send"@),
            r matches Err(e) && e.spec_level() == ErrorLevel::Panic,
    {
        Err(ErrorKind::Bug("Spawner does not support send".to_string()).into_error())
    }
}

/// `NoSend` cannot send: a caller that tests `CAN_SEND` never calls its `send`.
pub proof fn lemma_no_send_cannot_send<C>()
    ensures
        !<NoSend as SpawnSend<C>>::CAN_SEND,
{
}

} // verus!
